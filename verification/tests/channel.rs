//! Channels: process startup, reading with the SCP ceiling, drop safety.

use ssh2::error::{ErrorCode, ERROR_EAGAIN, ERROR_SCP_PROTOCOL};
use ssh2::session::Session;
use ssh2::ExtendedData;

fn authed_session() -> (ssh2::session::SessionCell, Session) {
    let (mut cell, mut sess) = Session::new();
    sess.set_tcp_stream(&mut cell, 4);
    sess.handshake(&mut cell).unwrap();
    sess.userauth_password(&mut cell, "user", "pw").unwrap();
    (cell, sess)
}

#[test]
fn exec_scenario_end_to_end() {
    // open -> handshake fails unattached -> attach -> handshake -> open
    // channel -> exec -> wait_eof -> exit status 0
    let (mut cell, mut sess) = Session::new();
    assert!(sess.handshake(&mut cell).is_err());
    sess.set_tcp_stream(&mut cell, 9);
    sess.handshake(&mut cell).unwrap();
    sess.userauth_password(&mut cell, "user", "pw").unwrap();
    let mut channel = sess.channel_session(&mut cell).unwrap();
    channel.exec(&mut cell, "true").unwrap();
    channel.wait_eof(&mut cell).unwrap();
    assert!(channel.eof(&cell));
    assert_eq!(channel.exit_status(&cell).unwrap(), 0);
    channel.close(&mut cell).unwrap();
    channel.wait_close(&mut cell).unwrap();
    channel.dispose(&mut cell);
    sess.dispose(&mut cell);
    assert!(!cell.engine_alive);
}

#[test]
fn exec_delivers_staged_output() {
    let (mut cell, sess) = authed_session();
    cell.engine.set_exec_result(b"hello from the remote".to_vec(), 0);
    let mut channel = sess.channel_session(&mut cell).unwrap();
    channel.exec(&mut cell, "echo hello").unwrap();
    let out = channel.read(&mut cell, 1024).unwrap();
    assert_eq!(out, b"hello from the remote".to_vec());
    let more = channel.read(&mut cell, 1024).unwrap();
    assert_eq!(more.len(), 0);
    channel.dispose(&mut cell);
    sess.dispose(&mut cell);
}

#[test]
fn exit_status_reflects_staged_status() {
    let (mut cell, sess) = authed_session();
    cell.engine.set_exec_result(Vec::new(), 3);
    let mut channel = sess.channel_session(&mut cell).unwrap();
    channel.exec(&mut cell, "false-ish").unwrap();
    assert_eq!(channel.exit_status(&cell).unwrap(), 3);
    channel.dispose(&mut cell);
    sess.dispose(&mut cell);
}

#[test]
fn scp_recv_ceiling_caps_the_stray_byte() {
    // The engine delivers one stray byte past the stated size; the read
    // ceiling derived from the stat keeps every read within it.
    let (mut cell, sess) = authed_session();
    cell.engine.stage_remote_file(b"/data/file.bin".to_vec(), b"0123456789".to_vec(), 0o100644, 5, 6);
    let (mut ch, stat) = sess.scp_recv(&mut cell, b"/data/file.bin").unwrap();
    assert_eq!(stat.size(), 10);
    // the engine really holds 11 bytes for this channel
    let chan_data_len = {
        let slot = &cell.engine.channels[0];
        slot.data.len()
    };
    assert_eq!(chan_data_len, 11);
    let a = ch.read(&mut cell, 4).unwrap();
    assert_eq!(a, b"0123".to_vec());
    let b = ch.read(&mut cell, 100).unwrap();
    assert_eq!(b, b"456789".to_vec());
    // ceiling exhausted: end of stream without reaching the engine
    let calls_before = cell.engine.read_calls;
    let c = ch.read(&mut cell, 100).unwrap();
    assert_eq!(c.len(), 0);
    assert_eq!(cell.engine.read_calls, calls_before);
    assert!(ch.eof(&cell));
    ch.dispose(&mut cell);
    sess.dispose(&mut cell);
}

#[test]
fn scp_recv_missing_file_is_an_error() {
    let (mut cell, sess) = authed_session();
    let err = sess.scp_recv(&mut cell, b"/nope").unwrap_err();
    assert_eq!(err.code(), ErrorCode::Session(ERROR_SCP_PROTOCOL));
    assert_eq!(cell.refs, 1);
    sess.dispose(&mut cell);
}

#[test]
fn scp_send_accepts_writes() {
    let (mut cell, sess) = authed_session();
    let mut ch = sess.scp_send(&mut cell, b"/up/t.txt", 0o644, 10, None).unwrap();
    assert_eq!(ch.write(&mut cell, b"1234567890").unwrap(), 10);
    ch.send_eof(&mut cell).unwrap();
    ch.wait_eof(&mut cell).unwrap();
    ch.close(&mut cell).unwrap();
    ch.wait_close(&mut cell).unwrap();
    ch.dispose(&mut cell);
    sess.dispose(&mut cell);
}

#[test]
fn drop_nonblocking_restores_mode_and_frees() {
    // Dropping while non-blocking with a would-block reply queued: cleanup
    // still completes because the drop path forces blocking mode, and the
    // prior mode is restored afterwards.
    let (mut cell, sess) = authed_session();
    let channel = sess.channel_session(&mut cell).unwrap();
    sess.set_blocking(&mut cell, false);
    cell.engine.script_wouldblock(1);
    channel.dispose(&mut cell);
    assert!(!sess.is_blocking(&cell));
    assert_eq!(cell.engine.wouldblock, 1);
    assert!(!cell.engine.channels[0].alive);
    sess.set_blocking(&mut cell, true);
    sess.dispose(&mut cell);
}

#[test]
fn nonblocking_read_reports_wouldblock() {
    let (mut cell, sess) = authed_session();
    cell.engine.set_exec_result(b"zzz".to_vec(), 0);
    let mut channel = sess.channel_session(&mut cell).unwrap();
    channel.exec(&mut cell, "slow").unwrap();
    sess.set_blocking(&mut cell, false);
    cell.engine.script_wouldblock(1);
    let err = channel.read(&mut cell, 10).unwrap_err();
    assert_eq!(err.code(), ErrorCode::Session(ERROR_EAGAIN));
    assert_eq!(
        sess.block_directions(&cell),
        ssh2::session::BlockDirections::Inbound
    );
    // retry after the readiness wait succeeds
    let out = channel.read(&mut cell, 10).unwrap();
    assert_eq!(out, b"zzz".to_vec());
    channel.dispose(&mut cell);
    sess.dispose(&mut cell);
}

#[test]
fn channel_keeps_engine_alive_after_session_drop() {
    let (mut cell, sess) = authed_session();
    let mut channel = sess.channel_session(&mut cell).unwrap();
    sess.dispose(&mut cell);
    assert!(cell.engine_alive);
    channel.exec(&mut cell, "still works").unwrap();
    channel.dispose(&mut cell);
    assert!(!cell.engine_alive);
}

#[test]
fn streams_share_the_channel_inner() {
    let (mut cell, sess) = authed_session();
    let channel = sess.channel_session(&mut cell).unwrap();
    let stream = channel.stream(&mut cell, 0);
    let stderr = channel.stderr(&mut cell);
    channel.dispose(&mut cell);
    // the inner survives while streams are alive
    assert!(cell.engine.channels[0].alive);
    stream.dispose(&mut cell);
    stderr.dispose(&mut cell);
    assert!(!cell.engine.channels[0].alive);
    sess.dispose(&mut cell);
}

#[test]
fn setenv_and_pty_requests() {
    let (mut cell, sess) = authed_session();
    let mut channel = sess.channel_session(&mut cell).unwrap();
    channel.setenv(&mut cell, "LANG", "C").unwrap();
    assert_eq!(cell.engine.channels[0].env.len(), 1);
    let mut modes = ssh2::PtyModes::new();
    modes.set_character(
        ssh2::ExtensiblePtyModeOpcode::Mode(ssh2::PtyModeOpcode::VINTR),
        Some(3 as char),
    );
    channel.request_pty(&mut cell, "xterm", Some(modes), None).unwrap();
    assert_eq!(cell.engine.channels[0].pty_term, Some(b"xterm".to_vec()));
    assert_eq!(cell.engine.channels[0].pty_modes, vec![1u8, 0, 0, 0, 3, 0]);
    assert_eq!(cell.engine.channels[0].pty_size, (80, 24, 0, 0));
    channel.request_pty_size(&mut cell, 100, 40, None, None).unwrap();
    assert_eq!(cell.engine.channels[0].pty_size, (100, 40, 0, 0));
    channel.request_auth_agent_forwarding(&mut cell).unwrap();
    channel.handle_extended_data(&mut cell, ExtendedData::Merge).unwrap();
    assert_eq!(cell.engine.channels[0].ext_mode, 1);
    channel.dispose(&mut cell);
    sess.dispose(&mut cell);
}

#[test]
fn window_reports_follow_reads() {
    let (mut cell, sess) = authed_session();
    cell.engine.set_exec_result(b"abcdef".to_vec(), 0);
    let mut channel = sess.channel_session(&mut cell).unwrap();
    channel.exec(&mut cell, "cat").unwrap();
    let w = channel.read_window(&cell);
    assert_eq!(w.available, 6);
    assert_eq!(w.window_size_initial, 2097152);
    let _ = channel.read(&mut cell, 2).unwrap();
    let w = channel.read_window(&cell);
    assert_eq!(w.available, 4);
    let ww = channel.write_window(&cell);
    assert_eq!(ww.window_size_initial, 2097152);
    let grown = channel.adjust_receive_window(&mut cell, 100, false).unwrap();
    assert_eq!(grown, 2097152 + 100);
    channel.dispose(&mut cell);
    sess.dispose(&mut cell);
}

#[test]
fn exit_signal_round_trip() {
    let (mut cell, sess) = authed_session();
    let channel = sess.channel_session(&mut cell).unwrap();
    cell.engine.set_channel_exit_signal(
        0,
        Some(String::from("TERM")),
        Some(String::from("killed")),
        None,
    );
    let sig = channel.exit_signal(&mut cell).unwrap();
    assert_eq!(sig.exit_signal.as_deref(), Some("TERM"));
    assert_eq!(sig.error_message.as_deref(), Some("killed"));
    assert!(sig.lang_tag.is_none());
    channel.dispose(&mut cell);
    sess.dispose(&mut cell);
}
