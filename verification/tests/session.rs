//! Session lifecycle, configuration and authentication.

use ssh2::error::{ErrorCode, ERROR_BAD_SOCKET, ERROR_AUTHENTICATION_FAILED};
use ssh2::session::{BlockDirections, KeyboardInteractivePrompt, Prompt, Session};

#[test]
fn session_defaults() {
    let (cell, sess) = Session::new();
    assert!(sess.is_blocking(&cell));
    assert_eq!(sess.timeout(&cell), 0);
    assert!(!sess.authenticated(&cell));
    assert_eq!(cell.refs, 1);
    assert!(cell.engine_alive);
}

#[test]
fn handshake_requires_transport() {
    let (mut cell, mut sess) = Session::new();
    let err = sess.handshake(&mut cell).unwrap_err();
    assert_eq!(err.code(), ErrorCode::Session(ERROR_BAD_SOCKET));
    assert_eq!(err.message(), "use set_tcp_stream() to associate with a TcpStream");
    sess.set_tcp_stream(&mut cell, 7);
    assert!(sess.handshake(&mut cell).is_ok());
    sess.dispose(&mut cell);
}

#[test]
fn password_auth_needs_handshake() {
    let (mut cell, sess) = Session::new();
    let err = sess.userauth_password(&mut cell, "user", "secret").unwrap_err();
    assert!(matches!(err.code(), ErrorCode::Session(_)));
    assert!(!sess.authenticated(&cell));
    sess.dispose(&mut cell);
}

#[test]
fn password_auth_succeeds_after_handshake() {
    let (mut cell, mut sess) = Session::new();
    sess.set_tcp_stream(&mut cell, 3);
    sess.handshake(&mut cell).unwrap();
    sess.userauth_password(&mut cell, "user", "secret").unwrap();
    assert!(sess.authenticated(&cell));
    sess.dispose(&mut cell);
}

#[test]
fn embedded_nul_is_refused_locally() {
    let (mut cell, mut sess) = Session::new();
    sess.set_tcp_stream(&mut cell, 3);
    sess.handshake(&mut cell).unwrap();
    let before_calls = cell.engine.read_calls;
    let err = sess.userauth_password(&mut cell, "us\0er", "pw").unwrap_err();
    assert_eq!(
        err.message(),
        "provided data contained a nul byte and could not be used as as string"
    );
    assert_eq!(cell.engine.read_calls, before_calls);
    assert!(!sess.authenticated(&cell));
    sess.dispose(&mut cell);
}

#[test]
fn blocking_and_timeout_round_trip() {
    let (mut cell, sess) = Session::new();
    sess.set_blocking(&mut cell, false);
    assert!(!sess.is_blocking(&cell));
    sess.set_blocking(&mut cell, true);
    assert!(sess.is_blocking(&cell));
    sess.set_timeout(&mut cell, 1500);
    assert_eq!(sess.timeout(&cell), 1500);
    sess.dispose(&mut cell);
}

#[test]
fn block_directions_decode_all_cases() {
    let (mut cell, sess) = Session::new();
    assert_eq!(sess.block_directions(&cell), BlockDirections::Neither);
    cell.engine.block_dirs = 1;
    assert_eq!(sess.block_directions(&cell), BlockDirections::Inbound);
    cell.engine.block_dirs = 2;
    assert_eq!(sess.block_directions(&cell), BlockDirections::Outbound);
    cell.engine.block_dirs = 3;
    assert_eq!(sess.block_directions(&cell), BlockDirections::Both);
    sess.dispose(&mut cell);
}

#[test]
fn keepalive_interval_of_one_becomes_two() {
    let (mut cell, sess) = Session::new();
    sess.set_keepalive(&mut cell, true, 1);
    assert_eq!(sess.keepalive_send(&mut cell).unwrap(), 2);
    sess.set_keepalive(&mut cell, false, 9);
    assert_eq!(sess.keepalive_send(&mut cell).unwrap(), 9);
    sess.dispose(&mut cell);
}

#[test]
fn auth_methods_lists_schemes() {
    let (mut cell, mut sess) = Session::new();
    sess.set_tcp_stream(&mut cell, 1);
    sess.handshake(&mut cell).unwrap();
    let methods = sess.auth_methods(&mut cell, "user").unwrap();
    assert_eq!(methods, "publickey,password,keyboard-interactive");
    sess.dispose(&mut cell);
}

struct Answers {
    responses: Vec<String>,
}

impl KeyboardInteractivePrompt for Answers {
    fn prompt(&mut self, _username: &str, _instructions: &str, _prompts: &Vec<Prompt>) -> Vec<String> {
        self.responses.clone()
    }
}

#[test]
fn keyboard_interactive_matches_expected_responses() {
    let (mut cell, mut sess) = Session::new();
    sess.set_tcp_stream(&mut cell, 1);
    sess.handshake(&mut cell).unwrap();
    cell.engine.set_kbd_challenge(
        String::from("answer the riddle"),
        vec![(String::from("Password: "), false)],
        vec![String::from("opensesame")],
    );
    let mut wrong = Answers { responses: vec![String::from("nope")] };
    let err = sess.userauth_keyboard_interactive(&mut cell, "user", &mut wrong).unwrap_err();
    assert_eq!(err.code(), ErrorCode::Session(ERROR_AUTHENTICATION_FAILED));
    assert!(!sess.authenticated(&cell));
    let mut right = Answers { responses: vec![String::from("opensesame")] };
    sess.userauth_keyboard_interactive(&mut cell, "user", &mut right).unwrap();
    assert!(sess.authenticated(&cell));
    sess.dispose(&mut cell);
}

#[test]
fn keyboard_interactive_truncates_extra_responses() {
    let (mut cell, mut sess) = Session::new();
    sess.set_tcp_stream(&mut cell, 1);
    sess.handshake(&mut cell).unwrap();
    cell.engine.set_kbd_challenge(
        String::new(),
        vec![(String::from("q"), true)],
        vec![String::from("a")],
    );
    let mut chatty = Answers { responses: vec![String::from("a"), String::from("extra")] };
    sess.userauth_keyboard_interactive(&mut cell, "user", &mut chatty).unwrap();
    assert!(sess.authenticated(&cell));
    sess.dispose(&mut cell);
}

#[test]
fn pubkey_auth_variants_succeed() {
    let (mut cell, mut sess) = Session::new();
    sess.set_tcp_stream(&mut cell, 1);
    sess.handshake(&mut cell).unwrap();
    sess.userauth_pubkey_file(&mut cell, "u", None, b"/home/u/.ssh/id", Some("pp")).unwrap();
    assert!(sess.authenticated(&cell));
    sess.dispose(&mut cell);

    let (mut cell, mut sess) = Session::new();
    sess.set_tcp_stream(&mut cell, 1);
    sess.handshake(&mut cell).unwrap();
    sess.userauth_pubkey_memory(&mut cell, "u", None, "PRIVATE KEY", None).unwrap();
    assert!(sess.authenticated(&cell));
    sess.dispose(&mut cell);

    let (mut cell, mut sess) = Session::new();
    sess.set_tcp_stream(&mut cell, 1);
    sess.handshake(&mut cell).unwrap();
    sess.userauth_hostbased_file(&mut cell, "u", b"/pk", b"/sk", None, "host", None).unwrap();
    assert!(sess.authenticated(&cell));
    sess.dispose(&mut cell);
}

#[test]
fn session_refcount_tracks_clones() {
    let (mut cell, sess) = Session::new();
    assert_eq!(cell.refs, 1);
    let extra = sess.clone_ref(&mut cell);
    assert_eq!(cell.refs, 2);
    sess.dispose(&mut cell);
    assert_eq!(cell.refs, 1);
    assert!(cell.engine_alive);
    extra.dispose(&mut cell);
    assert_eq!(cell.refs, 0);
    assert!(!cell.engine_alive);
}

#[test]
fn disconnect_tears_transport_down() {
    let (mut cell, mut sess) = Session::new();
    sess.set_tcp_stream(&mut cell, 1);
    sess.handshake(&mut cell).unwrap();
    sess.disconnect(&mut cell, None, "bye", None).unwrap();
    assert!(!cell.engine.handshaked);
    sess.dispose(&mut cell);
}

#[test]
fn banner_and_host_key() {
    let (mut cell, mut sess) = Session::new();
    sess.set_banner(&mut cell, "SSH-2.0-me").unwrap();
    cell.engine.set_remote_banner(b"SSH-2.0-double".to_vec());
    assert!(sess.banner_bytes(&cell).is_none());
    cell.engine.set_host_key(b"\x00\x07ssh-rsa...".to_vec(), 1);
    assert!(sess.host_key(&cell).is_none());
    sess.set_tcp_stream(&mut cell, 1);
    sess.handshake(&mut cell).unwrap();
    assert_eq!(sess.banner_bytes(&cell).unwrap(), b"SSH-2.0-double".to_vec());
    let (key, kind) = sess.host_key(&cell).unwrap();
    assert_eq!(key, b"\x00\x07ssh-rsa...".to_vec());
    assert_eq!(kind, ssh2::HostKeyType::Rsa);
    sess.dispose(&mut cell);
}

#[test]
fn supported_algs_copies_the_inventory() {
    let (mut cell, sess) = Session::new();
    cell.engine.set_supported_algs(vec![
        String::from("curve25519-sha256"),
        String::from("ecdh-sha2-nistp256"),
    ]);
    let algs = sess.supported_algs(&cell, ssh2::MethodType::Kex).unwrap();
    assert_eq!(algs.len(), 2);
    assert_eq!(algs[0], "curve25519-sha256");
    assert_eq!(algs[1], "ecdh-sha2-nistp256");
    sess.dispose(&mut cell);
}

#[test]
fn method_pref_records_the_last_preference() {
    let (mut cell, sess) = Session::new();
    assert!(sess.methods(&cell, ssh2::MethodType::Kex).is_none());
    sess.method_pref(&mut cell, ssh2::MethodType::Kex, "kex-one").unwrap();
    sess.method_pref(&mut cell, ssh2::MethodType::Kex, "kex-two").unwrap();
    sess.method_pref(&mut cell, ssh2::MethodType::HostKey, "hk").unwrap();
    let kex = sess.methods(&cell, ssh2::MethodType::Kex).unwrap();
    assert_eq!(kex, b"kex-two".to_vec());
    assert!(sess.methods(&cell, ssh2::MethodType::MacCs).is_none());
    sess.dispose(&mut cell);
}
