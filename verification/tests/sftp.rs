//! The SFTP subsystem: files, directories, and the shutdown refusal.

use ssh2::error::{ErrorCode, ERROR_BAD_USE, ERROR_FILE, FX_NO_SUCH_FILE, FX_FILE_ALREADY_EXISTS};
use ssh2::session::{Session, SessionCell};
use ssh2::sftp::{FileType, OpenType, SeekFrom, OPEN_READ, OPEN_WRITE, OPEN_TRUNCATE};

fn sftp_session() -> (SessionCell, Session, ssh2::Sftp) {
    let (mut cell, mut sess) = Session::new();
    sess.set_tcp_stream(&mut cell, 4);
    sess.handshake(&mut cell).unwrap();
    sess.userauth_password(&mut cell, "user", "pw").unwrap();
    let sftp = sess.sftp(&mut cell).unwrap();
    (cell, sess, sftp)
}

#[test]
fn sftp_ops() {
    let (mut cell, sess, sftp) = sftp_session();
    cell.engine.stage_remote_dir(b"/d".to_vec());
    cell.engine.stage_remote_file(b"/d/a.txt".to_vec(), b"contents".to_vec(), 0o100644, 1, 2);

    // stat and open/read
    let stat = sftp.stat(&mut cell, b"/d/a.txt").unwrap();
    assert_eq!(stat.size, Some(8));
    assert!(stat.is_file());
    let mut f = sftp.open(&mut cell, b"/d/a.txt").unwrap();
    assert_eq!(f.read(&mut cell, 4).unwrap(), b"cont".to_vec());
    assert_eq!(f.read(&mut cell, 100).unwrap(), b"ents".to_vec());
    assert_eq!(f.read(&mut cell, 100).unwrap().len(), 0);
    f.seek(&mut cell, SeekFrom::Start(2)).unwrap();
    assert_eq!(f.read(&mut cell, 2).unwrap(), b"nt".to_vec());
    f.seek(&mut cell, SeekFrom::Current(-2)).unwrap();
    assert_eq!(f.read(&mut cell, 2).unwrap(), b"nt".to_vec());
    f.seek(&mut cell, SeekFrom::End(-3)).unwrap();
    assert_eq!(f.read(&mut cell, 100).unwrap(), b"nts".to_vec());
    f.close(&mut cell).unwrap();

    // create and write
    let mut g = sftp.create(&mut cell, b"/d/new.txt").unwrap();
    assert_eq!(g.write(&mut cell, b"fresh").unwrap(), 5);
    g.close(&mut cell).unwrap();

    // directories
    sftp.mkdir(&mut cell, b"/d/sub", 0o755).unwrap();
    let err = sftp.mkdir(&mut cell, b"/d/sub", 0o755).unwrap_err();
    assert_eq!(err.code(), ErrorCode::SFTP(FX_FILE_ALREADY_EXISTS));
    sftp.rmdir(&mut cell, b"/d/sub").unwrap();

    // setstat by path
    let mut meta = stat.clone();
    meta.perm = Some(0o100600);
    sftp.setstat(&mut cell, b"/d/a.txt", meta).unwrap();
    let restat = sftp.stat(&mut cell, b"/d/a.txt").unwrap();
    assert_eq!(restat.perm, Some(0o100600));

    // rename and unlink
    sftp.rename(&mut cell, b"/d/new.txt", b"/d/renamed.txt", None).unwrap();
    assert!(sftp.stat(&mut cell, b"/d/new.txt").is_err());
    sftp.unlink(&mut cell, b"/d/renamed.txt").unwrap();

    let mut sftp = sftp;
    sftp.shutdown(&mut cell).unwrap();
    sess.dispose(&mut cell);
}

#[test]
fn missing_file_reports_secondary_code() {
    let (mut cell, sess, sftp) = sftp_session();
    let err = sftp.open(&mut cell, b"/absent").unwrap_err();
    assert_eq!(err.code(), ErrorCode::SFTP(FX_NO_SUCH_FILE));
    assert_eq!(err.message(), "no such file");
    let err = sftp.stat(&mut cell, b"/absent").unwrap_err();
    assert_eq!(err.code(), ErrorCode::SFTP(FX_NO_SUCH_FILE));
    let mut sftp = sftp;
    sftp.shutdown(&mut cell).unwrap();
    sess.dispose(&mut cell);
}

#[test]
fn shutdown_refused_while_files_open() {
    // The nested handle keeps the subsystem's inner state referenced: a
    // shutdown attempt fails with "bad use" and leaves everything usable.
    let (mut cell, sess, sftp) = sftp_session();
    cell.engine.stage_remote_file(b"/f".to_vec(), b"x".to_vec(), 0o100644, 0, 0);
    let mut sftp = sftp;
    let f = sftp.open(&mut cell, b"/f").unwrap();
    let err = sftp.shutdown(&mut cell).unwrap_err();
    assert_eq!(err.code(), ErrorCode::Session(ERROR_BAD_USE));
    // still usable: another file can be opened
    let g = sftp.open(&mut cell, b"/f").unwrap();
    f.dispose(&mut cell);
    g.dispose(&mut cell);
    sftp.shutdown(&mut cell).unwrap();
    // a second shutdown is refused cleanly
    let err = sftp.shutdown(&mut cell).unwrap_err();
    assert_eq!(err.code(), ErrorCode::Session(ERROR_BAD_USE));
    sess.dispose(&mut cell);
    assert!(!cell.engine_alive);
}

#[test]
fn last_file_drop_tears_subsystem_down() {
    let (mut cell, sess, sftp) = sftp_session();
    cell.engine.stage_remote_file(b"/f".to_vec(), b"x".to_vec(), 0o100644, 0, 0);
    let f = sftp.open(&mut cell, b"/f").unwrap();
    sftp.dispose(&mut cell);
    // subsystem survives while the file holds its inner state
    assert!(cell.engine.sftps[0].alive);
    f.dispose(&mut cell);
    assert!(!cell.engine.sftps[0].alive);
    sess.dispose(&mut cell);
}

#[test]
fn file_drop_in_nonblocking_mode_restores_mode() {
    let (mut cell, sess, sftp) = sftp_session();
    cell.engine.stage_remote_file(b"/f".to_vec(), b"x".to_vec(), 0o100644, 0, 0);
    let f = sftp.open(&mut cell, b"/f").unwrap();
    sess.set_blocking(&mut cell, false);
    cell.engine.script_wouldblock(1);
    f.dispose(&mut cell);
    assert!(!sess.is_blocking(&cell));
    assert!(!cell.engine.files[0].alive);
    sess.set_blocking(&mut cell, true);
    let mut sftp = sftp;
    sftp.shutdown(&mut cell).unwrap();
    sess.dispose(&mut cell);
}

#[test]
fn readdir_filters_dot_entries() {
    let (mut cell, sess, sftp) = sftp_session();
    cell.engine.stage_remote_dir(b"/d".to_vec());
    cell.engine.stage_remote_file(b"/d/a".to_vec(), b"1".to_vec(), 0o100644, 0, 0);
    cell.engine.stage_remote_file(b"/d/b".to_vec(), b"22".to_vec(), 0o100644, 0, 0);
    let entries = sftp.readdir(&mut cell, b"/d").unwrap();
    assert_eq!(entries.len(), 2);
    assert_eq!(entries[0].0, b"/d//d/a".to_vec());
    assert_eq!(entries[0].1.size, Some(1));
    assert_eq!(entries[1].0, b"/d//d/b".to_vec());
    assert_eq!(entries[1].1.size, Some(2));
    let mut sftp = sftp;
    sftp.shutdown(&mut cell).unwrap();
    sess.dispose(&mut cell);
}

#[test]
fn raw_readdir_reports_end_with_no_more_files() {
    let (mut cell, sess, sftp) = sftp_session();
    cell.engine.stage_remote_dir(b"/empty".to_vec());
    let mut dir = sftp.opendir(&mut cell, b"/empty").unwrap();
    // "." and ".." come back first
    let (name, _) = dir.readdir(&mut cell).unwrap();
    assert_eq!(name, b".".to_vec());
    let (name, _) = dir.readdir(&mut cell).unwrap();
    assert_eq!(name, b"..".to_vec());
    let err = dir.readdir(&mut cell).unwrap_err();
    assert_eq!(err.code(), ErrorCode::Session(ERROR_FILE));
    assert_eq!(err.message(), "no more files");
    dir.close(&mut cell).unwrap();
    let mut sftp = sftp;
    sftp.shutdown(&mut cell).unwrap();
    sess.dispose(&mut cell);
}

#[test]
fn readlink_grows_its_buffer() {
    // A link target longer than the 128-byte initial capacity forces the
    // grow-and-retry loop through at least one "buffer too small" round.
    let (mut cell, sess, sftp) = sftp_session();
    let mut target: Vec<u8> = Vec::new();
    while target.len() < 300 {
        target.push(b'a' + ((target.len() % 26) as u8));
    }
    sftp.symlink(&mut cell, b"/link", &target).unwrap();
    let attempts_before = cell.engine.sftp_calls;
    let read = sftp.readlink(&mut cell, b"/link").unwrap();
    assert_eq!(read, target);
    // 128 and 256 report too small, 512 fits: three attempts, which is
    // ceil(log2(300/128)) + 1
    assert_eq!(cell.engine.sftp_calls - attempts_before, 3);
    let real = sftp.realpath(&mut cell, b"/link").unwrap();
    assert_eq!(real, b"/link".to_vec());
    assert!(sftp.realpath(&mut cell, b"/other").is_err());
    let mut sftp = sftp;
    sftp.shutdown(&mut cell).unwrap();
    sess.dispose(&mut cell);
}

#[test]
fn open_mode_truncates_and_creates() {
    let (mut cell, sess, sftp) = sftp_session();
    cell.engine.stage_remote_file(b"/f".to_vec(), b"old-contents".to_vec(), 0o100644, 0, 0);
    let mut f = sftp
        .open_mode(&mut cell, b"/f", OPEN_WRITE | OPEN_TRUNCATE, 0o644, OpenType::File)
        .unwrap();
    assert_eq!(f.read(&mut cell, 100).unwrap().len(), 0);
    f.close(&mut cell).unwrap();
    // plain open without create on a missing path fails
    assert!(sftp.open_mode(&mut cell, b"/g", OPEN_READ, 0o644, OpenType::File).is_err());
    let mut sftp = sftp;
    sftp.shutdown(&mut cell).unwrap();
    sess.dispose(&mut cell);
}

#[test]
fn file_stat_round_trip() {
    let stat = ssh2::FileStat {
        size: Some(42),
        uid: None,
        gid: None,
        perm: Some(0o100644),
        atime: Some(7),
        mtime: Some(8),
    };
    let raw = stat.raw();
    assert_eq!(raw.filesize, 42);
    assert_eq!(raw.permissions, 0o100644);
    let back = ssh2::FileStat::from_raw(&raw);
    assert_eq!(back, stat);
    assert!(back.is_file());
    assert!(!back.is_dir());
    let dir = ssh2::FileStat {
        size: None,
        uid: None,
        gid: None,
        perm: Some(0o040755),
        atime: None,
        mtime: None,
    };
    assert!(dir.is_dir());
    assert!(dir.file_type().is_dir());
}

#[test]
fn file_type_decodes_permission_bits() {
    assert!(FileType::from_perm(0o100644).is_file());
    assert!(FileType::from_perm(0o040755).is_dir());
    assert!(FileType::from_perm(0o120777).is_symlink());
    assert_eq!(FileType::from_perm(0o010000), FileType::NamedPipe);
    assert_eq!(FileType::from_perm(0o020620), FileType::CharDevice);
    assert_eq!(FileType::from_perm(0o060660), FileType::BlockDevice);
    assert_eq!(FileType::from_perm(0o140755), FileType::Socket);
    assert_eq!(FileType::from_perm(0o030000), FileType::Other(0o030000));
}
