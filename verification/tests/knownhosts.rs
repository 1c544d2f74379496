//! Known-host collections: adding, checking, enumerating, writing out.

use ssh2::error::{ErrorCode, ERROR_BAD_USE};
use ssh2::session::Session;
use ssh2::{CheckResult, KnownHostKeyFormat};

#[test]
fn knownhosts_smoke() {
    let (mut cell, sess) = Session::new();
    let mut hosts = sess.known_hosts(&mut cell).unwrap();
    hosts
        .add(&mut cell, "example.com", "AAAAkey", "comment", KnownHostKeyFormat::SshRsa)
        .unwrap();
    assert_eq!(hosts.hosts(&cell).unwrap().len(), 1);
    hosts.dispose(&mut cell);
    sess.dispose(&mut cell);
}

#[test]
fn check_distinguishes_match_mismatch_notfound() {
    let (mut cell, sess) = Session::new();
    let mut hosts = sess.known_hosts(&mut cell).unwrap();
    hosts
        .add(&mut cell, "host.one", "correct-key", "", KnownHostKeyFormat::SshRsa)
        .unwrap();
    assert!(matches!(hosts.check(&cell, "host.one", "correct-key"), CheckResult::Match));
    assert!(matches!(hosts.check(&cell, "host.one", "wrong-key"), CheckResult::Mismatch));
    assert!(matches!(hosts.check(&cell, "host.two", "correct-key"), CheckResult::NotFound));
    assert!(matches!(
        hosts.check_port(&cell, "host.one", 2222, "correct-key"),
        CheckResult::Match
    ));
    hosts.dispose(&mut cell);
    sess.dispose(&mut cell);
}

#[test]
fn hosts_enumerates_entries_in_order() {
    let (mut cell, sess) = Session::new();
    let mut hosts = sess.known_hosts(&mut cell).unwrap();
    hosts.add(&mut cell, "a", "ka", "", KnownHostKeyFormat::SshRsa).unwrap();
    hosts.add(&mut cell, "b", "kb", "", KnownHostKeyFormat::Ed255219).unwrap();
    let all = hosts.hosts(&cell).unwrap();
    assert_eq!(all.len(), 2);
    assert_eq!(all[0].name(), Some("a"));
    assert_eq!(all[0].key(), "ka");
    assert_eq!(all[1].name(), Some("b"));
    assert_eq!(all[1].key(), "kb");
    let again = hosts.iter(&cell).unwrap();
    assert_eq!(again.len(), 2);
    hosts.dispose(&mut cell);
    sess.dispose(&mut cell);
}

#[test]
fn remove_deletes_a_matching_entry() {
    let (mut cell, sess) = Session::new();
    let mut hosts = sess.known_hosts(&mut cell).unwrap();
    hosts.add(&mut cell, "gone.example", "k1", "", KnownHostKeyFormat::SshRsa).unwrap();
    let all = hosts.hosts(&cell).unwrap();
    hosts.remove(&mut cell, &all[0]).unwrap();
    assert_eq!(hosts.hosts(&cell).unwrap().len(), 0);
    // removing an absent host is a no-op
    hosts.remove(&mut cell, &all[0]).unwrap();
    hosts.dispose(&mut cell);
    sess.dispose(&mut cell);
}

#[test]
fn write_string_formats_the_entry() {
    let (mut cell, sess) = Session::new();
    let mut hosts = sess.known_hosts(&mut cell).unwrap();
    hosts.add(&mut cell, "h.example", "the-key", "", KnownHostKeyFormat::SshRsa).unwrap();
    let all = hosts.hosts(&cell).unwrap();
    let line = hosts.write_string(&cell, &all[0], ssh2::KnownHostFileKind::OpenSSH).unwrap();
    assert_eq!(line, "h.example the-key");
    hosts.dispose(&mut cell);
    sess.dispose(&mut cell);
}

#[test]
fn write_string_unknown_host_is_bad_use() {
    let (mut cell, sess) = Session::new();
    let mut hosts = sess.known_hosts(&mut cell).unwrap();
    hosts.add(&mut cell, "present", "k", "", KnownHostKeyFormat::SshRsa).unwrap();
    let all = hosts.hosts(&cell).unwrap();
    hosts.remove(&mut cell, &all[0]).unwrap();
    let err = hosts
        .write_string(&cell, &all[0], ssh2::KnownHostFileKind::OpenSSH)
        .unwrap_err();
    assert_eq!(err.code(), ErrorCode::Session(ERROR_BAD_USE));
    hosts.dispose(&mut cell);
    sess.dispose(&mut cell);
}

#[test]
fn key_format_from_host_key_type() {
    assert_eq!(
        KnownHostKeyFormat::from(ssh2::HostKeyType::Rsa),
        KnownHostKeyFormat::SshRsa
    );
    assert_eq!(
        KnownHostKeyFormat::from(ssh2::HostKeyType::Ed255219),
        KnownHostKeyFormat::Ed255219
    );
    assert_eq!(
        KnownHostKeyFormat::from(ssh2::HostKeyType::Unknown),
        KnownHostKeyFormat::Unknown
    );
}
