//! Agent connections and identity enumeration.

use ssh2::error::{ErrorCode, ERROR_BAD_USE, ERROR_INVAL};
use ssh2::session::Session;

#[test]
fn agent_smoke() {
    let (mut cell, sess) = Session::new();
    let mut agent = sess.agent(&mut cell).unwrap();
    agent.connect(&mut cell).unwrap();
    agent.list_identities(&mut cell).unwrap();
    assert_eq!(agent.identities(&cell).unwrap().len(), 0);
    agent.disconnect(&mut cell).unwrap();
    agent.dispose(&mut cell);
    sess.dispose(&mut cell);
}

#[test]
fn identities_snapshot_the_agent_keys() {
    let (mut cell, sess) = Session::new();
    cell.engine.set_agent_keys(vec![
        (b"blob-one".to_vec(), String::from("key one")),
        (b"blob-two".to_vec(), String::from("key two")),
    ]);
    let mut agent = sess.agent(&mut cell).unwrap();
    agent.connect(&mut cell).unwrap();
    agent.list_identities(&mut cell).unwrap();
    let ids = agent.identities(&cell).unwrap();
    assert_eq!(ids.len(), 2);
    assert_eq!(ids[0].blob(), b"blob-one");
    assert_eq!(ids[0].comment(), "key one");
    assert_eq!(ids[1].blob(), b"blob-two");
    assert_eq!(ids[1].comment(), "key two");
    agent.dispose(&mut cell);
    sess.dispose(&mut cell);
}

#[test]
fn list_identities_requires_connection() {
    let (mut cell, sess) = Session::new();
    let mut agent = sess.agent(&mut cell).unwrap();
    let err = agent.list_identities(&mut cell).unwrap_err();
    assert_eq!(err.code(), ErrorCode::Session(ERROR_BAD_USE));
    agent.dispose(&mut cell);
    sess.dispose(&mut cell);
}

#[test]
fn userauth_rejects_unknown_identity() {
    let (mut cell, mut sess) = Session::new();
    sess.set_tcp_stream(&mut cell, 1);
    sess.handshake(&mut cell).unwrap();
    cell.engine.set_agent_keys(vec![(b"known".to_vec(), String::from("k"))]);
    let mut agent = sess.agent(&mut cell).unwrap();
    agent.connect(&mut cell).unwrap();
    agent.list_identities(&mut cell).unwrap();
    let stranger = ssh2::PublicKey::from_parts(b"stranger".to_vec(), String::from("s"));
    let err = agent.userauth(&mut cell, "user", &stranger).unwrap_err();
    assert_eq!(err.code(), ErrorCode::Session(ERROR_BAD_USE));
    assert_eq!(err.message(), "Identity not found in agent");
    let ids = agent.identities(&cell).unwrap();
    agent.userauth(&mut cell, "user", &ids[0]).unwrap();
    assert!(sess.authenticated(&cell));
    agent.dispose(&mut cell);
    sess.dispose(&mut cell);
}

#[test]
fn userauth_agent_uses_first_identity() {
    let (mut cell, mut sess) = Session::new();
    sess.set_tcp_stream(&mut cell, 1);
    sess.handshake(&mut cell).unwrap();
    cell.engine.set_agent_keys(vec![(b"first".to_vec(), String::from("f"))]);
    sess.userauth_agent(&mut cell, "user").unwrap();
    assert!(sess.authenticated(&cell));
    assert_eq!(cell.refs, 1);
    sess.dispose(&mut cell);
}

#[test]
fn userauth_agent_without_identities_fails() {
    let (mut cell, mut sess) = Session::new();
    sess.set_tcp_stream(&mut cell, 1);
    sess.handshake(&mut cell).unwrap();
    let err = sess.userauth_agent(&mut cell, "user").unwrap_err();
    assert_eq!(err.code(), ErrorCode::Session(ERROR_INVAL));
    assert_eq!(err.message(), "no identities found in the ssh agent");
    assert_eq!(cell.refs, 1);
    sess.dispose(&mut cell);
}
