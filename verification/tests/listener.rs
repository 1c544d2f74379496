//! Remote port forwarding listeners.

use ssh2::session::Session;

#[test]
fn forward_listen_and_accept() {
    let (mut cell, mut sess) = Session::new();
    sess.set_tcp_stream(&mut cell, 1);
    sess.handshake(&mut cell).unwrap();
    sess.userauth_password(&mut cell, "u", "p").unwrap();
    let (mut listener, port) = sess.channel_forward_listen(&mut cell, 8022, None, None).unwrap();
    assert_eq!(port, 8022);
    // nothing queued yet
    assert!(listener.accept(&mut cell).is_err());
    cell.engine.queue_forward_connection(0);
    let channel = listener.accept(&mut cell).unwrap();
    channel.dispose(&mut cell);
    listener.dispose(&mut cell);
    sess.dispose(&mut cell);
    assert!(!cell.engine_alive);
}

#[test]
fn port_zero_lets_the_remote_pick() {
    let (mut cell, mut sess) = Session::new();
    sess.set_tcp_stream(&mut cell, 1);
    sess.handshake(&mut cell).unwrap();
    sess.userauth_password(&mut cell, "u", "p").unwrap();
    let (listener, port) = sess.channel_forward_listen(&mut cell, 0, None, Some(8)).unwrap();
    assert_eq!(port, 49152);
    listener.dispose(&mut cell);
    sess.dispose(&mut cell);
}
