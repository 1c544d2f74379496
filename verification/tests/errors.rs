//! The error translator: code tables, capture rules, message snapshots.

use ssh2::error::{
    Error, ErrorCode, IoErrorKind, ERROR_EAGAIN, ERROR_TIMEOUT, ERROR_ALLOC, ERROR_BAD_USE,
    ERROR_PROTO, ERROR_KEX_FAILURE, ERROR_AUTHENTICATION_FAILED, ERROR_CHANNEL_FAILURE,
    FX_NO_SUCH_FILE, FX_NO_SUCH_PATH, FX_PERMISSION_DENIED,
};
use ssh2::channel::Channel;
use ssh2::session::Session;

#[test]
fn from_errno_uses_fixed_table() {
    let e = Error::from_errno(ErrorCode::Session(ERROR_ALLOC));
    assert_eq!(e.code(), ErrorCode::Session(ERROR_ALLOC));
    assert_eq!(e.message(), "alloc failure");
    let e = Error::from_errno(ErrorCode::Session(ERROR_EAGAIN));
    assert_eq!(e.message(), "operation would block");
    let e = Error::from_errno(ErrorCode::SFTP(FX_NO_SUCH_FILE));
    assert_eq!(e.message(), "no such file");
    let e = Error::from_errno(ErrorCode::SFTP(FX_PERMISSION_DENIED));
    assert_eq!(e.message(), "permission denied");
    let e = Error::from_errno(ErrorCode::Session(-9999));
    assert_eq!(e.message(), "unknown error");
}

#[test]
fn eof_and_unknown_constructors() {
    assert_eq!(Error::eof().message(), "end of file");
    assert_eq!(Error::unknown().message(), "no other error listed");
    assert_eq!(Error::unknown().code(), ErrorCode::Session(i32::MIN));
}

#[test]
fn io_error_kinds() {
    assert_eq!(
        Error::from_errno(ErrorCode::Session(ERROR_EAGAIN)).io_error_kind(),
        IoErrorKind::WouldBlock
    );
    assert_eq!(
        Error::from_errno(ErrorCode::Session(ERROR_TIMEOUT)).io_error_kind(),
        IoErrorKind::TimedOut
    );
    assert_eq!(
        Error::from_errno(ErrorCode::Session(ERROR_BAD_USE)).io_error_kind(),
        IoErrorKind::Other
    );
    assert_eq!(
        Error::from_errno(ErrorCode::SFTP(FX_NO_SUCH_FILE)).io_error_kind(),
        IoErrorKind::NotFound
    );
    assert_eq!(
        Error::from_errno(ErrorCode::SFTP(FX_NO_SUCH_PATH)).io_error_kind(),
        IoErrorKind::NotFound
    );
    assert_eq!(
        Error::from_errno(ErrorCode::SFTP(FX_PERMISSION_DENIED)).io_error_kind(),
        IoErrorKind::Other
    );
}

#[test]
fn error_message_survives_later_engine_calls() {
    // The message is copied out of the engine's buffer at capture time, so a
    // second, different failing call must not change an earlier error value.
    let (mut cell, mut sess) = Session::new();
    cell.engine.script_failure(ERROR_PROTO, String::from("first failure detail"));
    sess.set_tcp_stream(&mut cell, 1);
    let first = sess.handshake(&mut cell).unwrap_err();
    assert_eq!(first.code(), ErrorCode::Session(ERROR_PROTO));
    assert_eq!(first.message(), "first failure detail");
    cell.engine.script_failure(ERROR_AUTHENTICATION_FAILED, String::from("second failure detail"));
    let second = sess.userauth_password(&mut cell, "u", "p").unwrap_err();
    assert_eq!(second.message(), "second failure detail");
    // the first snapshot is unchanged even though the engine buffer moved on
    assert_eq!(first.message(), "first failure detail");
    assert_eq!(cell.engine.last_msg, "second failure detail");
    sess.dispose(&mut cell);
}

#[test]
fn mismatched_code_gets_table_message() {
    // When the translated code differs from the engine's last error, the
    // fixed table supplies the message instead of the stale buffer.
    let (mut cell, mut sess) = Session::new();
    cell.engine.script_failure(ERROR_PROTO, String::from("live detail"));
    sess.set_tcp_stream(&mut cell, 1);
    let err = sess.handshake(&mut cell).unwrap_err();
    assert_eq!(err.message(), "live detail");
    let stale = Error::from_session_error_raw(&cell.engine, ERROR_KEX_FAILURE);
    assert_eq!(stale.code(), ErrorCode::Session(ERROR_KEX_FAILURE));
    assert_eq!(stale.message(), "kex failure");
    sess.dispose(&mut cell);
}

#[test]
fn open_with_sentinel_returns_captured_error() {
    // The dependent-handle construction step: a null raw result hands back
    // exactly the captured error; with none captured, the unknown error.
    let (mut cell, sess) = Session::new();
    let captured = Error::new(ErrorCode::Session(ERROR_CHANNEL_FAILURE), "channel failure detail");
    let r = Channel::from_raw_opt(None, Some(captured), &mut cell);
    let err = r.unwrap_err();
    assert_eq!(err.code(), ErrorCode::Session(ERROR_CHANNEL_FAILURE));
    assert_eq!(err.message(), "channel failure detail");
    assert_eq!(cell.refs, 1);

    let r = Channel::from_raw_opt(None, None, &mut cell);
    let err = r.unwrap_err();
    assert_eq!(err.code(), ErrorCode::Session(i32::MIN));
    assert_eq!(err.message(), "no other error listed");
    assert_eq!(cell.refs, 1);
    sess.dispose(&mut cell);
}

#[test]
fn scripted_open_failure_reaches_caller() {
    let (mut cell, mut sess) = Session::new();
    sess.set_tcp_stream(&mut cell, 1);
    sess.handshake(&mut cell).unwrap();
    sess.userauth_password(&mut cell, "u", "p").unwrap();
    cell.engine.script_failure(ERROR_CHANNEL_FAILURE, String::from("server refused the channel"));
    let err = sess.channel_session(&mut cell).unwrap_err();
    assert_eq!(err.code(), ErrorCode::Session(ERROR_CHANNEL_FAILURE));
    assert_eq!(err.message(), "server refused the channel");
    assert_eq!(cell.refs, 1);
    sess.dispose(&mut cell);
}
