use vstd::prelude::*;

verus! {

// Status codes of the engine-level error namespace, one constant per native code.
pub const ERROR_BANNER_RECV: i32 = -2;
pub const ERROR_BANNER_SEND: i32 = -3;
pub const ERROR_INVALID_MAC: i32 = -4;
pub const ERROR_KEX_FAILURE: i32 = -5;
pub const ERROR_ALLOC: i32 = -6;
pub const ERROR_SOCKET_SEND: i32 = -7;
pub const ERROR_KEY_EXCHANGE_FAILURE: i32 = -8;
pub const ERROR_TIMEOUT: i32 = -9;
pub const ERROR_HOSTKEY_INIT: i32 = -10;
pub const ERROR_HOSTKEY_SIGN: i32 = -11;
pub const ERROR_DECRYPT: i32 = -12;
pub const ERROR_SOCKET_DISCONNECT: i32 = -13;
pub const ERROR_PROTO: i32 = -14;
pub const ERROR_PASSWORD_EXPIRED: i32 = -15;
pub const ERROR_FILE: i32 = -16;
pub const ERROR_METHOD_NONE: i32 = -17;
pub const ERROR_AUTHENTICATION_FAILED: i32 = -18;
pub const ERROR_PUBLICKEY_UNVERIFIED: i32 = -19;
pub const ERROR_CHANNEL_OUTOFORDER: i32 = -20;
pub const ERROR_CHANNEL_FAILURE: i32 = -21;
pub const ERROR_CHANNEL_REQUEST_DENIED: i32 = -22;
pub const ERROR_CHANNEL_UNKNOWN: i32 = -23;
pub const ERROR_CHANNEL_WINDOW_EXCEEDED: i32 = -24;
pub const ERROR_CHANNEL_PACKET_EXCEEDED: i32 = -25;
pub const ERROR_CHANNEL_CLOSED: i32 = -26;
pub const ERROR_CHANNEL_EOF_SENT: i32 = -27;
pub const ERROR_SCP_PROTOCOL: i32 = -28;
pub const ERROR_ZLIB: i32 = -29;
pub const ERROR_SOCKET_TIMEOUT: i32 = -30;
pub const ERROR_SFTP_PROTOCOL: i32 = -31;
pub const ERROR_REQUEST_DENIED: i32 = -32;
pub const ERROR_METHOD_NOT_SUPPORTED: i32 = -33;
pub const ERROR_INVAL: i32 = -34;
pub const ERROR_INVALID_POLL_TYPE: i32 = -35;
pub const ERROR_PUBLICKEY_PROTOCOL: i32 = -36;
pub const ERROR_EAGAIN: i32 = -37;
pub const ERROR_BUFFER_TOO_SMALL: i32 = -38;
pub const ERROR_BAD_USE: i32 = -39;
pub const ERROR_COMPRESS: i32 = -40;
pub const ERROR_OUT_OF_BOUNDARY: i32 = -41;
pub const ERROR_AGENT_PROTOCOL: i32 = -42;
pub const ERROR_SOCKET_RECV: i32 = -43;
pub const ERROR_ENCRYPT: i32 = -44;
pub const ERROR_BAD_SOCKET: i32 = -45;
pub const ERROR_KNOWN_HOSTS: i32 = -46;

// Status codes of the secondary namespace used by the SFTP subsystem.
pub const FX_EOF: i32 = 1;
pub const FX_NO_SUCH_FILE: i32 = 2;
pub const FX_PERMISSION_DENIED: i32 = 3;
pub const FX_FAILURE: i32 = 4;
pub const FX_BAD_MESSAGE: i32 = 5;
pub const FX_NO_CONNECTION: i32 = 6;
pub const FX_CONNECTION_LOST: i32 = 7;
pub const FX_OP_UNSUPPORTED: i32 = 8;
pub const FX_INVALID_HANDLE: i32 = 9;
pub const FX_NO_SUCH_PATH: i32 = 10;
pub const FX_FILE_ALREADY_EXISTS: i32 = 11;
pub const FX_WRITE_PROTECT: i32 = 12;
pub const FX_NO_MEDIA: i32 = 13;
pub const FX_NO_SPACE_ON_FILESYSTEM: i32 = 14;
pub const FX_QUOTA_EXCEEDED: i32 = 15;
pub const FX_UNKNOWN_PRINCIPAL: i32 = 16;
pub const FX_LOCK_CONFLICT: i32 = 17;
pub const FX_DIR_NOT_EMPTY: i32 = 18;
pub const FX_NOT_A_DIRECTORY: i32 = 19;
pub const FX_INVALID_FILENAME: i32 = 20;
pub const FX_LINK_LOOP: i32 = 21;

/// The error code carried by [`Error`], split by originating namespace.
///
/// Engine-level codes are negative status returns of the general engine API;
/// SFTP codes live in a distinct numeric space reached only through the
/// subsystem's own "last error" accessor.
#[derive(Debug, Clone, Copy, PartialEq, Eq, Structural)]
pub enum ErrorCode {
    /// An error that originates in the engine itself.
    Session(i32),
    /// An error that originates in the SFTP subsystem.
    SFTP(i32),
}

/// A structured error value: a code plus an owned message snapshot.
///
/// The message is always copied into owned storage at capture time, because
/// the engine's internal error buffer is only valid until the next engine
/// call.
#[derive(Debug, Clone)]
pub struct Error {
    code: ErrorCode,
    msg: String,
}

/// The fixed fallback message for an engine-level status code.
pub open spec fn spec_session_message(code: i32) -> Seq<char> {
    if code == ERROR_BANNER_RECV {
        "banner recv failure"@
    } else if code == ERROR_BANNER_SEND {
        "banner send failure"@
    } else if code == ERROR_INVALID_MAC {
        "invalid mac"@
    } else if code == ERROR_KEX_FAILURE {
        "kex failure"@
    } else if code == ERROR_ALLOC {
        "alloc failure"@
    } else if code == ERROR_SOCKET_SEND {
        "socket send faiulre"@
    } else if code == ERROR_KEY_EXCHANGE_FAILURE {
        "key exchange failure"@
    } else if code == ERROR_TIMEOUT {
        "timed out"@
    } else if code == ERROR_HOSTKEY_INIT {
        "hostkey init error"@
    } else if code == ERROR_HOSTKEY_SIGN {
        "hostkey sign error"@
    } else if code == ERROR_DECRYPT {
        "decrypt error"@
    } else if code == ERROR_SOCKET_DISCONNECT {
        "socket disconnected"@
    } else if code == ERROR_PROTO {
        "protocol error"@
    } else if code == ERROR_PASSWORD_EXPIRED {
        "password expired"@
    } else if code == ERROR_FILE {
        "file error"@
    } else if code == ERROR_METHOD_NONE {
        "bad method name"@
    } else if code == ERROR_AUTHENTICATION_FAILED {
        "authentication failed"@
    } else if code == ERROR_PUBLICKEY_UNVERIFIED {
        "public key unverified"@
    } else if code == ERROR_CHANNEL_OUTOFORDER {
        "channel out of order"@
    } else if code == ERROR_CHANNEL_FAILURE {
        "channel failure"@
    } else if code == ERROR_CHANNEL_REQUEST_DENIED {
        "request denied"@
    } else if code == ERROR_CHANNEL_UNKNOWN {
        "unknown channel error"@
    } else if code == ERROR_CHANNEL_WINDOW_EXCEEDED {
        "window exceeded"@
    } else if code == ERROR_CHANNEL_PACKET_EXCEEDED {
        "packet exceeded"@
    } else if code == ERROR_CHANNEL_CLOSED {
        "closed channel"@
    } else if code == ERROR_CHANNEL_EOF_SENT {
        "eof sent"@
    } else if code == ERROR_SCP_PROTOCOL {
        "scp protocol error"@
    } else if code == ERROR_ZLIB {
        "zlib error"@
    } else if code == ERROR_SOCKET_TIMEOUT {
        "socket timeout"@
    } else if code == ERROR_SFTP_PROTOCOL {
        "sftp protocol error"@
    } else if code == ERROR_REQUEST_DENIED {
        "request denied"@
    } else if code == ERROR_METHOD_NOT_SUPPORTED {
        "method not supported"@
    } else if code == ERROR_INVAL {
        "invalid"@
    } else if code == ERROR_INVALID_POLL_TYPE {
        "invalid poll type"@
    } else if code == ERROR_PUBLICKEY_PROTOCOL {
        "public key protocol error"@
    } else if code == ERROR_EAGAIN {
        "operation would block"@
    } else if code == ERROR_BUFFER_TOO_SMALL {
        "buffer too small"@
    } else if code == ERROR_BAD_USE {
        "bad use error"@
    } else if code == ERROR_COMPRESS {
        "compression error"@
    } else if code == ERROR_OUT_OF_BOUNDARY {
        "out of bounds"@
    } else if code == ERROR_AGENT_PROTOCOL {
        "invalid agent protocol"@
    } else if code == ERROR_SOCKET_RECV {
        "error receiving on socket"@
    } else if code == ERROR_ENCRYPT {
        "bad encrypt"@
    } else if code == ERROR_BAD_SOCKET {
        "bad socket"@
    } else if code == ERROR_KNOWN_HOSTS {
        "known hosts error"@
    } else {
        "unknown error"@
    }
}

/// The fixed fallback message for an SFTP-subsystem status code.
pub open spec fn spec_sftp_message(code: i32) -> Seq<char> {
    if code == FX_EOF {
        "end of file"@
    } else if code == FX_NO_SUCH_FILE {
        "no such file"@
    } else if code == FX_PERMISSION_DENIED {
        "permission denied"@
    } else if code == FX_FAILURE {
        "failure"@
    } else if code == FX_BAD_MESSAGE {
        "bad message"@
    } else if code == FX_NO_CONNECTION {
        "no connection"@
    } else if code == FX_CONNECTION_LOST {
        "connection lost"@
    } else if code == FX_OP_UNSUPPORTED {
        "operation unsupported"@
    } else if code == FX_INVALID_HANDLE {
        "invalid handle"@
    } else if code == FX_NO_SUCH_PATH {
        "no such path"@
    } else if code == FX_FILE_ALREADY_EXISTS {
        "file already exists"@
    } else if code == FX_WRITE_PROTECT {
        "file is write protected"@
    } else if code == FX_NO_MEDIA {
        "no media available"@
    } else if code == FX_NO_SPACE_ON_FILESYSTEM {
        "no space on filesystem"@
    } else if code == FX_QUOTA_EXCEEDED {
        "quota exceeded"@
    } else if code == FX_UNKNOWN_PRINCIPAL {
        "unknown principal"@
    } else if code == FX_LOCK_CONFLICT {
        "lock conflict"@
    } else if code == FX_DIR_NOT_EMPTY {
        "directory not empty"@
    } else if code == FX_NOT_A_DIRECTORY {
        "not a directory"@
    } else if code == FX_INVALID_FILENAME {
        "invalid filename"@
    } else if code == FX_LINK_LOOP {
        "link loop"@
    } else {
        "unknown error"@
    }
}

/// The fixed fallback message for a code of either namespace.
pub open spec fn spec_errno_message(code: ErrorCode) -> Seq<char> {
    match code {
        ErrorCode::Session(c) => spec_session_message(c),
        ErrorCode::SFTP(c) => spec_sftp_message(c),
    }
}

pub(crate) fn session_message(code: i32) -> (r: &'static str)
    ensures
        r@ == spec_session_message(code),
{
    if code == ERROR_BANNER_RECV {
        "banner recv failure"
    } else if code == ERROR_BANNER_SEND {
        "banner send failure"
    } else if code == ERROR_INVALID_MAC {
        "invalid mac"
    } else if code == ERROR_KEX_FAILURE {
        "kex failure"
    } else if code == ERROR_ALLOC {
        "alloc failure"
    } else if code == ERROR_SOCKET_SEND {
        "socket send faiulre"
    } else if code == ERROR_KEY_EXCHANGE_FAILURE {
        "key exchange failure"
    } else if code == ERROR_TIMEOUT {
        "timed out"
    } else if code == ERROR_HOSTKEY_INIT {
        "hostkey init error"
    } else if code == ERROR_HOSTKEY_SIGN {
        "hostkey sign error"
    } else if code == ERROR_DECRYPT {
        "decrypt error"
    } else if code == ERROR_SOCKET_DISCONNECT {
        "socket disconnected"
    } else if code == ERROR_PROTO {
        "protocol error"
    } else if code == ERROR_PASSWORD_EXPIRED {
        "password expired"
    } else if code == ERROR_FILE {
        "file error"
    } else if code == ERROR_METHOD_NONE {
        "bad method name"
    } else if code == ERROR_AUTHENTICATION_FAILED {
        "authentication failed"
    } else if code == ERROR_PUBLICKEY_UNVERIFIED {
        "public key unverified"
    } else if code == ERROR_CHANNEL_OUTOFORDER {
        "channel out of order"
    } else if code == ERROR_CHANNEL_FAILURE {
        "channel failure"
    } else if code == ERROR_CHANNEL_REQUEST_DENIED {
        "request denied"
    } else if code == ERROR_CHANNEL_UNKNOWN {
        "unknown channel error"
    } else if code == ERROR_CHANNEL_WINDOW_EXCEEDED {
        "window exceeded"
    } else if code == ERROR_CHANNEL_PACKET_EXCEEDED {
        "packet exceeded"
    } else if code == ERROR_CHANNEL_CLOSED {
        "closed channel"
    } else if code == ERROR_CHANNEL_EOF_SENT {
        "eof sent"
    } else if code == ERROR_SCP_PROTOCOL {
        "scp protocol error"
    } else if code == ERROR_ZLIB {
        "zlib error"
    } else if code == ERROR_SOCKET_TIMEOUT {
        "socket timeout"
    } else if code == ERROR_SFTP_PROTOCOL {
        "sftp protocol error"
    } else if code == ERROR_REQUEST_DENIED {
        "request denied"
    } else if code == ERROR_METHOD_NOT_SUPPORTED {
        "method not supported"
    } else if code == ERROR_INVAL {
        "invalid"
    } else if code == ERROR_INVALID_POLL_TYPE {
        "invalid poll type"
    } else if code == ERROR_PUBLICKEY_PROTOCOL {
        "public key protocol error"
    } else if code == ERROR_EAGAIN {
        "operation would block"
    } else if code == ERROR_BUFFER_TOO_SMALL {
        "buffer too small"
    } else if code == ERROR_BAD_USE {
        "bad use error"
    } else if code == ERROR_COMPRESS {
        "compression error"
    } else if code == ERROR_OUT_OF_BOUNDARY {
        "out of bounds"
    } else if code == ERROR_AGENT_PROTOCOL {
        "invalid agent protocol"
    } else if code == ERROR_SOCKET_RECV {
        "error receiving on socket"
    } else if code == ERROR_ENCRYPT {
        "bad encrypt"
    } else if code == ERROR_BAD_SOCKET {
        "bad socket"
    } else if code == ERROR_KNOWN_HOSTS {
        "known hosts error"
    } else {
        "unknown error"
    }
}

pub(crate) fn sftp_message(code: i32) -> (r: &'static str)
    ensures
        r@ == spec_sftp_message(code),
{
    if code == FX_EOF {
        "end of file"
    } else if code == FX_NO_SUCH_FILE {
        "no such file"
    } else if code == FX_PERMISSION_DENIED {
        "permission denied"
    } else if code == FX_FAILURE {
        "failure"
    } else if code == FX_BAD_MESSAGE {
        "bad message"
    } else if code == FX_NO_CONNECTION {
        "no connection"
    } else if code == FX_CONNECTION_LOST {
        "connection lost"
    } else if code == FX_OP_UNSUPPORTED {
        "operation unsupported"
    } else if code == FX_INVALID_HANDLE {
        "invalid handle"
    } else if code == FX_NO_SUCH_PATH {
        "no such path"
    } else if code == FX_FILE_ALREADY_EXISTS {
        "file already exists"
    } else if code == FX_WRITE_PROTECT {
        "file is write protected"
    } else if code == FX_NO_MEDIA {
        "no media available"
    } else if code == FX_NO_SPACE_ON_FILESYSTEM {
        "no space on filesystem"
    } else if code == FX_QUOTA_EXCEEDED {
        "quota exceeded"
    } else if code == FX_UNKNOWN_PRINCIPAL {
        "unknown principal"
    } else if code == FX_LOCK_CONFLICT {
        "lock conflict"
    } else if code == FX_DIR_NOT_EMPTY {
        "directory not empty"
    } else if code == FX_NOT_A_DIRECTORY {
        "not a directory"
    } else if code == FX_INVALID_FILENAME {
        "invalid filename"
    } else if code == FX_LINK_LOOP {
        "link loop"
    } else {
        "unknown error"
    }
}

/// The coarse kind a structured error maps to when it is converted for a
/// generic streaming abstraction.
#[derive(Debug, Clone, Copy, PartialEq, Eq, Structural)]
pub enum IoErrorKind {
    /// A non-blocking call could not complete immediately; retry later.
    WouldBlock,
    /// A blocking call exceeded the configured timeout.
    TimedOut,
    /// The named remote object does not exist.
    NotFound,
    /// Any other failure.
    Other,
}

impl Error {
    /// The code of this error, as a spec-level value.
    pub closed spec fn spec_code(self) -> ErrorCode {
        self.code
    }

    /// The message of this error, as a spec-level value.
    pub closed spec fn spec_message(self) -> Seq<char> {
        self.msg@
    }

    /// Create a new error for the given code and message.
    pub fn new(code: ErrorCode, msg: &str) -> (r: Error)
        ensures
            r.spec_code() == code,
            r.spec_message() == msg@,
    {
        Error { code, msg: msg.to_owned() }
    }

    /// Generate an error that represents end of file.
    pub fn eof() -> (r: Error)
        ensures
            r.spec_code() == ErrorCode::Session(ERROR_CHANNEL_EOF_SENT),
            r.spec_message() == "end of file"@,
    {
        Error::new(ErrorCode::Session(ERROR_CHANNEL_EOF_SENT), "end of file")
    }

    /// Generate the error used when the engine reports a failure but no
    /// specific error was captured.
    pub fn unknown() -> (r: Error)
        ensures
            r.spec_code() == ErrorCode::Session(i32::MIN),
            r.spec_message() == "no other error listed"@,
    {
        Error::new(ErrorCode::Session(i32::MIN), "no other error listed")
    }

    /// Construct an error from a bare status code, using the static message
    /// table.
    ///
    /// This is the fallback used when the code being translated does not
    /// match what the engine currently reports as its last error, so that no
    /// stale message is attached to a mismatched code.
    pub fn from_errno(code: ErrorCode) -> (r: Error)
        ensures
            r.spec_code() == code,
            r.spec_message() == spec_errno_message(code),
    {
        let msg = match code {
            ErrorCode::Session(c) => session_message(c),
            ErrorCode::SFTP(c) => sftp_message(c),
        };
        Error::new(code, msg)
    }

    /// Get the message corresponding to this error.
    pub fn message(&self) -> (r: &str)
        ensures
            r@ == self.spec_message(),
    {
        self.msg.as_str()
    }

    /// Return the code for this error.
    pub fn code(&self) -> (r: ErrorCode)
        ensures
            r == self.spec_code(),
    {
        self.code
    }

    /// The coarse I/O kind for this error: would-block, timed-out and the
    /// subsystem's missing-object codes map to their dedicated kinds,
    /// everything else to `Other`.
    pub fn io_error_kind(&self) -> (r: IoErrorKind)
        ensures
            r == IoErrorKind::WouldBlock <==> self.spec_code() == ErrorCode::Session(ERROR_EAGAIN),
            r == IoErrorKind::TimedOut <==> self.spec_code() == ErrorCode::Session(ERROR_TIMEOUT),
            r == IoErrorKind::NotFound <==> (self.spec_code() == ErrorCode::SFTP(FX_NO_SUCH_FILE)
                || self.spec_code() == ErrorCode::SFTP(FX_NO_SUCH_PATH)),
            r == IoErrorKind::Other <==> (self.spec_code() != ErrorCode::Session(ERROR_EAGAIN)
                && self.spec_code() != ErrorCode::Session(ERROR_TIMEOUT)
                && self.spec_code() != ErrorCode::SFTP(FX_NO_SUCH_FILE)
                && self.spec_code() != ErrorCode::SFTP(FX_NO_SUCH_PATH)),
    {
        match self.code {
            ErrorCode::Session(c) => {
                if c == ERROR_EAGAIN {
                    IoErrorKind::WouldBlock
                } else if c == ERROR_TIMEOUT {
                    IoErrorKind::TimedOut
                } else {
                    IoErrorKind::Other
                }
            }
            ErrorCode::SFTP(c) => {
                if c == FX_NO_SUCH_FILE || c == FX_NO_SUCH_PATH {
                    IoErrorKind::NotFound
                } else {
                    IoErrorKind::Other
                }
            }
        }
    }
}

impl Error {
    /// Capture the engine's last error, if any, copying its message out of
    /// the engine's internal buffer before the next call can overwrite it.
    ///
    /// Returns nothing when the engine reports no last error.
    pub fn last_session_error_raw(eng: &crate::engine::Engine) -> (r: Option<Error>)
        ensures
            r is Some <==> eng.last_code != 0,
            r matches Some(e) ==> e.spec_code() == ErrorCode::Session(eng.last_code)
                && e.spec_message() == eng.last_msg@,
    {
        if eng.last_code == 0 {
            None
        } else {
            Some(Error { code: ErrorCode::Session(eng.last_code), msg: eng.last_msg.clone() })
        }
    }

    /// Build the error for a failing status code `rc`.
    ///
    /// The engine's stored message is used only when the engine still
    /// reports `rc` as its last error; otherwise the fixed message table
    /// supplies an approximation, so that no stale, mismatched description
    /// is attached to the code.
    pub fn from_session_error_raw(eng: &crate::engine::Engine, rc: i32) -> (r: Error)
        ensures
            r.spec_code() == ErrorCode::Session(rc),
            eng.last_code == rc ==> r.spec_message() == eng.last_msg@,
            eng.last_code != rc ==> r.spec_message() == spec_session_message(rc),
    {
        if eng.last_code != rc {
            Error::from_errno(ErrorCode::Session(rc))
        } else {
            Error { code: ErrorCode::Session(rc), msg: eng.last_msg.clone() }
        }
    }
}

} // verus!
