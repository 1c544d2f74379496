//! A verified rendition of a safe wrapper around a native SSH engine.
//!
//! The engine itself (transport, key exchange, channel windowing, the SFTP
//! packet protocol) is a stateful, single-threaded collaborator; this crate
//! verifies the wrapper logic that surrounds such an engine: reference-counted
//! sharing of one session among many dependent handles, serialized access to
//! the engine state, return-code-to-error translation with message snapshots,
//! string and path marshalling, grow-and-retry buffer loops, cursor-based
//! enumeration, and cleanup that is safe to run from a destructor.
//!
//! The engine is represented by an executable, deterministic test double
//! ([`engine::Engine`]) held inside the session cell, so every rule of the
//! wrapper is stated as a contract and proved.

use vstd::prelude::*;

pub use agent::{Agent, PublicKey};
pub use channel::{Channel, ExitSignal, ReadWindow, Stream, WriteWindow};
pub use error::{Error, ErrorCode};
pub use knownhosts::{Host, KnownHosts};
pub use listener::Listener;
pub use session::{
    BlockDirections, KeyboardInteractivePrompt, Prompt, ScpFileStat, Session, SessionCell,
};
pub use sftp::{File, FileStat, FileType, OpenType, SeekFrom, Sftp};

pub mod agent;
pub mod channel;
pub mod engine;
pub mod error;
pub mod knownhosts;
pub mod listener;
pub mod session;
pub mod sftp;
pub mod util;

verus! {

/// Stream id of the stderr substream for stream-related channel methods.
pub const EXTENDED_DATA_STDERR: i32 = 1;

/// How extended data (such as stderr) is handled on a channel.
#[derive(Clone, Copy, Debug, PartialEq, Eq, Structural)]
pub enum ExtendedData {
    /// Queue extended data for eventual reading.
    Normal,
    /// Treat extended data and ordinary data the same, merging the
    /// substreams first-in/first-out.
    Merge,
    /// Discard all extended data as it arrives.
    Ignore,
}

impl ExtendedData {
    /// The native code for this handling mode.
    pub open spec fn code(self) -> i32 {
        match self {
            ExtendedData::Normal => 0,
            ExtendedData::Merge => 1,
            ExtendedData::Ignore => 2,
        }
    }

    /// The native code for this handling mode.
    pub fn as_code(self) -> (r: i32)
        ensures
            r == self.code(),
    {
        match self {
            ExtendedData::Normal => 0,
            ExtendedData::Merge => 1,
            ExtendedData::Ignore => 2,
        }
    }
}

/// When passed to `Channel::flush` through a stream, flushes all extended
/// data substreams.
pub const FLUSH_EXTENDED_DATA: i32 = -1;

/// When passed to `Channel::flush` through a stream, flushes all substreams.
pub const FLUSH_ALL: i32 = -2;

/// Reason codes for a disconnect message.
#[derive(Clone, Copy, Debug, PartialEq, Eq, Structural)]
pub enum DisconnectCode {
    /// HostNotAllowedToConnect
    HostNotAllowedToConnect,
    /// ProtocolError
    ProtocolError,
    /// KeyExchangeFailed
    KeyExchangeFailed,
    /// Reserved
    Reserved,
    /// MacError
    MacError,
    /// CompressionError
    CompressionError,
    /// ServiceNotAvailable
    ServiceNotAvailable,
    /// ProtocolVersionNotSupported
    ProtocolVersionNotSupported,
    /// HostKeyNotVerifiable
    HostKeyNotVerifiable,
    /// ConnectionLost
    ConnectionLost,
    /// ByApplication
    ByApplication,
    /// TooManyConnections
    TooManyConnections,
    /// AuthCancelledByUser
    AuthCancelledByUser,
    /// NoMoreAuthMethodsAvailable
    NoMoreAuthMethodsAvailable,
    /// IllegalUserName
    IllegalUserName,
}

impl DisconnectCode {
    /// The native code of this value.
    pub open spec fn code(self) -> i32 {
        match self {
            DisconnectCode::HostNotAllowedToConnect => 1,
            DisconnectCode::ProtocolError => 2,
            DisconnectCode::KeyExchangeFailed => 3,
            DisconnectCode::Reserved => 4,
            DisconnectCode::MacError => 5,
            DisconnectCode::CompressionError => 6,
            DisconnectCode::ServiceNotAvailable => 7,
            DisconnectCode::ProtocolVersionNotSupported => 8,
            DisconnectCode::HostKeyNotVerifiable => 9,
            DisconnectCode::ConnectionLost => 10,
            DisconnectCode::ByApplication => 11,
            DisconnectCode::TooManyConnections => 12,
            DisconnectCode::AuthCancelledByUser => 13,
            DisconnectCode::NoMoreAuthMethodsAvailable => 14,
            DisconnectCode::IllegalUserName => 15,
        }
    }

    /// The native code of this value.
    pub fn as_code(self) -> (r: i32)
        ensures
            r == self.code(),
    {
        match self {
            DisconnectCode::HostNotAllowedToConnect => 1,
            DisconnectCode::ProtocolError => 2,
            DisconnectCode::KeyExchangeFailed => 3,
            DisconnectCode::Reserved => 4,
            DisconnectCode::MacError => 5,
            DisconnectCode::CompressionError => 6,
            DisconnectCode::ServiceNotAvailable => 7,
            DisconnectCode::ProtocolVersionNotSupported => 8,
            DisconnectCode::HostKeyNotVerifiable => 9,
            DisconnectCode::ConnectionLost => 10,
            DisconnectCode::ByApplication => 11,
            DisconnectCode::TooManyConnections => 12,
            DisconnectCode::AuthCancelledByUser => 13,
            DisconnectCode::NoMoreAuthMethodsAvailable => 14,
            DisconnectCode::IllegalUserName => 15,
        }
    }
}

/// Kinds of a remote host key.
#[derive(Clone, Copy, Debug, PartialEq, Eq, Structural)]
pub enum HostKeyType {
    /// Unknown
    Unknown,
    /// Rsa
    Rsa,
    /// Dss
    Dss,
    /// Ecdsa256
    Ecdsa256,
    /// Ecdsa384
    Ecdsa384,
    /// Ecdsa521
    Ecdsa521,
    /// Ed255219
    Ed255219,
}

impl HostKeyType {
    /// The native code of this value.
    pub open spec fn code(self) -> i32 {
        match self {
            HostKeyType::Unknown => 0,
            HostKeyType::Rsa => 1,
            HostKeyType::Dss => 2,
            HostKeyType::Ecdsa256 => 3,
            HostKeyType::Ecdsa384 => 4,
            HostKeyType::Ecdsa521 => 5,
            HostKeyType::Ed255219 => 6,
        }
    }

    /// The native code of this value.
    pub fn as_code(self) -> (r: i32)
        ensures
            r == self.code(),
    {
        match self {
            HostKeyType::Unknown => 0,
            HostKeyType::Rsa => 1,
            HostKeyType::Dss => 2,
            HostKeyType::Ecdsa256 => 3,
            HostKeyType::Ecdsa384 => 4,
            HostKeyType::Ecdsa521 => 5,
            HostKeyType::Ed255219 => 6,
        }
    }
}

impl HostKeyType {
    /// The host key kind for a native code; unknown codes decode to
    /// `Unknown`.
    pub open spec fn spec_from_code(code: i32) -> HostKeyType {
        if code == 1 {
            HostKeyType::Rsa
        } else if code == 2 {
            HostKeyType::Dss
        } else if code == 3 {
            HostKeyType::Ecdsa256
        } else if code == 4 {
            HostKeyType::Ecdsa384
        } else if code == 5 {
            HostKeyType::Ecdsa521
        } else if code == 6 {
            HostKeyType::Ed255219
        } else {
            HostKeyType::Unknown
        }
    }

    /// Decode the host key kind from a native code.
    pub fn from_code(code: i32) -> (r: HostKeyType)
        ensures
            r == HostKeyType::spec_from_code(code),
    {
        if code == 1 {
            HostKeyType::Rsa
        } else if code == 2 {
            HostKeyType::Dss
        } else if code == 3 {
            HostKeyType::Ecdsa256
        } else if code == 4 {
            HostKeyType::Ecdsa384
        } else if code == 5 {
            HostKeyType::Ecdsa521
        } else if code == 6 {
            HostKeyType::Ed255219
        } else {
            HostKeyType::Unknown
        }
    }
}

/// The negotiable transport method categories.
#[derive(Clone, Copy, Debug, PartialEq, Eq, Structural)]
pub enum MethodType {
    /// Kex
    Kex,
    /// HostKey
    HostKey,
    /// CryptCs
    CryptCs,
    /// CryptSc
    CryptSc,
    /// MacCs
    MacCs,
    /// MacSc
    MacSc,
    /// CompCs
    CompCs,
    /// CompSc
    CompSc,
    /// LangCs
    LangCs,
    /// LangSc
    LangSc,
}

impl MethodType {
    /// The native code of this value.
    pub open spec fn code(self) -> i32 {
        match self {
            MethodType::Kex => 0,
            MethodType::HostKey => 1,
            MethodType::CryptCs => 2,
            MethodType::CryptSc => 3,
            MethodType::MacCs => 4,
            MethodType::MacSc => 5,
            MethodType::CompCs => 6,
            MethodType::CompSc => 7,
            MethodType::LangCs => 8,
            MethodType::LangSc => 9,
        }
    }

    /// The native code of this value.
    pub fn as_code(self) -> (r: i32)
        ensures
            r == self.code(),
    {
        match self {
            MethodType::Kex => 0,
            MethodType::HostKey => 1,
            MethodType::CryptCs => 2,
            MethodType::CryptSc => 3,
            MethodType::MacCs => 4,
            MethodType::MacSc => 5,
            MethodType::CompCs => 6,
            MethodType::CompSc => 7,
            MethodType::LangCs => 8,
            MethodType::LangSc => 9,
        }
    }
}

/// Digest algorithms for the host key hash.
#[derive(Clone, Copy, Debug, PartialEq, Eq, Structural)]
pub enum HashType {
    /// Md5
    Md5,
    /// Sha1
    Sha1,
    /// Sha256
    Sha256,
}

impl HashType {
    /// The native code of this value.
    pub open spec fn code(self) -> i32 {
        match self {
            HashType::Md5 => 1,
            HashType::Sha1 => 2,
            HashType::Sha256 => 3,
        }
    }

    /// The native code of this value.
    pub fn as_code(self) -> (r: i32)
        ensures
            r == self.code(),
    {
        match self {
            HashType::Md5 => 1,
            HashType::Sha1 => 2,
            HashType::Sha256 => 3,
        }
    }
}

/// File kinds a known-hosts collection can be exchanged with.
#[derive(Clone, Copy, Debug, PartialEq, Eq, Structural)]
pub enum KnownHostFileKind {
    /// The OpenSSH known-hosts file format.
    OpenSSH,
}

/// Possible results of a check against a known-hosts collection.
#[derive(Clone, Copy, Debug, PartialEq, Eq, Structural)]
pub enum CheckResult {
    /// Host and key match an entry.
    Match,
    /// The host was found, but the key did not match.
    Mismatch,
    /// No entry for the host was found.
    NotFound,
    /// Something prevented the check from being made.
    Failure,
}

/// Key formats of a known-hosts entry.
#[derive(Clone, Copy, Debug, PartialEq, Eq, Structural)]
pub enum KnownHostKeyFormat {
    /// Unknown
    Unknown,
    /// Rsa1
    Rsa1,
    /// SshRsa
    SshRsa,
    /// SshDss
    SshDss,
    /// Ecdsa256
    Ecdsa256,
    /// Ecdsa384
    Ecdsa384,
    /// Ecdsa521
    Ecdsa521,
    /// Ed255219
    Ed255219,
}

impl KnownHostKeyFormat {
    /// The native code of this value.
    pub open spec fn flag(self) -> i32 {
        match self {
            KnownHostKeyFormat::Unknown => 15i32 << 18,
            KnownHostKeyFormat::Rsa1 => 1i32 << 18,
            KnownHostKeyFormat::SshRsa => 2i32 << 18,
            KnownHostKeyFormat::SshDss => 3i32 << 18,
            KnownHostKeyFormat::Ecdsa256 => 4i32 << 18,
            KnownHostKeyFormat::Ecdsa384 => 5i32 << 18,
            KnownHostKeyFormat::Ecdsa521 => 6i32 << 18,
            KnownHostKeyFormat::Ed255219 => 7i32 << 18,
        }
    }

    /// The native code of this value.
    pub fn as_flag(self) -> (r: i32)
        ensures
            r == self.flag(),
    {
        match self {
            KnownHostKeyFormat::Unknown => 15i32 << 18,
            KnownHostKeyFormat::Rsa1 => 1i32 << 18,
            KnownHostKeyFormat::SshRsa => 2i32 << 18,
            KnownHostKeyFormat::SshDss => 3i32 << 18,
            KnownHostKeyFormat::Ecdsa256 => 4i32 << 18,
            KnownHostKeyFormat::Ecdsa384 => 5i32 << 18,
            KnownHostKeyFormat::Ecdsa521 => 6i32 << 18,
            KnownHostKeyFormat::Ed255219 => 7i32 << 18,
        }
    }
}

impl KnownHostKeyFormat {
    /// The entry key format that records a host key of the given kind.
    pub open spec fn spec_from_host_key_type(t: HostKeyType) -> KnownHostKeyFormat {
        match t {
            HostKeyType::Unknown => KnownHostKeyFormat::Unknown,
            HostKeyType::Rsa => KnownHostKeyFormat::SshRsa,
            HostKeyType::Dss => KnownHostKeyFormat::SshDss,
            HostKeyType::Ecdsa256 => KnownHostKeyFormat::Ecdsa256,
            HostKeyType::Ecdsa384 => KnownHostKeyFormat::Ecdsa384,
            HostKeyType::Ecdsa521 => KnownHostKeyFormat::Ecdsa521,
            HostKeyType::Ed255219 => KnownHostKeyFormat::Ed255219,
        }
    }
}

impl vstd::std_specs::convert::FromSpecImpl<HostKeyType> for KnownHostKeyFormat {
    open spec fn obeys_from_spec() -> bool {
        true
    }

    open spec fn from_spec(t: HostKeyType) -> KnownHostKeyFormat {
        KnownHostKeyFormat::spec_from_host_key_type(t)
    }
}

impl From<HostKeyType> for KnownHostKeyFormat {
    /// The entry key format that records a host key of the given kind.
    fn from(host_type: HostKeyType) -> (r: KnownHostKeyFormat)
        ensures
            r == KnownHostKeyFormat::spec_from_host_key_type(host_type),
    {
        match host_type {
            HostKeyType::Unknown => KnownHostKeyFormat::Unknown,
            HostKeyType::Rsa => KnownHostKeyFormat::SshRsa,
            HostKeyType::Dss => KnownHostKeyFormat::SshDss,
            HostKeyType::Ecdsa256 => KnownHostKeyFormat::Ecdsa256,
            HostKeyType::Ecdsa384 => KnownHostKeyFormat::Ecdsa384,
            HostKeyType::Ecdsa521 => KnownHostKeyFormat::Ecdsa521,
            HostKeyType::Ed255219 => KnownHostKeyFormat::Ed255219,
        }
    }
}

/// The terminal mode opcodes of the protocol's PTY request encoding.
#[allow(non_camel_case_types)]
#[derive(Clone, Copy, Debug, PartialEq, Eq, Structural)]
pub enum PtyModeOpcode {
    /// Indicates end of options.
    TTY_OP_END,
    /// Interrupt character; 255 if none.
    VINTR,
    /// The quit character (sends SIGQUIT on POSIX systems).
    VQUIT,
    /// Erase the character to left of the cursor.
    VERASE,
    /// Kill the current input line.
    VKILL,
    /// End-of-file character (sends EOF from the terminal).
    VEOF,
    /// End-of-line character in addition to carriage return and/or linefeed.
    VEOL,
    /// Additional end-of-line character.
    VEOL2,
    /// Continues paused output (normally control-Q).
    VSTART,
    /// Pauses output (normally control-S).
    VSTOP,
    /// Suspends the current program.
    VSUSP,
    /// Another suspend character.
    VDSUSP,
    /// Reprints the current input line.
    VREPRINT,
    /// Erases a word left of cursor.
    VWERASE,
    /// Enter the next character typed literally, even if it is a special character.
    VLNEXT,
    /// Character to flush output.
    VFLUSH,
    /// Switch to a different shell layer.
    VSWTCH,
    /// Prints system status line (load, command, pid, etc).
    VSTATUS,
    /// Toggles the flushing of terminal output.
    VDISCARD,
    /// The ignore parity flag; 0 if this flag is false, 1 if it is true.
    IGNPAR,
    /// Mark parity and framing errors.
    PARMRK,
    /// Enable checking of parity errors.
    INPCK,
    /// Strip 8th bit off characters.
    ISTRIP,
    /// Map NL into CR on input.
    INLCR,
    /// Ignore CR on input.
    IGNCR,
    /// Map CR to NL on input.
    ICRNL,
    /// Translate uppercase characters to lowercase.
    IUCLC,
    /// Enable output flow control.
    IXON,
    /// Any char will restart after stop.
    IXANY,
    /// Enable input flow control.
    IXOFF,
    /// Ring bell on input queue full.
    IMAXBEL,
    /// Enable signals INTR, QUIT, [D]SUSP.
    ISIG,
    /// Canonicalize input lines.
    ICANON,
    /// Enable input and output of uppercase characters by preceding their lowercase equivalents with a backslash.
    XCASE,
    /// Enable echoing.
    ECHO,
    /// Visually erase chars.
    ECHOE,
    /// Kill character discards current line.
    ECHOK,
    /// Echo NL even if ECHO is off.
    ECHONL,
    /// Don't flush after interrupt.
    NOFLSH,
    /// Stop background jobs from output.
    TOSTOP,
    /// Enable extensions.
    IEXTEN,
    /// Echo control characters as caret-letter.
    ECHOCTL,
    /// Visual erase for line kill.
    ECHOKE,
    /// Retype pending input.
    PENDIN,
    /// Enable output processing.
    OPOST,
    /// Convert lowercase to uppercase.
    OLCUC,
    /// Map NL to CR-NL.
    ONLCR,
    /// Translate carriage return to newline (output).
    OCRNL,
    /// Translate newline to carriage return-newline (output).
    ONOCR,
    /// Newline performs a carriage return (output).
    ONLRET,
    /// 7 bit mode.
    CS7,
    /// 8 bit mode.
    CS8,
    /// Parity enable.
    PARENB,
    /// Odd parity, else even.
    PARODD,
    /// Specifies the input baud rate in bits per second.
    TTY_OP_ISPEED,
    /// Specifies the output baud rate in bits per second.
    TTY_OP_OSPEED,
}

impl PtyModeOpcode {
    /// The native code of this value.
    pub open spec fn opcode(self) -> u8 {
        match self {
            PtyModeOpcode::TTY_OP_END => 0,
            PtyModeOpcode::VINTR => 1,
            PtyModeOpcode::VQUIT => 2,
            PtyModeOpcode::VERASE => 3,
            PtyModeOpcode::VKILL => 4,
            PtyModeOpcode::VEOF => 5,
            PtyModeOpcode::VEOL => 6,
            PtyModeOpcode::VEOL2 => 7,
            PtyModeOpcode::VSTART => 8,
            PtyModeOpcode::VSTOP => 9,
            PtyModeOpcode::VSUSP => 10,
            PtyModeOpcode::VDSUSP => 11,
            PtyModeOpcode::VREPRINT => 12,
            PtyModeOpcode::VWERASE => 13,
            PtyModeOpcode::VLNEXT => 14,
            PtyModeOpcode::VFLUSH => 15,
            PtyModeOpcode::VSWTCH => 16,
            PtyModeOpcode::VSTATUS => 17,
            PtyModeOpcode::VDISCARD => 18,
            PtyModeOpcode::IGNPAR => 30,
            PtyModeOpcode::PARMRK => 31,
            PtyModeOpcode::INPCK => 32,
            PtyModeOpcode::ISTRIP => 33,
            PtyModeOpcode::INLCR => 34,
            PtyModeOpcode::IGNCR => 35,
            PtyModeOpcode::ICRNL => 36,
            PtyModeOpcode::IUCLC => 37,
            PtyModeOpcode::IXON => 38,
            PtyModeOpcode::IXANY => 39,
            PtyModeOpcode::IXOFF => 49,
            PtyModeOpcode::IMAXBEL => 41,
            PtyModeOpcode::ISIG => 50,
            PtyModeOpcode::ICANON => 51,
            PtyModeOpcode::XCASE => 52,
            PtyModeOpcode::ECHO => 53,
            PtyModeOpcode::ECHOE => 54,
            PtyModeOpcode::ECHOK => 55,
            PtyModeOpcode::ECHONL => 56,
            PtyModeOpcode::NOFLSH => 57,
            PtyModeOpcode::TOSTOP => 58,
            PtyModeOpcode::IEXTEN => 59,
            PtyModeOpcode::ECHOCTL => 60,
            PtyModeOpcode::ECHOKE => 61,
            PtyModeOpcode::PENDIN => 62,
            PtyModeOpcode::OPOST => 70,
            PtyModeOpcode::OLCUC => 71,
            PtyModeOpcode::ONLCR => 72,
            PtyModeOpcode::OCRNL => 73,
            PtyModeOpcode::ONOCR => 74,
            PtyModeOpcode::ONLRET => 75,
            PtyModeOpcode::CS7 => 90,
            PtyModeOpcode::CS8 => 91,
            PtyModeOpcode::PARENB => 92,
            PtyModeOpcode::PARODD => 93,
            PtyModeOpcode::TTY_OP_ISPEED => 128,
            PtyModeOpcode::TTY_OP_OSPEED => 129,
        }
    }

    /// The native code of this value.
    pub fn as_u8(self) -> (r: u8)
        ensures
            r == self.opcode(),
    {
        match self {
            PtyModeOpcode::TTY_OP_END => 0,
            PtyModeOpcode::VINTR => 1,
            PtyModeOpcode::VQUIT => 2,
            PtyModeOpcode::VERASE => 3,
            PtyModeOpcode::VKILL => 4,
            PtyModeOpcode::VEOF => 5,
            PtyModeOpcode::VEOL => 6,
            PtyModeOpcode::VEOL2 => 7,
            PtyModeOpcode::VSTART => 8,
            PtyModeOpcode::VSTOP => 9,
            PtyModeOpcode::VSUSP => 10,
            PtyModeOpcode::VDSUSP => 11,
            PtyModeOpcode::VREPRINT => 12,
            PtyModeOpcode::VWERASE => 13,
            PtyModeOpcode::VLNEXT => 14,
            PtyModeOpcode::VFLUSH => 15,
            PtyModeOpcode::VSWTCH => 16,
            PtyModeOpcode::VSTATUS => 17,
            PtyModeOpcode::VDISCARD => 18,
            PtyModeOpcode::IGNPAR => 30,
            PtyModeOpcode::PARMRK => 31,
            PtyModeOpcode::INPCK => 32,
            PtyModeOpcode::ISTRIP => 33,
            PtyModeOpcode::INLCR => 34,
            PtyModeOpcode::IGNCR => 35,
            PtyModeOpcode::ICRNL => 36,
            PtyModeOpcode::IUCLC => 37,
            PtyModeOpcode::IXON => 38,
            PtyModeOpcode::IXANY => 39,
            PtyModeOpcode::IXOFF => 49,
            PtyModeOpcode::IMAXBEL => 41,
            PtyModeOpcode::ISIG => 50,
            PtyModeOpcode::ICANON => 51,
            PtyModeOpcode::XCASE => 52,
            PtyModeOpcode::ECHO => 53,
            PtyModeOpcode::ECHOE => 54,
            PtyModeOpcode::ECHOK => 55,
            PtyModeOpcode::ECHONL => 56,
            PtyModeOpcode::NOFLSH => 57,
            PtyModeOpcode::TOSTOP => 58,
            PtyModeOpcode::IEXTEN => 59,
            PtyModeOpcode::ECHOCTL => 60,
            PtyModeOpcode::ECHOKE => 61,
            PtyModeOpcode::PENDIN => 62,
            PtyModeOpcode::OPOST => 70,
            PtyModeOpcode::OLCUC => 71,
            PtyModeOpcode::ONLCR => 72,
            PtyModeOpcode::OCRNL => 73,
            PtyModeOpcode::ONOCR => 74,
            PtyModeOpcode::ONLRET => 75,
            PtyModeOpcode::CS7 => 90,
            PtyModeOpcode::CS8 => 91,
            PtyModeOpcode::PARENB => 92,
            PtyModeOpcode::PARODD => 93,
            PtyModeOpcode::TTY_OP_ISPEED => 128,
            PtyModeOpcode::TTY_OP_OSPEED => 129,
        }
    }
}

/// An opcode for setting a PTY terminal mode: one of the protocol's
/// standard opcodes, or an extended raw opcode.
#[derive(Clone, Copy, Debug, PartialEq, Eq, Structural)]
pub enum ExtensiblePtyModeOpcode {
    /// One of the standard opcodes.
    Mode(PtyModeOpcode),
    /// An opcode not covered by the standard set.
    Extended(u8),
}

impl ExtensiblePtyModeOpcode {
    /// The raw opcode byte.
    pub open spec fn spec_opcode(self) -> u8 {
        match self {
            ExtensiblePtyModeOpcode::Mode(m) => m.opcode(),
            ExtensiblePtyModeOpcode::Extended(op) => op,
        }
    }

    /// The raw opcode byte.
    pub fn as_opcode(&self) -> (r: u8)
        ensures
            r == self.spec_opcode(),
    {
        match self {
            ExtensiblePtyModeOpcode::Mode(m) => m.as_u8(),
            ExtensiblePtyModeOpcode::Extended(op) => *op,
        }
    }
}

/// Encodes modes for PTY allocation requests: a flat byte stream of
/// (opcode, 32-bit big-endian value) pairs, closed by the end marker.
#[derive(Debug)]
pub struct PtyModes {
    data: Vec<u8>,
}

/// The five-byte encoding of one mode: the opcode followed by the value in
/// big-endian byte order.
pub open spec fn spec_mode_encoding(op: u8, value: u32) -> Seq<u8> {
    seq![
        op,
        ((value >> 24) & 0xff) as u8,
        ((value >> 16) & 0xff) as u8,
        ((value >> 8) & 0xff) as u8,
        (value & 0xff) as u8,
    ]
}

impl PtyModes {
    /// The bytes accumulated so far, as a spec-level value.
    pub closed spec fn spec_data(self) -> Seq<u8> {
        self.data@
    }

    /// Construct an empty mode encoding.
    pub fn new() -> (r: PtyModes)
        ensures
            r.spec_data() == Seq::<u8>::empty(),
    {
        PtyModes { data: Vec::new() }
    }

    /// Set a mode to an arbitrary 32-bit value.
    pub fn set_u32(&mut self, option: ExtensiblePtyModeOpcode, value: u32)
        ensures
            final(self).spec_data() == old(self).spec_data() + spec_mode_encoding(
                option.spec_opcode(),
                value,
            ),
    {
        self.data.push(option.as_opcode());
        self.data.push(((value >> 24) & 0xff) as u8);
        self.data.push(((value >> 16) & 0xff) as u8);
        self.data.push(((value >> 8) & 0xff) as u8);
        self.data.push((value & 0xff) as u8);
        proof {
            assert(self.data@ =~= old(self).data@ + spec_mode_encoding(
                option.spec_opcode(),
                value,
            ));
        }
    }

    /// Set a mode to a boolean value, encoded as 0 or 1.
    pub fn set_boolean(&mut self, option: ExtensiblePtyModeOpcode, value: bool)
        ensures
            final(self).spec_data() == old(self).spec_data() + spec_mode_encoding(
                option.spec_opcode(),
                if value {
                    1u32
                } else {
                    0u32
                },
            ),
    {
        self.set_u32(option, if value { 1 } else { 0 })
    }

    /// Set a mode to a character value; an absent character encodes as 255
    /// to mark the mode disabled.
    pub fn set_character(&mut self, option: ExtensiblePtyModeOpcode, c: Option<char>)
        ensures
            final(self).spec_data() == old(self).spec_data() + spec_mode_encoding(
                option.spec_opcode(),
                match c {
                    Some(ch) => ch as u32,
                    None => 255u32,
                },
            ),
    {
        let v: u32 = match c {
            Some(ch) => ch as u32,
            None => 255,
        };
        self.set_u32(option, v)
    }

    /// Finish accumulating modes: append the end marker and hand back the
    /// encoded byte stream.
    pub fn finish(self) -> (r: Vec<u8>)
        ensures
            r@ == self.spec_data().push(0u8),
    {
        let mut data = self.data;
        data.push(0u8);
        data
    }
}

/// Initialize the engine library.
///
/// The native library wants one process-wide initialization call before any
/// session is created, guarded so it runs at most once. The double keeps no
/// process-wide state, so initialization is a no-op here; the call is kept so
/// callers can follow the same protocol they would use against the native
/// engine. It may be called any number of times.
pub fn init()
    ensures
        true,
{
}

} // verus!
