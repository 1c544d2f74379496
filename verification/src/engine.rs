//! An executable, deterministic double of the native SSH engine.
//!
//! The real engine is a single-threaded, opaque C library driven through
//! handle-based calls that return status codes (negative on failure) or
//! sentinel null results, and that records its last error in an internal
//! buffer which the next call overwrites. This module models that collaborator
//! as plain verified data so the wrapper layer around it can be verified: the
//! wrapper's contracts are stated against this state, and tests drive the
//! wrapper against it.
//!
//! Scripting knobs (`fail_next`, `wouldblock`, the staged remote files and
//! keys) exist so tests can steer the double into the failure paths a real
//! engine produces; every operation's contract covers those paths explicitly.

use vstd::prelude::*;
use crate::error::{ERROR_EAGAIN, ERROR_INVAL, ERROR_SOCKET_DISCONNECT, ERROR_AUTHENTICATION_FAILED, ERROR_CHANNEL_FAILURE, ERROR_SCP_PROTOCOL, ERROR_SFTP_PROTOCOL, ERROR_BUFFER_TOO_SMALL, FX_NO_SUCH_FILE, FX_FILE_ALREADY_EXISTS, ERROR_BAD_USE, ERROR_CHANNEL_UNKNOWN, session_message, spec_session_message};

verus! {

/// Direction bit reported while an operation would block: inbound traffic.
pub const SESSION_BLOCK_INBOUND: i32 = 1;

/// Direction bit reported while an operation would block: outbound traffic.
pub const SESSION_BLOCK_OUTBOUND: i32 = 2;

/// Both direction bits at once.
pub const SESSION_BLOCK_BOTH: i32 = 3;

/// State the engine keeps for one open channel.
pub struct ChannelSlot {
    /// The native channel structure is still allocated (until `channel_free`).
    pub alive: bool,
    /// Channel type requested at open ("session", "direct-tcpip", ...).
    pub kind: Vec<u8>,
    /// Receive window size, adjustable after open.
    pub window_size: u32,
    /// Maximum packet size fixed at open.
    pub packet_size: u32,
    /// Process service started on the channel ("exec", "shell", "subsystem").
    pub started: Option<Vec<u8>>,
    /// Environment variables set on the channel.
    pub env: Vec<(Vec<u8>, Vec<u8>)>,
    /// Terminal name of the requested PTY, if any.
    pub pty_term: Option<Vec<u8>>,
    /// Encoded terminal modes handed over with the PTY request.
    pub pty_modes: Vec<u8>,
    /// PTY dimensions (width, height, width in px, height in px).
    pub pty_size: (u32, u32, u32, u32),
    /// How extended data is handled (normal, merge, ignore).
    pub ext_mode: i32,
    /// Bytes the remote side delivers on the main stream.
    pub data: Vec<u8>,
    /// How much of `data` has been read.
    pub read_pos: usize,
    /// Bytes the remote side delivers on the extended (stderr) stream.
    pub ext_data: Vec<u8>,
    /// How much of `ext_data` has been read.
    pub ext_read_pos: usize,
    /// Bytes written locally to the channel (all streams).
    pub written: Vec<u8>,
    /// The remote side has signalled end of stream.
    pub remote_eof: bool,
    /// We have signalled end of stream to the remote side.
    pub eof_sent: bool,
    /// A close message has been sent for the channel.
    pub local_closed: bool,
    /// The remote side has closed the channel.
    pub remote_closed: bool,
    /// Exit status reported by the remote process.
    pub exit_status: i32,
    /// Exit signal name reported by the remote process, if any.
    pub exit_signal: Option<String>,
    /// Error message accompanying the exit signal, if any.
    pub exit_error_message: Option<String>,
    /// Language tag accompanying the exit signal, if any.
    pub exit_lang_tag: Option<String>,
}

/// State the engine keeps for one SFTP subsystem instance.
#[derive(Clone, Copy)]
pub struct SftpSlot {
    /// The subsystem is still allocated (until `sftp_shutdown`).
    pub alive: bool,
    /// Last status code of the SFTP secondary error namespace.
    pub last_fx: i32,
}

/// State the engine keeps for one SFTP file or directory handle.
pub struct FileSlot {
    /// The handle is still allocated (until `sftp_close_handle`).
    pub alive: bool,
    /// The subsystem this handle belongs to.
    pub sftp: usize,
    /// The handle is a directory handle.
    pub is_dir: bool,
    /// File contents visible through this handle.
    pub data: Vec<u8>,
    /// Current read/write position.
    pub pos: usize,
    /// Attributes of the opened object.
    pub attrs: SftpAttributes,
    /// Entries a directory handle enumerates, in order.
    pub dir_entries: Vec<(Vec<u8>, SftpAttributes)>,
    /// Enumeration cursor of a directory handle.
    pub dir_pos: usize,
}

/// State the engine keeps for one agent connection.
pub struct AgentSlot {
    /// The agent structure is still allocated.
    pub alive: bool,
    /// A connection to the agent is established.
    pub connected: bool,
    /// The identity list fetched by the last `agent_list_identities`, if any.
    pub listed: Option<Vec<(Vec<u8>, String)>>,
}

/// One entry of a known-hosts collection.
pub struct HostEntry {
    /// Plain-text host name; absent for hashed entries.
    pub name: Option<String>,
    /// Key material in printable form.
    pub key: String,
    /// Key format flags recorded with the entry.
    pub fmt: i32,
}

/// State the engine keeps for one known-hosts collection.
pub struct KnownHostsSlot {
    /// The collection is still allocated.
    pub alive: bool,
    /// The entries, in insertion order.
    pub entries: Vec<HostEntry>,
}

/// State the engine keeps for one remote port forwarding listener.
pub struct ListenerSlot {
    /// The listener is still allocated (until `forward_cancel`).
    pub alive: bool,
    /// The remote port the listener is bound to.
    pub port: u16,
    /// Connections queued by the remote side, waiting to be accepted.
    pub queued: u64,
}

/// A file staged on the double's remote side.
pub struct RemoteFile {
    /// Path of the file.
    pub path: Vec<u8>,
    /// Contents of the file.
    pub data: Vec<u8>,
    /// Permission bits of the file.
    pub mode: u32,
    /// Modification time of the file.
    pub mtime: u64,
    /// Access time of the file.
    pub atime: u64,
}

/// The attribute block the engine reads and writes for SFTP objects.
///
/// `flags` records which of the remaining fields are valid, using the
/// `SFTP_ATTR_*` bits.
#[derive(Clone, Copy, Debug, PartialEq, Eq, Structural)]
pub struct SftpAttributes {
    /// Validity bits for the remaining fields.
    pub flags: u64,
    /// Size in bytes.
    pub filesize: u64,
    /// Owner id.
    pub uid: u64,
    /// Group id.
    pub gid: u64,
    /// Permission bits.
    pub permissions: u64,
    /// Access time.
    pub atime: u64,
    /// Modification time.
    pub mtime: u64,
}

/// Attribute validity bit: `filesize` is set.
pub const SFTP_ATTR_SIZE: u64 = 0x00000001;

/// Attribute validity bit: `uid` and `gid` are set.
pub const SFTP_ATTR_UIDGID: u64 = 0x00000002;

/// Attribute validity bit: `permissions` is set.
pub const SFTP_ATTR_PERMISSIONS: u64 = 0x00000004;

/// Attribute validity bit: `atime` and `mtime` are set.
pub const SFTP_ATTR_ACMODTIME: u64 = 0x00000008;

/// The deterministic engine double. One value of this type stands for one
/// native engine instance, that is one logical SSH connection.
pub struct Engine {
    /// Calls that cannot complete immediately block instead of failing.
    pub blocking: bool,
    /// Timeout for blocking calls in milliseconds; 0 means none.
    pub timeout_ms: u32,
    /// SIGPIPE handling flag.
    pub sigpipe: bool,
    /// Compression negotiation flag.
    pub compress: bool,
    /// Client banner configured for the next handshake, if any.
    pub banner: Option<Vec<u8>>,
    /// Banner presented by the remote side after the handshake.
    pub remote_banner: Vec<u8>,
    /// Trace level bitmask.
    pub trace_flags: i32,
    /// Keepalive: whether keepalive messages request a reply.
    pub keepalive_want_reply: bool,
    /// Keepalive interval in seconds; 0 disables keepalives.
    pub keepalive_interval: u32,
    /// Method preferences recorded per method type.
    pub method_prefs: Vec<(i32, Vec<u8>)>,
    /// The handshake has completed on the attached socket.
    pub handshaked: bool,
    /// The socket the handshake ran on, if any.
    pub socket: Option<i64>,
    /// A user authentication has succeeded.
    pub authenticated: bool,
    /// Code of the last failure, 0 when none; overwritten by the next failure.
    pub last_code: i32,
    /// Message of the last failure; only valid until the next engine call.
    pub last_msg: String,
    /// Direction bits a blocked caller has to wait for.
    pub block_dirs: i32,
    /// Host key material presented by the remote side.
    pub host_key: Vec<u8>,
    /// Kind of the remote host key.
    pub host_key_kind: i32,
    /// Digest of the remote host key, when available.
    pub host_key_hash: Option<Vec<u8>>,
    /// Instruction text of the keyboard-interactive challenge.
    pub kbd_instruction: String,
    /// Prompts of the keyboard-interactive challenge (text, echo flag).
    pub kbd_prompts: Vec<(String, bool)>,
    /// Responses the double accepts for the challenge.
    pub kbd_expected: Vec<String>,
    /// Output a started process service delivers on the main stream.
    pub exec_output: Vec<u8>,
    /// Exit status a started process service reports.
    pub exec_status: i32,
    /// Identities the remote agent offers.
    pub agent_keys: Vec<(Vec<u8>, String)>,
    /// Algorithm names the engine supports, reported per method category.
    pub algs: Vec<String>,
    /// Files staged on the remote side.
    pub remote_files: Vec<RemoteFile>,
    /// Directories staged on the remote side.
    pub remote_dirs: Vec<Vec<u8>>,
    /// Symbolic links staged on the remote side (path, target).
    pub remote_links: Vec<(Vec<u8>, Vec<u8>)>,
    /// Channel table; indices are the handles given out.
    pub channels: Vec<ChannelSlot>,
    /// SFTP subsystem table.
    pub sftps: Vec<SftpSlot>,
    /// SFTP file handle table.
    pub files: Vec<FileSlot>,
    /// Agent table.
    pub agents: Vec<AgentSlot>,
    /// Known-hosts collection table.
    pub knownhosts: Vec<KnownHostsSlot>,
    /// Listener table.
    pub listeners: Vec<ListenerSlot>,
    /// Scripted failure: the next fallible call fails with this code/message.
    pub fail_next: Option<(i32, String)>,
    /// Scripted would-block replies served while in non-blocking mode.
    pub wouldblock: u64,
    /// Number of channel read calls that actually reached the engine.
    pub read_calls: u64,
    /// Number of fixed-buffer readlink-style attempts the engine served.
    pub sftp_calls: u64,
}

impl Engine {
    /// Allocate a fresh engine instance: blocking, nothing negotiated,
    /// no last error, empty tables.
    pub fn new() -> (r: Engine)
        ensures
            r.blocking,
            r.timeout_ms == 0,
            !r.sigpipe,
            !r.compress,
            r.banner is None,
            !r.handshaked,
            r.socket is None,
            !r.authenticated,
            r.last_code == 0,
            r.last_msg@ == Seq::<char>::empty(),
            r.block_dirs == 0,
            r.channels@.len() == 0,
            r.sftps@.len() == 0,
            r.files@.len() == 0,
            r.agents@.len() == 0,
            r.knownhosts@.len() == 0,
            r.listeners@.len() == 0,
            r.remote_files@.len() == 0,
            r.remote_dirs@.len() == 0,
            r.remote_links@.len() == 0,
            r.agent_keys@.len() == 0,
            r.kbd_prompts@.len() == 0,
            r.kbd_expected@.len() == 0,
            r.fail_next is None,
            r.wouldblock == 0,
            r.read_calls == 0,
            r.sftp_calls == 0,
            r.exec_status == 0,
            r.exec_output@.len() == 0,
            r.method_prefs@.len() == 0,
    {
        Engine {
            blocking: true,
            timeout_ms: 0,
            sigpipe: false,
            compress: false,
            banner: None,
            remote_banner: Vec::new(),
            trace_flags: 0,
            keepalive_want_reply: false,
            keepalive_interval: 0,
            method_prefs: Vec::new(),
            handshaked: false,
            socket: None,
            authenticated: false,
            last_code: 0,
            last_msg: String::new(),
            block_dirs: 0,
            host_key: Vec::new(),
            host_key_kind: 0,
            host_key_hash: None,
            kbd_instruction: String::new(),
            kbd_prompts: Vec::new(),
            kbd_expected: Vec::new(),
            exec_output: Vec::new(),
            exec_status: 0,
            agent_keys: Vec::new(),
            algs: Vec::new(),
            remote_files: Vec::new(),
            remote_dirs: Vec::new(),
            remote_links: Vec::new(),
            channels: Vec::new(),
            sftps: Vec::new(),
            files: Vec::new(),
            agents: Vec::new(),
            knownhosts: Vec::new(),
            listeners: Vec::new(),
            fail_next: None,
            wouldblock: 0,
            read_calls: 0,
            sftp_calls: 0,
        }
    }

    /// Only the error-reporting fields and the scripting knobs of `post`
    /// may differ from `pre`; everything observable is unchanged.
    pub open spec fn spec_only_err_changed(pre: Engine, post: Engine) -> bool {
        post == (Engine {
            last_code: post.last_code,
            last_msg: post.last_msg,
            block_dirs: post.block_dirs,
            fail_next: post.fail_next,
            wouldblock: post.wouldblock,
            ..pre
        })
    }

    /// A counter after one more event, saturating at its maximum.
    pub open spec fn spec_bump(c: u64) -> u64 {
        if c < u64::MAX {
            (c + 1) as u64
        } else {
            c
        }
    }

    /// A scripted failure is pending.
    pub open spec fn spec_scripted(self) -> bool {
        self.fail_next is Some
    }

    /// The code of the pending scripted failure.
    pub open spec fn spec_script_code(self) -> i32 {
        self.fail_next.unwrap().0
    }

    /// The engine state after a pending scripted failure has fired.
    pub open spec fn spec_after_script(self) -> Engine {
        Engine {
            fail_next: None,
            last_code: self.fail_next.unwrap().0,
            last_msg: self.fail_next.unwrap().1,
            ..self
        }
    }

    /// Record a failure in the last-error buffer and return its code.
    fn set_err(&mut self, code: i32, msg: &str) -> (r: i32)
        ensures
            r == code,
            *final(self) == (Engine {
                last_code: code,
                last_msg: final(self).last_msg,
                ..*old(self)
            }),
            final(self).last_msg@ == msg@,
    {
        self.last_code = code;
        self.last_msg = msg.to_owned();
        code
    }

    /// Record a failure using the fixed message table.
    fn fail(&mut self, code: i32) -> (r: i32)
        ensures
            r == code,
            *final(self) == (Engine {
                last_code: code,
                last_msg: final(self).last_msg,
                ..*old(self)
            }),
            final(self).last_msg@ == spec_session_message(code),
    {
        let m = session_message(code);
        self.set_err(code, m)
    }

    /// Consume a pending scripted failure, if any, recording it as the
    /// last error.
    fn take_scripted(&mut self) -> (r: Option<i32>)
        ensures
            r is Some <==> old(self).spec_scripted(),
            r is Some ==> r.unwrap() == old(self).spec_script_code()
                && *final(self) == old(self).spec_after_script(),
            r is None ==> *final(self) == *old(self),
    {
        match self.fail_next.take() {
            Some(p) => {
                self.last_code = p.0;
                self.last_msg = p.1;
                Some(p.0)
            }
            None => None,
        }
    }

    /// A would-block reply is due: the session is in non-blocking mode and a
    /// scripted would-block is queued.
    pub open spec fn spec_wouldblock_due(self) -> bool {
        !self.blocking && self.wouldblock > 0
    }

    /// Serve a due would-block reply: record the would-block error, note the
    /// direction to wait for, and consume one queued reply.
    fn take_wouldblock(&mut self) -> (r: bool)
        ensures
            r == old(self).spec_wouldblock_due(),
            r ==> *final(self) == (Engine {
                wouldblock: (old(self).wouldblock - 1) as u64,
                last_code: ERROR_EAGAIN,
                last_msg: final(self).last_msg,
                block_dirs: SESSION_BLOCK_INBOUND,
                ..*old(self)
            }) && final(self).last_msg@ == spec_session_message(ERROR_EAGAIN),
            !r ==> *final(self) == *old(self),
    {
        if !self.blocking && self.wouldblock > 0 {
            self.wouldblock = self.wouldblock - 1;
            self.block_dirs = SESSION_BLOCK_INBOUND;
            let m = session_message(ERROR_EAGAIN);
            let _ = self.set_err(ERROR_EAGAIN, m);
            true
        } else {
            false
        }
    }
}

/// Session flag selector: SIGPIPE handling.
pub const FLAG_SIGPIPE: i32 = 1;

/// Session flag selector: compression negotiation.
pub const FLAG_COMPRESS: i32 = 2;

/// Element-wise equality of two string lists, by view.
fn strings_match(a: &Vec<String>, b: &Vec<String>) -> (r: bool)
    ensures
        r == (a@.len() == b@.len() && (forall|i: int|
            0 <= i < a@.len() ==> (#[trigger] a@[i])@ == b@[i]@)),
{
    if a.len() != b.len() {
        return false;
    }
    let mut i: usize = 0;
    while i < a.len()
        invariant
            i <= a@.len(),
            a@.len() == b@.len(),
            forall|j: int| 0 <= j < i ==> (#[trigger] a@[j])@ == b@[j]@,
        decreases a@.len() - i,
    {
        let same = a[i] == b[i];
        if !same {
            return false;
        }
        i = i + 1;
    }
    true
}

impl Engine {
    /// Set or clear blocking mode.
    pub fn set_blocking(&mut self, blocking: bool)
        ensures
            *final(self) == (Engine { blocking, ..*old(self) }),
    {
        self.blocking = blocking;
    }

    /// Set the timeout for blocking calls, in milliseconds.
    pub fn set_timeout(&mut self, timeout_ms: u32)
        ensures
            *final(self) == (Engine { timeout_ms, ..*old(self) }),
    {
        self.timeout_ms = timeout_ms;
    }

    /// Set the trace level bitmask.
    pub fn trace(&mut self, bitmask: i32)
        ensures
            *final(self) == (Engine { trace_flags: bitmask, ..*old(self) }),
    {
        self.trace_flags = bitmask;
    }

    /// Set a session flag. The engine knows the SIGPIPE and compression
    /// flags; any other selector is invalid.
    pub fn session_flag(&mut self, flag: i32, value: bool) -> (r: i32)
        ensures
            flag == FLAG_SIGPIPE ==> r == 0 && *final(self) == (Engine {
                sigpipe: value,
                ..*old(self)
            }),
            flag == FLAG_COMPRESS ==> r == 0 && *final(self) == (Engine {
                compress: value,
                ..*old(self)
            }),
            flag != FLAG_SIGPIPE && flag != FLAG_COMPRESS ==> r == ERROR_INVAL
                && *final(self) == (Engine {
                last_code: ERROR_INVAL,
                last_msg: final(self).last_msg,
                ..*old(self)
            }),
    {
        if flag == FLAG_SIGPIPE {
            self.sigpipe = value;
            0
        } else if flag == FLAG_COMPRESS {
            self.compress = value;
            0
        } else {
            self.fail(ERROR_INVAL)
        }
    }

    /// Record the client banner to present at the next handshake.
    pub fn banner_set(&mut self, banner: Vec<u8>) -> (r: i32)
        ensures
            old(self).spec_scripted() ==> r == old(self).spec_script_code()
                && *final(self) == old(self).spec_after_script(),
            !old(self).spec_scripted() ==> r == 0 && *final(self) == (Engine {
                banner: Some(banner),
                ..*old(self)
            }),
    {
        match self.take_scripted() {
            Some(c) => c,
            None => {
                self.banner = Some(banner);
                0
            }
        }
    }

    /// Configure keepalive messages. An interval of 1 is treated as 2 to
    /// avoid a busy loop.
    pub fn keepalive_config(&mut self, want_reply: bool, interval: u32)
        ensures
            *final(self) == (Engine {
                keepalive_want_reply: want_reply,
                keepalive_interval: if interval == 1 { 2u32 } else { interval },
                ..*old(self)
            }),
    {
        let interval = if interval == 1 { 2 } else { interval };
        self.keepalive_want_reply = want_reply;
        self.keepalive_interval = interval;
    }

    /// Send a keepalive message if one is due; returns the number of seconds
    /// the caller can sleep before calling again.
    pub fn keepalive_send(&mut self) -> (r: Result<u32, i32>)
        ensures
            old(self).spec_scripted() ==> r == Err::<u32, i32>(old(self).spec_script_code())
                && *final(self) == old(self).spec_after_script(),
            !old(self).spec_scripted() ==> r == Ok::<u32, i32>(old(self).keepalive_interval)
                && *final(self) == *old(self),
    {
        match self.take_scripted() {
            Some(c) => Err(c),
            None => Ok(self.keepalive_interval),
        }
    }

    /// Record a method preference list for one method type.
    pub fn method_pref(&mut self, method_type: i32, prefs: Vec<u8>) -> (r: i32)
        ensures
            old(self).spec_scripted() ==> r == old(self).spec_script_code()
                && *final(self) == old(self).spec_after_script(),
            !old(self).spec_scripted() ==> r == 0
                && final(self).method_prefs@ == old(self).method_prefs@.push(
                (method_type, prefs),
            ) && *final(self) == (Engine {
                method_prefs: final(self).method_prefs,
                ..*old(self)
            }),
    {
        match self.take_scripted() {
            Some(c) => c,
            None => {
                self.method_prefs.push((method_type, prefs));
                0
            }
        }
    }

    /// Run the transport handshake over the given socket. The double's
    /// handshake succeeds unless a failure is scripted.
    pub fn handshake(&mut self, socket: i64) -> (r: i32)
        ensures
            old(self).spec_scripted() ==> r == old(self).spec_script_code()
                && *final(self) == old(self).spec_after_script(),
            !old(self).spec_scripted() ==> r == 0 && *final(self) == (Engine {
                handshaked: true,
                socket: Some(socket),
                ..*old(self)
            }),
    {
        match self.take_scripted() {
            Some(c) => c,
            None => {
                self.handshaked = true;
                self.socket = Some(socket);
                0
            }
        }
    }

    /// Send a disconnect message and tear the transport down.
    pub fn disconnect(&mut self, reason: i32, description: Vec<u8>, lang: Vec<u8>) -> (r: i32)
        ensures
            old(self).spec_scripted() ==> r == old(self).spec_script_code()
                && *final(self) == old(self).spec_after_script(),
            !old(self).spec_scripted() ==> r == 0 && *final(self) == (Engine {
                handshaked: false,
                authenticated: false,
                ..*old(self)
            }),
    {
        let _ = reason;
        let _ = description;
        let _ = lang;
        match self.take_scripted() {
            Some(c) => c,
            None => {
                self.handshaked = false;
                self.authenticated = false;
                0
            }
        }
    }

    /// Authenticate a user. The double accepts any credential-based attempt
    /// (password, key file, key from memory, host-based, agent) once the
    /// handshake is done; failures are produced by scripting.
    pub fn userauth(&mut self, username: &Vec<u8>) -> (r: i32)
        ensures
            old(self).spec_scripted() ==> r == old(self).spec_script_code()
                && *final(self) == old(self).spec_after_script(),
            !old(self).spec_scripted() && !old(self).handshaked ==> r == ERROR_SOCKET_DISCONNECT
                && *final(self) == (Engine {
                last_code: ERROR_SOCKET_DISCONNECT,
                last_msg: final(self).last_msg,
                ..*old(self)
            }) && final(self).last_msg@ == spec_session_message(ERROR_SOCKET_DISCONNECT),
            !old(self).spec_scripted() && old(self).handshaked ==> r == 0 && *final(self)
                == (Engine { authenticated: true, ..*old(self) }),
    {
        let _ = username;
        match self.take_scripted() {
            Some(c) => c,
            None => {
                if !self.handshaked {
                    self.fail(ERROR_SOCKET_DISCONNECT)
                } else {
                    self.authenticated = true;
                    0
                }
            }
        }
    }

    /// The responses match the expected answers of the scripted challenge.
    pub open spec fn spec_kbd_ok(self, responses: Seq<String>) -> bool {
        &&& responses.len() == self.kbd_expected@.len()
        &&& forall|i: int| 0 <= i < responses.len() ==> (#[trigger] responses[i])@
            == self.kbd_expected@[i]@
    }

    /// Authenticate via the keyboard-interactive challenge: the attempt
    /// succeeds when every response matches the expected answer.
    pub fn userauth_kbd(&mut self, username: &Vec<u8>, responses: &Vec<String>) -> (r: i32)
        ensures
            old(self).spec_scripted() ==> r == old(self).spec_script_code()
                && *final(self) == old(self).spec_after_script(),
            !old(self).spec_scripted() && !old(self).handshaked ==> r == ERROR_SOCKET_DISCONNECT
                && *final(self) == (Engine {
                last_code: ERROR_SOCKET_DISCONNECT,
                last_msg: final(self).last_msg,
                ..*old(self)
            }) && final(self).last_msg@ == spec_session_message(ERROR_SOCKET_DISCONNECT),
            !old(self).spec_scripted() && old(self).handshaked && old(self).spec_kbd_ok(
                responses@,
            ) ==> r == 0 && *final(self) == (Engine { authenticated: true, ..*old(self) }),
            !old(self).spec_scripted() && old(self).handshaked && !old(self).spec_kbd_ok(
                responses@,
            ) ==> r == ERROR_AUTHENTICATION_FAILED && *final(self) == (Engine {
                last_code: ERROR_AUTHENTICATION_FAILED,
                last_msg: final(self).last_msg,
                ..*old(self)
            }) && final(self).last_msg@ == spec_session_message(ERROR_AUTHENTICATION_FAILED),
    {
        let _ = username;
        match self.take_scripted() {
            Some(c) => c,
            None => {
                if !self.handshaked {
                    return self.fail(ERROR_SOCKET_DISCONNECT);
                }
                if !strings_match(responses, &self.kbd_expected) {
                    return self.fail(ERROR_AUTHENTICATION_FAILED);
                }
                self.authenticated = true;
                0
            }
        }
    }

    /// List the authentication schemes the double's remote side supports.
    pub fn userauth_list(&mut self, username: &Vec<u8>) -> (r: Option<String>)
        ensures
            old(self).spec_scripted() ==> r is None
                && *final(self) == old(self).spec_after_script(),
            !old(self).spec_scripted() && !old(self).handshaked ==> r is None && *final(self)
                == (Engine {
                last_code: ERROR_SOCKET_DISCONNECT,
                last_msg: final(self).last_msg,
                ..*old(self)
            }) && final(self).last_msg@ == spec_session_message(ERROR_SOCKET_DISCONNECT),
            !old(self).spec_scripted() && old(self).handshaked ==> r is Some && r.unwrap()@
                == "publickey,password,keyboard-interactive"@ && *final(self) == *old(self),
    {
        let _ = username;
        match self.take_scripted() {
            Some(_) => None,
            None => {
                if !self.handshaked {
                    let _ = self.fail(ERROR_SOCKET_DISCONNECT);
                    None
                } else {
                    Some(String::from_str("publickey,password,keyboard-interactive"))
                }
            }
        }
    }
}

impl Engine {
    /// The channel `id` exists and its native structure is still allocated.
    pub open spec fn spec_chan_live(self, id: int) -> bool {
        0 <= id < self.channels@.len() && self.channels@[id].alive
    }

    /// The read cursors of a channel slot sit within what the remote has
    /// delivered. Every engine operation preserves this.
    pub open spec fn spec_chan_cursors_ok(s: ChannelSlot) -> bool {
        s.read_pos <= s.data@.len() && s.ext_read_pos <= s.ext_data@.len()
    }

    /// `post` is `pre` with channel `id` replaced by `slot`; nothing else
    /// changed.
    pub open spec fn spec_chan_updated(pre: Engine, post: Engine, id: int, slot: ChannelSlot) -> bool {
        &&& post.channels@ == pre.channels@.update(id, slot)
        &&& post == (Engine { channels: post.channels, ..pre })
    }

    /// `post` is `pre` with one channel appended; nothing else changed.
    pub open spec fn spec_chan_pushed(pre: Engine, post: Engine) -> bool {
        &&& post.channels@ == pre.channels@.push(post.channels@[pre.channels@.len() as int])
        &&& post == (Engine { channels: post.channels, ..pre })
    }

    /// `s` is a freshly opened channel of the given type and windowing, with
    /// `data` pending from the remote side and end-of-stream state `eof`.
    pub open spec fn spec_fresh_channel(
        s: ChannelSlot,
        kind: Seq<u8>,
        window_size: u32,
        packet_size: u32,
        data: Seq<u8>,
        eof: bool,
    ) -> bool {
        &&& s.alive
        &&& s.kind@ == kind
        &&& s.window_size == window_size
        &&& s.packet_size == packet_size
        &&& s.started is None
        &&& s.env@.len() == 0
        &&& s.pty_term is None
        &&& s.data@ == data
        &&& s.read_pos == 0
        &&& s.ext_data@.len() == 0
        &&& s.ext_read_pos == 0
        &&& s.written@.len() == 0
        &&& s.remote_eof == eof
        &&& !s.eof_sent
        &&& !s.local_closed
        &&& !s.remote_closed
        &&& s.exit_status == 0
        &&& s.exit_signal is None
        &&& s.exit_error_message is None
        &&& s.exit_lang_tag is None
    }

    /// The transport is up and a user is authenticated, so a new resource
    /// (channel, subsystem, listener) can be opened.
    pub open spec fn spec_can_open(self) -> bool {
        self.handshaked && self.authenticated
    }

    /// Append a fresh channel slot and return its handle.
    fn push_channel(&mut self, kind: Vec<u8>, window_size: u32, packet_size: u32, data: Vec<u8>, eof: bool) -> (r: usize)
        ensures
            r == old(self).channels@.len(),
            Engine::spec_chan_pushed(*old(self), *final(self)),
            Engine::spec_fresh_channel(
                final(self).channels@[r as int],
                kind@,
                window_size,
                packet_size,
                data@,
                eof,
            ),
    {
        let id = self.channels.len();
        self.channels.push(ChannelSlot {
            alive: true,
            kind,
            window_size,
            packet_size,
            started: None,
            env: Vec::new(),
            pty_term: None,
            pty_modes: Vec::new(),
            pty_size: (0, 0, 0, 0),
            ext_mode: 0,
            data,
            read_pos: 0,
            ext_data: Vec::new(),
            ext_read_pos: 0,
            written: Vec::new(),
            remote_eof: eof,
            eof_sent: false,
            local_closed: false,
            remote_closed: false,
            exit_status: 0,
            exit_signal: None,
            exit_error_message: None,
            exit_lang_tag: None,
        });
        id
    }

    /// Open a channel of the given type. Returns the new handle, or nothing
    /// on failure with the error recorded (a scripted failure, no transport,
    /// or no authenticated user).
    pub fn channel_open(&mut self, kind: Vec<u8>, window_size: u32, packet_size: u32) -> (r: Option<usize>)
        ensures
            old(self).spec_scripted() ==> r is None
                && *final(self) == old(self).spec_after_script(),
            !old(self).spec_scripted() && !old(self).handshaked ==> r is None && *final(self)
                == (Engine {
                last_code: ERROR_SOCKET_DISCONNECT,
                last_msg: final(self).last_msg,
                ..*old(self)
            }) && final(self).last_msg@ == spec_session_message(ERROR_SOCKET_DISCONNECT),
            !old(self).spec_scripted() && old(self).handshaked && !old(self).authenticated
                ==> r is None && *final(self) == (Engine {
                last_code: ERROR_CHANNEL_FAILURE,
                last_msg: final(self).last_msg,
                ..*old(self)
            }) && final(self).last_msg@ == spec_session_message(ERROR_CHANNEL_FAILURE),
            !old(self).spec_scripted() && old(self).spec_can_open() ==> r is Some
                && r.unwrap() == old(self).channels@.len()
                && Engine::spec_chan_pushed(*old(self), *final(self))
                && Engine::spec_fresh_channel(
                final(self).channels@[r.unwrap() as int],
                kind@,
                window_size,
                packet_size,
                Seq::<u8>::empty(),
                false,
            ),
    {
        match self.take_scripted() {
            Some(_) => None,
            None => {
                if !self.handshaked {
                    let _ = self.fail(ERROR_SOCKET_DISCONNECT);
                    None
                } else if !self.authenticated {
                    let _ = self.fail(ERROR_CHANNEL_FAILURE);
                    None
                } else {
                    Some(self.push_channel(kind, window_size, packet_size, Vec::new(), false))
                }
            }
        }
    }

    /// Set an environment variable in the channel's process space.
    pub fn channel_setenv(&mut self, id: usize, key: Vec<u8>, value: Vec<u8>) -> (r: i32)
        requires
            old(self).spec_chan_live(id as int),
        ensures
            old(self).spec_scripted() ==> r == old(self).spec_script_code()
                && *final(self) == old(self).spec_after_script(),
            !old(self).spec_scripted() ==> r == 0
                && final(self).channels@[id as int].env@
                    == old(self).channels@[id as int].env@.push((key, value))
                && Engine::spec_chan_updated(
                *old(self),
                *final(self),
                id as int,
                (ChannelSlot {
                    env: final(self).channels@[id as int].env,
                    ..old(self).channels@[id as int]
                }),
            ),
    {
        match self.take_scripted() {
            Some(c) => c,
            None => {
                let slot = &mut self.channels[id];
                slot.env.push((key, value));
                0
            }
        }
    }

    /// Request a PTY on the channel.
    pub fn channel_request_pty(
        &mut self,
        id: usize,
        term: Vec<u8>,
        modes: Vec<u8>,
        width: u32,
        height: u32,
        width_px: u32,
        height_px: u32,
    ) -> (r: i32)
        requires
            old(self).spec_chan_live(id as int),
        ensures
            old(self).spec_scripted() ==> r == old(self).spec_script_code()
                && *final(self) == old(self).spec_after_script(),
            !old(self).spec_scripted() ==> r == 0 && Engine::spec_chan_updated(
                *old(self),
                *final(self),
                id as int,
                (ChannelSlot {
                    pty_term: Some(term),
                    pty_modes: modes,
                    pty_size: (width, height, width_px, height_px),
                    ..old(self).channels@[id as int]
                }),
            ),
    {
        match self.take_scripted() {
            Some(c) => c,
            None => {
                let slot = &mut self.channels[id];
                slot.pty_term = Some(term);
                slot.pty_modes = modes;
                slot.pty_size = (width, height, width_px, height_px);
                0
            }
        }
    }

    /// Change the PTY dimensions on the channel.
    pub fn channel_request_pty_size(&mut self, id: usize, width: u32, height: u32, width_px: u32, height_px: u32) -> (r: i32)
        requires
            old(self).spec_chan_live(id as int),
        ensures
            old(self).spec_scripted() ==> r == old(self).spec_script_code()
                && *final(self) == old(self).spec_after_script(),
            !old(self).spec_scripted() ==> r == 0 && Engine::spec_chan_updated(
                *old(self),
                *final(self),
                id as int,
                (ChannelSlot {
                    pty_size: (width, height, width_px, height_px),
                    ..old(self).channels@[id as int]
                }),
            ),
    {
        match self.take_scripted() {
            Some(c) => c,
            None => {
                let slot = &mut self.channels[id];
                slot.pty_size = (width, height, width_px, height_px);
                0
            }
        }
    }

    /// Ask the remote host to forward authentication agent requests.
    pub fn channel_request_auth_agent(&mut self, id: usize) -> (r: i32)
        requires
            old(self).spec_chan_live(id as int),
        ensures
            old(self).spec_scripted() ==> r == old(self).spec_script_code()
                && *final(self) == old(self).spec_after_script(),
            !old(self).spec_scripted() ==> r == 0 && *final(self) == *old(self),
    {
        match self.take_scripted() {
            Some(c) => c,
            None => 0,
        }
    }

    /// Start a process service on the channel ("exec", "shell", "subsystem").
    /// The double's remote process immediately produces the staged output,
    /// reports the staged exit status, and signals end of stream.
    pub fn channel_process_startup(&mut self, id: usize, request: Vec<u8>, message: Option<Vec<u8>>) -> (r: i32)
        requires
            old(self).spec_chan_live(id as int),
        ensures
            old(self).spec_scripted() ==> r == old(self).spec_script_code()
                && *final(self) == old(self).spec_after_script(),
            !old(self).spec_scripted() ==> r == 0
                && final(self).channels@[id as int].data@ == old(self).exec_output@
                && Engine::spec_chan_updated(
                *old(self),
                *final(self),
                id as int,
                (ChannelSlot {
                    started: Some(request),
                    data: final(self).channels@[id as int].data,
                    read_pos: 0,
                    remote_eof: true,
                    exit_status: old(self).exec_status,
                    ..old(self).channels@[id as int]
                }),
            ),
    {
        let _ = message;
        match self.take_scripted() {
            Some(c) => c,
            None => {
                let out = crate::util::copy_bytes(self.exec_output.as_slice());
                let status = self.exec_status;
                let slot = &mut self.channels[id];
                slot.started = Some(request);
                slot.data = out;
                slot.read_pos = 0;
                slot.remote_eof = true;
                slot.exit_status = status;
                0
            }
        }
    }

    /// Change how extended data is handled on the channel.
    pub fn channel_handle_extended_data(&mut self, id: usize, mode: i32) -> (r: i32)
        requires
            old(self).spec_chan_live(id as int),
        ensures
            old(self).spec_scripted() ==> r == old(self).spec_script_code()
                && *final(self) == old(self).spec_after_script(),
            !old(self).spec_scripted() ==> r == 0 && Engine::spec_chan_updated(
                *old(self),
                *final(self),
                id as int,
                (ChannelSlot { ext_mode: mode, ..old(self).channels@[id as int] }),
            ),
    {
        match self.take_scripted() {
            Some(c) => c,
            None => {
                let slot = &mut self.channels[id];
                slot.ext_mode = mode;
                0
            }
        }
    }

    /// Exit status reported by the remote process; 0 until one is known.
    pub fn channel_get_exit_status(&self, id: usize) -> (r: i32)
        requires
            self.spec_chan_live(id as int),
        ensures
            r == self.channels@[id as int].exit_status,
    {
        self.channels[id].exit_status
    }

    /// The remote side has signalled end of stream and everything delivered
    /// on the main stream has been read.
    pub open spec fn spec_chan_eof(self, id: int) -> bool {
        self.channels@[id].remote_eof && self.channels@[id].read_pos
            >= self.channels@[id].data@.len()
    }

    /// Whether the channel has reached end of stream.
    pub fn channel_eof(&self, id: usize) -> (r: bool)
        requires
            self.spec_chan_live(id as int),
        ensures
            r == self.spec_chan_eof(id as int),
    {
        let slot = &self.channels[id];
        slot.remote_eof && slot.read_pos >= slot.data.len()
    }

    /// Signal end of stream to the remote side.
    pub fn channel_send_eof(&mut self, id: usize) -> (r: i32)
        requires
            old(self).spec_chan_live(id as int),
        ensures
            old(self).spec_scripted() ==> r == old(self).spec_script_code()
                && *final(self) == old(self).spec_after_script(),
            !old(self).spec_scripted() && old(self).spec_wouldblock_due() ==> r == ERROR_EAGAIN
                && Engine::spec_only_err_changed(*old(self), *final(self)),
            !old(self).spec_scripted() && !old(self).spec_wouldblock_due() ==> r == 0
                && Engine::spec_chan_updated(
                *old(self),
                *final(self),
                id as int,
                (ChannelSlot { eof_sent: true, ..old(self).channels@[id as int] }),
            ),
    {
        match self.take_scripted() {
            Some(c) => c,
            None => {
                if self.take_wouldblock() {
                    ERROR_EAGAIN
                } else {
                    let slot = &mut self.channels[id];
                    slot.eof_sent = true;
                    0
                }
            }
        }
    }

    /// Wait for the remote side to signal end of stream.
    pub fn channel_wait_eof(&mut self, id: usize) -> (r: i32)
        requires
            old(self).spec_chan_live(id as int),
        ensures
            old(self).spec_scripted() ==> r == old(self).spec_script_code()
                && *final(self) == old(self).spec_after_script(),
            !old(self).spec_scripted() && old(self).spec_wouldblock_due() ==> r == ERROR_EAGAIN
                && Engine::spec_only_err_changed(*old(self), *final(self)),
            !old(self).spec_scripted() && !old(self).spec_wouldblock_due() ==> r == 0
                && Engine::spec_chan_updated(
                *old(self),
                *final(self),
                id as int,
                (ChannelSlot { remote_eof: true, ..old(self).channels@[id as int] }),
            ),
    {
        match self.take_scripted() {
            Some(c) => c,
            None => {
                if self.take_wouldblock() {
                    ERROR_EAGAIN
                } else {
                    let slot = &mut self.channels[id];
                    slot.remote_eof = true;
                    0
                }
            }
        }
    }

    /// Send a close message for the channel.
    pub fn channel_close(&mut self, id: usize) -> (r: i32)
        requires
            old(self).spec_chan_live(id as int),
        ensures
            old(self).spec_scripted() ==> r == old(self).spec_script_code()
                && *final(self) == old(self).spec_after_script(),
            !old(self).spec_scripted() && old(self).spec_wouldblock_due() ==> r == ERROR_EAGAIN
                && Engine::spec_only_err_changed(*old(self), *final(self)),
            !old(self).spec_scripted() && !old(self).spec_wouldblock_due() ==> r == 0
                && Engine::spec_chan_updated(
                *old(self),
                *final(self),
                id as int,
                (ChannelSlot { local_closed: true, ..old(self).channels@[id as int] }),
            ),
    {
        match self.take_scripted() {
            Some(c) => c,
            None => {
                if self.take_wouldblock() {
                    ERROR_EAGAIN
                } else {
                    let slot = &mut self.channels[id];
                    slot.local_closed = true;
                    0
                }
            }
        }
    }

    /// Wait until the remote side closes the channel as well.
    pub fn channel_wait_closed(&mut self, id: usize) -> (r: i32)
        requires
            old(self).spec_chan_live(id as int),
        ensures
            old(self).spec_scripted() ==> r == old(self).spec_script_code()
                && *final(self) == old(self).spec_after_script(),
            !old(self).spec_scripted() && old(self).spec_wouldblock_due() ==> r == ERROR_EAGAIN
                && Engine::spec_only_err_changed(*old(self), *final(self)),
            !old(self).spec_scripted() && !old(self).spec_wouldblock_due() ==> r == 0
                && Engine::spec_chan_updated(
                *old(self),
                *final(self),
                id as int,
                (ChannelSlot { remote_closed: true, ..old(self).channels@[id as int] }),
            ),
    {
        match self.take_scripted() {
            Some(c) => c,
            None => {
                if self.take_wouldblock() {
                    ERROR_EAGAIN
                } else {
                    let slot = &mut self.channels[id];
                    slot.remote_closed = true;
                    0
                }
            }
        }
    }

    /// Release the native channel structure.
    pub fn channel_free(&mut self, id: usize) -> (r: i32)
        requires
            old(self).spec_chan_live(id as int),
        ensures
            old(self).spec_wouldblock_due() ==> r == ERROR_EAGAIN
                && Engine::spec_only_err_changed(*old(self), *final(self))
                && final(self).channels@ == old(self).channels@,
            !old(self).spec_wouldblock_due() ==> r == 0 && Engine::spec_chan_updated(
                *old(self),
                *final(self),
                id as int,
                (ChannelSlot { alive: false, ..old(self).channels@[id as int] }),
            ),
    {
        if self.take_wouldblock() {
            ERROR_EAGAIN
        } else {
            let slot = &mut self.channels[id];
            slot.alive = false;
            0
        }
    }
}

impl Engine {
    /// No staged remote file before index `k` has path `path`.
    pub open spec fn spec_no_file_before(files: Seq<RemoteFile>, path: Seq<u8>, k: int) -> bool {
        forall|j: int| 0 <= j < k ==> (#[trigger] files[j]).path@ != path
    }

    /// Find the first staged remote file with the given path.
    fn find_file(&self, path: &Vec<u8>) -> (r: Option<usize>)
        ensures
            r matches Some(k) ==> k < self.remote_files@.len()
                && self.remote_files@[k as int].path@ == path@
                && Engine::spec_no_file_before(self.remote_files@, path@, k as int),
            r is None ==> Engine::spec_no_file_before(
                self.remote_files@,
                path@,
                self.remote_files@.len() as int,
            ),
    {
        let mut i: usize = 0;
        while i < self.remote_files.len()
            invariant
                i <= self.remote_files@.len(),
                Engine::spec_no_file_before(self.remote_files@, path@, i as int),
            decreases self.remote_files@.len() - i,
        {
            if bytes_match(&self.remote_files[i].path, path) {
                return Some(i);
            }
            i = i + 1;
        }
        None
    }

    /// Read up to `want` bytes from the given stream of the channel.
    ///
    /// The main stream (`stream_id` 0) and the extended stream (any other id)
    /// keep independent cursors. The double's remote side has already
    /// delivered everything it ever will, so a read past that point returns
    /// an empty result; waiting is modelled only by the scripted would-block
    /// replies served in non-blocking mode.
    #[verifier::rlimit(50)]
    pub fn channel_read(&mut self, id: usize, stream_id: i32, want: usize) -> (r: Result<Vec<u8>, i32>)
        requires
            old(self).spec_chan_live(id as int),
            Engine::spec_chan_cursors_ok(old(self).channels@[id as int]),
        ensures
            old(self).spec_scripted() ==> r == Err::<Vec<u8>, i32>(old(self).spec_script_code())
                && *final(self) == old(self).spec_after_script(),
            !old(self).spec_scripted() && old(self).spec_wouldblock_due() ==> r
                == Err::<Vec<u8>, i32>(ERROR_EAGAIN) && Engine::spec_only_err_changed(
                *old(self),
                *final(self),
            ),
            !old(self).spec_scripted() && !old(self).spec_wouldblock_due() && stream_id == 0 ==> ({
                let slot = old(self).channels@[id as int];
                let n = if want <= slot.data@.len() - slot.read_pos {
                    want as int
                } else {
                    slot.data@.len() - slot.read_pos
                };
                &&& r is Ok
                &&& r.unwrap()@ == slot.data@.subrange(slot.read_pos as int, slot.read_pos + n)
                &&& final(self).read_calls == if old(self).read_calls < u64::MAX {
                    old(self).read_calls + 1
                } else {
                    old(self).read_calls as int
                }
                &&& final(self).channels@ == old(self).channels@.update(
                    id as int,
                    (ChannelSlot {
                        read_pos: (slot.read_pos + n) as usize,
                        ..slot
                    }),
                )
                &&& *final(self) == (Engine {
                    channels: final(self).channels,
                    read_calls: final(self).read_calls,
                    ..*old(self)
                })
            }),
            !old(self).spec_scripted() && !old(self).spec_wouldblock_due() && stream_id != 0 ==> ({
                let slot = old(self).channels@[id as int];
                let n = if want <= slot.ext_data@.len() - slot.ext_read_pos {
                    want as int
                } else {
                    slot.ext_data@.len() - slot.ext_read_pos
                };
                &&& r is Ok
                &&& r.unwrap()@ == slot.ext_data@.subrange(
                    slot.ext_read_pos as int,
                    slot.ext_read_pos + n,
                )
                &&& final(self).read_calls == if old(self).read_calls < u64::MAX {
                    old(self).read_calls + 1
                } else {
                    old(self).read_calls as int
                }
                &&& final(self).channels@ == old(self).channels@.update(
                    id as int,
                    (ChannelSlot {
                        ext_read_pos: (slot.ext_read_pos + n) as usize,
                        ..slot
                    }),
                )
                &&& *final(self) == (Engine {
                    channels: final(self).channels,
                    read_calls: final(self).read_calls,
                    ..*old(self)
                })
            }),
    {
        match self.take_scripted() {
            Some(c) => Err(c),
            None => {
                if self.take_wouldblock() {
                    return Err(ERROR_EAGAIN);
                }
                if self.read_calls < u64::MAX {
                    self.read_calls = self.read_calls + 1;
                }
                if stream_id == 0 {
                    let slot = &self.channels[id];
                    let avail = slot.data.len() - slot.read_pos;
                    let n = if want <= avail { want } else { avail };
                    let out = crate::util::copy_range(slot.data.as_slice(), slot.read_pos, n);
                    let slot = &mut self.channels[id];
                    slot.read_pos = slot.read_pos + n;
                    Ok(out)
                } else {
                    let slot = &self.channels[id];
                    let avail = slot.ext_data.len() - slot.ext_read_pos;
                    let n = if want <= avail { want } else { avail };
                    let out = crate::util::copy_range(slot.ext_data.as_slice(), slot.ext_read_pos, n);
                    let slot = &mut self.channels[id];
                    slot.ext_read_pos = slot.ext_read_pos + n;
                    Ok(out)
                }
            }
        }
    }

    /// Write bytes to the given stream of the channel; the double always
    /// accepts the whole buffer.
    pub fn channel_write(&mut self, id: usize, stream_id: i32, data: &[u8]) -> (r: Result<usize, i32>)
        requires
            old(self).spec_chan_live(id as int),
            data@.len() <= usize::MAX - old(self).channels@[id as int].written@.len(),
        ensures
            old(self).spec_scripted() ==> r == Err::<usize, i32>(old(self).spec_script_code())
                && *final(self) == old(self).spec_after_script(),
            !old(self).spec_scripted() && old(self).spec_wouldblock_due() ==> r
                == Err::<usize, i32>(ERROR_EAGAIN) && Engine::spec_only_err_changed(
                *old(self),
                *final(self),
            ),
            !old(self).spec_scripted() && !old(self).spec_wouldblock_due() ==> r
                == Ok::<usize, i32>(data@.len() as usize)
                && final(self).channels@[id as int].written@
                    == old(self).channels@[id as int].written@ + data@
                && Engine::spec_chan_updated(
                *old(self),
                *final(self),
                id as int,
                (ChannelSlot {
                    written: final(self).channels@[id as int].written,
                    ..old(self).channels@[id as int]
                }),
            ),
    {
        let _ = stream_id;
        match self.take_scripted() {
            Some(c) => Err(c),
            None => {
                if self.take_wouldblock() {
                    return Err(ERROR_EAGAIN);
                }
                let slot = &mut self.channels[id];
                slot.written.extend_from_slice(data);
                Ok(data.len())
            }
        }
    }

    /// Flush pending output on a stream of the channel; the double's writes
    /// complete immediately, so this only consults the scripted failures.
    pub fn channel_flush(&mut self, id: usize, stream_id: i32) -> (r: i32)
        requires
            old(self).spec_chan_live(id as int),
        ensures
            old(self).spec_scripted() ==> r == old(self).spec_script_code()
                && *final(self) == old(self).spec_after_script(),
            !old(self).spec_scripted() ==> r == 0 && *final(self) == *old(self),
    {
        let _ = stream_id;
        match self.take_scripted() {
            Some(c) => c,
            None => 0,
        }
    }

    /// Read-window state: bytes the remote may still send, bytes available
    /// to read, and the initial window size from the open request.
    pub fn channel_window_read(&self, id: usize) -> (r: (u32, u32, u32))
        requires
            self.spec_chan_live(id as int),
            Engine::spec_chan_cursors_ok(self.channels@[id as int]),
        ensures
            ({
                let slot = self.channels@[id as int];
                let avail = slot.data@.len() - slot.read_pos;
                &&& r.1 == if avail <= u32::MAX { avail } else { u32::MAX as int }
                &&& r.0 == if r.1 <= slot.window_size { slot.window_size - r.1 } else { 0int }
                &&& r.2 == slot.window_size
            }),
    {
        let slot = &self.channels[id];
        let avail_usize = slot.data.len() - slot.read_pos;
        let avail: u32 = if avail_usize <= u32::MAX as usize {
            avail_usize as u32
        } else {
            u32::MAX
        };
        let remaining: u32 = if avail <= slot.window_size {
            slot.window_size - avail
        } else {
            0
        };
        (remaining, avail, slot.window_size)
    }

    /// Write-window state: bytes that may be written without blocking and
    /// the initial window size.
    pub fn channel_window_write(&self, id: usize) -> (r: (u32, u32))
        requires
            self.spec_chan_live(id as int),
        ensures
            r.0 == self.channels@[id as int].window_size,
            r.1 == self.channels@[id as int].window_size,
    {
        let slot = &self.channels[id];
        (slot.window_size, slot.window_size)
    }

    /// Grow the receive window by `adjust` bytes (saturating at the maximum)
    /// and return the new size.
    pub fn channel_receive_window_adjust(&mut self, id: usize, adjust: u64, force: bool) -> (r: Result<u64, i32>)
        requires
            old(self).spec_chan_live(id as int),
        ensures
            old(self).spec_scripted() ==> r == Err::<u64, i32>(old(self).spec_script_code())
                && *final(self) == old(self).spec_after_script(),
            !old(self).spec_scripted() ==> ({
                let prior = old(self).channels@[id as int].window_size;
                let grown = if prior + adjust <= u32::MAX {
                    (prior + adjust) as u32
                } else {
                    u32::MAX
                };
                &&& r == Ok::<u64, i32>(grown as u64)
                &&& Engine::spec_chan_updated(
                    *old(self),
                    *final(self),
                    id as int,
                    (ChannelSlot { window_size: grown, ..old(self).channels@[id as int] }),
                )
            }),
    {
        let _ = force;
        match self.take_scripted() {
            Some(c) => Err(c),
            None => {
                let slot = &mut self.channels[id];
                let prior = slot.window_size as u64;
                let grown: u32 = if adjust <= u32::MAX as u64 - prior {
                    (prior + adjust) as u32
                } else {
                    u32::MAX
                };
                slot.window_size = grown;
                Ok(grown as u64)
            }
        }
    }

    /// Request a file from the remote side for an SCP download.
    ///
    /// On success a new channel carries the file's contents; following the
    /// native library's observed behaviour the double appends one stray byte
    /// past the file's stated length, which is why the wrapper imposes a
    /// read ceiling taken from the returned size.
    pub fn scp_recv(&mut self, path: &Vec<u8>) -> (r: Option<(usize, u64, u32, u64, u64)>)
        ensures
            old(self).spec_scripted() ==> r is None
                && *final(self) == old(self).spec_after_script(),
            !old(self).spec_scripted() && !old(self).spec_can_open() ==> r is None
                && Engine::spec_only_err_changed(*old(self), *final(self))
                && final(self).last_code == if !old(self).handshaked {
                    ERROR_SOCKET_DISCONNECT as int
                } else {
                    ERROR_CHANNEL_FAILURE as int
                },
            !old(self).spec_scripted() && old(self).spec_can_open()
                && Engine::spec_no_file_before(
                old(self).remote_files@,
                path@,
                old(self).remote_files@.len() as int,
            ) ==> r is None && Engine::spec_only_err_changed(*old(self), *final(self))
                && final(self).last_code == ERROR_SCP_PROTOCOL
                && final(self).last_msg@ == spec_session_message(ERROR_SCP_PROTOCOL),
            r matches Some(t) ==> !old(self).spec_scripted() && old(self).spec_can_open() && ({
                let k = Engine::spec_file_at(old(self).remote_files@, path@);
                let file = old(self).remote_files@[k];
                &&& 0 <= k < old(self).remote_files@.len()
                &&& t.0 == old(self).channels@.len()
                &&& t.1 == file.data@.len()
                &&& t.2 == file.mode
                &&& t.3 == file.mtime
                &&& t.4 == file.atime
                &&& Engine::spec_chan_pushed(*old(self), *final(self))
                &&& Engine::spec_fresh_channel(
                    final(self).channels@[t.0 as int],
                    Seq::<u8>::empty(),
                    2097152u32,
                    32768u32,
                    file.data@.push(0u8),
                    true,
                )
            }),
            !old(self).spec_scripted() && old(self).spec_can_open() && (exists|j: int|
                0 <= j < old(self).remote_files@.len() && (#[trigger] old(
                    self,
                ).remote_files@[j]).path@ == path@) ==> r is Some,
    {
        match self.take_scripted() {
            Some(_) => None,
            None => {
                if !self.handshaked {
                    let _ = self.fail(ERROR_SOCKET_DISCONNECT);
                    return None;
                }
                if !self.authenticated {
                    let _ = self.fail(ERROR_CHANNEL_FAILURE);
                    return None;
                }
                match self.find_file(path) {
                    None => {
                        let _ = self.fail(ERROR_SCP_PROTOCOL);
                        None
                    }
                    Some(k) => {
                        proof {
                            Engine::lemma_file_at(self.remote_files@, path@, k as int);
                        }
                        let file = &self.remote_files[k];
                        let size = file.data.len() as u64;
                        let mode = file.mode;
                        let mtime = file.mtime;
                        let atime = file.atime;
                        let mut data = crate::util::copy_bytes(file.data.as_slice());
                        data.push(0u8);
                        let id = self.push_channel(Vec::new(), 2097152, 32768, data, true);
                        Some((id, size, mode, mtime, atime))
                    }
                }
            }
        }
    }

    /// The index of the first staged remote file with the given path.
    pub open spec fn spec_file_at(files: Seq<RemoteFile>, path: Seq<u8>) -> int {
        choose|k: int|
            0 <= k < files.len() && files[k].path@ == path && Engine::spec_no_file_before(
                files,
                path,
                k,
            )
    }

    /// A found index is the chosen first index.
    proof fn lemma_file_at(files: Seq<RemoteFile>, path: Seq<u8>, k: int)
        requires
            0 <= k < files.len(),
            files[k].path@ == path,
            Engine::spec_no_file_before(files, path, k),
        ensures
            Engine::spec_file_at(files, path) == k,
    {
        let c = Engine::spec_file_at(files, path);
        assert(0 <= c < files.len() && files[c].path@ == path && Engine::spec_no_file_before(
            files,
            path,
            c,
        ));
        if c < k {
            assert(files[c].path@ != path);
        }
        if k < c {
            assert(files[k].path@ != path);
        }
    }

    /// Create a channel for an SCP upload of `size` bytes.
    pub fn scp_send(&mut self, path: &Vec<u8>, mode: i32, size: u64, mtime: u64, atime: u64) -> (r: Option<usize>)
        ensures
            old(self).spec_scripted() ==> r is None
                && *final(self) == old(self).spec_after_script(),
            !old(self).spec_scripted() && !old(self).spec_can_open() ==> r is None
                && Engine::spec_only_err_changed(*old(self), *final(self))
                && final(self).last_code == if !old(self).handshaked {
                    ERROR_SOCKET_DISCONNECT as int
                } else {
                    ERROR_CHANNEL_FAILURE as int
                },
            !old(self).spec_scripted() && old(self).spec_can_open() ==> r is Some
                && r.unwrap() == old(self).channels@.len()
                && Engine::spec_chan_pushed(*old(self), *final(self))
                && Engine::spec_fresh_channel(
                final(self).channels@[r.unwrap() as int],
                Seq::<u8>::empty(),
                2097152u32,
                32768u32,
                Seq::<u8>::empty(),
                false,
            ),
    {
        let _ = path;
        let _ = mode;
        let _ = size;
        let _ = mtime;
        let _ = atime;
        match self.take_scripted() {
            Some(_) => None,
            None => {
                if !self.handshaked {
                    let _ = self.fail(ERROR_SOCKET_DISCONNECT);
                    return None;
                }
                if !self.authenticated {
                    let _ = self.fail(ERROR_CHANNEL_FAILURE);
                    return None;
                }
                Some(self.push_channel(Vec::new(), 2097152, 32768, Vec::new(), false))
            }
        }
    }
}

/// Element-wise equality of two byte strings.
pub fn bytes_match(a: &Vec<u8>, b: &Vec<u8>) -> (r: bool)
    ensures
        r == (a@ == b@),
{
    if a.len() != b.len() {
        assert(a@ != b@);
        return false;
    }
    let mut i: usize = 0;
    while i < a.len()
        invariant
            i <= a@.len(),
            a@.len() == b@.len(),
            forall|j: int| 0 <= j < i ==> a@[j] == b@[j],
        decreases a@.len() - i,
    {
        if a[i] != b[i] {
            assert(a@ != b@);
            return false;
        }
        i = i + 1;
    }
    assert(a@ =~= b@);
    true
}

impl Engine {
    /// The SFTP subsystem `id` exists and is still allocated.
    pub open spec fn spec_sftp_live(self, id: int) -> bool {
        0 <= id < self.sftps@.len() && self.sftps@[id].alive
    }

    /// The file handle `id` exists and is still allocated.
    pub open spec fn spec_file_live(self, id: int) -> bool {
        0 <= id < self.files@.len() && self.files@[id].alive
    }

    /// The cursors of a file slot sit within its contents and entry list.
    pub open spec fn spec_file_cursors_ok(s: FileSlot) -> bool {
        s.pos <= s.data@.len() && s.dir_pos <= s.dir_entries@.len()
    }

    /// `post` is `pre` with file `id` replaced by `slot`; nothing else
    /// changed.
    pub open spec fn spec_file_updated(pre: Engine, post: Engine, id: int, slot: FileSlot) -> bool {
        &&& post.files@ == pre.files@.update(id, slot)
        &&& post == (Engine { files: post.files, ..pre })
    }

    /// The attributes the double reports for a staged remote file.
    pub open spec fn spec_attrs_of(f: RemoteFile) -> SftpAttributes {
        SftpAttributes {
            flags: SFTP_ATTR_SIZE | SFTP_ATTR_PERMISSIONS | SFTP_ATTR_ACMODTIME,
            filesize: f.data@.len() as u64,
            uid: 0,
            gid: 0,
            permissions: f.mode as u64,
            atime: f.atime,
            mtime: f.mtime,
        }
    }

    /// Compute the attributes for the staged remote file at `k`.
    fn attrs_of(&self, k: usize) -> (r: SftpAttributes)
        requires
            k < self.remote_files@.len(),
        ensures
            r == Engine::spec_attrs_of(self.remote_files@[k as int]),
    {
        let f = &self.remote_files[k];
        SftpAttributes {
            flags: SFTP_ATTR_SIZE | SFTP_ATTR_PERMISSIONS | SFTP_ATTR_ACMODTIME,
            filesize: f.data.len() as u64,
            uid: 0,
            gid: 0,
            permissions: f.mode as u64,
            atime: f.atime,
            mtime: f.mtime,
        }
    }

    /// `post` is `pre` after a failure in the secondary SFTP namespace:
    /// the engine-level code is the generic subsystem protocol error and
    /// the precise code `fx` is parked on subsystem `sftp`.
    pub open spec fn spec_fx_failed(pre: Engine, post: Engine, sftp: int, fx: i32) -> bool {
        &&& post.sftps@ == pre.sftps@.update(
            sftp,
            (SftpSlot { last_fx: fx, ..pre.sftps@[sftp] }),
        )
        &&& post == (Engine {
            sftps: post.sftps,
            last_code: post.last_code,
            last_msg: post.last_msg,
            ..pre
        })
        &&& post.last_code == ERROR_SFTP_PROTOCOL
        &&& post.last_msg@ == spec_session_message(ERROR_SFTP_PROTOCOL)
    }

    /// Record a failure in the secondary SFTP error namespace: the engine
    /// reports the generic subsystem protocol error, and the precise code is
    /// parked on the subsystem for its dedicated accessor.
    fn fail_fx(&mut self, sftp: usize, fx: i32) -> (r: i32)
        requires
            old(self).spec_sftp_live(sftp as int),
        ensures
            r == ERROR_SFTP_PROTOCOL,
            final(self).sftps@ == old(self).sftps@.update(
                sftp as int,
                (SftpSlot { last_fx: fx, ..old(self).sftps@[sftp as int] }),
            ),
            *final(self) == (Engine {
                sftps: final(self).sftps,
                last_code: ERROR_SFTP_PROTOCOL,
                last_msg: final(self).last_msg,
                ..*old(self)
            }),
            final(self).last_msg@ == spec_session_message(ERROR_SFTP_PROTOCOL),
    {
        let slot = &mut self.sftps[sftp];
        slot.last_fx = fx;
        self.fail(ERROR_SFTP_PROTOCOL)
    }

    /// Open the SFTP subsystem over the session.
    pub fn sftp_init(&mut self) -> (r: Option<usize>)
        ensures
            old(self).spec_scripted() ==> r is None
                && *final(self) == old(self).spec_after_script(),
            !old(self).spec_scripted() && !old(self).handshaked ==> r is None && *final(self)
                == (Engine {
                last_code: ERROR_SOCKET_DISCONNECT,
                last_msg: final(self).last_msg,
                ..*old(self)
            }) && final(self).last_msg@ == spec_session_message(ERROR_SOCKET_DISCONNECT),
            !old(self).spec_scripted() && old(self).handshaked && !old(self).authenticated
                ==> r is None && *final(self) == (Engine {
                last_code: ERROR_CHANNEL_FAILURE,
                last_msg: final(self).last_msg,
                ..*old(self)
            }) && final(self).last_msg@ == spec_session_message(ERROR_CHANNEL_FAILURE),
            !old(self).spec_scripted() && old(self).spec_can_open() ==> r is Some
                && r.unwrap() == old(self).sftps@.len()
                && final(self).sftps@ == old(self).sftps@.push(
                SftpSlot { alive: true, last_fx: 0 },
            ) && *final(self) == (Engine { sftps: final(self).sftps, ..*old(self) }),
    {
        match self.take_scripted() {
            Some(_) => None,
            None => {
                if !self.handshaked {
                    let _ = self.fail(ERROR_SOCKET_DISCONNECT);
                    None
                } else if !self.authenticated {
                    let _ = self.fail(ERROR_CHANNEL_FAILURE);
                    None
                } else {
                    let id = self.sftps.len();
                    self.sftps.push(SftpSlot { alive: true, last_fx: 0 });
                    Some(id)
                }
            }
        }
    }

    /// Shut the SFTP subsystem down, releasing its native state.
    pub fn sftp_shutdown(&mut self, id: usize) -> (r: i32)
        requires
            old(self).spec_sftp_live(id as int),
        ensures
            old(self).spec_wouldblock_due() ==> r == ERROR_EAGAIN
                && Engine::spec_only_err_changed(*old(self), *final(self)),
            !old(self).spec_wouldblock_due() ==> r == 0 && final(self).sftps@
                == old(self).sftps@.update(
                id as int,
                (SftpSlot { alive: false, ..old(self).sftps@[id as int] }),
            ) && *final(self) == (Engine { sftps: final(self).sftps, ..*old(self) }),
    {
        if self.take_wouldblock() {
            ERROR_EAGAIN
        } else {
            let slot = &mut self.sftps[id];
            slot.alive = false;
            0
        }
    }

    /// The precise secondary status code of the subsystem's last failure.
    pub fn sftp_last_error(&self, id: usize) -> (r: i32)
        requires
            self.spec_sftp_live(id as int),
        ensures
            r == self.sftps@[id as int].last_fx,
    {
        self.sftps[id].last_fx
    }

    /// Open flag: create the file when it does not exist.
    pub open spec fn spec_wants_create(flags: u64) -> bool {
        flags & 0x8 != 0
    }

    /// Open flag: truncate an existing file to zero length.
    pub open spec fn spec_wants_truncate(flags: u64) -> bool {
        flags & 0x10 != 0
    }

    /// Open a file through the subsystem.
    ///
    /// A missing file is created empty when the create flag is set and is
    /// otherwise reported through the secondary namespace as "no such file";
    /// the truncate flag empties an existing file. The handle reads a
    /// snapshot of the file's contents at open time.
    pub fn sftp_open_file(&mut self, sftp: usize, path: &Vec<u8>, flags: u64, mode: u64) -> (r: Option<usize>)
        requires
            old(self).spec_sftp_live(sftp as int),
        ensures
            old(self).spec_scripted() ==> r is None
                && *final(self) == old(self).spec_after_script(),
            !old(self).spec_scripted() && Engine::spec_no_file_before(
                old(self).remote_files@,
                path@,
                old(self).remote_files@.len() as int,
            ) && !Engine::spec_wants_create(flags) ==> r is None
                && final(self).last_code == ERROR_SFTP_PROTOCOL
                && final(self).sftps@[sftp as int].last_fx == FX_NO_SUCH_FILE
                && final(self).sftps@ == old(self).sftps@.update(
                sftp as int,
                (SftpSlot { last_fx: FX_NO_SUCH_FILE, ..old(self).sftps@[sftp as int] }),
            ) && *final(self) == (Engine {
                sftps: final(self).sftps,
                last_code: ERROR_SFTP_PROTOCOL,
                last_msg: final(self).last_msg,
                ..*old(self)
            }),
            r matches Some(h) ==> !old(self).spec_scripted() && h == old(self).files@.len()
                && final(self).files@.len() == old(self).files@.len() + 1 && ({
                let slot = final(self).files@[h as int];
                &&& final(self).files@ == old(self).files@.push(slot)
                &&& slot.alive
                &&& slot.sftp == sftp
                &&& !slot.is_dir
                &&& slot.pos == 0
                &&& slot.dir_pos == 0
                &&& slot.dir_entries@.len() == 0
            }),
            !old(self).spec_scripted() && (exists|j: int|
                0 <= j < old(self).remote_files@.len() && (#[trigger] old(
                    self,
                ).remote_files@[j]).path@ == path@) ==> r is Some && ({
                let k = Engine::spec_file_at(old(self).remote_files@, path@);
                let slot = final(self).files@[r.unwrap() as int];
                &&& slot.data@ == if Engine::spec_wants_truncate(flags) {
                    Seq::<u8>::empty()
                } else {
                    old(self).remote_files@[k].data@
                }
                &&& final(self).remote_files@ == old(self).remote_files@.update(
                    k,
                    (RemoteFile {
                        data: final(self).remote_files@[k].data,
                        ..old(self).remote_files@[k]
                    }),
                )
                &&& final(self).remote_files@[k].data@ == slot.data@
                &&& *final(self) == (Engine {
                    files: final(self).files,
                    remote_files: final(self).remote_files,
                    ..*old(self)
                })
            }),
            !old(self).spec_scripted() && Engine::spec_no_file_before(
                old(self).remote_files@,
                path@,
                old(self).remote_files@.len() as int,
            ) && Engine::spec_wants_create(flags) ==> r is Some && ({
                let slot = final(self).files@[r.unwrap() as int];
                &&& slot.data@.len() == 0
                &&& final(self).remote_files@.len() == old(self).remote_files@.len() + 1
                &&& final(self).remote_files@ == old(self).remote_files@.push(
                    final(self).remote_files@.last(),
                )
                &&& final(self).remote_files@.last().path@ == path@
                &&& final(self).remote_files@.last().data@.len() == 0
                &&& final(self).remote_files@.last().mode == mode as u32
                &&& *final(self) == (Engine {
                    files: final(self).files,
                    remote_files: final(self).remote_files,
                    ..*old(self)
                })
            }),
    {
        match self.take_scripted() {
            Some(_) => None,
            None => {
                match self.find_file(path) {
                    Some(k) => {
                        proof {
                            Engine::lemma_file_at(self.remote_files@, path@, k as int);
                        }
                        if flags & 0x10 != 0 {
                            let rf = &mut self.remote_files[k];
                            rf.data = Vec::new();
                        } else {
                            let rf = &mut self.remote_files[k];
                            let kept = crate::util::copy_bytes(rf.data.as_slice());
                            rf.data = kept;
                        }
                        let data = crate::util::copy_bytes(self.remote_files[k].data.as_slice());
                        let attrs = self.attrs_of(k);
                        let h = self.files.len();
                        self.files.push(FileSlot {
                            alive: true,
                            sftp,
                            is_dir: false,
                            data,
                            pos: 0,
                            attrs,
                            dir_entries: Vec::new(),
                            dir_pos: 0,
                        });
                        Some(h)
                    }
                    None => {
                        if flags & 0x8 != 0 {
                            let path_copy = crate::util::copy_bytes(path.as_slice());
                            self.remote_files.push(RemoteFile {
                                path: path_copy,
                                data: Vec::new(),
                                mode: mode as u32,
                                mtime: 0,
                                atime: 0,
                            });
                            let attrs = SftpAttributes {
                                flags: SFTP_ATTR_SIZE | SFTP_ATTR_PERMISSIONS,
                                filesize: 0,
                                uid: 0,
                                gid: 0,
                                permissions: mode,
                                atime: 0,
                                mtime: 0,
                            };
                            let h = self.files.len();
                            self.files.push(FileSlot {
                                alive: true,
                                sftp,
                                is_dir: false,
                                data: Vec::new(),
                                pos: 0,
                                attrs,
                                dir_entries: Vec::new(),
                                dir_pos: 0,
                            });
                            Some(h)
                        } else {
                            let _ = self.fail_fx(sftp, FX_NO_SUCH_FILE);
                            None
                        }
                    }
                }
            }
        }
    }
}

impl Engine {
    /// No staged remote directory before index `k` has path `path`.
    pub open spec fn spec_no_dir_before(dirs: Seq<Vec<u8>>, path: Seq<u8>, k: int) -> bool {
        forall|j: int| 0 <= j < k ==> (#[trigger] dirs[j])@ != path
    }

    /// Find the first staged remote directory with the given path.
    fn find_dir(&self, path: &Vec<u8>) -> (r: Option<usize>)
        ensures
            r matches Some(k) ==> k < self.remote_dirs@.len()
                && self.remote_dirs@[k as int]@ == path@
                && Engine::spec_no_dir_before(self.remote_dirs@, path@, k as int),
            r is None ==> Engine::spec_no_dir_before(
                self.remote_dirs@,
                path@,
                self.remote_dirs@.len() as int,
            ),
    {
        let mut i: usize = 0;
        while i < self.remote_dirs.len()
            invariant
                i <= self.remote_dirs@.len(),
                Engine::spec_no_dir_before(self.remote_dirs@, path@, i as int),
            decreases self.remote_dirs@.len() - i,
        {
            if bytes_match(&self.remote_dirs[i], path) {
                return Some(i);
            }
            i = i + 1;
        }
        None
    }

    /// No staged remote link before index `k` has path `path`.
    pub open spec fn spec_no_link_before(links: Seq<(Vec<u8>, Vec<u8>)>, path: Seq<u8>, k: int) -> bool {
        forall|j: int| 0 <= j < k ==> (#[trigger] links[j]).0@ != path
    }

    /// Find the first staged remote link with the given path.
    fn find_link(&self, path: &Vec<u8>) -> (r: Option<usize>)
        ensures
            r matches Some(k) ==> k < self.remote_links@.len()
                && self.remote_links@[k as int].0@ == path@
                && Engine::spec_no_link_before(self.remote_links@, path@, k as int),
            r is None ==> Engine::spec_no_link_before(
                self.remote_links@,
                path@,
                self.remote_links@.len() as int,
            ),
    {
        let mut i: usize = 0;
        while i < self.remote_links.len()
            invariant
                i <= self.remote_links@.len(),
                Engine::spec_no_link_before(self.remote_links@, path@, i as int),
            decreases self.remote_links@.len() - i,
        {
            if bytes_match(&self.remote_links[i].0, path) {
                return Some(i);
            }
            i = i + 1;
        }
        None
    }

    /// Open a directory handle through the subsystem. The double's directory
    /// listing starts with the `.` and `..` entries and then names every
    /// staged remote file.
    pub fn sftp_open_dir(&mut self, sftp: usize, path: &Vec<u8>) -> (r: Option<usize>)
        requires
            old(self).spec_sftp_live(sftp as int),
        ensures
            old(self).spec_scripted() ==> r is None
                && *final(self) == old(self).spec_after_script(),
            !old(self).spec_scripted() && Engine::spec_no_dir_before(
                old(self).remote_dirs@,
                path@,
                old(self).remote_dirs@.len() as int,
            ) ==> r is None && final(self).last_code == ERROR_SFTP_PROTOCOL
                && final(self).sftps@[sftp as int].last_fx == FX_NO_SUCH_FILE
                && final(self).sftps@ == old(self).sftps@.update(
                sftp as int,
                (SftpSlot { last_fx: FX_NO_SUCH_FILE, ..old(self).sftps@[sftp as int] }),
            ) && *final(self) == (Engine {
                sftps: final(self).sftps,
                last_code: ERROR_SFTP_PROTOCOL,
                last_msg: final(self).last_msg,
                ..*old(self)
            }),
            !old(self).spec_scripted() && (exists|j: int|
                0 <= j < old(self).remote_dirs@.len() && (#[trigger] old(
                    self,
                ).remote_dirs@[j])@ == path@) ==> r is Some && r.unwrap()
                == old(self).files@.len() && ({
                let slot = final(self).files@[r.unwrap() as int];
                &&& final(self).files@ == old(self).files@.push(slot)
                &&& *final(self) == (Engine { files: final(self).files, ..*old(self) })
                &&& slot.alive
                &&& slot.sftp == sftp
                &&& slot.is_dir
                &&& slot.pos == 0
                &&& slot.data@.len() == 0
                &&& slot.dir_pos == 0
                &&& slot.dir_entries@.len() == old(self).remote_files@.len() + 2
                &&& slot.dir_entries@[0].0@ == seq![0x2eu8]
                &&& slot.dir_entries@[1].0@ == seq![0x2eu8, 0x2eu8]
                &&& forall|i: int| 0 <= i < old(self).remote_files@.len() ==> (#[trigger] slot.dir_entries@[i + 2]).0@
                    == old(self).remote_files@[i].path@ && slot.dir_entries@[i + 2].1
                    == Engine::spec_attrs_of(old(self).remote_files@[i])
            }),
    {
        match self.take_scripted() {
            Some(_) => None,
            None => {
                match self.find_dir(path) {
                    None => {
                        let _ = self.fail_fx(sftp, FX_NO_SUCH_FILE);
                        None
                    }
                    Some(_) => {
                        let mut entries: Vec<(Vec<u8>, SftpAttributes)> = Vec::new();
                        let dir_attrs = SftpAttributes {
                            flags: SFTP_ATTR_PERMISSIONS,
                            filesize: 0,
                            uid: 0,
                            gid: 0,
                            permissions: 0o040755,
                            atime: 0,
                            mtime: 0,
                        };
                        let mut dot: Vec<u8> = Vec::new();
                        dot.push(0x2eu8);
                        assert(dot@ =~= seq![0x2eu8]);
                        let mut dotdot: Vec<u8> = Vec::new();
                        dotdot.push(0x2eu8);
                        dotdot.push(0x2eu8);
                        assert(dotdot@ =~= seq![0x2eu8, 0x2eu8]);
                        entries.push((dot, dir_attrs));
                        entries.push((dotdot, dir_attrs));
                        let mut i: usize = 0;
                        while i < self.remote_files.len()
                            invariant
                                i <= self.remote_files@.len(),
                                entries@.len() == i + 2,
                                entries@[0].0@ == seq![0x2eu8],
                                entries@[1].0@ == seq![0x2eu8, 0x2eu8],
                                forall|j: int| 0 <= j < i ==> (#[trigger] entries@[j + 2]).0@
                                    == self.remote_files@[j].path@ && entries@[j + 2].1
                                    == Engine::spec_attrs_of(self.remote_files@[j]),
                            decreases self.remote_files@.len() - i,
                        {
                            let name = crate::util::copy_bytes(self.remote_files[i].path.as_slice());
                            let attrs = self.attrs_of(i);
                            entries.push((name, attrs));
                            i = i + 1;
                        }
                        let h = self.files.len();
                        self.files.push(FileSlot {
                            alive: true,
                            sftp,
                            is_dir: true,
                            data: Vec::new(),
                            pos: 0,
                            attrs: dir_attrs,
                            dir_entries: entries,
                            dir_pos: 0,
                        });
                        Some(h)
                    }
                }
            }
        }
    }

    /// Close a file or directory handle, releasing its native state.
    pub fn sftp_close_handle(&mut self, id: usize) -> (r: i32)
        requires
            old(self).spec_file_live(id as int),
        ensures
            old(self).spec_wouldblock_due() ==> r == ERROR_EAGAIN
                && Engine::spec_only_err_changed(*old(self), *final(self)),
            !old(self).spec_wouldblock_due() ==> r == 0 && Engine::spec_file_updated(
                *old(self),
                *final(self),
                id as int,
                (FileSlot { alive: false, ..old(self).files@[id as int] }),
            ),
    {
        if self.take_wouldblock() {
            ERROR_EAGAIN
        } else {
            let slot = &mut self.files[id];
            slot.alive = false;
            0
        }
    }

    /// Read up to `want` bytes from the file at its cursor.
    pub fn sftp_read(&mut self, id: usize, want: usize) -> (r: Result<Vec<u8>, i32>)
        requires
            old(self).spec_file_live(id as int),
            Engine::spec_file_cursors_ok(old(self).files@[id as int]),
        ensures
            old(self).spec_scripted() ==> r == Err::<Vec<u8>, i32>(old(self).spec_script_code())
                && *final(self) == old(self).spec_after_script(),
            !old(self).spec_scripted() && old(self).spec_wouldblock_due() ==> r
                == Err::<Vec<u8>, i32>(ERROR_EAGAIN) && Engine::spec_only_err_changed(
                *old(self),
                *final(self),
            ),
            !old(self).spec_scripted() && !old(self).spec_wouldblock_due() ==> ({
                let slot = old(self).files@[id as int];
                let n = if want <= slot.data@.len() - slot.pos {
                    want as int
                } else {
                    slot.data@.len() - slot.pos
                };
                &&& r is Ok
                &&& r.unwrap()@ == slot.data@.subrange(slot.pos as int, slot.pos + n)
                &&& Engine::spec_file_updated(
                    *old(self),
                    *final(self),
                    id as int,
                    (FileSlot { pos: (slot.pos + n) as usize, ..slot }),
                )
            }),
    {
        match self.take_scripted() {
            Some(c) => Err(c),
            None => {
                if self.take_wouldblock() {
                    return Err(ERROR_EAGAIN);
                }
                let slot = &self.files[id];
                let avail = slot.data.len() - slot.pos;
                let n = if want <= avail { want } else { avail };
                let out = crate::util::copy_range(slot.data.as_slice(), slot.pos, n);
                let slot = &mut self.files[id];
                slot.pos = slot.pos + n;
                Ok(out)
            }
        }
    }

    /// Write bytes to the file at its cursor; the double appends at the end.
    pub fn sftp_write(&mut self, id: usize, data: &[u8]) -> (r: Result<usize, i32>)
        requires
            old(self).spec_file_live(id as int),
            data@.len() <= usize::MAX - old(self).files@[id as int].data@.len(),
        ensures
            old(self).spec_scripted() ==> r == Err::<usize, i32>(old(self).spec_script_code())
                && *final(self) == old(self).spec_after_script(),
            !old(self).spec_scripted() && old(self).spec_wouldblock_due() ==> r
                == Err::<usize, i32>(ERROR_EAGAIN) && Engine::spec_only_err_changed(
                *old(self),
                *final(self),
            ),
            !old(self).spec_scripted() && !old(self).spec_wouldblock_due() ==> r
                == Ok::<usize, i32>(data@.len() as usize)
                && final(self).files@[id as int].data@ == old(self).files@[id as int].data@
                + data@ && Engine::spec_file_updated(
                *old(self),
                *final(self),
                id as int,
                (FileSlot {
                    data: final(self).files@[id as int].data,
                    ..old(self).files@[id as int]
                }),
            ),
    {
        match self.take_scripted() {
            Some(c) => Err(c),
            None => {
                if self.take_wouldblock() {
                    return Err(ERROR_EAGAIN);
                }
                let slot = &mut self.files[id];
                slot.data.extend_from_slice(data);
                Ok(data.len())
            }
        }
    }

    /// The attributes of the object behind the handle.
    pub fn sftp_fstat(&self, id: usize) -> (r: SftpAttributes)
        requires
            self.spec_file_live(id as int),
        ensures
            r == self.files@[id as int].attrs,
    {
        self.files[id].attrs
    }

    /// Replace the attributes of the object behind the handle.
    pub fn sftp_fsetstat(&mut self, id: usize, attrs: SftpAttributes) -> (r: i32)
        requires
            old(self).spec_file_live(id as int),
        ensures
            old(self).spec_scripted() ==> r == old(self).spec_script_code()
                && *final(self) == old(self).spec_after_script(),
            !old(self).spec_scripted() ==> r == 0 && Engine::spec_file_updated(
                *old(self),
                *final(self),
                id as int,
                (FileSlot { attrs, ..old(self).files@[id as int] }),
            ),
    {
        match self.take_scripted() {
            Some(c) => c,
            None => {
                let slot = &mut self.files[id];
                slot.attrs = attrs;
                0
            }
        }
    }

    /// Move the file cursor; a position past the end is clamped to the end.
    pub fn sftp_seek(&mut self, id: usize, offset: u64)
        requires
            old(self).spec_file_live(id as int),
        ensures
            ({
                let slot = old(self).files@[id as int];
                let p = if offset <= slot.data@.len() {
                    offset as int
                } else {
                    slot.data@.len() as int
                };
                Engine::spec_file_updated(
                    *old(self),
                    *final(self),
                    id as int,
                    (FileSlot { pos: p as usize, ..slot }),
                )
            }),
    {
        let slot = &mut self.files[id];
        let len = slot.data.len();
        let p: usize = if offset <= len as u64 {
            offset as usize
        } else {
            len
        };
        slot.pos = p;
    }

    /// The file cursor's position.
    pub fn sftp_tell(&self, id: usize) -> (r: u64)
        requires
            self.spec_file_live(id as int),
        ensures
            r == self.files@[id as int].pos,
    {
        self.files[id].pos as u64
    }

    /// Ask the remote side to synchronize the file to disk.
    pub fn sftp_fsync(&mut self, id: usize) -> (r: i32)
        requires
            old(self).spec_file_live(id as int),
        ensures
            old(self).spec_scripted() ==> r == old(self).spec_script_code()
                && *final(self) == old(self).spec_after_script(),
            !old(self).spec_scripted() ==> r == 0 && *final(self) == *old(self),
    {
        match self.take_scripted() {
            Some(c) => c,
            None => 0,
        }
    }

    /// Enumerate the next directory entry: the cursor-based "get next given
    /// previous" protocol. Returns the entry and advances the cursor, or
    /// nothing once the entries are exhausted (distinct from an error), or
    /// "buffer too small" when the caller's buffer cannot hold the name.
    pub fn sftp_readdir(&mut self, id: usize, cap: usize) -> (r: Result<Option<(Vec<u8>, SftpAttributes)>, i32>)
        requires
            old(self).spec_file_live(id as int),
            Engine::spec_file_cursors_ok(old(self).files@[id as int]),
        ensures
            old(self).spec_scripted() ==> r == Err::<Option<(Vec<u8>, SftpAttributes)>, i32>(
                old(self).spec_script_code(),
            ) && *final(self) == old(self).spec_after_script(),
            !old(self).spec_scripted() && old(self).spec_wouldblock_due() ==> r
                == Err::<Option<(Vec<u8>, SftpAttributes)>, i32>(ERROR_EAGAIN)
                && Engine::spec_only_err_changed(*old(self), *final(self))
                && final(self).wouldblock == old(self).wouldblock - 1
                && final(self).fail_next == old(self).fail_next,
            !old(self).spec_scripted() && !old(self).spec_wouldblock_due() && old(self).files@[id as int].dir_pos
                == old(self).files@[id as int].dir_entries@.len() ==> r
                == Ok::<Option<(Vec<u8>, SftpAttributes)>, i32>(None) && *final(self) == *old(self),
            !old(self).spec_scripted() && !old(self).spec_wouldblock_due() && old(self).files@[id as int].dir_pos
                < old(self).files@[id as int].dir_entries@.len() && old(self).files@[id as int].dir_entries@[old(
                self,
            ).files@[id as int].dir_pos as int].0@.len() > cap ==> r == Err::<
                Option<(Vec<u8>, SftpAttributes)>,
                i32,
            >(ERROR_BUFFER_TOO_SMALL) && *final(self) == *old(self) && old(self).files@[id as int].dir_entries@[old(self).files@[id as int].dir_pos as int].0@.len() <= usize::MAX,
            !old(self).spec_scripted() && !old(self).spec_wouldblock_due() && old(self).files@[id as int].dir_pos
                < old(self).files@[id as int].dir_entries@.len() && old(self).files@[id as int].dir_entries@[old(
                self,
            ).files@[id as int].dir_pos as int].0@.len() <= cap ==> ({
                let slot = old(self).files@[id as int];
                let entry = slot.dir_entries@[slot.dir_pos as int];
                &&& r is Ok
                &&& r.unwrap() is Some
                &&& r.unwrap().unwrap().0@ == entry.0@
                &&& r.unwrap().unwrap().1 == entry.1
                &&& slot.dir_pos < usize::MAX
                &&& Engine::spec_file_updated(
                    *old(self),
                    *final(self),
                    id as int,
                    (FileSlot { dir_pos: (slot.dir_pos + 1) as usize, ..slot }),
                )
            }),
    {
        match self.take_scripted() {
            Some(c) => Err(c),
            None => {
                if self.take_wouldblock() {
                    return Err(ERROR_EAGAIN);
                }
                let slot = &self.files[id];
                if slot.dir_pos == slot.dir_entries.len() {
                    return Ok(None);
                }
                let entry = &slot.dir_entries[slot.dir_pos];
                if entry.0.len() > cap {
                    return Err(ERROR_BUFFER_TOO_SMALL);
                }
                let name = crate::util::copy_bytes(entry.0.as_slice());
                let attrs = entry.1;
                let slot = &mut self.files[id];
                slot.dir_pos = slot.dir_pos + 1;
                Ok(Some((name, attrs)))
            }
        }
    }
}

impl Engine {
    /// Attributes of the staged remote file at `path`, or "no such file"
    /// through the secondary namespace.
    pub fn sftp_stat_path(&mut self, sftp: usize, path: &Vec<u8>) -> (r: Result<SftpAttributes, i32>)
        requires
            old(self).spec_sftp_live(sftp as int),
        ensures
            old(self).spec_scripted() ==> r == Err::<SftpAttributes, i32>(
                old(self).spec_script_code(),
            ) && *final(self) == old(self).spec_after_script(),
            !old(self).spec_scripted() && Engine::spec_no_file_before(
                old(self).remote_files@,
                path@,
                old(self).remote_files@.len() as int,
            ) ==> r == Err::<SftpAttributes, i32>(ERROR_SFTP_PROTOCOL)
                && final(self).sftps@[sftp as int].last_fx == FX_NO_SUCH_FILE
                && final(self).sftps@ == old(self).sftps@.update(
                sftp as int,
                (SftpSlot { last_fx: FX_NO_SUCH_FILE, ..old(self).sftps@[sftp as int] }),
            ) && *final(self) == (Engine {
                sftps: final(self).sftps,
                last_code: ERROR_SFTP_PROTOCOL,
                last_msg: final(self).last_msg,
                ..*old(self)
            }),
            !old(self).spec_scripted() && (exists|j: int|
                0 <= j < old(self).remote_files@.len() && (#[trigger] old(
                    self,
                ).remote_files@[j]).path@ == path@) ==> r == Ok::<SftpAttributes, i32>(
                Engine::spec_attrs_of(
                    old(self).remote_files@[Engine::spec_file_at(old(self).remote_files@, path@)],
                ),
            ) && *final(self) == *old(self),
    {
        match self.take_scripted() {
            Some(c) => Err(c),
            None => {
                match self.find_file(path) {
                    Some(k) => {
                        proof {
                            Engine::lemma_file_at(self.remote_files@, path@, k as int);
                        }
                        Ok(self.attrs_of(k))
                    }
                    None => Err(self.fail_fx(sftp, FX_NO_SUCH_FILE)),
                }
            }
        }
    }

    /// Apply the flagged attributes to the staged remote file at `path`.
    pub fn sftp_setstat_path(&mut self, sftp: usize, path: &Vec<u8>, attrs: SftpAttributes) -> (r: i32)
        requires
            old(self).spec_sftp_live(sftp as int),
        ensures
            old(self).spec_scripted() ==> r == old(self).spec_script_code()
                && *final(self) == old(self).spec_after_script(),
            !old(self).spec_scripted() && Engine::spec_no_file_before(
                old(self).remote_files@,
                path@,
                old(self).remote_files@.len() as int,
            ) ==> r == ERROR_SFTP_PROTOCOL
                && final(self).sftps@[sftp as int].last_fx == FX_NO_SUCH_FILE
                && final(self).sftps@ == old(self).sftps@.update(
                sftp as int,
                (SftpSlot { last_fx: FX_NO_SUCH_FILE, ..old(self).sftps@[sftp as int] }),
            ) && *final(self) == (Engine {
                sftps: final(self).sftps,
                last_code: ERROR_SFTP_PROTOCOL,
                last_msg: final(self).last_msg,
                ..*old(self)
            }),
            !old(self).spec_scripted() && (exists|j: int|
                0 <= j < old(self).remote_files@.len() && (#[trigger] old(
                    self,
                ).remote_files@[j]).path@ == path@) ==> r == 0 && ({
                let k = Engine::spec_file_at(old(self).remote_files@, path@);
                let f = old(self).remote_files@[k];
                &&& final(self).remote_files@ == old(self).remote_files@.update(
                    k,
                    (RemoteFile {
                        mode: if attrs.flags & SFTP_ATTR_PERMISSIONS != 0 {
                            attrs.permissions as u32
                        } else {
                            f.mode
                        },
                        mtime: if attrs.flags & SFTP_ATTR_ACMODTIME != 0 {
                            attrs.mtime
                        } else {
                            f.mtime
                        },
                        atime: if attrs.flags & SFTP_ATTR_ACMODTIME != 0 {
                            attrs.atime
                        } else {
                            f.atime
                        },
                        ..f
                    }),
                )
                &&& *final(self) == (Engine {
                    remote_files: final(self).remote_files,
                    ..*old(self)
                })
            }),
    {
        match self.take_scripted() {
            Some(c) => c,
            None => {
                match self.find_file(path) {
                    Some(k) => {
                        proof {
                            Engine::lemma_file_at(self.remote_files@, path@, k as int);
                        }
                        let f = &mut self.remote_files[k];
                        if attrs.flags & SFTP_ATTR_PERMISSIONS != 0 {
                            f.mode = attrs.permissions as u32;
                        }
                        if attrs.flags & SFTP_ATTR_ACMODTIME != 0 {
                            f.mtime = attrs.mtime;
                            f.atime = attrs.atime;
                        }
                        0
                    }
                    None => self.fail_fx(sftp, FX_NO_SUCH_FILE),
                }
            }
        }
    }

    /// Create a staged remote directory; an existing one is "file already
    /// exists" in the secondary namespace.
    pub fn sftp_mkdir(&mut self, sftp: usize, path: &Vec<u8>, mode: u64) -> (r: i32)
        requires
            old(self).spec_sftp_live(sftp as int),
        ensures
            old(self).spec_scripted() ==> r == old(self).spec_script_code()
                && *final(self) == old(self).spec_after_script(),
            !old(self).spec_scripted() && (exists|j: int|
                0 <= j < old(self).remote_dirs@.len() && (#[trigger] old(
                    self,
                ).remote_dirs@[j])@ == path@) ==> r == ERROR_SFTP_PROTOCOL
                && final(self).sftps@[sftp as int].last_fx == FX_FILE_ALREADY_EXISTS
                && Engine::spec_only_err_changed(
                *old(self),
                (Engine { sftps: old(self).sftps, ..*final(self) }),
            ) && final(self).sftps@ == old(self).sftps@.update(
                sftp as int,
                (SftpSlot { last_fx: FX_FILE_ALREADY_EXISTS, ..old(self).sftps@[sftp as int] }),
            ),
            !old(self).spec_scripted() && Engine::spec_no_dir_before(
                old(self).remote_dirs@,
                path@,
                old(self).remote_dirs@.len() as int,
            ) ==> r == 0 && final(self).remote_dirs@.len() == old(self).remote_dirs@.len() + 1
                && final(self).remote_dirs@ == old(self).remote_dirs@.push(
                final(self).remote_dirs@.last(),
            ) && final(self).remote_dirs@.last()@ == path@ && *final(self) == (Engine {
                remote_dirs: final(self).remote_dirs,
                ..*old(self)
            }),
    {
        let _ = mode;
        match self.take_scripted() {
            Some(c) => c,
            None => {
                match self.find_dir(path) {
                    Some(_) => self.fail_fx(sftp, FX_FILE_ALREADY_EXISTS),
                    None => {
                        let copy = crate::util::copy_bytes(path.as_slice());
                        self.remote_dirs.push(copy);
                        0
                    }
                }
            }
        }
    }

    /// Remove a staged remote directory.
    pub fn sftp_rmdir(&mut self, sftp: usize, path: &Vec<u8>) -> (r: i32)
        requires
            old(self).spec_sftp_live(sftp as int),
        ensures
            old(self).spec_scripted() ==> r == old(self).spec_script_code()
                && *final(self) == old(self).spec_after_script(),
            !old(self).spec_scripted() && Engine::spec_no_dir_before(
                old(self).remote_dirs@,
                path@,
                old(self).remote_dirs@.len() as int,
            ) ==> r == ERROR_SFTP_PROTOCOL
                && Engine::spec_fx_failed(*old(self), *final(self), sftp as int, FX_NO_SUCH_FILE),
            !old(self).spec_scripted() && (exists|j: int|
                0 <= j < old(self).remote_dirs@.len() && (#[trigger] old(
                    self,
                ).remote_dirs@[j])@ == path@) ==> r == 0
                && final(self).remote_dirs@.len() == old(self).remote_dirs@.len() - 1
                && *final(self) == (Engine { remote_dirs: final(self).remote_dirs, ..*old(self) }),
    {
        match self.take_scripted() {
            Some(c) => c,
            None => {
                match self.find_dir(path) {
                    None => self.fail_fx(sftp, FX_NO_SUCH_FILE),
                    Some(k) => {
                        let _ = self.remote_dirs.remove(k);
                        0
                    }
                }
            }
        }
    }

    /// Remove a staged remote file.
    pub fn sftp_unlink(&mut self, sftp: usize, path: &Vec<u8>) -> (r: i32)
        requires
            old(self).spec_sftp_live(sftp as int),
        ensures
            old(self).spec_scripted() ==> r == old(self).spec_script_code()
                && *final(self) == old(self).spec_after_script(),
            !old(self).spec_scripted() && Engine::spec_no_file_before(
                old(self).remote_files@,
                path@,
                old(self).remote_files@.len() as int,
            ) ==> r == ERROR_SFTP_PROTOCOL
                && Engine::spec_fx_failed(*old(self), *final(self), sftp as int, FX_NO_SUCH_FILE),
            !old(self).spec_scripted() && (exists|j: int|
                0 <= j < old(self).remote_files@.len() && (#[trigger] old(
                    self,
                ).remote_files@[j]).path@ == path@) ==> r == 0
                && final(self).remote_files@ == old(self).remote_files@.remove(
                Engine::spec_file_at(old(self).remote_files@, path@),
            ) && *final(self) == (Engine {
                remote_files: final(self).remote_files,
                ..*old(self)
            }),
    {
        match self.take_scripted() {
            Some(c) => c,
            None => {
                match self.find_file(path) {
                    None => self.fail_fx(sftp, FX_NO_SUCH_FILE),
                    Some(k) => {
                        proof {
                            Engine::lemma_file_at(self.remote_files@, path@, k as int);
                        }
                        let _ = self.remote_files.remove(k);
                        0
                    }
                }
            }
        }
    }

    /// Rename a staged remote file. Without the overwrite flag an existing
    /// destination is refused; with it, the destination is replaced.
    pub fn sftp_rename(&mut self, sftp: usize, src: &Vec<u8>, dst: &Vec<u8>, overwrite: bool) -> (r: i32)
        requires
            old(self).spec_sftp_live(sftp as int),
        ensures
            old(self).spec_scripted() ==> r == old(self).spec_script_code()
                && *final(self) == old(self).spec_after_script(),
            !old(self).spec_scripted() && Engine::spec_no_file_before(
                old(self).remote_files@,
                src@,
                old(self).remote_files@.len() as int,
            ) ==> r == ERROR_SFTP_PROTOCOL
                && Engine::spec_fx_failed(*old(self), *final(self), sftp as int, FX_NO_SUCH_FILE),
            !old(self).spec_scripted() && (exists|j: int|
                0 <= j < old(self).remote_files@.len() && (#[trigger] old(
                    self,
                ).remote_files@[j]).path@ == src@) && (exists|j: int|
                0 <= j < old(self).remote_files@.len() && (#[trigger] old(
                    self,
                ).remote_files@[j]).path@ == dst@) && !overwrite ==> r == ERROR_SFTP_PROTOCOL
                && Engine::spec_fx_failed(*old(self), *final(self), sftp as int, FX_FILE_ALREADY_EXISTS),
            !old(self).spec_scripted() && (exists|j: int|
                0 <= j < old(self).remote_files@.len() && (#[trigger] old(
                    self,
                ).remote_files@[j]).path@ == src@) && Engine::spec_no_file_before(
                old(self).remote_files@,
                dst@,
                old(self).remote_files@.len() as int,
            ) ==> r == 0 && ({
                let k = Engine::spec_file_at(old(self).remote_files@, src@);
                &&& final(self).remote_files@.len() == old(self).remote_files@.len()
                &&& final(self).remote_files@[k].path@ == dst@
                &&& final(self).remote_files@[k].data@ == old(self).remote_files@[k].data@
                &&& (forall|j: int|
                    0 <= j < old(self).remote_files@.len() && j != k ==> (#[trigger] final(self).remote_files@[j])
                        == old(self).remote_files@[j])
                &&& *final(self) == (Engine {
                    remote_files: final(self).remote_files,
                    ..*old(self)
                })
            }),
            !old(self).spec_scripted() && (exists|j: int|
                0 <= j < old(self).remote_files@.len() && (#[trigger] old(
                    self,
                ).remote_files@[j]).path@ == src@) && (exists|j: int|
                0 <= j < old(self).remote_files@.len() && (#[trigger] old(
                    self,
                ).remote_files@[j]).path@ == dst@) && src@ != dst@ && overwrite ==> r == 0
                && final(self).remote_files@.len() == old(self).remote_files@.len() - 1
                && (exists|j: int|
                0 <= j < final(self).remote_files@.len() && (#[trigger] final(self).remote_files@[j]).path@ == dst@ && final(self).remote_files@[j].data@ == old(
                    self,
                ).remote_files@[Engine::spec_file_at(old(self).remote_files@, src@)].data@)
                && *final(self) == (Engine {
                remote_files: final(self).remote_files,
                ..*old(self)
            }),
            !old(self).spec_scripted() && (exists|j: int|
                0 <= j < old(self).remote_files@.len() && (#[trigger] old(
                    self,
                ).remote_files@[j]).path@ == src@) && src@ == dst@ && overwrite ==> r == 0
                && *final(self) == *old(self),
    {
        match self.take_scripted() {
            Some(c) => c,
            None => {
                let si = match self.find_file(src) {
                    None => {
                        return self.fail_fx(sftp, FX_NO_SUCH_FILE);
                    }
                    Some(si) => si,
                };
                proof {
                    Engine::lemma_file_at(self.remote_files@, src@, si as int);
                }
                match self.find_file(dst) {
                    Some(di) => {
                        if !overwrite {
                            return self.fail_fx(sftp, FX_FILE_ALREADY_EXISTS);
                        }
                        if bytes_match(src, dst) {
                            return 0;
                        }
                        let _ = self.remote_files.remove(di);
                        let si2 = if si > di {
                            si - 1
                        } else {
                            si
                        };
                        let new_path = crate::util::copy_bytes(dst.as_slice());
                        let f = &mut self.remote_files[si2];
                        f.path = new_path;
                        0
                    }
                    None => {
                        let new_path = crate::util::copy_bytes(dst.as_slice());
                        let f = &mut self.remote_files[si];
                        f.path = new_path;
                        0
                    }
                }
            }
        }
    }

    /// Stage a symbolic link at `path` pointing at `target`.
    pub fn sftp_symlink(&mut self, sftp: usize, path: &Vec<u8>, target: &Vec<u8>) -> (r: i32)
        requires
            old(self).spec_sftp_live(sftp as int),
        ensures
            old(self).spec_scripted() ==> r == old(self).spec_script_code()
                && *final(self) == old(self).spec_after_script(),
            !old(self).spec_scripted() ==> r == 0
                && final(self).remote_links@.len() == old(self).remote_links@.len() + 1
                && final(self).remote_links@ == old(self).remote_links@.push(
                final(self).remote_links@.last(),
            ) && final(self).remote_links@.last().0@ == path@
                && final(self).remote_links@.last().1@ == target@ && *final(self) == (Engine {
                remote_links: final(self).remote_links,
                ..*old(self)
            }),
    {
        match self.take_scripted() {
            Some(c) => c,
            None => {
                let p = crate::util::copy_bytes(path.as_slice());
                let t = crate::util::copy_bytes(target.as_slice());
                self.remote_links.push((p, t));
                0
            }
        }
    }

    /// Read the target of a staged link into a buffer of capacity `cap`:
    /// too small a buffer is reported so the caller can grow it and retry.
    pub fn sftp_readlink(&mut self, sftp: usize, path: &Vec<u8>, cap: usize) -> (r: Result<Vec<u8>, i32>)
        requires
            old(self).spec_sftp_live(sftp as int),
        ensures
            old(self).spec_scripted() ==> r == Err::<Vec<u8>, i32>(old(self).spec_script_code())
                && *final(self) == old(self).spec_after_script(),
            !old(self).spec_scripted() && Engine::spec_no_link_before(
                old(self).remote_links@,
                path@,
                old(self).remote_links@.len() as int,
            ) ==> r == Err::<Vec<u8>, i32>(ERROR_SFTP_PROTOCOL)
                && Engine::spec_fx_failed(*old(self), *final(self), sftp as int, FX_NO_SUCH_FILE),
            !old(self).spec_scripted() && (exists|j: int|
                0 <= j < old(self).remote_links@.len() && (#[trigger] old(
                    self,
                ).remote_links@[j]).0@ == path@) ==> ({
                let k = Engine::spec_link_at(old(self).remote_links@, path@);
                let target = old(self).remote_links@[k].1;
                &&& final(self).sftp_calls == Engine::spec_bump(old(self).sftp_calls)
                &&& target@.len() > cap ==> r == Err::<Vec<u8>, i32>(ERROR_BUFFER_TOO_SMALL)
                    && *final(self) == (Engine {
                    sftp_calls: final(self).sftp_calls,
                    ..*old(self)
                }) && target@.len() <= usize::MAX
                &&& target@.len() <= cap ==> r is Ok && r.unwrap()@ == target@ && *final(self)
                    == (Engine { sftp_calls: final(self).sftp_calls, ..*old(self) })
            }),
    {
        match self.take_scripted() {
            Some(c) => Err(c),
            None => {
                match self.find_link(path) {
                    None => Err(self.fail_fx(sftp, FX_NO_SUCH_FILE)),
                    Some(k) => {
                        proof {
                            Engine::lemma_link_at(self.remote_links@, path@, k as int);
                        }
                        self.sftp_calls = if self.sftp_calls < u64::MAX {
                            self.sftp_calls + 1
                        } else {
                            self.sftp_calls
                        };
                        let target = &self.remote_links[k].1;
                        if target.len() > cap {
                            Err(ERROR_BUFFER_TOO_SMALL)
                        } else {
                            Ok(crate::util::copy_bytes(target.as_slice()))
                        }
                    }
                }
            }
        }
    }

    /// The index of the first staged link with the given path.
    pub open spec fn spec_link_at(links: Seq<(Vec<u8>, Vec<u8>)>, path: Seq<u8>) -> int {
        choose|k: int|
            0 <= k < links.len() && links[k].0@ == path && Engine::spec_no_link_before(
                links,
                path,
                k,
            )
    }

    /// A found link index is the chosen first index.
    proof fn lemma_link_at(links: Seq<(Vec<u8>, Vec<u8>)>, path: Seq<u8>, k: int)
        requires
            0 <= k < links.len(),
            links[k].0@ == path,
            Engine::spec_no_link_before(links, path, k),
        ensures
            Engine::spec_link_at(links, path) == k,
    {
        let c = Engine::spec_link_at(links, path);
        assert(0 <= c < links.len() && links[c].0@ == path && Engine::spec_no_link_before(
            links,
            path,
            c,
        ));
        if c < k {
            assert(links[c].0@ != path);
        }
        if k < c {
            assert(links[k].0@ != path);
        }
    }

    /// Resolve a path: any staged file, directory or link resolves to
    /// itself (the double stages canonical paths only), into a buffer of
    /// capacity `cap` with the grow-and-retry protocol.
    pub fn sftp_realpath(&mut self, sftp: usize, path: &Vec<u8>, cap: usize) -> (r: Result<Vec<u8>, i32>)
        requires
            old(self).spec_sftp_live(sftp as int),
        ensures
            old(self).spec_scripted() ==> r == Err::<Vec<u8>, i32>(old(self).spec_script_code())
                && *final(self) == old(self).spec_after_script(),
            !old(self).spec_scripted() && !old(self).spec_path_exists(path@) ==> r == Err::<
                Vec<u8>,
                i32,
            >(ERROR_SFTP_PROTOCOL)
                && Engine::spec_fx_failed(*old(self), *final(self), sftp as int, FX_NO_SUCH_FILE),
            !old(self).spec_scripted() && old(self).spec_path_exists(path@) ==> final(self).sftp_calls == Engine::spec_bump(old(self).sftp_calls),
            !old(self).spec_scripted() && old(self).spec_path_exists(path@) && path@.len() > cap
                ==> r == Err::<Vec<u8>, i32>(ERROR_BUFFER_TOO_SMALL) && *final(self) == (Engine {
                sftp_calls: final(self).sftp_calls,
                ..*old(self)
            }),
            !old(self).spec_scripted() && old(self).spec_path_exists(path@) && path@.len() <= cap
                ==> r is Ok && r.unwrap()@ == path@ && *final(self) == (Engine {
                sftp_calls: final(self).sftp_calls,
                ..*old(self)
            }),
    {
        match self.take_scripted() {
            Some(c) => Err(c),
            None => {
                let found = match self.find_file(path) {
                    Some(_) => true,
                    None => match self.find_dir(path) {
                        Some(_) => true,
                        None => match self.find_link(path) {
                            Some(_) => true,
                            None => false,
                        },
                    },
                };
                if !found {
                    assert(!self.spec_path_exists(path@));
                    return Err(self.fail_fx(sftp, FX_NO_SUCH_FILE));
                }
                assert(self.spec_path_exists(path@));
                self.sftp_calls = if self.sftp_calls < u64::MAX {
                    self.sftp_calls + 1
                } else {
                    self.sftp_calls
                };
                if path.len() > cap {
                    Err(ERROR_BUFFER_TOO_SMALL)
                } else {
                    Ok(crate::util::copy_bytes(path.as_slice()))
                }
            }
        }
    }

    /// Some staged file, directory or link has the given path.
    pub open spec fn spec_path_exists(self, path: Seq<u8>) -> bool {
        ||| exists|j: int|
            0 <= j < self.remote_files@.len() && (#[trigger] self.remote_files@[j]).path@ == path
        ||| exists|j: int|
            0 <= j < self.remote_dirs@.len() && (#[trigger] self.remote_dirs@[j])@ == path
        ||| exists|j: int|
            0 <= j < self.remote_links@.len() && (#[trigger] self.remote_links@[j]).0@ == path
    }
}

impl Engine {
    /// The agent handle exists and is still allocated.
    pub open spec fn spec_agent_live(self, id: int) -> bool {
        0 <= id < self.agents@.len() && self.agents@[id].alive
    }

    /// `b` is a view-for-view snapshot of the identity list `a`.
    pub open spec fn spec_keys_snapshot(a: Seq<(Vec<u8>, String)>, b: Seq<(Vec<u8>, String)>) -> bool {
        &&& b.len() == a.len()
        &&& forall|i: int| 0 <= i < a.len() ==> (#[trigger] b[i]).0@ == a[i].0@ && b[i].1@
            == a[i].1@
    }

    /// Allocate an agent handle.
    pub fn agent_init(&mut self) -> (r: Option<usize>)
        ensures
            old(self).spec_scripted() ==> r is None
                && *final(self) == old(self).spec_after_script(),
            !old(self).spec_scripted() ==> r is Some && r.unwrap() == old(self).agents@.len()
                && final(self).agents@ == old(self).agents@.push(
                AgentSlot { alive: true, connected: false, listed: None },
            ) && *final(self) == (Engine { agents: final(self).agents, ..*old(self) }),
    {
        match self.take_scripted() {
            Some(_) => None,
            None => {
                let id = self.agents.len();
                self.agents.push(AgentSlot { alive: true, connected: false, listed: None });
                Some(id)
            }
        }
    }

    /// Connect to the agent.
    pub fn agent_connect(&mut self, id: usize) -> (r: i32)
        requires
            old(self).spec_agent_live(id as int),
        ensures
            old(self).spec_scripted() ==> r == old(self).spec_script_code()
                && *final(self) == old(self).spec_after_script(),
            !old(self).spec_scripted() ==> r == 0 && final(self).agents@
                == old(self).agents@.update(
                id as int,
                (AgentSlot { connected: true, ..old(self).agents@[id as int] }),
            ) && *final(self) == (Engine { agents: final(self).agents, ..*old(self) }),
    {
        match self.take_scripted() {
            Some(c) => c,
            None => {
                let slot = &mut self.agents[id];
                slot.connected = true;
                0
            }
        }
    }

    /// Close the connection to the agent.
    pub fn agent_disconnect(&mut self, id: usize) -> (r: i32)
        requires
            old(self).spec_agent_live(id as int),
        ensures
            old(self).spec_scripted() ==> r == old(self).spec_script_code()
                && *final(self) == old(self).spec_after_script(),
            !old(self).spec_scripted() ==> r == 0 && final(self).agents@
                == old(self).agents@.update(
                id as int,
                (AgentSlot { connected: false, ..old(self).agents@[id as int] }),
            ) && *final(self) == (Engine { agents: final(self).agents, ..*old(self) }),
    {
        match self.take_scripted() {
            Some(c) => c,
            None => {
                let slot = &mut self.agents[id];
                slot.connected = false;
                0
            }
        }
    }

    /// Fetch the agent's identities into the handle's internal collection.
    /// Requires an established connection.
    pub fn agent_list_identities(&mut self, id: usize) -> (r: i32)
        requires
            old(self).spec_agent_live(id as int),
        ensures
            old(self).spec_scripted() ==> r == old(self).spec_script_code()
                && *final(self) == old(self).spec_after_script(),
            !old(self).spec_scripted() && !old(self).agents@[id as int].connected ==> r
                == ERROR_BAD_USE && *final(self) == (Engine {
                last_code: ERROR_BAD_USE,
                last_msg: final(self).last_msg,
                ..*old(self)
            }) && final(self).last_msg@ == spec_session_message(ERROR_BAD_USE),
            !old(self).spec_scripted() && old(self).agents@[id as int].connected ==> r == 0
                && final(self).agents@[id as int].listed is Some
                && Engine::spec_keys_snapshot(
                old(self).agent_keys@,
                final(self).agents@[id as int].listed.unwrap()@,
            ) && final(self).agents@ == old(self).agents@.update(
                id as int,
                (AgentSlot {
                    listed: final(self).agents@[id as int].listed,
                    ..old(self).agents@[id as int]
                }),
            ) && *final(self) == (Engine { agents: final(self).agents, ..*old(self) }),
    {
        match self.take_scripted() {
            Some(c) => c,
            None => {
                if !self.agents[id].connected {
                    return self.fail(ERROR_BAD_USE);
                }
                let mut snapshot: Vec<(Vec<u8>, String)> = Vec::new();
                let mut i: usize = 0;
                while i < self.agent_keys.len()
                    invariant
                        i <= self.agent_keys@.len(),
                        snapshot@.len() == i,
                        forall|j: int| 0 <= j < i ==> (#[trigger] snapshot@[j]).0@
                            == self.agent_keys@[j].0@ && snapshot@[j].1@
                            == self.agent_keys@[j].1@,
                    decreases self.agent_keys@.len() - i,
                {
                    let blob = crate::util::copy_bytes(self.agent_keys[i].0.as_slice());
                    let comment = self.agent_keys[i].1.clone();
                    snapshot.push((blob, comment));
                    i = i + 1;
                }
                let slot = &mut self.agents[id];
                slot.listed = Some(snapshot);
                0
            }
        }
    }

    /// The cursor step of the agent's identity enumeration: hand back the
    /// entry after `prev`, or nothing when the list is exhausted.
    pub fn agent_get_identity(&self, id: usize, prev: Option<usize>) -> (r: Option<usize>)
        requires
            self.spec_agent_live(id as int),
            prev matches Some(p) ==> self.agents@[id as int].listed is Some && p < self.agents@[id as int].listed.unwrap()@.len(),
        ensures
            self.agents@[id as int].listed is None ==> r is None,
            self.agents@[id as int].listed is Some ==> ({
                let listed = self.agents@[id as int].listed.unwrap()@;
                &&& (r matches Some(nx) ==> nx < listed.len() && (match prev {
                    Some(p) => nx == p + 1,
                    None => nx == 0,
                }))
                &&& (r is None ==> (match prev {
                    Some(p) => p + 1 >= listed.len(),
                    None => listed.len() == 0,
                }))
            }),
    {
        let listed = match &self.agents[id].listed {
            Some(l) => l,
            None => {
                return None;
            }
        };
        let len = listed.len();
        let next: usize = match prev {
            Some(p) => {
                assert(p < len);
                p + 1
            }
            None => 0,
        };
        if next < len {
            Some(next)
        } else {
            None
        }
    }

    /// Copy out the identity at index `k` of the fetched collection.
    pub fn agent_identity_at(&self, id: usize, k: usize) -> (r: (Vec<u8>, String))
        requires
            self.spec_agent_live(id as int),
            self.agents@[id as int].listed is Some,
            k < self.agents@[id as int].listed.unwrap()@.len(),
        ensures
            r.0@ == self.agents@[id as int].listed.unwrap()@[k as int].0@,
            r.1@ == self.agents@[id as int].listed.unwrap()@[k as int].1@,
    {
        let listed = match &self.agents[id].listed {
            Some(l) => l,
            None => {
                unreached()
            }
        };
        let blob = crate::util::copy_bytes(listed[k].0.as_slice());
        let comment = listed[k].1.clone();
        (blob, comment)
    }

    /// Release the agent structure.
    pub fn agent_free(&mut self, id: usize)
        requires
            old(self).spec_agent_live(id as int),
        ensures
            final(self).agents@ == old(self).agents@.update(
                id as int,
                (AgentSlot { alive: false, ..old(self).agents@[id as int] }),
            ),
            *final(self) == (Engine { agents: final(self).agents, ..*old(self) }),
    {
        let slot = &mut self.agents[id];
        slot.alive = false;
    }

    /// Authenticate with an agent-held identity.
    pub fn agent_userauth(&mut self, id: usize, username: &Vec<u8>) -> (r: i32)
        requires
            old(self).spec_agent_live(id as int),
        ensures
            old(self).spec_scripted() ==> r == old(self).spec_script_code()
                && *final(self) == old(self).spec_after_script(),
            !old(self).spec_scripted() && !old(self).handshaked ==> r == ERROR_SOCKET_DISCONNECT
                && *final(self) == (Engine {
                last_code: ERROR_SOCKET_DISCONNECT,
                last_msg: final(self).last_msg,
                ..*old(self)
            }) && final(self).last_msg@ == spec_session_message(ERROR_SOCKET_DISCONNECT),
            !old(self).spec_scripted() && old(self).handshaked ==> r == 0 && *final(self)
                == (Engine { authenticated: true, ..*old(self) }),
    {
        let _ = username;
        match self.take_scripted() {
            Some(c) => c,
            None => {
                if !self.handshaked {
                    self.fail(ERROR_SOCKET_DISCONNECT)
                } else {
                    self.authenticated = true;
                    0
                }
            }
        }
    }
}

impl Engine {
    /// The known-hosts collection exists and is still allocated.
    pub open spec fn spec_kh_live(self, id: int) -> bool {
        0 <= id < self.knownhosts@.len() && self.knownhosts@[id].alive
    }

    /// The listener exists and is still allocated.
    pub open spec fn spec_listener_live(self, id: int) -> bool {
        0 <= id < self.listeners@.len() && self.listeners@[id].alive
    }

    /// Allocate a known-hosts collection.
    pub fn knownhost_init(&mut self) -> (r: Option<usize>)
        ensures
            old(self).spec_scripted() ==> r is None
                && *final(self) == old(self).spec_after_script(),
            !old(self).spec_scripted() ==> r is Some && r.unwrap()
                == old(self).knownhosts@.len() && final(self).knownhosts@.len()
                == old(self).knownhosts@.len() + 1 && final(self).knownhosts@
                == old(self).knownhosts@.push(final(self).knownhosts@.last())
                && final(self).knownhosts@.last().alive
                && final(self).knownhosts@.last().entries@.len() == 0 && *final(self) == (Engine {
                knownhosts: final(self).knownhosts,
                ..*old(self)
            }),
    {
        match self.take_scripted() {
            Some(_) => None,
            None => {
                let id = self.knownhosts.len();
                self.knownhosts.push(KnownHostsSlot { alive: true, entries: Vec::new() });
                Some(id)
            }
        }
    }

    /// Release a known-hosts collection.
    pub fn knownhost_free(&mut self, id: usize)
        requires
            old(self).spec_kh_live(id as int),
        ensures
            final(self).knownhosts@ == old(self).knownhosts@.update(
                id as int,
                (KnownHostsSlot { alive: false, ..old(self).knownhosts@[id as int] }),
            ),
            *final(self) == (Engine { knownhosts: final(self).knownhosts, ..*old(self) }),
    {
        let slot = &mut self.knownhosts[id];
        slot.alive = false;
    }

    /// Add an entry to the collection.
    pub fn knownhost_addc(&mut self, id: usize, name: String, key: String, fmt: i32) -> (r: i32)
        requires
            old(self).spec_kh_live(id as int),
        ensures
            old(self).spec_scripted() ==> r == old(self).spec_script_code()
                && *final(self) == old(self).spec_after_script(),
            !old(self).spec_scripted() ==> r == 0
                && final(self).knownhosts@[id as int].entries@
                == old(self).knownhosts@[id as int].entries@.push(
                HostEntry { name: Some(name), key, fmt },
            ) && final(self).knownhosts@ == old(self).knownhosts@.update(
                id as int,
                (KnownHostsSlot {
                    entries: final(self).knownhosts@[id as int].entries,
                    ..old(self).knownhosts@[id as int]
                }),
            ) && *final(self) == (Engine { knownhosts: final(self).knownhosts, ..*old(self) }),
    {
        match self.take_scripted() {
            Some(c) => c,
            None => {
                let slot = &mut self.knownhosts[id];
                slot.entries.push(HostEntry { name: Some(name), key, fmt });
                0
            }
        }
    }

    /// The cursor step of the entry enumeration: the entry after `prev`, or
    /// nothing once the entries are exhausted.
    pub fn knownhost_get(&self, id: usize, prev: Option<usize>) -> (r: Option<usize>)
        requires
            self.spec_kh_live(id as int),
            prev matches Some(p) ==> p < self.knownhosts@[id as int].entries@.len(),
        ensures
            ({
                let entries = self.knownhosts@[id as int].entries@;
                &&& (r matches Some(nx) ==> nx < entries.len() && (match prev {
                    Some(p) => nx == p + 1,
                    None => nx == 0,
                }))
                &&& (r is None ==> (match prev {
                    Some(p) => p + 1 >= entries.len(),
                    None => entries.len() == 0,
                }))
            }),
    {
        let entries = &self.knownhosts[id].entries;
        let len = entries.len();
        let next: usize = match prev {
            Some(p) => {
                assert(p < len);
                p + 1
            }
            None => 0,
        };
        if next < len {
            Some(next)
        } else {
            None
        }
    }

    /// Copy out the entry at index `k`.
    pub fn knownhost_entry_at(&self, id: usize, k: usize) -> (r: (Option<String>, String, i32))
        requires
            self.spec_kh_live(id as int),
            k < self.knownhosts@[id as int].entries@.len(),
        ensures
            ({
                let e = self.knownhosts@[id as int].entries@[k as int];
                &&& r.0 is Some <==> e.name is Some
                &&& r.0 matches Some(n) ==> n@ == e.name.unwrap()@
                &&& r.1@ == e.key@
                &&& r.2 == e.fmt
            }),
    {
        let e = &self.knownhosts[id].entries[k];
        let name = match &e.name {
            Some(n) => Some(n.clone()),
            None => None,
        };
        (name, e.key.clone(), e.fmt)
    }

    /// Delete the entry at index `k`.
    pub fn knownhost_del(&mut self, id: usize, k: usize) -> (r: i32)
        requires
            old(self).spec_kh_live(id as int),
            k < old(self).knownhosts@[id as int].entries@.len(),
        ensures
            r == 0,
            final(self).knownhosts@[id as int].entries@
                == old(self).knownhosts@[id as int].entries@.remove(k as int),
            final(self).knownhosts@ == old(self).knownhosts@.update(
                id as int,
                (KnownHostsSlot {
                    entries: final(self).knownhosts@[id as int].entries,
                    ..old(self).knownhosts@[id as int]
                }),
            ),
            *final(self) == (Engine { knownhosts: final(self).knownhosts, ..*old(self) }),
    {
        let slot = &mut self.knownhosts[id];
        let _ = slot.entries.remove(k);
        0
    }

    /// Some entry of the collection carries this plain-text host name.
    pub open spec fn spec_kh_has_host(entries: Seq<HostEntry>, host: Seq<char>) -> bool {
        exists|j: int|
            0 <= j < entries.len() && (#[trigger] entries[j]).name is Some
                && entries[j].name.unwrap()@ == host
    }

    /// Some entry of the collection carries this host name with this key.
    pub open spec fn spec_kh_has_pair(entries: Seq<HostEntry>, host: Seq<char>, key: Seq<char>) -> bool {
        exists|j: int|
            0 <= j < entries.len() && (#[trigger] entries[j]).name is Some
                && entries[j].name.unwrap()@ == host && entries[j].key@ == key
    }

    /// Check a host and key against the collection: 0 when host and key
    /// match an entry, 1 when the host is known under a different key,
    /// 2 when the host is not in the collection.
    pub fn knownhost_checkp(&self, id: usize, host: &String, key: &String) -> (r: i32)
        requires
            self.spec_kh_live(id as int),
        ensures
            ({
                let entries = self.knownhosts@[id as int].entries@;
                &&& r == 0 <==> Engine::spec_kh_has_pair(entries, host@, key@)
                &&& r == 1 <==> (Engine::spec_kh_has_host(entries, host@)
                    && !Engine::spec_kh_has_pair(entries, host@, key@))
                &&& r == 2 <==> !Engine::spec_kh_has_host(entries, host@)
            }),
    {
        let entries = &self.knownhosts[id].entries;
        let mut host_seen = false;
        let mut i: usize = 0;
        while i < entries.len()
            invariant
                i <= entries@.len(),
                self.spec_kh_live(id as int),
                entries@ == self.knownhosts@[id as int].entries@,
                host_seen == Engine::spec_kh_has_host(entries@.subrange(0, i as int), host@),
                !Engine::spec_kh_has_pair(entries@.subrange(0, i as int), host@, key@),
            decreases entries@.len() - i,
        {
            let ghost pre = entries@.subrange(0, i as int);
            let e = &entries[i];
            let name_matches = match &e.name {
                Some(n) => *n == *host,
                None => false,
            };
            if name_matches {
                let key_eq = e.key == *key;
                if key_eq {
                    proof {
                        assert((entries@[i as int]).name is Some);
                        assert((entries@[i as int]).name.unwrap()@ == host@);
                        assert((entries@[i as int]).key@ == key@);
                        assert(Engine::spec_kh_has_pair(entries@, host@, key@));
                        assert(Engine::spec_kh_has_host(entries@, host@));
                    }
                    return 0;
                }
                host_seen = true;
            }
            proof {
                let next = entries@.subrange(0, i + 1 as int);
                assert(forall|j: int| 0 <= j < i ==> next[j] == pre[j]);
                assert(next[i as int] == entries@[i as int]);
                if Engine::spec_kh_has_pair(next, host@, key@) {
                    let j = choose|j: int|
                        0 <= j < next.len() && (#[trigger] next[j]).name is Some
                            && next[j].name.unwrap()@ == host@ && next[j].key@ == key@;
                    if j < i {
                        assert(pre[j] == next[j]);
                        assert(Engine::spec_kh_has_pair(pre, host@, key@));
                    }
                    assert(false);
                }
                if name_matches {
                    assert((next[i as int]).name is Some && next[i as int].name.unwrap()@
                        == host@);
                    assert(Engine::spec_kh_has_host(next, host@));
                } else {
                    if Engine::spec_kh_has_host(next, host@)
                        && !Engine::spec_kh_has_host(pre, host@) {
                        let j = choose|j: int|
                            0 <= j < next.len() && (#[trigger] next[j]).name is Some
                                && next[j].name.unwrap()@ == host@;
                        if j < i {
                            assert(pre[j] == next[j]);
                            assert(Engine::spec_kh_has_host(pre, host@));
                        }
                        assert(false);
                    }
                }
            }
            i = i + 1;
        }
        proof {
            assert(entries@.subrange(0, entries@.len() as int) =~= entries@);
        }
        if host_seen {
            1
        } else {
            2
        }
    }

    /// Write the entry at index `k` as one line of output into a buffer of
    /// capacity `cap` characters, reporting the needed size when it does
    /// not fit.
    pub fn knownhost_writeline(&self, id: usize, k: usize, cap: usize) -> (r: Result<String, (i32, usize)>)
        requires
            self.spec_kh_live(id as int),
            k < self.knownhosts@[id as int].entries@.len(),
        ensures
            ({
                let e = self.knownhosts@[id as int].entries@[k as int];
                let line = (match e.name {
                    Some(n) => n@,
                    None => Seq::<char>::empty(),
                }) + " "@ + e.key@;
                &&& line.len() > cap ==> r == Err::<String, (i32, usize)>(
                    (ERROR_BUFFER_TOO_SMALL, line.len() as usize),
                ) && line.len() <= usize::MAX
                &&& line.len() <= cap ==> r is Ok && r.unwrap()@ == line
            }),
    {
        let e = &self.knownhosts[id].entries[k];
        let mut line = String::new();
        match &e.name {
            Some(n) => {
                line.append(n.as_str());
            }
            None => {}
        }
        line.append(" ");
        line.append(e.key.as_str());
        proof {
            reveal_strlit(" ");
        }
        let len = line.as_str().unicode_len();
        if len > cap {
            Err((ERROR_BUFFER_TOO_SMALL, len))
        } else {
            Ok(line)
        }
    }

    /// Start listening for forwarded connections on the remote side; a port
    /// of 0 lets the remote side pick one.
    pub fn forward_listen(&mut self, port: u16, queue_max: u32) -> (r: Option<(usize, u16)>)
        ensures
            old(self).spec_scripted() ==> r is None
                && *final(self) == old(self).spec_after_script(),
            !old(self).spec_scripted() && !old(self).spec_can_open() ==> r is None
                && Engine::spec_only_err_changed(*old(self), *final(self))
                && final(self).last_code == if !old(self).handshaked {
                    ERROR_SOCKET_DISCONNECT as int
                } else {
                    ERROR_CHANNEL_FAILURE as int
                },
            !old(self).spec_scripted() && old(self).spec_can_open() ==> r is Some && ({
                let bound = if port == 0 {
                    49152u16
                } else {
                    port
                };
                &&& r.unwrap().0 == old(self).listeners@.len()
                &&& r.unwrap().1 == bound
                &&& final(self).listeners@ == old(self).listeners@.push(
                    ListenerSlot { alive: true, port: bound, queued: 0 },
                )
                &&& *final(self) == (Engine { listeners: final(self).listeners, ..*old(self) })
            }),
    {
        let _ = queue_max;
        match self.take_scripted() {
            Some(_) => None,
            None => {
                if !self.handshaked {
                    let _ = self.fail(ERROR_SOCKET_DISCONNECT);
                    return None;
                }
                if !self.authenticated {
                    let _ = self.fail(ERROR_CHANNEL_FAILURE);
                    return None;
                }
                let bound: u16 = if port == 0 {
                    49152
                } else {
                    port
                };
                let id = self.listeners.len();
                self.listeners.push(ListenerSlot { alive: true, port: bound, queued: 0 });
                Some((id, bound))
            }
        }
    }

    /// Accept a queued connection from the listener, minting a new channel,
    /// or fail when none is queued.
    pub fn forward_accept(&mut self, id: usize) -> (r: Option<usize>)
        requires
            old(self).spec_listener_live(id as int),
        ensures
            old(self).spec_scripted() ==> r is None
                && *final(self) == old(self).spec_after_script(),
            !old(self).spec_scripted() && old(self).spec_wouldblock_due() ==> r is None
                && Engine::spec_only_err_changed(*old(self), *final(self))
                && final(self).last_code == ERROR_EAGAIN,
            !old(self).spec_scripted() && !old(self).spec_wouldblock_due() && old(self).listeners@[id as int].queued
                == 0 ==> r is None && Engine::spec_only_err_changed(*old(self), *final(self))
                && final(self).last_code == ERROR_CHANNEL_UNKNOWN,
            !old(self).spec_scripted() && !old(self).spec_wouldblock_due() && old(self).listeners@[id as int].queued
                > 0 ==> r is Some && r.unwrap() == old(self).channels@.len()
                && final(self).listeners@ == old(self).listeners@.update(
                id as int,
                (ListenerSlot {
                    queued: (old(self).listeners@[id as int].queued - 1) as u64,
                    ..old(self).listeners@[id as int]
                }),
            ) && final(self).channels@ == old(self).channels@.push(
                final(self).channels@[old(self).channels@.len() as int],
            ) && Engine::spec_fresh_channel(
                final(self).channels@[old(self).channels@.len() as int],
                Seq::<u8>::empty(),
                2097152u32,
                32768u32,
                Seq::<u8>::empty(),
                false,
            ) && *final(self) == (Engine {
                listeners: final(self).listeners,
                channels: final(self).channels,
                ..*old(self)
            }),
    {
        match self.take_scripted() {
            Some(_) => None,
            None => {
                if self.take_wouldblock() {
                    return None;
                }
                if self.listeners[id].queued == 0 {
                    let _ = self.fail(ERROR_CHANNEL_UNKNOWN);
                    return None;
                }
                let slot = &mut self.listeners[id];
                slot.queued = slot.queued - 1;
                let cid = self.push_channel(Vec::new(), 2097152, 32768, Vec::new(), false);
                Some(cid)
            }
        }
    }

    /// Stop listening and release the listener.
    pub fn forward_cancel(&mut self, id: usize) -> (r: i32)
        requires
            old(self).spec_listener_live(id as int),
        ensures
            old(self).spec_wouldblock_due() ==> r == ERROR_EAGAIN
                && Engine::spec_only_err_changed(*old(self), *final(self)),
            !old(self).spec_wouldblock_due() ==> r == 0 && final(self).listeners@
                == old(self).listeners@.update(
                id as int,
                (ListenerSlot { alive: false, ..old(self).listeners@[id as int] }),
            ) && *final(self) == (Engine { listeners: final(self).listeners, ..*old(self) }),
    {
        if self.take_wouldblock() {
            ERROR_EAGAIN
        } else {
            let slot = &mut self.listeners[id];
            slot.alive = false;
            0
        }
    }
}

// Test-double configuration: these operations stand for the state of the
// remote world the engine talks to (staged files, agent keys, scripted
// failures). Tests use them to steer the double; the wrapper layer never
// calls them.
impl Engine {
    /// Script the next fallible call to fail with this code and message.
    pub fn script_failure(&mut self, code: i32, msg: String)
        ensures
            *final(self) == (Engine { fail_next: Some((code, msg)), ..*old(self) }),
    {
        self.fail_next = Some((code, msg));
    }

    /// Queue `n` would-block replies, served while in non-blocking mode.
    pub fn script_wouldblock(&mut self, n: u64)
        ensures
            *final(self) == (Engine { wouldblock: n, ..*old(self) }),
    {
        self.wouldblock = n;
    }

    /// Stage a file on the double's remote side.
    pub fn stage_remote_file(&mut self, path: Vec<u8>, data: Vec<u8>, mode: u32, mtime: u64, atime: u64)
        ensures
            final(self).remote_files@ == old(self).remote_files@.push(
                RemoteFile { path, data, mode, mtime, atime },
            ),
            *final(self) == (Engine { remote_files: final(self).remote_files, ..*old(self) }),
    {
        self.remote_files.push(RemoteFile { path, data, mode, mtime, atime });
    }

    /// Stage a directory on the double's remote side.
    pub fn stage_remote_dir(&mut self, path: Vec<u8>)
        ensures
            final(self).remote_dirs@ == old(self).remote_dirs@.push(path),
            *final(self) == (Engine { remote_dirs: final(self).remote_dirs, ..*old(self) }),
    {
        self.remote_dirs.push(path);
    }

    /// Replace the identities the remote agent offers.
    pub fn set_agent_keys(&mut self, keys: Vec<(Vec<u8>, String)>)
        ensures
            *final(self) == (Engine { agent_keys: keys, ..*old(self) }),
    {
        self.agent_keys = keys;
    }

    /// Replace the algorithm inventory the engine reports.
    pub fn set_supported_algs(&mut self, algs: Vec<String>)
        ensures
            *final(self) == (Engine { algs, ..*old(self) }),
    {
        self.algs = algs;
    }

    /// Configure the keyboard-interactive challenge and its accepted
    /// responses.
    pub fn set_kbd_challenge(&mut self, instruction: String, prompts: Vec<(String, bool)>, expected: Vec<String>)
        ensures
            *final(self) == (Engine {
                kbd_instruction: instruction,
                kbd_prompts: prompts,
                kbd_expected: expected,
                ..*old(self)
            }),
    {
        self.kbd_instruction = instruction;
        self.kbd_prompts = prompts;
        self.kbd_expected = expected;
    }

    /// Configure what a started process service delivers and reports.
    pub fn set_exec_result(&mut self, output: Vec<u8>, status: i32)
        ensures
            *final(self) == (Engine {
                exec_output: output,
                exec_status: status,
                ..*old(self)
            }),
    {
        self.exec_output = output;
        self.exec_status = status;
    }

    /// Configure the remote host key and its kind.
    pub fn set_host_key(&mut self, key: Vec<u8>, kind: i32)
        ensures
            *final(self) == (Engine {
                host_key: key,
                host_key_kind: kind,
                ..*old(self)
            }),
    {
        self.host_key = key;
        self.host_key_kind = kind;
    }

    /// Configure the digest the engine reports for the remote host key.
    pub fn set_host_key_hash(&mut self, hash: Option<Vec<u8>>)
        ensures
            *final(self) == (Engine { host_key_hash: hash, ..*old(self) }),
    {
        self.host_key_hash = hash;
    }

    /// Configure the banner the remote side presents.
    pub fn set_remote_banner(&mut self, banner: Vec<u8>)
        ensures
            *final(self) == (Engine { remote_banner: banner, ..*old(self) }),
    {
        self.remote_banner = banner;
    }

    /// Report the exit signal fields of a channel's remote process.
    pub fn set_channel_exit_signal(
        &mut self,
        id: usize,
        signal: Option<String>,
        error_message: Option<String>,
        lang_tag: Option<String>,
    )
        requires
            old(self).spec_chan_live(id as int),
        ensures
            Engine::spec_chan_updated(
                *old(self),
                *final(self),
                id as int,
                (ChannelSlot {
                    exit_signal: signal,
                    exit_error_message: error_message,
                    exit_lang_tag: lang_tag,
                    ..old(self).channels@[id as int]
                }),
            ),
    {
        let slot = &mut self.channels[id];
        slot.exit_signal = signal;
        slot.exit_error_message = error_message;
        slot.exit_lang_tag = lang_tag;
    }

    /// Queue one forwarded connection on a listener.
    pub fn queue_forward_connection(&mut self, id: usize)
        requires
            old(self).spec_listener_live(id as int),
            old(self).listeners@[id as int].queued < u64::MAX,
        ensures
            final(self).listeners@ == old(self).listeners@.update(
                id as int,
                (ListenerSlot {
                    queued: (old(self).listeners@[id as int].queued + 1) as u64,
                    ..old(self).listeners@[id as int]
                }),
            ),
            *final(self) == (Engine { listeners: final(self).listeners, ..*old(self) }),
    {
        let slot = &mut self.listeners[id];
        slot.queued = slot.queued + 1;
    }

    /// Read the exit signal report of a channel's remote process.
    pub fn channel_exit_signal(&mut self, id: usize) -> (r: Result<(Option<String>, Option<String>, Option<String>), i32>)
        requires
            old(self).spec_chan_live(id as int),
        ensures
            old(self).spec_scripted() ==> r == Err::<
                (Option<String>, Option<String>, Option<String>),
                i32,
            >(old(self).spec_script_code()) && *final(self) == old(self).spec_after_script(),
            !old(self).spec_scripted() ==> *final(self) == *old(self) && ({
                let slot = old(self).channels@[id as int];
                &&& r is Ok
                &&& (r.unwrap().0 is Some <==> slot.exit_signal is Some)
                &&& (r.unwrap().0 matches Some(x) ==> x@ == slot.exit_signal.unwrap()@)
                &&& (r.unwrap().1 is Some <==> slot.exit_error_message is Some)
                &&& (r.unwrap().1 matches Some(x) ==> x@ == slot.exit_error_message.unwrap()@)
                &&& (r.unwrap().2 is Some <==> slot.exit_lang_tag is Some)
                &&& (r.unwrap().2 matches Some(x) ==> x@ == slot.exit_lang_tag.unwrap()@)
            }),
    {
        match self.take_scripted() {
            Some(c) => Err(c),
            None => {
                let slot = &self.channels[id];
                let sig = match &slot.exit_signal {
                    Some(x) => Some(x.clone()),
                    None => None,
                };
                let msg = match &slot.exit_error_message {
                    Some(x) => Some(x.clone()),
                    None => None,
                };
                let lang = match &slot.exit_lang_tag {
                    Some(x) => Some(x.clone()),
                    None => None,
                };
                Ok((sig, msg, lang))
            }
        }
    }
}

} // verus!
