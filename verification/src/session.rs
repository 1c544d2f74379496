//! The session handle and its shared cell.
//!
//! One engine instance is shared by a session handle and any number of
//! dependent handles (channels, subsystems, agents, ...). The sharing
//! pattern - a reference-counted mutual-exclusion cell - is rendered here
//! as an explicit [`SessionCell`] value: the
//! exclusive borrow a call takes on the cell plays the role of holding the
//! lock for the duration of one engine call, and the `refs` counter plays
//! the strong count of the shared reference. Every handle stands for one
//! counted reference; handles are created through calls that increment the
//! count and retired through `dispose` calls that decrement it, and the
//! engine is torn down exactly when the count reaches zero.

use vstd::prelude::*;
use vstd::string::StringSliceAdditionalSpecFns;
use crate::engine::{Engine, SESSION_BLOCK_INBOUND, SESSION_BLOCK_OUTBOUND, SESSION_BLOCK_BOTH, FLAG_SIGPIPE, FLAG_COMPRESS};
use crate::error::{Error, ErrorCode, ERROR_BAD_SOCKET};
use crate::util::{str_to_c_bytes, spec_is_nul_error, copy_bytes};

verus! {

/// Wrapper-side state shared by a channel handle and its streams, guarded
/// by the same cell as the engine: the strong count of the channel's inner
/// state, and the artificial read ceiling used for SCP downloads.
pub struct ChanShared {
    /// Live handles (the channel and its streams) referencing this channel.
    pub refs: u64,
    /// Bytes that may still be delivered to readers; engine reads stop once
    /// this reaches zero.
    pub read_limit: Option<u64>,
}

/// The shared cell behind one session: the engine instance, the strong
/// count of references to it, the attached transport, and the wrapper-side
/// state of dependent handles.
pub struct SessionCell {
    /// The engine double. Its state is meaningful only while `engine_alive`.
    pub engine: Engine,
    /// The engine allocation is still live; it is released when the last
    /// counted reference drops.
    pub engine_alive: bool,
    /// Number of live counted references: the session handles plus one for
    /// each live channel inner, subsystem inner, agent, known-hosts
    /// collection and listener.
    pub refs: u64,
    /// The transport's raw handle, attached at most once per handshake.
    pub transport: Option<i64>,
    /// Per-channel wrapper state, indexed like the engine's channel table.
    pub chans: Vec<ChanShared>,
    /// Per-subsystem strong counts (the subsystem handle plus its open
    /// files), indexed like the engine's subsystem table.
    pub sftp_refs: Vec<u64>,
}

impl SessionCell {
    /// At least one counted reference is live, so the engine is usable.
    pub open spec fn live(self) -> bool {
        self.refs > 0
    }

    /// Well-formedness of the cell: the engine lives exactly as long as
    /// references do; the wrapper-side tables mirror the engine's tables;
    /// referenced slots are allocated; all engine cursors are in bounds.
    pub open spec fn wf(self) -> bool {
        &&& (self.engine_alive <==> self.refs > 0)
        &&& self.chans@.len() == self.engine.channels@.len()
        &&& self.sftp_refs@.len() == self.engine.sftps@.len()
        &&& (forall|i: int|
            0 <= i < self.chans@.len() ==> ((#[trigger] self.chans@[i]).refs > 0
                ==> self.engine.channels@[i].alive))
        &&& (forall|i: int|
            0 <= i < self.sftp_refs@.len() ==> ((#[trigger] self.sftp_refs@[i]) > 0
                ==> self.engine.sftps@[i].alive))
        &&& (forall|i: int|
            0 <= i < self.engine.channels@.len() ==> Engine::spec_chan_cursors_ok(
                #[trigger] self.engine.channels@[i],
            ))
        &&& (forall|i: int|
            0 <= i < self.engine.files@.len() ==> Engine::spec_file_cursors_ok(
                #[trigger] self.engine.files@[i],
            ))
    }

    /// `post` differs from `pre` at most in the engine state.
    pub open spec fn spec_same_but_engine(pre: SessionCell, post: SessionCell) -> bool {
        post == (SessionCell { engine: post.engine, ..pre })
    }

    /// Translate a status code into a result: non-negative codes are
    /// success, a negative code is captured as a structured error against
    /// the engine's last-error buffer.
    pub fn rc(&self, rc: i32) -> (r: Result<(), Error>)
        ensures
            r is Ok <==> rc >= 0,
            r matches Err(e) ==> e.spec_code() == ErrorCode::Session(rc)
                && (self.engine.last_code == rc ==> e.spec_message() == self.engine.last_msg@)
                && (self.engine.last_code != rc ==> e.spec_message()
                == crate::error::spec_session_message(rc)),
    {
        if rc >= 0 {
            Ok(())
        } else {
            Err(Error::from_session_error_raw(&self.engine, rc))
        }
    }

    /// Capture the engine's last error, if any.
    pub fn last_error(&self) -> (r: Option<Error>)
        ensures
            r is Some <==> self.engine.last_code != 0,
            r matches Some(e) ==> e.spec_code() == ErrorCode::Session(self.engine.last_code)
                && e.spec_message() == self.engine.last_msg@,
    {
        Error::last_session_error_raw(&self.engine)
    }

    /// Set or clear blocking mode on the engine.
    pub fn set_blocking(&mut self, blocking: bool)
        requires
            old(self).wf(),
            old(self).live(),
        ensures
            final(self).wf(),
            final(self).engine == (Engine { blocking, ..old(self).engine }),
            SessionCell::spec_same_but_engine(*old(self), *final(self)),
    {
        self.engine.set_blocking(blocking);
    }

    /// Whether the engine is in blocking mode.
    pub fn is_blocking(&self) -> (r: bool)
        ensures
            r == self.engine.blocking,
    {
        self.engine.blocking
    }
}

/// The io direction an application has to wait for in order not to block.
#[derive(Debug, PartialEq, Eq, Structural, Clone, Copy)]
pub enum BlockDirections {
    /// No direction blocked.
    Neither,
    /// Inbound direction blocked.
    Inbound,
    /// Outbound direction blocked.
    Outbound,
    /// Inbound and Outbound direction blocked.
    Both,
}

/// A prompt/challenge returned as part of keyboard-interactive
/// authentication.
#[derive(Debug)]
pub struct Prompt {
    /// The label to show when prompting the user.
    pub text: String,
    /// Whether the response the user inputs should be echoed as they type;
    /// when false, treat it as a password entry.
    pub echo: bool,
}

/// Responds to the challenges of keyboard-interactive authentication.
///
/// Implemented by users of the library; nothing is assumed about the
/// responses an implementation produces.
pub trait KeyboardInteractivePrompt {
    /// Produce one response for each prompt. `username` and `instructions`
    /// are informational text from the server.
    fn prompt(&mut self, username: &str, instructions: &str, prompts: &Vec<Prompt>) -> Vec<String>;
}

/// A handle to a shared session. Each value stands for one counted
/// reference to the session's cell.
#[derive(Debug)]
pub struct Session {
    token: (),
}

impl Session {
    /// Initialize a session: allocate a fresh engine inside a new cell and
    /// mint the first counted reference.
    ///
    /// The double's allocator does not fail, so unlike a native engine this
    /// construction is infallible.
    pub fn new() -> (r: (SessionCell, Session))
        ensures
            r.0.wf(),
            r.0.live(),
            r.0.refs == 1,
            r.0.engine_alive,
            r.0.transport is None,
            r.0.chans@.len() == 0,
            r.0.sftp_refs@.len() == 0,
            r.0.engine.blocking,
            !r.0.engine.handshaked,
            !r.0.engine.authenticated,
            r.0.engine.last_code == 0,
            r.0.engine.fail_next is None,
            r.0.engine.wouldblock == 0,
            r.0.engine.read_calls == 0,
            r.0.engine.channels@.len() == 0,
            r.0.engine.sftps@.len() == 0,
            r.0.engine.files@.len() == 0,
            r.0.engine.agents@.len() == 0,
            r.0.engine.knownhosts@.len() == 0,
            r.0.engine.listeners@.len() == 0,
            r.0.engine.remote_files@.len() == 0,
            r.0.engine.remote_dirs@.len() == 0,
            r.0.engine.remote_links@.len() == 0,
            r.0.engine.exec_status == 0,
            r.0.engine.exec_output@.len() == 0,
            r.0.engine.method_prefs@.len() == 0,
    {
        crate::init();
        let cell = SessionCell {
            engine: Engine::new(),
            engine_alive: true,
            refs: 1,
            transport: None,
            chans: Vec::new(),
            sftp_refs: Vec::new(),
        };
        (cell, Session { token: () })
    }

    /// Mint another handle to the same session, increasing the reference
    /// count of the shared cell.
    pub fn clone_ref(&self, cell: &mut SessionCell) -> (r: Session)
        requires
            old(cell).wf(),
            old(cell).live(),
            old(cell).refs < u64::MAX,
        ensures
            final(cell).wf(),
            final(cell).live(),
            *final(cell) == (SessionCell { refs: (old(cell).refs + 1) as u64, ..*old(cell) }),
    {
        cell.refs = cell.refs + 1;
        Session { token: () }
    }

    /// Retire this handle: drop its counted reference, and release the
    /// engine when it was the last one.
    ///
    /// While dependent handles are still live the count stays positive, so
    /// the engine outlives the session value that created it.
    pub fn dispose(self, cell: &mut SessionCell)
        requires
            old(cell).wf(),
            old(cell).live(),
        ensures
            final(cell).wf(),
            final(cell).refs == old(cell).refs - 1,
            final(cell).engine_alive <==> final(cell).refs > 0,
            *final(cell) == (SessionCell {
                refs: (old(cell).refs - 1) as u64,
                engine_alive: old(cell).refs > 1,
                ..*old(cell)
            }),
    {
        cell.refs = cell.refs - 1;
        if cell.refs == 0 {
            cell.engine_alive = false;
        }
    }

    /// Attach the transport the handshake will run on, handing over its raw
    /// handle. Stored in the cell; the next handshake reads it back.
    pub fn set_tcp_stream(&mut self, cell: &mut SessionCell, socket: i64)
        requires
            old(cell).wf(),
            old(cell).live(),
        ensures
            final(cell).wf(),
            *final(cell) == (SessionCell { transport: Some(socket), ..*old(cell) }),
    {
        cell.transport = Some(socket);
    }

    /// Begin transport negotiation with the connected host.
    ///
    /// Fails with the distinguished "bad socket" error when no transport
    /// has been attached; otherwise the engine runs the handshake and a
    /// failure there is translated into a structured error.
    pub fn handshake(&mut self, cell: &mut SessionCell) -> (r: Result<(), Error>)
        requires
            old(cell).wf(),
            old(cell).live(),
        ensures
            final(cell).wf(),
            final(cell).live(),
            SessionCell::spec_same_but_engine(*old(cell), *final(cell)),
            old(cell).transport is None ==> r is Err && *final(cell) == *old(cell) && ({
                let e = r->Err_0;
                e.spec_code() == ErrorCode::Session(ERROR_BAD_SOCKET) && e.spec_message()
                    == "use set_tcp_stream() to associate with a TcpStream"@
            }),
            old(cell).transport is Some && old(cell).engine.spec_scripted()
                ==> final(cell).engine == old(cell).engine.spec_after_script()
                && (r is Ok <==> old(cell).engine.spec_script_code() >= 0)
                && (r matches Err(e) ==> e.spec_code()
                == ErrorCode::Session(old(cell).engine.spec_script_code()) && e.spec_message()
                == old(cell).engine.fail_next.unwrap().1@ && e.spec_message()
                == final(cell).engine.last_msg@),
            old(cell).transport is Some && !old(cell).engine.spec_scripted() ==> r is Ok
                && final(cell).engine == (Engine {
                handshaked: true,
                socket: old(cell).transport,
                ..old(cell).engine
            }),
    {
        let socket = match cell.transport {
            None => {
                return Err(Error::new(
                    ErrorCode::Session(ERROR_BAD_SOCKET),
                    "use set_tcp_stream() to associate with a TcpStream",
                ));
            }
            Some(s) => s,
        };
        let code = cell.engine.handshake(socket);
        cell.rc(code)
    }

    /// Attempt basic password authentication. The double accepts any
    /// credentials once the handshake is done; scripted failures produce
    /// the error paths a real server would.
    pub fn userauth_password(&self, cell: &mut SessionCell, username: &str, password: &str) -> (r: Result<(), Error>)
        requires
            old(cell).wf(),
            old(cell).live(),
        ensures
            final(cell).wf(),
            final(cell).live(),
            SessionCell::spec_same_but_engine(*old(cell), *final(cell)),
            username.spec_bytes().contains(0u8) || password.spec_bytes().contains(0u8)
                ==> *final(cell) == *old(cell) && r is Err && spec_is_nul_error(r->Err_0),
            !username.spec_bytes().contains(0u8) && !password.spec_bytes().contains(0u8) ==> ({
                &&& old(cell).engine.spec_scripted()
                    ==> final(cell).engine == old(cell).engine.spec_after_script()
                    && (r is Ok <==> old(cell).engine.spec_script_code() >= 0)
                &&& !old(cell).engine.spec_scripted() && !old(cell).engine.handshaked ==> r is Err
                    && r->Err_0.spec_code() == ErrorCode::Session(
                    crate::error::ERROR_SOCKET_DISCONNECT,
                )
                &&& !old(cell).engine.spec_scripted() && old(cell).engine.handshaked ==> r is Ok
                    && final(cell).engine == (Engine {
                    authenticated: true,
                    ..old(cell).engine
                })
            }),
    {
        let user = match str_to_c_bytes(username) {
            Ok(u) => u,
            Err(e) => {
                return Err(e);
            }
        };
        let _pass = match str_to_c_bytes(password) {
            Ok(p) => p,
            Err(e) => {
                return Err(e);
            }
        };
        let code = cell.engine.userauth(&user);
        cell.rc(code)
    }

    /// Whether the session has been successfully authenticated.
    pub fn authenticated(&self, cell: &SessionCell) -> (r: bool)
        ensures
            r == cell.engine.authenticated,
    {
        cell.engine.authenticated
    }

    /// Set or clear blocking mode on the session.
    pub fn set_blocking(&self, cell: &mut SessionCell, blocking: bool)
        requires
            old(cell).wf(),
            old(cell).live(),
        ensures
            final(cell).wf(),
            final(cell).engine == (Engine { blocking, ..old(cell).engine }),
            SessionCell::spec_same_but_engine(*old(cell), *final(cell)),
    {
        cell.set_blocking(blocking);
    }

    /// Whether the session is in blocking mode.
    pub fn is_blocking(&self, cell: &SessionCell) -> (r: bool)
        ensures
            r == cell.engine.blocking,
    {
        cell.is_blocking()
    }

    /// Set the timeout for blocking calls, in milliseconds; 0 means none.
    pub fn set_timeout(&self, cell: &mut SessionCell, timeout_ms: u32)
        requires
            old(cell).wf(),
            old(cell).live(),
        ensures
            final(cell).wf(),
            final(cell).engine == (Engine { timeout_ms, ..old(cell).engine }),
            SessionCell::spec_same_but_engine(*old(cell), *final(cell)),
    {
        cell.engine.set_timeout(timeout_ms);
    }

    /// The timeout for blocking calls, in milliseconds.
    pub fn timeout(&self, cell: &SessionCell) -> (r: u32)
        ensures
            r == cell.engine.timeout_ms,
    {
        cell.engine.timeout_ms
    }

    /// The blocked io directions after a would-block failure.
    pub fn block_directions(&self, cell: &SessionCell) -> (r: BlockDirections)
        ensures
            r == BlockDirections::Inbound <==> cell.engine.block_dirs == SESSION_BLOCK_INBOUND,
            r == BlockDirections::Outbound <==> cell.engine.block_dirs == SESSION_BLOCK_OUTBOUND,
            r == BlockDirections::Both <==> cell.engine.block_dirs == SESSION_BLOCK_BOTH,
    {
        let d = cell.engine.block_dirs;
        if d == SESSION_BLOCK_INBOUND {
            BlockDirections::Inbound
        } else if d == SESSION_BLOCK_OUTBOUND {
            BlockDirections::Outbound
        } else if d == SESSION_BLOCK_BOTH {
            BlockDirections::Both
        } else {
            BlockDirections::Neither
        }
    }
}

impl Session {
    /// Set the client banner sent at the next handshake.
    pub fn set_banner(&self, cell: &mut SessionCell, banner: &str) -> (r: Result<(), Error>)
        requires
            old(cell).wf(),
            old(cell).live(),
        ensures
            final(cell).wf(),
            final(cell).live(),
            SessionCell::spec_same_but_engine(*old(cell), *final(cell)),
            banner.spec_bytes().contains(0u8) ==> *final(cell) == *old(cell) && r is Err
                && spec_is_nul_error(r->Err_0),
            !banner.spec_bytes().contains(0u8) && !old(cell).engine.spec_scripted() ==> r is Ok
                && (final(cell).engine.banner matches Some(b) && b@ == banner.spec_bytes()),
    {
        let b = match str_to_c_bytes(banner) {
            Ok(b) => b,
            Err(e) => {
                return Err(e);
            }
        };
        let code = cell.engine.banner_set(b);
        cell.rc(code)
    }

    /// Set whether SIGPIPE is allowed through to the process. The flag call
    /// cannot fail for this selector, so nothing is propagated.
    pub fn set_allow_sigpipe(&self, cell: &mut SessionCell, block: bool)
        requires
            old(cell).wf(),
            old(cell).live(),
        ensures
            final(cell).wf(),
            final(cell).engine == (Engine { sigpipe: block, ..old(cell).engine }),
            SessionCell::spec_same_but_engine(*old(cell), *final(cell)),
    {
        let _ = cell.engine.session_flag(FLAG_SIGPIPE, block);
    }

    /// Set whether compression will be negotiated. The flag call cannot
    /// fail for this selector, so nothing is propagated.
    pub fn set_compress(&self, cell: &mut SessionCell, compress: bool)
        requires
            old(cell).wf(),
            old(cell).live(),
        ensures
            final(cell).wf(),
            final(cell).engine == (Engine { compress, ..old(cell).engine }),
            SessionCell::spec_same_but_engine(*old(cell), *final(cell)),
    {
        let _ = cell.engine.session_flag(FLAG_COMPRESS, compress);
    }

    /// The banner the remote side presented, once the handshake is done.
    pub fn banner_bytes(&self, cell: &SessionCell) -> (r: Option<Vec<u8>>)
        requires
            cell.wf(),
            cell.live(),
        ensures
            r is Some <==> cell.engine.handshaked,
            r matches Some(b) ==> b@ == cell.engine.remote_banner@,
    {
        if cell.engine.handshaked {
            Some(copy_bytes(cell.engine.remote_banner.as_slice()))
        } else {
            None
        }
    }

    /// Set the trace level bitmask.
    pub fn trace(&self, cell: &mut SessionCell, bitmask: i32)
        requires
            old(cell).wf(),
            old(cell).live(),
        ensures
            final(cell).wf(),
            final(cell).engine == (Engine { trace_flags: bitmask, ..old(cell).engine }),
            SessionCell::spec_same_but_engine(*old(cell), *final(cell)),
    {
        cell.engine.trace(bitmask);
    }

    /// Configure how often keepalive messages are sent; an interval of 1 is
    /// treated as 2 to avoid a busy loop.
    pub fn set_keepalive(&self, cell: &mut SessionCell, want_reply: bool, interval: u32)
        requires
            old(cell).wf(),
            old(cell).live(),
        ensures
            final(cell).wf(),
            SessionCell::spec_same_but_engine(*old(cell), *final(cell)),
            final(cell).engine == (Engine {
                keepalive_want_reply: want_reply,
                keepalive_interval: if interval == 1 {
                    2u32
                } else {
                    interval
                },
                ..old(cell).engine
            }),
    {
        cell.engine.keepalive_config(want_reply, interval);
    }

    /// Send a keepalive message if one is due; returns how many seconds the
    /// caller can sleep before calling again.
    pub fn keepalive_send(&self, cell: &mut SessionCell) -> (r: Result<u32, Error>)
        requires
            old(cell).wf(),
            old(cell).live(),
        ensures
            final(cell).wf(),
            SessionCell::spec_same_but_engine(*old(cell), *final(cell)),
            !old(cell).engine.spec_scripted() ==> r == Ok::<u32, Error>(
                old(cell).engine.keepalive_interval,
            ) && *final(cell) == *old(cell),
            old(cell).engine.spec_scripted() ==> r is Err && final(cell).engine
                == old(cell).engine.spec_after_script(),
    {
        match cell.engine.keepalive_send() {
            Ok(seconds) => Ok(seconds),
            Err(code) => Err(Error::from_session_error_raw(&cell.engine, code)),
        }
    }

    /// Send a disconnect message with a reason, description and language
    /// tag, ending the transport.
    pub fn disconnect(&self, cell: &mut SessionCell, reason: Option<crate::DisconnectCode>, description: &str, lang: Option<&str>) -> (r: Result<(), Error>)
        requires
            old(cell).wf(),
            old(cell).live(),
        ensures
            final(cell).wf(),
            SessionCell::spec_same_but_engine(*old(cell), *final(cell)),
            description.spec_bytes().contains(0u8) || (lang matches Some(l)
                && l.spec_bytes().contains(0u8)) ==> *final(cell) == *old(cell) && r is Err
                && spec_is_nul_error(r->Err_0),
            !description.spec_bytes().contains(0u8) && (lang matches Some(l)
                ==> !l.spec_bytes().contains(0u8)) && !old(cell).engine.spec_scripted() ==> r
                is Ok && final(cell).engine == (Engine {
                handshaked: false,
                authenticated: false,
                ..old(cell).engine
            }),
    {
        let desc = match str_to_c_bytes(description) {
            Ok(d) => d,
            Err(e) => {
                return Err(e);
            }
        };
        let lang_bytes = match lang {
            Some(l) => match str_to_c_bytes(l) {
                Ok(lb) => lb,
                Err(e) => {
                    return Err(e);
                }
            },
            None => Vec::new(),
        };
        let code = match reason {
            Some(rc) => rc.as_code(),
            None => crate::DisconnectCode::ByApplication.as_code(),
        };
        let status = cell.engine.disconnect(code, desc, lang_bytes);
        cell.rc(status)
    }

    /// The authentication schemes the remote side reports for a user; the
    /// empty string when the engine reports none and records no error.
    pub fn auth_methods(&self, cell: &mut SessionCell, username: &str) -> (r: Result<String, Error>)
        requires
            old(cell).wf(),
            old(cell).live(),
        ensures
            final(cell).wf(),
            SessionCell::spec_same_but_engine(*old(cell), *final(cell)),
            username.spec_bytes().contains(0u8) ==> *final(cell) == *old(cell) && r is Err
                && spec_is_nul_error(r->Err_0),
            !username.spec_bytes().contains(0u8) && !old(cell).engine.spec_scripted() && old(cell).engine.handshaked ==> r is Ok && r->Ok_0@
                == "publickey,password,keyboard-interactive"@ && *final(cell) == *old(cell),
            !username.spec_bytes().contains(0u8) && !old(cell).engine.spec_scripted() && !old(cell).engine.handshaked ==> r is Err && r->Err_0.spec_code() == ErrorCode::Session(
                crate::error::ERROR_SOCKET_DISCONNECT,
            ),
    {
        let user = match str_to_c_bytes(username) {
            Ok(u) => u,
            Err(e) => {
                return Err(e);
            }
        };
        match cell.engine.userauth_list(&user) {
            Some(list) => Ok(list),
            None => {
                match cell.last_error() {
                    Some(e) => Err(e),
                    None => Ok(String::new()),
                }
            }
        }
    }

    /// Record a method preference list for one method category.
    pub fn method_pref(&self, cell: &mut SessionCell, method_type: crate::MethodType, prefs: &str) -> (r: Result<(), Error>)
        requires
            old(cell).wf(),
            old(cell).live(),
        ensures
            final(cell).wf(),
            SessionCell::spec_same_but_engine(*old(cell), *final(cell)),
            prefs.spec_bytes().contains(0u8) ==> *final(cell) == *old(cell) && r is Err
                && spec_is_nul_error(r->Err_0),
            !prefs.spec_bytes().contains(0u8) && !old(cell).engine.spec_scripted() ==> r is Ok
                && final(cell).engine.method_prefs@.len()
                == old(cell).engine.method_prefs@.len() + 1
                && final(cell).engine.method_prefs@.last().0 == method_type.code()
                && final(cell).engine.method_prefs@.last().1@ == prefs.spec_bytes(),
    {
        let p = match str_to_c_bytes(prefs) {
            Ok(p) => p,
            Err(e) => {
                return Err(e);
            }
        };
        let code = cell.engine.method_pref(method_type.as_code(), p);
        cell.rc(code)
    }

    /// The method preference most recently recorded for a category, if any.
    /// The double reports a negotiated method only when a preference was
    /// recorded.
    pub fn methods(&self, cell: &SessionCell, method_type: crate::MethodType) -> (r: Option<Vec<u8>>)
        requires
            cell.wf(),
            cell.live(),
        ensures
            ({
                let prefs = cell.engine.method_prefs@;
                &&& (r matches Some(v) ==> exists|k: int|
                    0 <= k < prefs.len() && (#[trigger] prefs[k]).0 == method_type.code()
                        && v@ == prefs[k].1@ && (forall|j: int|
                        k < j < prefs.len() ==> (#[trigger] prefs[j]).0 != method_type.code()))
                &&& (r is None ==> forall|j: int|
                    0 <= j < prefs.len() ==> (#[trigger] prefs[j]).0 != method_type.code())
            }),
    {
        let t = method_type.as_code();
        let prefs = &cell.engine.method_prefs;
        let mut found: Option<usize> = None;
        let mut i: usize = 0;
        while i < prefs.len()
            invariant
                i <= prefs@.len(),
                found matches Some(k) ==> k < i && prefs@[k as int].0 == t && (forall|j: int|
                    k < j < i ==> (#[trigger] prefs@[j]).0 != t),
                found is None ==> forall|j: int| 0 <= j < i ==> (#[trigger] prefs@[j]).0 != t,
            decreases prefs@.len() - i,
        {
            if prefs[i].0 == t {
                found = Some(i);
            }
            i = i + 1;
        }
        match found {
            Some(k) => Some(copy_bytes(prefs[k].1.as_slice())),
            None => None,
        }
    }

    /// The remote host key and its kind, once the handshake is done.
    pub fn host_key(&self, cell: &SessionCell) -> (r: Option<(Vec<u8>, crate::HostKeyType)>)
        requires
            cell.wf(),
            cell.live(),
        ensures
            r is Some <==> cell.engine.handshaked && cell.engine.host_key@.len() > 0,
            r matches Some(p) ==> p.0@ == cell.engine.host_key@
                && p.1 == crate::HostKeyType::spec_from_code(cell.engine.host_key_kind),
    {
        if cell.engine.handshaked && cell.engine.host_key.len() > 0 {
            let key = copy_bytes(cell.engine.host_key.as_slice());
            let kind = crate::HostKeyType::from_code(cell.engine.host_key_kind);
            Some((key, kind))
        } else {
            None
        }
    }

    /// The digest of the remote host key, when the engine has one.
    pub fn host_key_hash(&self, cell: &SessionCell, hash: crate::HashType) -> (r: Option<Vec<u8>>)
        requires
            cell.wf(),
            cell.live(),
        ensures
            r is Some <==> cell.engine.handshaked && cell.engine.host_key_hash is Some,
            r matches Some(h) ==> h@ == cell.engine.host_key_hash.unwrap()@,
    {
        let _ = hash;
        if !cell.engine.handshaked {
            return None;
        }
        match &cell.engine.host_key_hash {
            Some(h) => Some(copy_bytes(h.as_slice())),
            None => None,
        }
    }

    /// Attempt keyboard-interactive authentication: fetch the engine's
    /// challenge, let the prompter answer it, hand back at most one
    /// response per prompt, and submit them.
    ///
    /// Nothing is assumed about the prompter; the engine's verdict on the
    /// submitted responses decides the result.
    pub fn userauth_keyboard_interactive<P: KeyboardInteractivePrompt>(&self, cell: &mut SessionCell, username: &str, prompter: &mut P) -> (r: Result<(), Error>)
        requires
            old(cell).wf(),
            old(cell).live(),
        ensures
            final(cell).wf(),
            final(cell).live(),
            SessionCell::spec_same_but_engine(*old(cell), *final(cell)),
            username.spec_bytes().contains(0u8) ==> *final(cell) == *old(cell) && r is Err
                && spec_is_nul_error(r->Err_0),
            r is Ok && !old(cell).engine.spec_scripted() ==> final(cell).engine.authenticated,
            !username.spec_bytes().contains(0u8) && !old(cell).engine.spec_scripted() && !old(cell).engine.handshaked ==> r is Err && r->Err_0.spec_code() == ErrorCode::Session(
                crate::error::ERROR_SOCKET_DISCONNECT,
            ),
            !username.spec_bytes().contains(0u8) && !old(cell).engine.spec_scripted() && old(cell).engine.handshaked && old(cell).engine.kbd_prompts@.len() == 0
                && old(cell).engine.kbd_expected@.len() == 0 ==> r is Ok && final(cell).engine
                == (Engine { authenticated: true, ..old(cell).engine }),
    {
        let user = match str_to_c_bytes(username) {
            Ok(u) => u,
            Err(e) => {
                return Err(e);
            }
        };
        let mut prompts: Vec<Prompt> = Vec::new();
        let mut i: usize = 0;
        while i < cell.engine.kbd_prompts.len()
            invariant
                old(cell).wf(),
                *cell == *old(cell),
                i <= cell.engine.kbd_prompts@.len(),
                prompts@.len() == i,
            decreases cell.engine.kbd_prompts@.len() - i,
        {
            let text = cell.engine.kbd_prompts[i].0.clone();
            let echo = cell.engine.kbd_prompts[i].1;
            prompts.push(Prompt { text, echo });
            i = i + 1;
        }
        let instruction = cell.engine.kbd_instruction.clone();
        let responses = prompter.prompt(username, instruction.as_str(), &prompts);
        let mut submitted = responses;
        if submitted.len() > prompts.len() {
            submitted.truncate(prompts.len());
        }
        let code = cell.engine.userauth_kbd(&user, &submitted);
        cell.rc(code)
    }

    /// Attempt public key authentication with a key file on disk. The
    /// double accepts any credential once the handshake is done.
    pub fn userauth_pubkey_file(&self, cell: &mut SessionCell, username: &str, pubkey: Option<&[u8]>, privatekey: &[u8], passphrase: Option<&str>) -> (r: Result<(), Error>)
        requires
            old(cell).wf(),
            old(cell).live(),
        ensures
            final(cell).wf(),
            final(cell).live(),
            SessionCell::spec_same_but_engine(*old(cell), *final(cell)),
            !username.spec_bytes().contains(0u8) && (pubkey matches Some(p)
                ==> !p@.contains(0u8)) && !privatekey@.contains(0u8) && (passphrase matches Some(
                s,
            ) ==> !s.spec_bytes().contains(0u8)) && !old(cell).engine.spec_scripted() && old(cell).engine.handshaked ==> r is Ok && final(cell).engine == (Engine {
                authenticated: true,
                ..old(cell).engine
            }),
            username.spec_bytes().contains(0u8) ==> *final(cell) == *old(cell) && r is Err
                && spec_is_nul_error(r->Err_0),
    {
        let user = match str_to_c_bytes(username) {
            Ok(u) => u,
            Err(e) => {
                return Err(e);
            }
        };
        match pubkey {
            Some(p) => {
                match crate::util::path2bytes(p) {
                    Ok(_) => {}
                    Err(e) => {
                        return Err(e);
                    }
                }
            }
            None => {}
        }
        match crate::util::path2bytes(privatekey) {
            Ok(_) => {}
            Err(e) => {
                return Err(e);
            }
        }
        match passphrase {
            Some(s) => {
                match str_to_c_bytes(s) {
                    Ok(_) => {}
                    Err(e) => {
                        return Err(e);
                    }
                }
            }
            None => {}
        }
        let code = cell.engine.userauth(&user);
        cell.rc(code)
    }

    /// Attempt public key authentication with key material in memory. The
    /// double accepts any credential once the handshake is done.
    pub fn userauth_pubkey_memory(&self, cell: &mut SessionCell, username: &str, pubkeydata: Option<&str>, privatekeydata: &str, passphrase: Option<&str>) -> (r: Result<(), Error>)
        requires
            old(cell).wf(),
            old(cell).live(),
        ensures
            final(cell).wf(),
            final(cell).live(),
            SessionCell::spec_same_but_engine(*old(cell), *final(cell)),
            !username.spec_bytes().contains(0u8) && (pubkeydata matches Some(p)
                ==> !p.spec_bytes().contains(0u8)) && !privatekeydata.spec_bytes().contains(0u8)
                && (passphrase matches Some(s) ==> !s.spec_bytes().contains(0u8)) && !old(cell).engine.spec_scripted() && old(cell).engine.handshaked ==> r is Ok && final(cell).engine == (Engine { authenticated: true, ..old(cell).engine }),
            username.spec_bytes().contains(0u8) ==> *final(cell) == *old(cell) && r is Err
                && spec_is_nul_error(r->Err_0),
    {
        let user = match str_to_c_bytes(username) {
            Ok(u) => u,
            Err(e) => {
                return Err(e);
            }
        };
        match pubkeydata {
            Some(p) => {
                match str_to_c_bytes(p) {
                    Ok(_) => {}
                    Err(e) => {
                        return Err(e);
                    }
                }
            }
            None => {}
        }
        match str_to_c_bytes(privatekeydata) {
            Ok(_) => {}
            Err(e) => {
                return Err(e);
            }
        }
        match passphrase {
            Some(s) => {
                match str_to_c_bytes(s) {
                    Ok(_) => {}
                    Err(e) => {
                        return Err(e);
                    }
                }
            }
            None => {}
        }
        let code = cell.engine.userauth(&user);
        cell.rc(code)
    }

    /// Attempt host-based authentication with key files on disk. The
    /// double accepts any credential once the handshake is done.
    pub fn userauth_hostbased_file(&self, cell: &mut SessionCell, username: &str, publickey: &[u8], privatekey: &[u8], passphrase: Option<&str>, hostname: &str, local_username: Option<&str>) -> (r: Result<(), Error>)
        requires
            old(cell).wf(),
            old(cell).live(),
        ensures
            final(cell).wf(),
            final(cell).live(),
            SessionCell::spec_same_but_engine(*old(cell), *final(cell)),
            !username.spec_bytes().contains(0u8) && !publickey@.contains(0u8)
                && !privatekey@.contains(0u8) && (passphrase matches Some(s)
                ==> !s.spec_bytes().contains(0u8)) && !hostname.spec_bytes().contains(0u8) && (
            local_username matches Some(l) ==> !l.spec_bytes().contains(0u8)) && !old(cell).engine.spec_scripted() && old(cell).engine.handshaked ==> r is Ok && final(cell).engine == (Engine { authenticated: true, ..old(cell).engine }),
            username.spec_bytes().contains(0u8) ==> *final(cell) == *old(cell) && r is Err
                && spec_is_nul_error(r->Err_0),
    {
        let user = match str_to_c_bytes(username) {
            Ok(u) => u,
            Err(e) => {
                return Err(e);
            }
        };
        match crate::util::path2bytes(publickey) {
            Ok(_) => {}
            Err(e) => {
                return Err(e);
            }
        }
        match crate::util::path2bytes(privatekey) {
            Ok(_) => {}
            Err(e) => {
                return Err(e);
            }
        }
        match passphrase {
            Some(s) => {
                match str_to_c_bytes(s) {
                    Ok(_) => {}
                    Err(e) => {
                        return Err(e);
                    }
                }
            }
            None => {}
        }
        match str_to_c_bytes(hostname) {
            Ok(_) => {}
            Err(e) => {
                return Err(e);
            }
        }
        match local_username {
            Some(l) => {
                match str_to_c_bytes(l) {
                    Ok(_) => {}
                    Err(e) => {
                        return Err(e);
                    }
                }
            }
            None => {}
        }
        let code = cell.engine.userauth(&user);
        cell.rc(code)
    }
}

/// Metadata returned about a remote file when received via SCP.
#[derive(Clone, Copy, Debug)]
pub struct ScpFileStat {
    size: u64,
    mode: u32,
    mtime: u64,
    atime: u64,
}

impl ScpFileStat {
    /// The stated size, as a spec-level value.
    pub closed spec fn spec_size(self) -> u64 {
        self.size
    }

    /// The stated mode, as a spec-level value.
    pub closed spec fn spec_mode(self) -> u32 {
        self.mode
    }

    /// Returns the size of the remote file.
    pub fn size(&self) -> (r: u64)
        ensures
            r == self.spec_size(),
    {
        self.size
    }

    /// Returns the listed mode of the remote file.
    pub fn mode(&self) -> (r: i32)
        ensures
            r == self.spec_mode() as i32,
    {
        self.mode as i32
    }

    /// Whether the remote file is a directory.
    pub fn is_dir(&self) -> (r: bool)
        ensures
            r == (self.spec_mode() as u64 & crate::sftp::S_IFMT == crate::sftp::S_IFDIR),
    {
        self.mode as u64 & crate::sftp::S_IFMT == crate::sftp::S_IFDIR
    }

    /// Whether the remote file is a regular file.
    pub fn is_file(&self) -> (r: bool)
        ensures
            r == (self.spec_mode() as u64 & crate::sftp::S_IFMT == crate::sftp::S_IFREG),
    {
        self.mode as u64 & crate::sftp::S_IFMT == crate::sftp::S_IFREG
    }
}

impl Session {
    /// Shared open step over an already-marshalled channel type.
    fn channel_open_bytes(&self, cell: &mut SessionCell, kind: Vec<u8>, window_size: u32, packet_size: u32) -> (r: Result<crate::channel::Channel, Error>)
        requires
            old(cell).wf(),
            old(cell).live(),
            old(cell).refs < u64::MAX,
        ensures
            final(cell).wf(),
            final(cell).live(),
            r matches Ok(c) ==> c.wf(*final(cell)) && final(cell).refs == old(cell).refs + 1
                && c.spec_id() == old(cell).chans@.len() && final(cell).chans@.len()
                == old(cell).chans@.len() + 1,
            !old(cell).engine.spec_scripted() && old(cell).engine.spec_can_open() ==> r is Ok
                && Engine::spec_fresh_channel(
                final(cell).engine.channels@[old(cell).chans@.len() as int],
                kind@,
                window_size,
                packet_size,
                Seq::<u8>::empty(),
                false,
            ) && final(cell).engine.channels@ == old(cell).engine.channels@.push(
                final(cell).engine.channels@[old(cell).chans@.len() as int],
            ) && final(cell).engine == (Engine {
                channels: final(cell).engine.channels,
                ..old(cell).engine
            }) && final(cell).chans@ == old(cell).chans@.push(
                ChanShared { refs: 1, read_limit: None },
            ) && *final(cell) == (SessionCell {
                refs: (old(cell).refs + 1) as u64,
                chans: final(cell).chans,
                engine: final(cell).engine,
                ..*old(cell)
            }),
            !old(cell).engine.spec_scripted() && !old(cell).engine.handshaked ==> r is Err
                && r->Err_0.spec_code() == ErrorCode::Session(
                crate::error::ERROR_SOCKET_DISCONNECT,
            ) && final(cell).refs == old(cell).refs,
            !old(cell).engine.spec_scripted() && old(cell).engine.handshaked && !old(cell).engine.authenticated
                ==> r is Err && r->Err_0.spec_code() == ErrorCode::Session(
                crate::error::ERROR_CHANNEL_FAILURE,
            ) && final(cell).refs == old(cell).refs,
            old(cell).engine.spec_scripted() ==> r is Err && final(cell).refs == old(cell).refs
                && final(cell).engine == old(cell).engine.spec_after_script(),
    {
        let raw = cell.engine.channel_open(kind, window_size, packet_size);
        let err = cell.last_error();
        crate::channel::Channel::from_raw_opt(raw, err, cell)
    }

    /// Allocate a new channel for exchanging data with the server.
    pub fn channel_open(&self, cell: &mut SessionCell, channel_type: &str, window_size: u32, packet_size: u32, message: Option<&str>) -> (r: Result<crate::channel::Channel, Error>)
        requires
            old(cell).wf(),
            old(cell).live(),
            old(cell).refs < u64::MAX,
        ensures
            final(cell).wf(),
            final(cell).live(),
            channel_type.spec_bytes().contains(0u8) || (message matches Some(m)
                && m.spec_bytes().contains(0u8)) ==> *final(cell) == *old(cell) && r is Err
                && spec_is_nul_error(r->Err_0),
            r matches Ok(c) ==> c.wf(*final(cell)) && final(cell).refs == old(cell).refs + 1
                && c.spec_id() == old(cell).chans@.len() && final(cell).chans@.len()
                == old(cell).chans@.len() + 1,
            !channel_type.spec_bytes().contains(0u8) && (message matches Some(m)
                ==> !m.spec_bytes().contains(0u8)) && !old(cell).engine.spec_scripted() && old(cell).engine.spec_can_open() ==> r is Ok && Engine::spec_fresh_channel(
                final(cell).engine.channels@[old(cell).chans@.len() as int],
                channel_type.spec_bytes(),
                window_size,
                packet_size,
                Seq::<u8>::empty(),
                false,
            ),
            !channel_type.spec_bytes().contains(0u8) && (message matches Some(m)
                ==> !m.spec_bytes().contains(0u8)) && !old(cell).engine.spec_scripted() && !old(cell).engine.handshaked ==> r is Err && r->Err_0.spec_code() == ErrorCode::Session(
                crate::error::ERROR_SOCKET_DISCONNECT,
            ) && final(cell).refs == old(cell).refs,
            !channel_type.spec_bytes().contains(0u8) && (message matches Some(m)
                ==> !m.spec_bytes().contains(0u8)) && !old(cell).engine.spec_scripted() && old(cell).engine.handshaked && !old(cell).engine.authenticated ==> r is Err
                && r->Err_0.spec_code() == ErrorCode::Session(crate::error::ERROR_CHANNEL_FAILURE)
                && final(cell).refs == old(cell).refs,
    {
        let kind = match str_to_c_bytes(channel_type) {
            Ok(k) => k,
            Err(e) => {
                return Err(e);
            }
        };
        match message {
            Some(m) => {
                match str_to_c_bytes(m) {
                    Ok(_) => {}
                    Err(e) => {
                        return Err(e);
                    }
                }
            }
            None => {}
        }
        self.channel_open_bytes(cell, kind, window_size, packet_size)
    }

    /// Establish a new session-based channel, commonly used to execute
    /// commands or open a shell.
    pub fn channel_session(&self, cell: &mut SessionCell) -> (r: Result<crate::channel::Channel, Error>)
        requires
            old(cell).wf(),
            old(cell).live(),
            old(cell).refs < u64::MAX,
        ensures
            final(cell).wf(),
            final(cell).live(),
            r matches Ok(c) ==> c.wf(*final(cell)) && final(cell).refs == old(cell).refs + 1,
            !old(cell).engine.spec_scripted() && old(cell).engine.spec_can_open() ==> r is Ok && ({
                let id = old(cell).chans@.len() as int;
                &&& Engine::spec_fresh_channel(
                    final(cell).engine.channels@[id],
                    final(cell).engine.channels@[id].kind@,
                    2097152u32,
                    32768u32,
                    Seq::<u8>::empty(),
                    false,
                )
                &&& final(cell).engine.channels@ == old(cell).engine.channels@.push(
                    final(cell).engine.channels@[id],
                )
                &&& final(cell).engine == (Engine {
                    channels: final(cell).engine.channels,
                    ..old(cell).engine
                })
                &&& final(cell).chans@ == old(cell).chans@.push(
                    ChanShared { refs: 1, read_limit: None },
                )
                &&& *final(cell) == (SessionCell {
                    refs: (old(cell).refs + 1) as u64,
                    chans: final(cell).chans,
                    engine: final(cell).engine,
                    ..*old(cell)
                })
                &&& (r->Ok_0).spec_id() == id
            }),
            !old(cell).engine.spec_scripted() && !old(cell).engine.handshaked ==> r is Err
                && r->Err_0.spec_code() == ErrorCode::Session(
                crate::error::ERROR_SOCKET_DISCONNECT,
            ),
    {
        let kind = copy_bytes("session".as_bytes());
        self.channel_open_bytes(cell, kind, 2097152, 32768)
    }

    /// Tunnel a TCP connection through the session to a remote host.
    pub fn channel_direct_tcpip(&self, cell: &mut SessionCell, host: &str, port: u16, src: Option<(&str, u16)>) -> (r: Result<crate::channel::Channel, Error>)
        requires
            old(cell).wf(),
            old(cell).live(),
            old(cell).refs < u64::MAX,
        ensures
            final(cell).wf(),
            final(cell).live(),
            host.spec_bytes().contains(0u8) ==> *final(cell) == *old(cell) && r is Err
                && spec_is_nul_error(r->Err_0),
            r matches Ok(c) ==> c.wf(*final(cell)) && final(cell).refs == old(cell).refs + 1,
            !host.spec_bytes().contains(0u8) && (src matches Some(sp)
                ==> !sp.0.spec_bytes().contains(0u8)) && !old(cell).engine.spec_scripted()
                && old(cell).engine.spec_can_open() ==> r is Ok && ({
                let id = old(cell).chans@.len() as int;
                &&& Engine::spec_fresh_channel(
                    final(cell).engine.channels@[id],
                    final(cell).engine.channels@[id].kind@,
                    2097152u32,
                    32768u32,
                    Seq::<u8>::empty(),
                    false,
                )
                &&& final(cell).engine.channels@ == old(cell).engine.channels@.push(
                    final(cell).engine.channels@[id],
                )
                &&& final(cell).engine == (Engine {
                    channels: final(cell).engine.channels,
                    ..old(cell).engine
                })
                &&& final(cell).chans@ == old(cell).chans@.push(
                    ChanShared { refs: 1, read_limit: None },
                )
                &&& *final(cell) == (SessionCell {
                    refs: (old(cell).refs + 1) as u64,
                    chans: final(cell).chans,
                    engine: final(cell).engine,
                    ..*old(cell)
                })
                &&& (r->Ok_0).spec_id() == id
            }),
    {
        let _ = port;
        let _ = match str_to_c_bytes(host) {
            Ok(h) => h,
            Err(e) => {
                return Err(e);
            }
        };
        match src {
            Some((shost, _sport)) => {
                match str_to_c_bytes(shost) {
                    Ok(_) => {}
                    Err(e) => {
                        return Err(e);
                    }
                }
            }
            None => {}
        }
        let kind = copy_bytes("direct-tcpip".as_bytes());
        self.channel_open_bytes(cell, kind, 2097152, 32768)
    }

    /// Tunnel a Unix domain socket connection through the session.
    pub fn channel_direct_streamlocal(&self, cell: &mut SessionCell, socket_path: &str, src: Option<(&str, u16)>) -> (r: Result<crate::channel::Channel, Error>)
        requires
            old(cell).wf(),
            old(cell).live(),
            old(cell).refs < u64::MAX,
        ensures
            final(cell).wf(),
            final(cell).live(),
            socket_path.spec_bytes().contains(0u8) ==> *final(cell) == *old(cell) && r is Err
                && spec_is_nul_error(r->Err_0),
            r matches Ok(c) ==> c.wf(*final(cell)) && final(cell).refs == old(cell).refs + 1,
            !socket_path.spec_bytes().contains(0u8) && (src matches Some(sp)
                ==> !sp.0.spec_bytes().contains(0u8)) && !old(cell).engine.spec_scripted()
                && old(cell).engine.spec_can_open() ==> r is Ok && ({
                let id = old(cell).chans@.len() as int;
                &&& Engine::spec_fresh_channel(
                    final(cell).engine.channels@[id],
                    final(cell).engine.channels@[id].kind@,
                    2097152u32,
                    32768u32,
                    Seq::<u8>::empty(),
                    false,
                )
                &&& final(cell).engine.channels@ == old(cell).engine.channels@.push(
                    final(cell).engine.channels@[id],
                )
                &&& final(cell).engine == (Engine {
                    channels: final(cell).engine.channels,
                    ..old(cell).engine
                })
                &&& final(cell).chans@ == old(cell).chans@.push(
                    ChanShared { refs: 1, read_limit: None },
                )
                &&& *final(cell) == (SessionCell {
                    refs: (old(cell).refs + 1) as u64,
                    chans: final(cell).chans,
                    engine: final(cell).engine,
                    ..*old(cell)
                })
                &&& (r->Ok_0).spec_id() == id
            }),
    {
        let _ = match str_to_c_bytes(socket_path) {
            Ok(p) => p,
            Err(e) => {
                return Err(e);
            }
        };
        match src {
            Some((shost, _sport)) => {
                match str_to_c_bytes(shost) {
                    Ok(_) => {}
                    Err(e) => {
                        return Err(e);
                    }
                }
            }
            None => {}
        }
        let kind = copy_bytes("direct-streamlocal@openssh.com".as_bytes());
        self.channel_open_bytes(cell, kind, 2097152, 32768)
    }

    /// Ask the remote server to listen for inbound connections; returns the
    /// listener and the port actually bound.
    pub fn channel_forward_listen(&self, cell: &mut SessionCell, remote_port: u16, host: Option<&str>, queue_maxsize: Option<u32>) -> (r: Result<(crate::listener::Listener, u16), Error>)
        requires
            old(cell).wf(),
            old(cell).live(),
            old(cell).refs < u64::MAX,
        ensures
            final(cell).wf(),
            final(cell).live(),
            host matches Some(h) && h.spec_bytes().contains(0u8) ==> *final(cell) == *old(cell)
                && r is Err && spec_is_nul_error(r->Err_0),
            r matches Ok(p) ==> p.0.wf(*final(cell)) && final(cell).refs == old(cell).refs + 1
                && p.1 == (if remote_port == 0 {
                49152u16
            } else {
                remote_port
            }),
            (host matches Some(h) ==> !h.spec_bytes().contains(0u8)) && !old(cell).engine.spec_scripted() && old(cell).engine.spec_can_open() ==> r is Ok && ({
                let id = old(cell).engine.listeners@.len() as int;
                let bound = if remote_port == 0 {
                    49152u16
                } else {
                    remote_port
                };
                &&& (r->Ok_0).0.spec_id() == id
                &&& final(cell).engine.listeners@ == old(cell).engine.listeners@.push(
                    crate::engine::ListenerSlot { alive: true, port: bound, queued: 0 },
                )
                &&& final(cell).engine == (Engine {
                    listeners: final(cell).engine.listeners,
                    ..old(cell).engine
                })
                &&& *final(cell) == (SessionCell {
                    refs: (old(cell).refs + 1) as u64,
                    engine: final(cell).engine,
                    ..*old(cell)
                })
            }),
    {
        match host {
            Some(h) => {
                match str_to_c_bytes(h) {
                    Ok(_) => {}
                    Err(e) => {
                        return Err(e);
                    }
                }
            }
            None => {}
        }
        let raw = cell.engine.forward_listen(remote_port, queue_maxsize.unwrap_or(0));
        let err = cell.last_error();
        match raw {
            Some((id, bound)) => {
                match crate::listener::Listener::from_raw_opt(Some(id), err, cell) {
                    Ok(l) => Ok((l, bound)),
                    Err(e) => Err(e),
                }
            }
            None => {
                match crate::listener::Listener::from_raw_opt(None, err, cell) {
                    Ok(_) => Err(Error::unknown()),
                    Err(e) => Err(e),
                }
            }
        }
    }

    /// Request a file from the remote host via SCP.
    ///
    /// On success the returned channel carries the file's contents, and the
    /// read ceiling is set to the stated size: the engine delivers a stray
    /// byte past the stated length, and the ceiling keeps it from readers.
    pub fn scp_recv(&self, cell: &mut SessionCell, path: &[u8]) -> (r: Result<(crate::channel::Channel, ScpFileStat), Error>)
        requires
            old(cell).wf(),
            old(cell).live(),
            old(cell).refs < u64::MAX,
        ensures
            final(cell).wf(),
            final(cell).live(),
            path@.contains(0u8) ==> *final(cell) == *old(cell) && r is Err
                && crate::util::spec_is_path_nul_error(r->Err_0),
            r matches Ok(p) ==> p.0.wf(*final(cell)) && final(cell).refs == old(cell).refs + 1,
            !path@.contains(0u8) && !old(cell).engine.spec_scripted() && old(cell).engine.spec_can_open() && (exists|j: int|
                0 <= j < old(cell).engine.remote_files@.len() && (#[trigger] old(cell).engine.remote_files@[j]).path@ == path@) ==> ({
                let k = Engine::spec_file_at(
                    old(cell).engine.remote_files@,
                    path@,
                );
                let file = old(cell).engine.remote_files@[k];
                &&& r is Ok
                &&& r->Ok_0.0.spec_id() == old(cell).chans@.len()
                &&& r->Ok_0.1.spec_size() == file.data@.len()
                &&& r->Ok_0.1.spec_mode() == file.mode
                &&& final(cell).chans@[r->Ok_0.0.spec_id()].read_limit == Some(
                    file.data@.len() as u64,
                )
                &&& final(cell).engine.channels@[r->Ok_0.0.spec_id()].data@ == file.data@.push(
                    0u8,
                )
                &&& final(cell).engine.channels@ == old(cell).engine.channels@.push(
                    final(cell).engine.channels@[r->Ok_0.0.spec_id()],
                )
                &&& final(cell).engine == (Engine {
                    channels: final(cell).engine.channels,
                    ..old(cell).engine
                })
                &&& final(cell).chans@ == old(cell).chans@.push(
                    ChanShared {
                        refs: 1,
                        read_limit: Some(file.data@.len() as u64),
                    },
                )
                &&& *final(cell) == (SessionCell {
                    refs: (old(cell).refs + 1) as u64,
                    chans: final(cell).chans,
                    engine: final(cell).engine,
                    ..*old(cell)
                })
            }),
            !path@.contains(0u8) && !old(cell).engine.spec_scripted() && old(cell).engine.spec_can_open() && Engine::spec_no_file_before(
                old(cell).engine.remote_files@,
                path@,
                old(cell).engine.remote_files@.len() as int,
            ) ==> r is Err && r->Err_0.spec_code() == ErrorCode::Session(
                crate::error::ERROR_SCP_PROTOCOL,
            ),
    {
        let p = match crate::util::path2bytes(path) {
            Ok(p) => p,
            Err(e) => {
                return Err(e);
            }
        };
        let raw = cell.engine.scp_recv(&p);
        let err = cell.last_error();
        match raw {
            Some((id, size, mode, mtime, atime)) => {
                match crate::channel::Channel::from_raw_opt(Some(id), err, cell) {
                    Ok(mut c) => {
                        c.limit_read(cell, size);
                        Ok((c, ScpFileStat { size, mode, mtime, atime }))
                    }
                    Err(e) => Err(e),
                }
            }
            None => {
                match crate::channel::Channel::from_raw_opt(None, err, cell) {
                    Ok(_) => Err(Error::unknown()),
                    Err(e) => Err(e),
                }
            }
        }
    }

    /// Send a file to the remote host via SCP; the size must be known ahead
    /// of transmission.
    pub fn scp_send(&self, cell: &mut SessionCell, remote_path: &[u8], mode: i32, size: u64, times: Option<(u64, u64)>) -> (r: Result<crate::channel::Channel, Error>)
        requires
            old(cell).wf(),
            old(cell).live(),
            old(cell).refs < u64::MAX,
        ensures
            final(cell).wf(),
            final(cell).live(),
            remote_path@.contains(0u8) ==> *final(cell) == *old(cell) && r is Err
                && crate::util::spec_is_path_nul_error(r->Err_0),
            r matches Ok(c) ==> c.wf(*final(cell)) && final(cell).refs == old(cell).refs + 1,
            !remote_path@.contains(0u8) && !old(cell).engine.spec_scripted() && old(cell).engine.spec_can_open() ==> r is Ok && ({
                let id = old(cell).chans@.len() as int;
                &&& (r->Ok_0).spec_id() == id
                &&& Engine::spec_fresh_channel(
                    final(cell).engine.channels@[id],
                    Seq::<u8>::empty(),
                    2097152u32,
                    32768u32,
                    Seq::<u8>::empty(),
                    false,
                )
                &&& final(cell).engine.channels@ == old(cell).engine.channels@.push(
                    final(cell).engine.channels@[id],
                )
                &&& final(cell).engine == (Engine {
                    channels: final(cell).engine.channels,
                    ..old(cell).engine
                })
                &&& final(cell).chans@ == old(cell).chans@.push(
                    ChanShared { refs: 1, read_limit: None },
                )
                &&& *final(cell) == (SessionCell {
                    refs: (old(cell).refs + 1) as u64,
                    chans: final(cell).chans,
                    engine: final(cell).engine,
                    ..*old(cell)
                })
            }),
    {
        let p = match crate::util::path2bytes(remote_path) {
            Ok(p) => p,
            Err(e) => {
                return Err(e);
            }
        };
        let (mtime, atime) = match times {
            Some(t) => t,
            None => (0, 0),
        };
        let raw = cell.engine.scp_send(&p, mode, size, mtime, atime);
        let err = cell.last_error();
        crate::channel::Channel::from_raw_opt(raw, err, cell)
    }

    /// Open a channel and initialize the SFTP subsystem on it.
    pub fn sftp(&self, cell: &mut SessionCell) -> (r: Result<crate::sftp::Sftp, Error>)
        requires
            old(cell).wf(),
            old(cell).live(),
            old(cell).refs < u64::MAX,
        ensures
            final(cell).wf(),
            final(cell).live(),
            r matches Ok(s) ==> s.wf(*final(cell)) && s.spec_active() && final(cell).refs
                == old(cell).refs + 1,
            r is Err ==> final(cell).refs == old(cell).refs,
            !old(cell).engine.spec_scripted() && old(cell).engine.spec_can_open() ==> r is Ok
                && ({
                let id = old(cell).sftp_refs@.len() as int;
                &&& (r->Ok_0).spec_id() == id
                &&& final(cell).engine.sftps@ == old(cell).engine.sftps@.push(
                    crate::engine::SftpSlot { alive: true, last_fx: 0 },
                )
                &&& final(cell).engine == (Engine {
                    sftps: final(cell).engine.sftps,
                    ..old(cell).engine
                })
                &&& final(cell).sftp_refs@ == old(cell).sftp_refs@.push(1u64)
                &&& *final(cell) == (SessionCell {
                    refs: (old(cell).refs + 1) as u64,
                    sftp_refs: final(cell).sftp_refs,
                    engine: final(cell).engine,
                    ..*old(cell)
                })
            }),
            !old(cell).engine.spec_scripted() && !old(cell).engine.handshaked ==> r is Err
                && r->Err_0.spec_code() == ErrorCode::Session(
                crate::error::ERROR_SOCKET_DISCONNECT,
            ),
    {
        let raw = cell.engine.sftp_init();
        let err = cell.last_error();
        crate::sftp::Sftp::from_raw_opt(raw, err, cell)
    }

    /// Init an agent handle; it still needs to be connected before use.
    pub fn agent(&self, cell: &mut SessionCell) -> (r: Result<crate::agent::Agent, Error>)
        requires
            old(cell).wf(),
            old(cell).live(),
            old(cell).refs < u64::MAX,
        ensures
            final(cell).wf(),
            final(cell).live(),
            r matches Ok(a) ==> a.wf(*final(cell)) && final(cell).refs == old(cell).refs + 1,
            r is Err ==> final(cell).refs == old(cell).refs,
            !old(cell).engine.spec_scripted() ==> r is Ok && ({
                let id = old(cell).engine.agents@.len() as int;
                &&& (r->Ok_0).spec_id() == id
                &&& final(cell).engine.agents@ == old(cell).engine.agents@.push(
                    crate::engine::AgentSlot { alive: true, connected: false, listed: None },
                )
                &&& final(cell).engine == (Engine {
                    agents: final(cell).engine.agents,
                    ..old(cell).engine
                })
                &&& *final(cell) == (SessionCell {
                    refs: (old(cell).refs + 1) as u64,
                    engine: final(cell).engine,
                    ..*old(cell)
                })
            }),
    {
        let raw = cell.engine.agent_init();
        let err = cell.last_error();
        crate::agent::Agent::from_raw_opt(raw, err, cell)
    }

    /// Init a collection of known hosts for this session.
    pub fn known_hosts(&self, cell: &mut SessionCell) -> (r: Result<crate::knownhosts::KnownHosts, Error>)
        requires
            old(cell).wf(),
            old(cell).live(),
            old(cell).refs < u64::MAX,
        ensures
            final(cell).wf(),
            final(cell).live(),
            r matches Ok(k) ==> k.wf(*final(cell)) && final(cell).refs == old(cell).refs + 1,
            r is Err ==> final(cell).refs == old(cell).refs,
            !old(cell).engine.spec_scripted() ==> r is Ok && ({
                let id = old(cell).engine.knownhosts@.len() as int;
                &&& (r->Ok_0).spec_id() == id
                &&& final(cell).engine.knownhosts@.len()
                    == old(cell).engine.knownhosts@.len() + 1
                &&& final(cell).engine.knownhosts@ == old(cell).engine.knownhosts@.push(
                    final(cell).engine.knownhosts@.last(),
                )
                &&& final(cell).engine.knownhosts@.last().alive
                &&& final(cell).engine.knownhosts@.last().entries@.len() == 0
                &&& final(cell).engine == (Engine {
                    knownhosts: final(cell).engine.knownhosts,
                    ..old(cell).engine
                })
                &&& *final(cell) == (SessionCell {
                    refs: (old(cell).refs + 1) as u64,
                    engine: final(cell).engine,
                    ..*old(cell)
                })
            }),
    {
        let raw = cell.engine.knownhost_init();
        let err = cell.last_error();
        crate::knownhosts::KnownHosts::from_raw_opt(raw, err, cell)
    }

    /// Authenticate with the first identity in the agent: connect, list the
    /// identities, use the first one, and retire the agent handle again.
    /// Fails with the distinguished "no identities" error when the agent
    /// offers none.
    pub fn userauth_agent(&self, cell: &mut SessionCell, username: &str) -> (r: Result<(), Error>)
        requires
            old(cell).wf(),
            old(cell).live(),
            old(cell).refs < u64::MAX,
        ensures
            final(cell).wf(),
            final(cell).live(),
            final(cell).refs == old(cell).refs,
            r is Ok && !old(cell).engine.spec_scripted() ==> final(cell).engine.authenticated,
            !old(cell).engine.spec_scripted() && old(cell).engine.agent_keys@.len() == 0 ==> r
                is Err,
            !username.spec_bytes().contains(0u8) && !old(cell).engine.spec_scripted() && old(cell).engine.handshaked && old(cell).engine.agent_keys@.len() > 0 ==> r is Ok
                && final(cell).engine.authenticated,
    {
        let mut agent = match self.agent(cell) {
            Ok(a) => a,
            Err(e) => {
                return Err(e);
            }
        };
        match agent.connect(cell) {
            Ok(()) => {}
            Err(e) => {
                agent.dispose(cell);
                return Err(e);
            }
        }
        match agent.list_identities(cell) {
            Ok(()) => {}
            Err(e) => {
                agent.dispose(cell);
                return Err(e);
            }
        }
        let identities = match agent.identities(cell) {
            Ok(ids) => ids,
            Err(e) => {
                agent.dispose(cell);
                return Err(e);
            }
        };
        if identities.len() == 0 {
            agent.dispose(cell);
            return Err(Error::new(
                ErrorCode::Session(crate::error::ERROR_INVAL),
                "no identities found in the ssh agent",
            ));
        }
        let identity = &identities[0];
        let result = agent.userauth(cell, username, identity);
        agent.dispose(cell);
        result
    }
}

/// The structural drop-safety law of the sharing pattern: the engine is
/// released exactly when the reference count reaches zero, so while any
/// handle - a dependent handle included - still holds a counted reference,
/// the engine stays allocated no matter which other handles were retired.
pub proof fn lemma_engine_lives_while_referenced(cell: SessionCell)
    requires
        cell.wf(),
        cell.refs > 0,
    ensures
        cell.engine_alive,
{
}

impl Session {
    /// The list of algorithms the engine supports for a method category,
    /// copied out of the engine's inventory.
    pub fn supported_algs(&self, cell: &SessionCell, method_type: crate::MethodType) -> (r: Result<Vec<String>, Error>)
        requires
            cell.wf(),
            cell.live(),
        ensures
            r is Ok,
            r->Ok_0@.len() == cell.engine.algs@.len(),
            forall|i: int|
                0 <= i < cell.engine.algs@.len() ==> (#[trigger] r->Ok_0@[i])@
                    == cell.engine.algs@[i]@,
    {
        let _ = method_type;
        let mut out: Vec<String> = Vec::new();
        let mut i: usize = 0;
        while i < cell.engine.algs.len()
            invariant
                i <= cell.engine.algs@.len(),
                out@.len() == i,
                forall|j: int|
                    0 <= j < i ==> (#[trigger] out@[j])@ == cell.engine.algs@[j]@,
            decreases cell.engine.algs@.len() - i,
        {
            out.push(cell.engine.algs[i].clone());
            i = i + 1;
        }
        Ok(out)
    }
}

} // verus!
