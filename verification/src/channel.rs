//! Channels and their streams.
//!
//! A channel is a dependent handle: it wraps a native sub-handle plus a
//! counted reference to the session cell, and it funnels every engine call
//! through that cell. Its wrapper-side extra state - the strong count of
//! the channel inner shared with its streams, and the artificial read
//! ceiling used for SCP downloads - lives in the cell next to the engine,
//! guarded by the same exclusive access.

use vstd::prelude::*;
use vstd::string::StringSliceAdditionalSpecFns;
use crate::engine::Engine;
use crate::error::{Error, ErrorCode, ERROR_EAGAIN};
use crate::session::{SessionCell, ChanShared};
use crate::util::copy_bytes;

verus! {

/// Data received when a program exits with a signal.
#[derive(Debug)]
pub struct ExitSignal {
    /// The exit signal received, if the program did not exit cleanly.
    pub exit_signal: Option<String>,
    /// Error message provided by the remote server, if any.
    pub error_message: Option<String>,
    /// Language tag provided by the remote server, if any.
    pub lang_tag: Option<String>,
}

/// Description of the read window as returned by `Channel::read_window`.
#[derive(Clone, Copy)]
pub struct ReadWindow {
    /// The number of bytes which the remote end may send without
    /// overflowing the window limit.
    pub remaining: u32,
    /// The number of bytes actually available to be read.
    pub available: u32,
    /// The initial window size from the channel open request.
    pub window_size_initial: u32,
}

/// Description of the write window as returned by `Channel::write_window`.
#[derive(Clone, Copy)]
pub struct WriteWindow {
    /// The number of bytes which may be safely written without blocking.
    pub remaining: u32,
    /// The initial window size from the channel open request.
    pub window_size_initial: u32,
}

/// A portion of an SSH connection on which data can be read and written.
///
/// The value stands for one counted reference to the session cell and one
/// strong reference to the channel's shared inner state.
#[derive(Debug)]
pub struct Channel {
    pub(crate) id: usize,
}

/// One stream of a channel, identified by a stream id (0 is the main
/// stream, 1 the stderr stream). Holds a strong reference to the same
/// channel inner as the channel it came from.
#[derive(Debug)]
pub struct Stream {
    pub(crate) chan: usize,
    pub(crate) id: i32,
}

/// The number of bytes a read may deliver: the caller's buffer size,
/// further capped by the read ceiling when one is set.
pub open spec fn spec_read_cap(limit: Option<u64>, len: usize) -> int {
    match limit {
        Some(l) => if l <= len {
            l as int
        } else {
            len as int
        },
        None => len as int,
    }
}

/// `post` is `pre` with channel `id`'s engine slot replaced by `slot` and
/// nothing else changed anywhere in the cell: the frame of one engine call
/// on one channel.
pub open spec fn spec_chan_op(pre: SessionCell, post: SessionCell, id: int, slot: crate::engine::ChannelSlot) -> bool {
    &&& post.engine.channels@ == pre.engine.channels@.update(id, slot)
    &&& post.engine == (Engine { channels: post.engine.channels, ..pre.engine })
    &&& post == (SessionCell { engine: post.engine, ..pre })
}

/// The channel is at end of stream for its reader: the read ceiling is
/// exhausted, or the remote side has signalled end of stream and
/// everything delivered has been read.
pub open spec fn spec_stream_eof(cell: SessionCell, id: int) -> bool {
    cell.chans@[id].read_limit == Some(0u64) || cell.engine.spec_chan_eof(id)
}

/// Shared body of every stream read: honour the read ceiling, skip the
/// engine entirely at end of stream, and subtract what was delivered from
/// the ceiling.
fn locked_stream_read(cell: &mut SessionCell, id: usize, stream_id: i32, len: usize) -> (r: Result<Vec<u8>, Error>)
    requires
        old(cell).wf(),
        old(cell).live(),
        id < old(cell).chans@.len(),
        old(cell).chans@[id as int].refs > 0,
    ensures
        final(cell).wf(),
        final(cell).live(),
        final(cell).refs == old(cell).refs,
        final(cell).chans@.len() == old(cell).chans@.len(),
        final(cell).chans@[id as int].refs == old(cell).chans@[id as int].refs,
        spec_stream_eof(*old(cell), id as int) ==> r is Ok && r->Ok_0@.len() == 0
            && *final(cell) == *old(cell),
        !spec_stream_eof(*old(cell), id as int) && old(cell).engine.spec_scripted() ==> r is Err
            && final(cell).engine == old(cell).engine.spec_after_script()
            && r->Err_0.spec_code() == ErrorCode::Session(old(cell).engine.spec_script_code())
            && SessionCell::spec_same_but_engine(*old(cell), *final(cell)),
        !spec_stream_eof(*old(cell), id as int) && !old(cell).engine.spec_scripted() && old(cell).engine.spec_wouldblock_due() ==> r is Err && r->Err_0.spec_code()
            == ErrorCode::Session(ERROR_EAGAIN) && SessionCell::spec_same_but_engine(
            *old(cell),
            *final(cell),
        ) && final(cell).chans@ == old(cell).chans@,
        !spec_stream_eof(*old(cell), id as int) && !old(cell).engine.spec_scripted() && !old(cell).engine.spec_wouldblock_due() && stream_id == 0 ==> ({
            let slot = old(cell).engine.channels@[id as int];
            let limit = old(cell).chans@[id as int].read_limit;
            let cap = spec_read_cap(limit, len);
            let avail = slot.data@.len() - slot.read_pos;
            let n = if cap <= avail {
                cap
            } else {
                avail
            };
            &&& r is Ok
            &&& r->Ok_0@ == slot.data@.subrange(slot.read_pos as int, slot.read_pos + n)
            &&& r->Ok_0@.len() == n
            &&& final(cell).engine.channels@[id as int].read_pos == (slot.read_pos + n) as usize
            &&& (limit matches Some(l) ==> final(cell).chans@[id as int].read_limit == Some(
                (l - n) as u64,
            ))
            &&& (limit is None ==> final(cell).chans@[id as int].read_limit is None)
            &&& final(cell).engine.channels@ == old(cell).engine.channels@.update(
                id as int,
                (crate::engine::ChannelSlot {
                    read_pos: (slot.read_pos + n) as usize,
                    ..slot
                }),
            )
            &&& final(cell).engine == (Engine {
                channels: final(cell).engine.channels,
                read_calls: final(cell).engine.read_calls,
                ..old(cell).engine
                })
            &&& final(cell).chans@ == old(cell).chans@.update(
                id as int,
                (ChanShared {
                    read_limit: final(cell).chans@[id as int].read_limit,
                    ..old(cell).chans@[id as int]
                }),
            )
            &&& *final(cell) == (SessionCell {
                chans: final(cell).chans,
                engine: final(cell).engine,
                ..*old(cell)
                })
        }),
        r matches Ok(b) ==> b@.len() <= len,
        !spec_stream_eof(*old(cell), id as int) && !old(cell).engine.spec_scripted() && !old(cell).engine.spec_wouldblock_due() && stream_id != 0 ==> ({
            let slot = old(cell).engine.channels@[id as int];
            let limit = old(cell).chans@[id as int].read_limit;
            let cap = spec_read_cap(limit, len);
            let avail = slot.ext_data@.len() - slot.ext_read_pos;
            let n = if cap <= avail {
                cap
            } else {
                avail
            };
            &&& r is Ok
            &&& r->Ok_0@ == slot.ext_data@.subrange(slot.ext_read_pos as int, slot.ext_read_pos + n)
            &&& final(cell).engine.channels@[id as int].ext_read_pos == (slot.ext_read_pos + n) as usize
        }),
        old(cell).chans@[id as int].read_limit matches Some(l) ==> ({
            &&& r matches Ok(b) ==> b@.len() <= l && final(cell).chans@[id as int].read_limit
                == Some((l - b@.len()) as u64)
        }),
        old(cell).chans@[id as int].read_limit is None ==> final(cell).chans@[id as int]
            == old(cell).chans@[id as int],
{
    let at_eof = match cell.chans[id].read_limit {
        Some(l) => l == 0,
        None => false,
    };
    let at_eof = at_eof || cell.engine.channel_eof(id);
    if at_eof {
        return Ok(Vec::new());
    }
    let limit = cell.chans[id].read_limit;
    let cap: usize = match limit {
        Some(l) => if l <= len as u64 {
            l as usize
        } else {
            len
        },
        None => len,
    };
    match cell.engine.channel_read(id, stream_id, cap) {
        Err(code) => Err(Error::from_session_error_raw(&cell.engine, code)),
        Ok(bytes) => {
            match limit {
                Some(l) => {
                    let shared = &mut cell.chans[id];
                    shared.read_limit = Some(l - bytes.len() as u64);
                }
                None => {}
            }
            Ok(bytes)
        }
    }
}

/// Shared body of every stream write.
fn locked_stream_write(cell: &mut SessionCell, id: usize, stream_id: i32, data: &[u8]) -> (r: Result<usize, Error>)
    requires
        old(cell).wf(),
        old(cell).live(),
        id < old(cell).chans@.len(),
        old(cell).chans@[id as int].refs > 0,
        data@.len() <= usize::MAX - old(cell).engine.channels@[id as int].written@.len(),
    ensures
        final(cell).wf(),
        final(cell).live(),
        SessionCell::spec_same_but_engine(*old(cell), *final(cell)),
        old(cell).engine.spec_scripted() ==> r is Err && final(cell).engine
            == old(cell).engine.spec_after_script(),
        !old(cell).engine.spec_scripted() && old(cell).engine.spec_wouldblock_due() ==> r is Err
            && r->Err_0.spec_code() == ErrorCode::Session(ERROR_EAGAIN),
        !old(cell).engine.spec_scripted() && !old(cell).engine.spec_wouldblock_due() ==> r
            == Ok::<usize, Error>(data@.len() as usize)
            && final(cell).engine.channels@[id as int].written@
            == old(cell).engine.channels@[id as int].written@ + data@,
{
    match cell.engine.channel_write(id, stream_id, data) {
        Err(code) => Err(Error::from_session_error_raw(&cell.engine, code)),
        Ok(n) => Ok(n),
    }
}

impl Channel {
    /// The index of this channel in the session's tables.
    pub closed spec fn spec_id(self) -> int {
        self.id as int
    }

    /// The handle is valid for this cell: the cell is well-formed and the
    /// channel's shared inner state is still referenced.
    pub open spec fn wf(self, cell: SessionCell) -> bool {
        &&& cell.wf()
        &&& cell.live()
        &&& 0 <= self.spec_id() < cell.chans@.len()
        &&& cell.chans@[self.spec_id()].refs > 0
    }

    /// The construction step of every open call: given the raw result of
    /// the engine's open (a handle or the null sentinel) and the error
    /// captured immediately after it, either wrap the handle - taking one
    /// counted reference to the cell - or hand back exactly the captured
    /// error, or the generic unknown error when none was captured.
    pub fn from_raw_opt(raw: Option<usize>, err: Option<Error>, cell: &mut SessionCell) -> (r: Result<Channel, Error>)
        requires
            old(cell).refs > 0,
            old(cell).refs < u64::MAX,
            raw matches Some(id) ==> old(cell).engine.channels@.len() == old(cell).chans@.len()
                + 1 && id == old(cell).chans@.len() && old(cell).engine.channels@[id as int].alive,
        ensures
            raw is None ==> *final(cell) == *old(cell) && r is Err && (err matches Some(e) ==> r
                == Err::<Channel, Error>(e)) && (err is None ==> r->Err_0.spec_code()
                == ErrorCode::Session(i32::MIN) && r->Err_0.spec_message()
                == "no other error listed"@),
            raw matches Some(id) ==> r is Ok && r->Ok_0.spec_id() == id && *final(cell)
                == (SessionCell {
                refs: (old(cell).refs + 1) as u64,
                chans: final(cell).chans,
                ..*old(cell)
            }) && final(cell).chans@ == old(cell).chans@.push(
                ChanShared { refs: 1, read_limit: None },
            ),
    {
        match raw {
            None => Err(
                match err {
                    Some(e) => e,
                    None => Error::unknown(),
                },
            ),
            Some(id) => {
                cell.chans.push(ChanShared { refs: 1, read_limit: None });
                cell.refs = cell.refs + 1;
                Ok(Channel { id })
            }
        }
    }

    /// Set an environment variable in the remote channel's process space.
    pub fn setenv(&mut self, cell: &mut SessionCell, var: &str, val: &str) -> (r: Result<(), Error>)
        requires
            old(self).wf(*old(cell)),
        ensures
            *final(self) == *old(self),
            final(self).wf(*final(cell)),
            SessionCell::spec_same_but_engine(*old(cell), *final(cell)),
            old(cell).engine.spec_scripted() ==> final(cell).engine
                == old(cell).engine.spec_after_script() && (r is Ok <==> old(cell).engine.spec_script_code() >= 0),
            !old(cell).engine.spec_scripted() ==> r is Ok && ({
                let env = final(cell).engine.channels@[old(self).spec_id()].env@;
                &&& env.len() == old(cell).engine.channels@[old(self).spec_id()].env@.len() + 1
                &&& env == old(cell).engine.channels@[old(self).spec_id()].env@.push(env.last())
                &&& env.last().0@ == var.spec_bytes()
                &&& env.last().1@ == val.spec_bytes()
                &&& spec_chan_op(
                    *old(cell),
                    *final(cell),
                    old(self).spec_id(),
                    (crate::engine::ChannelSlot {
                        env: final(cell).engine.channels@[old(self).spec_id()].env,
                        ..old(cell).engine.channels@[old(self).spec_id()]
                    }),
                )
            }),
    {
        let k = copy_bytes(var.as_bytes());
        let v = copy_bytes(val.as_bytes());
        let code = cell.engine.channel_setenv(self.id, k, v);
        cell.rc(code)
    }

    /// Request that the remote process be started: "exec", "shell" or
    /// "subsystem" with an optional message (the command line or subsystem
    /// name).
    pub fn process_startup(&mut self, cell: &mut SessionCell, request: &str, message: Option<&str>) -> (r: Result<(), Error>)
        requires
            old(self).wf(*old(cell)),
        ensures
            *final(self) == *old(self),
            final(self).wf(*final(cell)),
            SessionCell::spec_same_but_engine(*old(cell), *final(cell)),
            old(cell).engine.spec_scripted() ==> final(cell).engine
                == old(cell).engine.spec_after_script() && (r is Ok <==> old(cell).engine.spec_script_code() >= 0),
            !old(cell).engine.spec_scripted() ==> r is Ok && ({
                let slot = final(cell).engine.channels@[old(self).spec_id()];
                &&& slot.data@ == old(cell).engine.exec_output@
                &&& slot.read_pos == 0
                &&& slot.remote_eof
                &&& slot.exit_status == old(cell).engine.exec_status
                &&& slot.started is Some
                &&& slot.started.unwrap()@ == request.spec_bytes()
                &&& spec_chan_op(
                    *old(cell),
                    *final(cell),
                    old(self).spec_id(),
                    (crate::engine::ChannelSlot {
                        started: slot.started,
                        data: slot.data,
                        read_pos: 0,
                        remote_eof: true,
                        exit_status: old(cell).engine.exec_status,
                        ..old(cell).engine.channels@[old(self).spec_id()]
                    }),
                )
            }),
    {
        let req = copy_bytes(request.as_bytes());
        let msg = match message {
            Some(m) => Some(copy_bytes(m.as_bytes())),
            None => None,
        };
        let code = cell.engine.channel_process_startup(self.id, req, msg);
        cell.rc(code)
    }

    /// Execute a command on the channel.
    pub fn exec(&mut self, cell: &mut SessionCell, command: &str) -> (r: Result<(), Error>)
        requires
            old(self).wf(*old(cell)),
        ensures
            *final(self) == *old(self),
            final(self).wf(*final(cell)),
            SessionCell::spec_same_but_engine(*old(cell), *final(cell)),
            !old(cell).engine.spec_scripted() ==> r is Ok && ({
                let slot = final(cell).engine.channels@[old(self).spec_id()];
                &&& slot.data@ == old(cell).engine.exec_output@
                &&& slot.read_pos == 0
                &&& slot.remote_eof
                &&& slot.exit_status == old(cell).engine.exec_status
                &&& spec_chan_op(
                    *old(cell),
                    *final(cell),
                    old(self).spec_id(),
                    (crate::engine::ChannelSlot {
                        started: slot.started,
                        data: slot.data,
                        read_pos: 0,
                        remote_eof: true,
                        exit_status: old(cell).engine.exec_status,
                        ..old(cell).engine.channels@[old(self).spec_id()]
                    }),
                )
            }),
            old(cell).engine.spec_scripted() ==> final(cell).engine
                == old(cell).engine.spec_after_script() && (r is Ok <==> old(cell).engine.spec_script_code() >= 0),
    {
        self.process_startup(cell, "exec", Some(command))
    }

    /// Start a login shell on the channel.
    pub fn shell(&mut self, cell: &mut SessionCell) -> (r: Result<(), Error>)
        requires
            old(self).wf(*old(cell)),
        ensures
            *final(self) == *old(self),
            final(self).wf(*final(cell)),
            SessionCell::spec_same_but_engine(*old(cell), *final(cell)),
            !old(cell).engine.spec_scripted() ==> r is Ok && ({
                let slot = final(cell).engine.channels@[old(self).spec_id()];
                &&& slot.data@ == old(cell).engine.exec_output@
                &&& slot.remote_eof
                &&& slot.exit_status == old(cell).engine.exec_status
                &&& spec_chan_op(
                    *old(cell),
                    *final(cell),
                    old(self).spec_id(),
                    (crate::engine::ChannelSlot {
                        started: slot.started,
                        data: slot.data,
                        read_pos: 0,
                        remote_eof: true,
                        exit_status: old(cell).engine.exec_status,
                        ..old(cell).engine.channels@[old(self).spec_id()]
                    }),
                )
            }),
            old(cell).engine.spec_scripted() ==> final(cell).engine
                == old(cell).engine.spec_after_script() && (r is Ok <==> old(cell).engine.spec_script_code() >= 0),
    {
        self.process_startup(cell, "shell", None)
    }

    /// Request a subsystem be started on the channel.
    pub fn subsystem(&mut self, cell: &mut SessionCell, system: &str) -> (r: Result<(), Error>)
        requires
            old(self).wf(*old(cell)),
        ensures
            *final(self) == *old(self),
            final(self).wf(*final(cell)),
            SessionCell::spec_same_but_engine(*old(cell), *final(cell)),
            !old(cell).engine.spec_scripted() ==> r is Ok && ({
                let slot = final(cell).engine.channels@[old(self).spec_id()];
                &&& slot.data@ == old(cell).engine.exec_output@
                &&& slot.remote_eof
                &&& slot.exit_status == old(cell).engine.exec_status
                &&& spec_chan_op(
                    *old(cell),
                    *final(cell),
                    old(self).spec_id(),
                    (crate::engine::ChannelSlot {
                        started: slot.started,
                        data: slot.data,
                        read_pos: 0,
                        remote_eof: true,
                        exit_status: old(cell).engine.exec_status,
                        ..old(cell).engine.channels@[old(self).spec_id()]
                    }),
                )
            }),
            old(cell).engine.spec_scripted() ==> final(cell).engine
                == old(cell).engine.spec_after_script() && (r is Ok <==> old(cell).engine.spec_script_code() >= 0),
    {
        self.process_startup(cell, "subsystem", Some(system))
    }


    /// Request a PTY on the channel, with optional terminal modes and
    /// dimensions (width, height, width in px, height in px; the protocol's
    /// customary 80 by 24 when absent).
    pub fn request_pty(&mut self, cell: &mut SessionCell, term: &str, mode: Option<crate::PtyModes>, dim: Option<(u32, u32, u32, u32)>) -> (r: Result<(), Error>)
        requires
            old(self).wf(*old(cell)),
        ensures
            *final(self) == *old(self),
            final(self).wf(*final(cell)),
            SessionCell::spec_same_but_engine(*old(cell), *final(cell)),
            old(cell).engine.spec_scripted() ==> final(cell).engine
                == old(cell).engine.spec_after_script() && (r is Ok <==> old(cell).engine.spec_script_code() >= 0),
            !old(cell).engine.spec_scripted() ==> r is Ok && ({
                let slot = final(cell).engine.channels@[old(self).spec_id()];
                &&& slot.pty_term is Some
                &&& slot.pty_term.unwrap()@ == term.spec_bytes()
                &&& slot.pty_modes@ == (match mode {
                    Some(m) => m.spec_data().push(0u8),
                    None => Seq::<u8>::empty(),
                })
                &&& slot.pty_size == (match dim {
                    Some(d) => d,
                    None => (80u32, 24u32, 0u32, 0u32),
                })
                &&& spec_chan_op(
                    *old(cell),
                    *final(cell),
                    old(self).spec_id(),
                    (crate::engine::ChannelSlot {
                        pty_term: slot.pty_term,
                        pty_modes: slot.pty_modes,
                        pty_size: slot.pty_size,
                        ..old(cell).engine.channels@[old(self).spec_id()]
                    }),
                )
            }),
    {
        let term_bytes = copy_bytes(term.as_bytes());
        let modes = match mode {
            Some(m) => m.finish(),
            None => Vec::new(),
        };
        let (width, height, width_px, height_px) = match dim {
            Some(d) => d,
            None => (80, 24, 0, 0),
        };
        let code = cell.engine.channel_request_pty(
            self.id,
            term_bytes,
            modes,
            width,
            height,
            width_px,
            height_px,
        );
        cell.rc(code)
    }

    /// Change the PTY dimensions, optionally in pixels as well.
    pub fn request_pty_size(&mut self, cell: &mut SessionCell, width: u32, height: u32, width_px: Option<u32>, height_px: Option<u32>) -> (r: Result<(), Error>)
        requires
            old(self).wf(*old(cell)),
        ensures
            *final(self) == *old(self),
            final(self).wf(*final(cell)),
            SessionCell::spec_same_but_engine(*old(cell), *final(cell)),
            old(cell).engine.spec_scripted() ==> final(cell).engine
                == old(cell).engine.spec_after_script() && (r is Ok <==> old(cell).engine.spec_script_code() >= 0),
            !old(cell).engine.spec_scripted() ==> r is Ok && spec_chan_op(
                *old(cell),
                *final(cell),
                old(self).spec_id(),
                (crate::engine::ChannelSlot {
                    pty_size: (
                        width,
                        height,
                        width_px.unwrap_or(0),
                        height_px.unwrap_or(0),
                    ),
                    ..old(cell).engine.channels@[old(self).spec_id()]
                }),
            ),
    {
        let code = cell.engine.channel_request_pty_size(
            self.id,
            width,
            height,
            width_px.unwrap_or(0),
            height_px.unwrap_or(0),
        );
        cell.rc(code)
    }

    /// Ask the remote host to forward authentication agent requests back to
    /// the local agent.
    pub fn request_auth_agent_forwarding(&mut self, cell: &mut SessionCell) -> (r: Result<(), Error>)
        requires
            old(self).wf(*old(cell)),
        ensures
            *final(self) == *old(self),
            final(self).wf(*final(cell)),
            SessionCell::spec_same_but_engine(*old(cell), *final(cell)),
            old(cell).engine.spec_scripted() ==> final(cell).engine
                == old(cell).engine.spec_after_script() && (r is Ok <==> old(cell).engine.spec_script_code() >= 0),
            !old(cell).engine.spec_scripted() ==> r is Ok && *final(cell) == *old(cell),
    {
        let code = cell.engine.channel_request_auth_agent(self.id);
        cell.rc(code)
    }

    /// The exit code of the remote process; 0 until the remote end has
    /// reported one. This read-back cannot fail.
    pub fn exit_status(&self, cell: &SessionCell) -> (r: Result<i32, Error>)
        requires
            self.wf(*cell),
        ensures
            r == Ok::<i32, Error>(cell.engine.channels@[self.spec_id()].exit_status),
    {
        Ok(cell.engine.channel_get_exit_status(self.id))
    }

    /// The exit signal report of the remote process.
    pub fn exit_signal(&self, cell: &mut SessionCell) -> (r: Result<ExitSignal, Error>)
        requires
            self.wf(*old(cell)),
        ensures
            self.wf(*final(cell)),
            SessionCell::spec_same_but_engine(*old(cell), *final(cell)),
            old(cell).engine.spec_scripted() ==> final(cell).engine
                == old(cell).engine.spec_after_script() && r is Err,
            !old(cell).engine.spec_scripted() ==> *final(cell) == *old(cell) && ({
                let slot = old(cell).engine.channels@[self.spec_id()];
                &&& r is Ok
                &&& (r->Ok_0.exit_signal is Some <==> slot.exit_signal is Some)
                &&& (r->Ok_0.exit_signal matches Some(x) ==> x@ == slot.exit_signal.unwrap()@)
                &&& (r->Ok_0.error_message is Some <==> slot.exit_error_message is Some)
                &&& (r->Ok_0.error_message matches Some(x) ==> x@
                    == slot.exit_error_message.unwrap()@)
                &&& (r->Ok_0.lang_tag is Some <==> slot.exit_lang_tag is Some)
                &&& (r->Ok_0.lang_tag matches Some(x) ==> x@ == slot.exit_lang_tag.unwrap()@)
            }),
    {
        match cell.engine.channel_exit_signal(self.id) {
            Err(code) => Err(Error::from_session_error_raw(&cell.engine, code)),
            Ok((sig, msg, lang)) => Ok(
                ExitSignal { exit_signal: sig, error_message: msg, lang_tag: lang },
            ),
        }
    }

    /// The state of the read window.
    pub fn read_window(&self, cell: &SessionCell) -> (r: ReadWindow)
        requires
            self.wf(*cell),
        ensures
            ({
                let slot = cell.engine.channels@[self.spec_id()];
                let avail = slot.data@.len() - slot.read_pos;
                &&& r.available == if avail <= u32::MAX {
                    avail
                } else {
                    u32::MAX as int
                }
                &&& r.window_size_initial == slot.window_size
            }),
    {
        let (remaining, available, initial) = cell.engine.channel_window_read(self.id);
        ReadWindow { remaining, available, window_size_initial: initial }
    }

    /// The state of the write window.
    pub fn write_window(&self, cell: &SessionCell) -> (r: WriteWindow)
        requires
            self.wf(*cell),
        ensures
            r.remaining == cell.engine.channels@[self.spec_id()].window_size,
            r.window_size_initial == cell.engine.channels@[self.spec_id()].window_size,
    {
        let (remaining, initial) = cell.engine.channel_window_write(self.id);
        WriteWindow { remaining, window_size_initial: initial }
    }

    /// Grow the receive window by `adjust` bytes and return its new size.
    pub fn adjust_receive_window(&mut self, cell: &mut SessionCell, adjust: u64, force: bool) -> (r: Result<u64, Error>)
        requires
            old(self).wf(*old(cell)),
        ensures
            *final(self) == *old(self),
            final(self).wf(*final(cell)),
            SessionCell::spec_same_but_engine(*old(cell), *final(cell)),
            old(cell).engine.spec_scripted() ==> final(cell).engine
                == old(cell).engine.spec_after_script() && r is Err,
            !old(cell).engine.spec_scripted() ==> ({
                let prior = old(cell).engine.channels@[old(self).spec_id()].window_size;
                let grown = if prior + adjust <= u32::MAX {
                    (prior + adjust) as u32
                } else {
                    u32::MAX
                };
                r == Ok::<u64, Error>(grown as u64) && final(cell).engine.channels@[old(self).spec_id()].window_size == grown
            }),
    {
        match cell.engine.channel_receive_window_adjust(self.id, adjust, force) {
            Err(code) => Err(Error::from_session_error_raw(&cell.engine, code)),
            Ok(n) => Ok(n),
        }
    }

    /// Impose the artificial byte ceiling used for SCP downloads: once
    /// `limit` bytes have been delivered, reads stop without reaching the
    /// engine.
    pub(crate) fn limit_read(&mut self, cell: &mut SessionCell, limit: u64)
        requires
            old(self).wf(*old(cell)),
        ensures
            *final(self) == *old(self),
            final(self).wf(*final(cell)),
            *final(cell) == (SessionCell { chans: final(cell).chans, ..*old(cell) }),
            final(cell).chans@ == old(cell).chans@.update(
                old(self).spec_id(),
                (ChanShared {
                    read_limit: Some(limit),
                    ..old(cell).chans@[old(self).spec_id()]
                }),
            ),
    {
        let shared = &mut cell.chans[self.id];
        shared.read_limit = Some(limit);
    }

    /// Whether the channel has reached end of stream for its reader.
    pub fn eof(&self, cell: &SessionCell) -> (r: bool)
        requires
            self.wf(*cell),
        ensures
            r == spec_stream_eof(*cell, self.spec_id()),
    {
        let limit_hit = match cell.chans[self.id].read_limit {
            Some(l) => l == 0,
            None => false,
        };
        limit_hit || cell.engine.channel_eof(self.id)
    }

    /// Tell the remote host that no further data will be sent.
    pub fn send_eof(&mut self, cell: &mut SessionCell) -> (r: Result<(), Error>)
        requires
            old(self).wf(*old(cell)),
        ensures
            *final(self) == *old(self),
            final(self).wf(*final(cell)),
            SessionCell::spec_same_but_engine(*old(cell), *final(cell)),
            !old(cell).engine.spec_scripted() && !old(cell).engine.spec_wouldblock_due() ==> r
                is Ok && spec_chan_op(
                *old(cell),
                *final(cell),
                old(self).spec_id(),
                (crate::engine::ChannelSlot {
                    eof_sent: true,
                    ..old(cell).engine.channels@[old(self).spec_id()]
                }),
            ) && final(cell).engine.channels@[old(self).spec_id()].eof_sent,
            !old(cell).engine.spec_scripted() && old(cell).engine.spec_wouldblock_due() ==> r
                is Err && r->Err_0.spec_code() == ErrorCode::Session(ERROR_EAGAIN),
    {
        let code = cell.engine.channel_send_eof(self.id);
        cell.rc(code)
    }

    /// Wait for the remote end to signal end of stream.
    pub fn wait_eof(&mut self, cell: &mut SessionCell) -> (r: Result<(), Error>)
        requires
            old(self).wf(*old(cell)),
        ensures
            *final(self) == *old(self),
            final(self).wf(*final(cell)),
            SessionCell::spec_same_but_engine(*old(cell), *final(cell)),
            !old(cell).engine.spec_scripted() && !old(cell).engine.spec_wouldblock_due() ==> r
                is Ok && spec_chan_op(
                *old(cell),
                *final(cell),
                old(self).spec_id(),
                (crate::engine::ChannelSlot {
                    remote_eof: true,
                    ..old(cell).engine.channels@[old(self).spec_id()]
                }),
            ) && final(cell).engine.channels@[old(self).spec_id()].remote_eof,
            !old(cell).engine.spec_scripted() && old(cell).engine.spec_wouldblock_due() ==> r
                is Err && r->Err_0.spec_code() == ErrorCode::Session(ERROR_EAGAIN),
    {
        let code = cell.engine.channel_wait_eof(self.id);
        cell.rc(code)
    }

    /// Send a close message for the channel.
    pub fn close(&mut self, cell: &mut SessionCell) -> (r: Result<(), Error>)
        requires
            old(self).wf(*old(cell)),
        ensures
            *final(self) == *old(self),
            final(self).wf(*final(cell)),
            SessionCell::spec_same_but_engine(*old(cell), *final(cell)),
            !old(cell).engine.spec_scripted() && !old(cell).engine.spec_wouldblock_due() ==> r
                is Ok && spec_chan_op(
                *old(cell),
                *final(cell),
                old(self).spec_id(),
                (crate::engine::ChannelSlot {
                    local_closed: true,
                    ..old(cell).engine.channels@[old(self).spec_id()]
                }),
            ) && final(cell).engine.channels@[old(self).spec_id()].local_closed,
            !old(cell).engine.spec_scripted() && old(cell).engine.spec_wouldblock_due() ==> r
                is Err && r->Err_0.spec_code() == ErrorCode::Session(ERROR_EAGAIN),
    {
        let code = cell.engine.channel_close(self.id);
        cell.rc(code)
    }

    /// Wait for the remote end to close the channel as well.
    pub fn wait_close(&mut self, cell: &mut SessionCell) -> (r: Result<(), Error>)
        requires
            old(self).wf(*old(cell)),
        ensures
            *final(self) == *old(self),
            final(self).wf(*final(cell)),
            SessionCell::spec_same_but_engine(*old(cell), *final(cell)),
            !old(cell).engine.spec_scripted() && !old(cell).engine.spec_wouldblock_due() ==> r
                is Ok && spec_chan_op(
                *old(cell),
                *final(cell),
                old(self).spec_id(),
                (crate::engine::ChannelSlot {
                    remote_closed: true,
                    ..old(cell).engine.channels@[old(self).spec_id()]
                }),
            ) && final(cell).engine.channels@[old(self).spec_id()].remote_closed,
            !old(cell).engine.spec_scripted() && old(cell).engine.spec_wouldblock_due() ==> r
                is Err && r->Err_0.spec_code() == ErrorCode::Session(ERROR_EAGAIN),
    {
        let code = cell.engine.channel_wait_closed(self.id);
        cell.rc(code)
    }

    /// Get a handle to a particular stream of this channel, taking one more
    /// strong reference on the channel's shared inner state.
    pub fn stream(&self, cell: &mut SessionCell, stream_id: i32) -> (r: Stream)
        requires
            self.wf(*old(cell)),
            old(cell).chans@[self.spec_id()].refs < u64::MAX,
        ensures
            self.wf(*final(cell)),
            r.spec_chan() == self.spec_id(),
            r.spec_stream_id() == stream_id,
            r.wf(*final(cell)),
            *final(cell) == (SessionCell { chans: final(cell).chans, ..*old(cell) }),
            final(cell).chans@ == old(cell).chans@.update(
                self.spec_id(),
                (ChanShared {
                    refs: (old(cell).chans@[self.spec_id()].refs + 1) as u64,
                    ..old(cell).chans@[self.spec_id()]
                }),
            ),
    {
        let shared = &mut cell.chans[self.id];
        shared.refs = shared.refs + 1;
        Stream { chan: self.id, id: stream_id }
    }

    /// Get a handle to the stderr stream of this channel.
    pub fn stderr(&self, cell: &mut SessionCell) -> (r: Stream)
        requires
            self.wf(*old(cell)),
            old(cell).chans@[self.spec_id()].refs < u64::MAX,
        ensures
            self.wf(*final(cell)),
            r.spec_chan() == self.spec_id(),
            r.spec_stream_id() == crate::EXTENDED_DATA_STDERR,
            r.wf(*final(cell)),
            *final(cell) == (SessionCell { chans: final(cell).chans, ..*old(cell) }),
    {
        self.stream(cell, crate::EXTENDED_DATA_STDERR)
    }

    /// Change how extended data (such as stderr) is handled.
    pub fn handle_extended_data(&mut self, cell: &mut SessionCell, mode: crate::ExtendedData) -> (r: Result<(), Error>)
        requires
            old(self).wf(*old(cell)),
        ensures
            *final(self) == *old(self),
            final(self).wf(*final(cell)),
            SessionCell::spec_same_but_engine(*old(cell), *final(cell)),
            !old(cell).engine.spec_scripted() ==> r is Ok && spec_chan_op(
                *old(cell),
                *final(cell),
                old(self).spec_id(),
                (crate::engine::ChannelSlot {
                    ext_mode: mode.code(),
                    ..old(cell).engine.channels@[old(self).spec_id()]
                }),
            ) && final(cell).engine.channels@[old(self).spec_id()].ext_mode == mode.code(),
    {
        let code = cell.engine.channel_handle_extended_data(self.id, mode.as_code());
        cell.rc(code)
    }

    /// Read from the main stream, delivering at most `len` bytes.
    pub fn read(&mut self, cell: &mut SessionCell, len: usize) -> (r: Result<Vec<u8>, Error>)
        requires
            old(self).wf(*old(cell)),
        ensures
            *final(self) == *old(self),
            final(self).wf(*final(cell)),
            spec_stream_eof(*old(cell), old(self).spec_id()) ==> r is Ok && r->Ok_0@.len() == 0
                && *final(cell) == *old(cell),
            !spec_stream_eof(*old(cell), old(self).spec_id()) && !old(cell).engine.spec_scripted() && !old(cell).engine.spec_wouldblock_due() ==> ({
                let slot = old(cell).engine.channels@[old(self).spec_id()];
                let limit = old(cell).chans@[old(self).spec_id()].read_limit;
                let cap = spec_read_cap(limit, len);
                let avail = slot.data@.len() - slot.read_pos;
                let n = if cap <= avail {
                    cap
                } else {
                    avail
                };
                &&& r is Ok
                &&& r->Ok_0@ == slot.data@.subrange(slot.read_pos as int, slot.read_pos + n)
                &&& final(cell).engine.channels@[old(self).spec_id()].read_pos == (slot.read_pos + n) as usize
                &&& final(cell).engine.channels@ == old(cell).engine.channels@.update(
                    old(self).spec_id(),
                    (crate::engine::ChannelSlot {
                        read_pos: (slot.read_pos + n) as usize,
                        ..slot
                    }),
                )
                &&& final(cell).engine == (Engine {
                    channels: final(cell).engine.channels,
                    read_calls: final(cell).engine.read_calls,
                    ..old(cell).engine
                })
                &&& *final(cell) == (SessionCell {
                    chans: final(cell).chans,
                    engine: final(cell).engine,
                    ..*old(cell)
                })
            }),
            r matches Ok(b) ==> b@.len() <= len,
            !spec_stream_eof(*old(cell), old(self).spec_id()) && !old(cell).engine.spec_scripted() && old(cell).engine.spec_wouldblock_due() ==> r is Err && r->Err_0.spec_code()
                == ErrorCode::Session(ERROR_EAGAIN) && final(cell).chans@ == old(cell).chans@,
            old(cell).chans@[old(self).spec_id()].read_limit matches Some(l) ==> ({
                &&& r matches Ok(b) ==> b@.len() <= l
                    && final(cell).chans@[old(self).spec_id()].read_limit == Some(
                    (l - b@.len()) as u64,
                )
            }),
    {
        locked_stream_read(cell, self.id, 0, len)
    }

    /// Write to the main stream.
    pub fn write(&mut self, cell: &mut SessionCell, data: &[u8]) -> (r: Result<usize, Error>)
        requires
            old(self).wf(*old(cell)),
            data@.len() <= usize::MAX - old(cell).engine.channels@[old(self).spec_id()].written@.len(),
        ensures
            *final(self) == *old(self),
            final(self).wf(*final(cell)),
            SessionCell::spec_same_but_engine(*old(cell), *final(cell)),
            !old(cell).engine.spec_scripted() && !old(cell).engine.spec_wouldblock_due() ==> r
                == Ok::<usize, Error>(data@.len() as usize)
                && final(cell).engine.channels@[old(self).spec_id()].written@
                == old(cell).engine.channels@[old(self).spec_id()].written@ + data@,
    {
        locked_stream_write(cell, self.id, 0, data)
    }

    /// Flush the main stream.
    pub fn flush(&mut self, cell: &mut SessionCell) -> (r: Result<(), Error>)
        requires
            old(self).wf(*old(cell)),
        ensures
            *final(self) == *old(self),
            final(self).wf(*final(cell)),
            SessionCell::spec_same_but_engine(*old(cell), *final(cell)),
            !old(cell).engine.spec_scripted() ==> r is Ok && *final(cell) == *old(cell),
    {
        let code = cell.engine.channel_flush(self.id, 0);
        cell.rc(code)
    }

    /// Retire this handle: drop its strong reference on the channel inner.
    /// When it was the last one, the native channel is released - with the
    /// engine forced into blocking mode around the cleanup call, so that a
    /// would-block failure cannot escape this destructor path - and the
    /// prior blocking mode is restored; the inner's counted reference on
    /// the cell is dropped with it.
    pub fn dispose(self, cell: &mut SessionCell)
        requires
            self.wf(*old(cell)),
        ensures
            final(cell).wf(),
            final(cell).engine.blocking == old(cell).engine.blocking,
            final(cell).engine.wouldblock == old(cell).engine.wouldblock,
            final(cell).chans@[self.spec_id()].refs
                == old(cell).chans@[self.spec_id()].refs - 1,
            old(cell).chans@[self.spec_id()].refs > 1 ==> *final(cell) == (SessionCell {
                chans: final(cell).chans,
                ..*old(cell)
            }) && final(cell).refs == old(cell).refs,
            old(cell).chans@[self.spec_id()].refs == 1 ==> ({
                &&& !final(cell).engine.channels@[self.spec_id()].alive
                &&& final(cell).refs == old(cell).refs - 1
                &&& (final(cell).engine_alive <==> final(cell).refs > 0)
                &&& final(cell).engine == (Engine {
                    channels: final(cell).engine.channels,
                    ..old(cell).engine
                })
            }),
    {
        let id = self.id;
        let shared = &mut cell.chans[id];
        shared.refs = shared.refs - 1;
        if cell.chans[id].refs == 0 {
            let was_blocking = cell.engine.blocking;
            cell.engine.set_blocking(true);
            let _ = cell.engine.channel_free(id);
            cell.engine.set_blocking(was_blocking);
            cell.refs = cell.refs - 1;
            if cell.refs == 0 {
                cell.engine_alive = false;
            }
        }
    }
}

impl Stream {
    /// The index of this stream's channel in the session's tables.
    pub closed spec fn spec_chan(self) -> int {
        self.chan as int
    }

    /// The substream id this handle reads and writes.
    pub closed spec fn spec_stream_id(self) -> i32 {
        self.id
    }

    /// The handle is valid for this cell.
    pub open spec fn wf(self, cell: SessionCell) -> bool {
        &&& cell.wf()
        &&& cell.live()
        &&& 0 <= self.spec_chan() < cell.chans@.len()
        &&& cell.chans@[self.spec_chan()].refs > 0
    }

    /// Read from this stream, delivering at most `len` bytes. The read
    /// ceiling, when set, caps every stream of the channel.
    pub fn read(&mut self, cell: &mut SessionCell, len: usize) -> (r: Result<Vec<u8>, Error>)
        requires
            old(self).wf(*old(cell)),
        ensures
            *final(self) == *old(self),
            final(self).wf(*final(cell)),
            spec_stream_eof(*old(cell), old(self).spec_chan()) ==> r is Ok && r->Ok_0@.len()
                == 0 && *final(cell) == *old(cell),
            old(self).spec_stream_id() == 0 && !spec_stream_eof(*old(cell), old(self).spec_chan()) && !old(cell).engine.spec_scripted() && !old(cell).engine.spec_wouldblock_due() ==> ({
                let slot = old(cell).engine.channels@[old(self).spec_chan()];
                let limit = old(cell).chans@[old(self).spec_chan()].read_limit;
                let cap = spec_read_cap(limit, len);
                let avail = slot.data@.len() - slot.read_pos;
                let n = if cap <= avail {
                    cap
                } else {
                    avail
                };
                &&& r is Ok
                &&& r->Ok_0@ == slot.data@.subrange(slot.read_pos as int, slot.read_pos + n)
                &&& final(cell).engine.channels@[old(self).spec_chan()].read_pos == (slot.read_pos + n) as usize
            }),
            r matches Ok(b) ==> b@.len() <= len,
            !spec_stream_eof(*old(cell), old(self).spec_chan()) && !old(cell).engine.spec_scripted() && old(cell).engine.spec_wouldblock_due() ==> r is Err && r->Err_0.spec_code()
                == ErrorCode::Session(ERROR_EAGAIN) && final(cell).chans@ == old(cell).chans@,
            old(cell).chans@[old(self).spec_chan()].read_limit matches Some(l) ==> ({
                &&& r matches Ok(b) ==> b@.len() <= l
                    && final(cell).chans@[old(self).spec_chan()].read_limit == Some(
                    (l - b@.len()) as u64,
                )
            }),
    {
        locked_stream_read(cell, self.chan, self.id, len)
    }

    /// Write to this stream.
    pub fn write(&mut self, cell: &mut SessionCell, data: &[u8]) -> (r: Result<usize, Error>)
        requires
            old(self).wf(*old(cell)),
            data@.len() <= usize::MAX - old(cell).engine.channels@[old(self).spec_chan()].written@.len(),
        ensures
            *final(self) == *old(self),
            final(self).wf(*final(cell)),
            SessionCell::spec_same_but_engine(*old(cell), *final(cell)),
            !old(cell).engine.spec_scripted() && !old(cell).engine.spec_wouldblock_due() ==> r
                == Ok::<usize, Error>(data@.len() as usize)
                && final(cell).engine.channels@[old(self).spec_chan()].written@
                == old(cell).engine.channels@[old(self).spec_chan()].written@ + data@,
    {
        locked_stream_write(cell, self.chan, self.id, data)
    }

    /// Flush this stream.
    pub fn flush(&mut self, cell: &mut SessionCell) -> (r: Result<(), Error>)
        requires
            old(self).wf(*old(cell)),
        ensures
            *final(self) == *old(self),
            final(self).wf(*final(cell)),
            SessionCell::spec_same_but_engine(*old(cell), *final(cell)),
            !old(cell).engine.spec_scripted() ==> r is Ok && *final(cell) == *old(cell),
    {
        let code = cell.engine.channel_flush(self.chan, self.id);
        cell.rc(code)
    }

    /// Retire this handle, exactly as dropping the channel value does.
    pub fn dispose(self, cell: &mut SessionCell)
        requires
            self.wf(*old(cell)),
        ensures
            final(cell).wf(),
            final(cell).engine.blocking == old(cell).engine.blocking,
            final(cell).chans@[self.spec_chan()].refs
                == old(cell).chans@[self.spec_chan()].refs - 1,
            old(cell).chans@[self.spec_chan()].refs > 1 ==> *final(cell) == (SessionCell {
                chans: final(cell).chans,
                ..*old(cell)
            }) && final(cell).refs == old(cell).refs,
            old(cell).chans@[self.spec_chan()].refs == 1 ==> ({
                &&& !final(cell).engine.channels@[self.spec_chan()].alive
                &&& final(cell).refs == old(cell).refs - 1
                &&& (final(cell).engine_alive <==> final(cell).refs > 0)
            }),
    {
        let id = self.chan;
        let shared = &mut cell.chans[id];
        shared.refs = shared.refs - 1;
        if cell.chans[id].refs == 0 {
            let was_blocking = cell.engine.blocking;
            cell.engine.set_blocking(true);
            let _ = cell.engine.channel_free(id);
            cell.engine.set_blocking(was_blocking);
            cell.refs = cell.refs - 1;
            if cell.refs == 0 {
                cell.engine_alive = false;
            }
        }
    }
}

/// Every read fits under the ceiling left for it: the first amount is at
/// most `ceiling`, and the rest fit under what remains.
pub open spec fn spec_reads_fit(ceiling: nat, reads: Seq<nat>) -> bool
    decreases reads.len(),
{
    reads.len() == 0 || (reads.first() <= ceiling && spec_reads_fit(
        (ceiling - reads.first()) as nat,
        reads.drop_first(),
    ))
}

/// The total number of bytes a sequence of reads delivered.
pub open spec fn spec_total_read(reads: Seq<nat>) -> nat
    decreases reads.len(),
{
    if reads.len() == 0 {
        0
    } else {
        reads.first() + spec_total_read(reads.drop_first())
    }
}

/// The read-ceiling law: a ceiling-limited channel delivers at most its
/// ceiling in total, over any number of reads.
///
/// Each read returns at most the remaining ceiling and subtracts what it
/// returned (the contract of [`Channel::read`] and [`Stream::read`]), so
/// any sequence of deliveries fits `spec_reads_fit`; this lemma closes the
/// induction: their total never exceeds the initial ceiling.
pub proof fn lemma_ceiling_bounds_total(ceiling: nat, reads: Seq<nat>)
    requires
        spec_reads_fit(ceiling, reads),
    ensures
        spec_total_read(reads) <= ceiling,
    decreases reads.len(),
{
    if reads.len() > 0 {
        lemma_ceiling_bounds_total((ceiling - reads.first()) as nat, reads.drop_first());
    }
}

} // verus!
