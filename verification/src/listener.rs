//! Remote port forwarding listeners.
//!
//! A listener is a dependent handle; accepting a queued connection mints a
//! new channel, which is itself a dependent handle with its own counted
//! reference.

use vstd::prelude::*;
use crate::channel::Channel;

use crate::error::{Error, ErrorCode};
use crate::session::SessionCell;

verus! {

/// A forwarding port on the remote server; connections queued on it can be
/// accepted as channels. Stands for one counted reference to the session
/// cell.
#[derive(Debug)]
pub struct Listener {
    pub(crate) id: usize,
}

impl Listener {
    /// The index of this listener in the engine's table.
    pub closed spec fn spec_id(self) -> int {
        self.id as int
    }

    /// The handle is valid for this cell.
    pub open spec fn wf(self, cell: SessionCell) -> bool {
        &&& cell.wf()
        &&& cell.live()
        &&& 0 <= self.spec_id() < cell.engine.listeners@.len()
        &&& cell.engine.listeners@[self.spec_id()].alive
    }

    /// The construction step of the listen call: wrap the engine's raw
    /// result - taking one counted reference to the cell - or return
    /// exactly the captured error, or the generic unknown error when none
    /// was captured.
    pub fn from_raw_opt(raw: Option<usize>, err: Option<Error>, cell: &mut SessionCell) -> (r: Result<Listener, Error>)
        requires
            old(cell).refs > 0,
            old(cell).refs < u64::MAX,
            raw matches Some(id) ==> id < old(cell).engine.listeners@.len()
                && old(cell).engine.listeners@[id as int].alive,
        ensures
            raw is None ==> *final(cell) == *old(cell) && r is Err && (err matches Some(e) ==> r
                == Err::<Listener, Error>(e)) && (err is None ==> r->Err_0.spec_code()
                == ErrorCode::Session(i32::MIN) && r->Err_0.spec_message()
                == "no other error listed"@),
            raw matches Some(id) ==> r is Ok && r->Ok_0.spec_id() == id && *final(cell)
                == (SessionCell { refs: (old(cell).refs + 1) as u64, ..*old(cell) }),
    {
        match raw {
            None => Err(
                match err {
                    Some(e) => e,
                    None => Error::unknown(),
                },
            ),
            Some(id) => {
                cell.refs = cell.refs + 1;
                Ok(Listener { id })
            }
        }
    }

    /// Accept a queued connection, minting a channel for it. Fails with the
    /// engine's error when nothing is queued.
    pub fn accept(&mut self, cell: &mut SessionCell) -> (r: Result<Channel, Error>)
        requires
            old(self).wf(*old(cell)),
            old(cell).refs < u64::MAX,
            old(cell).chans@.len() == old(cell).engine.channels@.len(),
        ensures
            *final(self) == *old(self),
            final(self).wf(*final(cell)),
            !old(cell).engine.spec_scripted() && !old(cell).engine.spec_wouldblock_due() && old(cell).engine.listeners@[old(self).spec_id()].queued > 0 ==> r is Ok
                && r->Ok_0.wf(*final(cell)) && final(cell).refs == old(cell).refs + 1
                && final(cell).engine.listeners@[old(self).spec_id()].queued
                == old(cell).engine.listeners@[old(self).spec_id()].queued - 1,
            !old(cell).engine.spec_scripted() && !old(cell).engine.spec_wouldblock_due() && old(cell).engine.listeners@[old(self).spec_id()].queued == 0 ==> r is Err
                && final(cell).refs == old(cell).refs,
    {
        let raw = cell.engine.forward_accept(self.id);
        let err = cell.last_error();
        Channel::from_raw_opt(raw, err, cell)
    }

    /// Retire this handle: cancel the listener (ignoring a would-block
    /// reply, as a destructor must) and drop the counted reference.
    pub fn dispose(self, cell: &mut SessionCell)
        requires
            self.wf(*old(cell)),
        ensures
            final(cell).wf(),
            final(cell).refs == old(cell).refs - 1,
            (final(cell).engine_alive <==> final(cell).refs > 0),
            !old(cell).engine.spec_wouldblock_due() ==> !final(cell).engine.listeners@[self.spec_id()].alive,
    {
        let _ = cell.engine.forward_cancel(self.id);
        cell.refs = cell.refs - 1;
        if cell.refs == 0 {
            cell.engine_alive = false;
        }
    }
}

} // verus!
