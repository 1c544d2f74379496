//! Agent handles and the identities they offer.
//!
//! An agent is a dependent handle: it wraps the engine's agent structure
//! plus one counted reference to the session cell. Identities are
//! enumerated through the engine's cursor protocol: ask for the entry
//! after the previous one until the end marker comes back.

use vstd::prelude::*;
use vstd::string::StringSliceAdditionalSpecFns;
use crate::engine::Engine;
use crate::error::{Error, ErrorCode, ERROR_BAD_USE};
use crate::session::SessionCell;
use crate::util::{str_to_c_bytes, spec_is_nul_error};

verus! {

/// A public key extracted from an agent.
#[derive(Debug)]
pub struct PublicKey {
    blob: Vec<u8>,
    comment: String,
}

impl PublicKey {
    /// The key material, as a spec-level value.
    pub closed spec fn spec_blob(self) -> Seq<u8> {
        self.blob@
    }

    /// The comment, as a spec-level value.
    pub closed spec fn spec_comment(self) -> Seq<char> {
        self.comment@
    }

    /// Assemble a key from its parts.
    pub fn from_parts(blob: Vec<u8>, comment: String) -> (r: PublicKey)
        ensures
            r.spec_blob() == blob@,
            r.spec_comment() == comment@,
    {
        PublicKey { blob, comment }
    }

    /// Return the data of this public key.
    pub fn blob(&self) -> (r: &[u8])
        ensures
            r@ == self.spec_blob(),
    {
        self.blob.as_slice()
    }

    /// Returns the comment in a printable format.
    pub fn comment(&self) -> (r: &str)
        ensures
            r@ == self.spec_comment(),
    {
        self.comment.as_str()
    }
}

/// A connection to an SSH agent. Stands for one counted reference to the
/// session cell.
#[derive(Debug)]
pub struct Agent {
    pub(crate) id: usize,
}

/// The identity list `keys` contains, at some index, a key equal to the
/// given one by blob and comment.
pub open spec fn spec_keys_contain(keys: Seq<(Vec<u8>, String)>, blob: Seq<u8>, comment: Seq<char>) -> bool {
    exists|j: int|
        0 <= j < keys.len() && (#[trigger] keys[j]).0@ == blob && keys[j].1@ == comment
}

impl Agent {
    /// The index of this agent in the engine's agent table.
    pub closed spec fn spec_id(self) -> int {
        self.id as int
    }

    /// The handle is valid for this cell.
    pub open spec fn wf(self, cell: SessionCell) -> bool {
        &&& cell.wf()
        &&& cell.live()
        &&& 0 <= self.spec_id() < cell.engine.agents@.len()
        &&& cell.engine.agents@[self.spec_id()].alive
    }

    /// The construction step of the agent open: wrap the engine's raw
    /// result - taking one counted reference to the cell - or return
    /// exactly the captured error, or the generic unknown error when none
    /// was captured.
    pub fn from_raw_opt(raw: Option<usize>, err: Option<Error>, cell: &mut SessionCell) -> (r: Result<Agent, Error>)
        requires
            old(cell).refs > 0,
            old(cell).refs < u64::MAX,
            raw matches Some(id) ==> id < old(cell).engine.agents@.len()
                && old(cell).engine.agents@[id as int].alive,
        ensures
            raw is None ==> *final(cell) == *old(cell) && r is Err && (err matches Some(e) ==> r
                == Err::<Agent, Error>(e)) && (err is None ==> r->Err_0.spec_code()
                == ErrorCode::Session(i32::MIN) && r->Err_0.spec_message()
                == "no other error listed"@),
            raw matches Some(id) ==> r is Ok && r->Ok_0.spec_id() == id && *final(cell)
                == (SessionCell { refs: (old(cell).refs + 1) as u64, ..*old(cell) }),
    {
        match raw {
            None => Err(
                match err {
                    Some(e) => e,
                    None => Error::unknown(),
                },
            ),
            Some(id) => {
                cell.refs = cell.refs + 1;
                Ok(Agent { id })
            }
        }
    }

    /// Connect to the agent running on the system.
    pub fn connect(&mut self, cell: &mut SessionCell) -> (r: Result<(), Error>)
        requires
            old(self).wf(*old(cell)),
        ensures
            *final(self) == *old(self),
            final(self).wf(*final(cell)),
            SessionCell::spec_same_but_engine(*old(cell), *final(cell)),
            !old(cell).engine.spec_scripted() ==> !final(cell).engine.spec_scripted()
                && final(cell).engine.agent_keys@ == old(cell).engine.agent_keys@
                && final(cell).engine.handshaked == old(cell).engine.handshaked
                && final(cell).engine.authenticated == old(cell).engine.authenticated,
            !old(cell).engine.spec_scripted() ==> r is Ok && final(cell).engine.agents@[old(self).spec_id()].connected,
            old(cell).engine.spec_scripted() ==> final(cell).engine
                == old(cell).engine.spec_after_script() && (r is Ok <==> old(cell).engine.spec_script_code() >= 0),
    {
        let code = cell.engine.agent_connect(self.id);
        cell.rc(code)
    }

    /// Close the connection to the agent.
    pub fn disconnect(&mut self, cell: &mut SessionCell) -> (r: Result<(), Error>)
        requires
            old(self).wf(*old(cell)),
        ensures
            *final(self) == *old(self),
            final(self).wf(*final(cell)),
            SessionCell::spec_same_but_engine(*old(cell), *final(cell)),
            !old(cell).engine.spec_scripted() ==> r is Ok && !final(cell).engine.agents@[old(self).spec_id()].connected,
    {
        let code = cell.engine.agent_disconnect(self.id);
        cell.rc(code)
    }

    /// Ask the agent for its identities, storing them in the handle's
    /// internal collection; requires an established connection.
    pub fn list_identities(&mut self, cell: &mut SessionCell) -> (r: Result<(), Error>)
        requires
            old(self).wf(*old(cell)),
        ensures
            *final(self) == *old(self),
            final(self).wf(*final(cell)),
            SessionCell::spec_same_but_engine(*old(cell), *final(cell)),
            !old(cell).engine.spec_scripted() ==> !final(cell).engine.spec_scripted()
                && final(cell).engine.agent_keys@ == old(cell).engine.agent_keys@
                && final(cell).engine.handshaked == old(cell).engine.handshaked
                && final(cell).engine.authenticated == old(cell).engine.authenticated,
            !old(cell).engine.spec_scripted() && old(cell).engine.agents@[old(self).spec_id()].connected
                ==> r is Ok && final(cell).engine.agents@[old(self).spec_id()].listed is Some
                && Engine::spec_keys_snapshot(
                old(cell).engine.agent_keys@,
                final(cell).engine.agents@[old(self).spec_id()].listed.unwrap()@,
            ),
            !old(cell).engine.spec_scripted() && !old(cell).engine.agents@[old(self).spec_id()].connected
                ==> r is Err && r->Err_0.spec_code() == ErrorCode::Session(ERROR_BAD_USE),
    {
        let code = cell.engine.agent_list_identities(self.id);
        cell.rc(code)
    }

    /// Get the identities fetched by the last `list_identities`: the
    /// cursor-based enumeration run to the end marker, collected into an
    /// owned list.
    pub fn identities(&self, cell: &SessionCell) -> (r: Result<Vec<PublicKey>, Error>)
        requires
            self.wf(*cell),
        ensures
            r is Ok,
            cell.engine.agents@[self.spec_id()].listed matches Some(listed) ==> ({
                let keys = r->Ok_0;
                &&& keys@.len() == listed@.len()
                &&& forall|i: int|
                    0 <= i < listed@.len() ==> (#[trigger] keys@[i]).spec_blob()
                        == listed@[i].0@ && keys@[i].spec_comment() == listed@[i].1@
            }),
            cell.engine.agents@[self.spec_id()].listed is None ==> r->Ok_0@.len() == 0,
    {
        let mut res: Vec<PublicKey> = Vec::new();
        let mut prev: Option<usize> = None;
        loop
            invariant
                self.wf(*cell),
                cell.engine.agents@[self.spec_id()].listed is None ==> res@.len() == 0 && prev
                    is None,
                cell.engine.agents@[self.spec_id()].listed matches Some(listed) ==> ({
                    &&& (prev matches Some(p) ==> p + 1 == res@.len() && p < listed@.len())
                    &&& (prev is None ==> res@.len() == 0)
                    &&& res@.len() <= listed@.len()
                    &&& forall|i: int|
                        0 <= i < res@.len() ==> (#[trigger] res@[i]).spec_blob()
                            == listed@[i].0@ && res@[i].spec_comment() == listed@[i].1@
                }),
            decreases (match cell.engine.agents@[self.spec_id()].listed {
                Some(listed) => listed@.len() - res@.len(),
                None => 0int,
            }),
        {
            match cell.engine.agent_get_identity(self.id, prev) {
                None => {
                    return Ok(res);
                }
                Some(next) => {
                    let (blob, comment) = cell.engine.agent_identity_at(self.id, next);
                    res.push(PublicKey { blob, comment });
                    prev = Some(next);
                }
            }
        }
    }

    /// Find the index of an identity equal to `identity` in the handle's
    /// fetched collection: the same cursor walk the enumeration uses.
    fn resolve_raw_identity(&self, cell: &SessionCell, identity: &PublicKey) -> (r: Option<usize>)
        requires
            self.wf(*cell),
            cell.engine.agents@[self.spec_id()].listed is Some,
        ensures
            r is Some ==> spec_keys_contain(
                cell.engine.agents@[self.spec_id()].listed.unwrap()@,
                identity.spec_blob(),
                identity.spec_comment(),
            ),
            r is None ==> !spec_keys_contain(
                cell.engine.agents@[self.spec_id()].listed.unwrap()@,
                identity.spec_blob(),
                identity.spec_comment(),
            ),
    {
        let ghost listed = cell.engine.agents@[self.spec_id()].listed.unwrap()@;
        let mut prev: Option<usize> = None;
        loop
            invariant
                self.wf(*cell),
                cell.engine.agents@[self.spec_id()].listed is Some,
                listed == cell.engine.agents@[self.spec_id()].listed.unwrap()@,
                prev matches Some(p) ==> p < listed.len(),
                ({
                    let scanned = match prev {
                        Some(p) => p + 1,
                        None => 0int,
                    };
                    forall|j: int|
                        0 <= j < scanned ==> !((#[trigger] listed[j]).0@
                            == identity.spec_blob() && listed[j].1@ == identity.spec_comment())
                }),
            decreases listed.len() - (match prev {
                Some(p) => p + 1,
                None => 0int,
            }),
        {
            match cell.engine.agent_get_identity(self.id, prev) {
                None => {
                    return None;
                }
                Some(next) => {
                    let (blob, comment) = cell.engine.agent_identity_at(self.id, next);
                    let blob_eq = crate::engine::bytes_match(&blob, &identity.blob);
                    let comment_eq = comment == identity.comment;
                    if blob_eq && comment_eq {
                        assert(listed[next as int].0@ == identity.spec_blob()
                            && listed[next as int].1@ == identity.spec_comment());
                        assert(spec_keys_contain(
                            listed,
                            identity.spec_blob(),
                            identity.spec_comment(),
                        ));
                        return Some(next);
                    }
                    prev = Some(next);
                }
            }
        }
    }

    /// Attempt public key authentication with an agent-held identity.
    /// Fails with the "bad use" error when the identity is not in the
    /// handle's fetched collection.
    pub fn userauth(&self, cell: &mut SessionCell, username: &str, identity: &PublicKey) -> (r: Result<(), Error>)
        requires
            self.wf(*old(cell)),
            old(cell).engine.agents@[self.spec_id()].listed is Some,
        ensures
            self.wf(*final(cell)),
            SessionCell::spec_same_but_engine(*old(cell), *final(cell)),
            !old(cell).engine.spec_scripted() ==> (r is Ok ==> final(cell).engine.authenticated),
            username.spec_bytes().contains(0u8) ==> *final(cell) == *old(cell) && r is Err
                && spec_is_nul_error(r->Err_0),
            !username.spec_bytes().contains(0u8) && !spec_keys_contain(
                old(cell).engine.agents@[self.spec_id()].listed.unwrap()@,
                identity.spec_blob(),
                identity.spec_comment(),
            ) ==> *final(cell) == *old(cell) && r is Err && r->Err_0.spec_code()
                == ErrorCode::Session(ERROR_BAD_USE) && r->Err_0.spec_message()
                == "Identity not found in agent"@,
            !username.spec_bytes().contains(0u8) && spec_keys_contain(
                old(cell).engine.agents@[self.spec_id()].listed.unwrap()@,
                identity.spec_blob(),
                identity.spec_comment(),
            ) && !old(cell).engine.spec_scripted() && old(cell).engine.handshaked ==> r is Ok
                && final(cell).engine == (Engine { authenticated: true, ..old(cell).engine }),
    {
        let user = match str_to_c_bytes(username) {
            Ok(u) => u,
            Err(e) => {
                return Err(e);
            }
        };
        match self.resolve_raw_identity(cell, identity) {
            None => Err(
                Error::new(ErrorCode::Session(ERROR_BAD_USE), "Identity not found in agent"),
            ),
            Some(_idx) => {
                let code = cell.engine.agent_userauth(self.id, &user);
                cell.rc(code)
            }
        }
    }

    /// Retire this handle: release the engine's agent structure and drop
    /// the counted reference on the cell.
    pub fn dispose(self, cell: &mut SessionCell)
        requires
            self.wf(*old(cell)),
        ensures
            final(cell).wf(),
            final(cell).refs == old(cell).refs - 1,
            (final(cell).engine_alive <==> final(cell).refs > 0),
            !final(cell).engine.agents@[self.spec_id()].alive,
            final(cell).engine == (Engine {
                agents: final(cell).engine.agents,
                ..old(cell).engine
            }),
            *final(cell) == (SessionCell {
                engine: final(cell).engine,
                refs: final(cell).refs,
                engine_alive: final(cell).engine_alive,
                ..*old(cell)
            }),
    {
        cell.engine.agent_free(self.id);
        cell.refs = cell.refs - 1;
        if cell.refs == 0 {
            cell.engine_alive = false;
        }
    }
}

} // verus!
