//! Known-host collections.
//!
//! A collection is a dependent handle over the engine's known-hosts store.
//! Entries are enumerated through the cursor protocol; checking a host and
//! key yields a four-way result; writing an entry out uses the grow-and-
//! retry buffer discipline with the exact needed size reported back.

use vstd::prelude::*;
use vstd::string::StringSliceAdditionalSpecFns;
use crate::engine::{Engine, HostEntry, KnownHostsSlot};
use crate::error::{Error, ErrorCode, ERROR_BAD_USE};
use crate::session::SessionCell;
use crate::util::{str_to_c_bytes, spec_is_nul_error};
use crate::{CheckResult, KnownHostFileKind, KnownHostKeyFormat};

verus! {

/// One known host of a collection.
#[derive(Debug)]
pub struct Host {
    name: Option<String>,
    key: String,
}

impl Host {
    /// The plain-text host name, as a spec-level value.
    pub closed spec fn spec_name(self) -> Option<Seq<char>> {
        match self.name {
            Some(n) => Some(n@),
            None => None,
        }
    }

    /// The key, as a spec-level value.
    pub closed spec fn spec_key(self) -> Seq<char> {
        self.key@
    }

    /// The plain-text host name; absent for hashed entries.
    pub fn name(&self) -> (r: Option<&str>)
        ensures
            r is Some <==> self.spec_name() is Some,
            r matches Some(n) ==> n@ == self.spec_name().unwrap(),
    {
        match &self.name {
            Some(n) => Some(n.as_str()),
            None => None,
        }
    }

    /// The key in printable form.
    pub fn key(&self) -> (r: &str)
        ensures
            r@ == self.spec_key(),
    {
        self.key.as_str()
    }
}

/// Entry `e` records the same host as `h`: the same plain-text name and
/// the same key.
pub open spec fn spec_entry_matches(e: HostEntry, h: Host) -> bool {
    &&& e.name is Some
    &&& h.spec_name() is Some
    &&& e.name.unwrap()@ == h.spec_name().unwrap()
    &&& e.key@ == h.spec_key()
}

/// No entry before index `k` matches `h`.
pub open spec fn spec_no_match_before(entries: Seq<HostEntry>, h: Host, k: int) -> bool {
    forall|j: int| 0 <= j < k ==> !spec_entry_matches(#[trigger] entries[j], h)
}

/// The index of the first entry matching `h`.
pub open spec fn spec_match_at(entries: Seq<HostEntry>, h: Host) -> int {
    choose|k: int|
        0 <= k < entries.len() && spec_entry_matches(entries[k], h) && spec_no_match_before(
            entries,
            h,
            k,
        )
}

/// A found index is the chosen first matching index.
proof fn lemma_match_at(entries: Seq<HostEntry>, h: Host, k: int)
    requires
        0 <= k < entries.len(),
        spec_entry_matches(entries[k], h),
        spec_no_match_before(entries, h, k),
    ensures
        spec_match_at(entries, h) == k,
{
    let c = spec_match_at(entries, h);
    assert(0 <= c < entries.len() && spec_entry_matches(entries[c], h) && spec_no_match_before(
        entries,
        h,
        c,
    ));
    if c < k {
        assert(!spec_entry_matches(entries[c], h));
    }
    if k < c {
        assert(!spec_entry_matches(entries[k], h));
    }
}

/// A collection of known hosts used to verify a remote server's identity.
/// Stands for one counted reference to the session cell.
#[derive(Debug)]
pub struct KnownHosts {
    pub(crate) id: usize,
}

impl KnownHosts {
    /// The index of this collection in the engine's table.
    pub closed spec fn spec_id(self) -> int {
        self.id as int
    }

    /// The handle is valid for this cell.
    pub open spec fn wf(self, cell: SessionCell) -> bool {
        &&& cell.wf()
        &&& cell.live()
        &&& 0 <= self.spec_id() < cell.engine.knownhosts@.len()
        &&& cell.engine.knownhosts@[self.spec_id()].alive
    }

    /// The construction step of the collection open: wrap the engine's raw
    /// result - taking one counted reference to the cell - or return
    /// exactly the captured error, or the generic unknown error when none
    /// was captured.
    pub fn from_raw_opt(raw: Option<usize>, err: Option<Error>, cell: &mut SessionCell) -> (r: Result<KnownHosts, Error>)
        requires
            old(cell).refs > 0,
            old(cell).refs < u64::MAX,
            raw matches Some(id) ==> id < old(cell).engine.knownhosts@.len()
                && old(cell).engine.knownhosts@[id as int].alive,
        ensures
            raw is None ==> *final(cell) == *old(cell) && r is Err && (err matches Some(e) ==> r
                == Err::<KnownHosts, Error>(e)) && (err is None ==> r->Err_0.spec_code()
                == ErrorCode::Session(i32::MIN) && r->Err_0.spec_message()
                == "no other error listed"@),
            raw matches Some(id) ==> r is Ok && r->Ok_0.spec_id() == id && *final(cell)
                == (SessionCell { refs: (old(cell).refs + 1) as u64, ..*old(cell) }),
    {
        match raw {
            None => Err(
                match err {
                    Some(e) => e,
                    None => Error::unknown(),
                },
            ),
            Some(id) => {
                cell.refs = cell.refs + 1;
                Ok(KnownHosts { id })
            }
        }
    }

    /// Add a known host to the collection. The host name is in plain text;
    /// the key is in printable form; the comment is informational and not
    /// retained by the double.
    pub fn add(&mut self, cell: &mut SessionCell, host: &str, key: &str, comment: &str, fmt: KnownHostKeyFormat) -> (r: Result<(), Error>)
        requires
            old(self).wf(*old(cell)),
        ensures
            *final(self) == *old(self),
            final(self).wf(*final(cell)),
            SessionCell::spec_same_but_engine(*old(cell), *final(cell)),
            host.spec_bytes().contains(0u8) ==> *final(cell) == *old(cell) && r is Err
                && spec_is_nul_error(r->Err_0),
            !host.spec_bytes().contains(0u8) && !old(cell).engine.spec_scripted() ==> r is Ok
                && ({
                let entries = final(cell).engine.knownhosts@[old(self).spec_id()].entries@;
                &&& entries.len() == old(cell).engine.knownhosts@[old(self).spec_id()].entries@.len() + 1
                &&& entries == old(cell).engine.knownhosts@[old(self).spec_id()].entries@.push(
                    entries.last(),
                )
                &&& entries.last().name is Some
                &&& entries.last().name.unwrap()@ == host@
                &&& entries.last().key@ == key@
            }),
    {
        let _ = comment;
        let _ = match str_to_c_bytes(host) {
            Ok(h) => h,
            Err(e) => {
                return Err(e);
            }
        };
        let name = host.to_owned();
        let key_owned = key.to_owned();
        let code = cell.engine.knownhost_addc(self.id, name, key_owned, fmt.as_flag());
        cell.rc(code)
    }

    /// Retrieve the list of known hosts: the cursor-based enumeration run
    /// to the end marker, collected into an owned list.
    pub fn hosts(&self, cell: &SessionCell) -> (r: Result<Vec<Host>, Error>)
        requires
            self.wf(*cell),
        ensures
            r is Ok,
            ({
                let entries = cell.engine.knownhosts@[self.spec_id()].entries@;
                let hosts = r->Ok_0;
                &&& hosts@.len() == entries.len()
                &&& forall|i: int|
                    0 <= i < entries.len() ==> ((#[trigger] hosts@[i]).spec_name() is Some
                        <==> entries[i].name is Some) && (entries[i].name is Some
                        ==> hosts@[i].spec_name().unwrap() == entries[i].name.unwrap()@)
                        && hosts@[i].spec_key() == entries[i].key@
            }),
    {
        let ghost entries = cell.engine.knownhosts@[self.spec_id()].entries@;
        let mut hosts: Vec<Host> = Vec::new();
        let mut prev: Option<usize> = None;
        loop
            invariant
                self.wf(*cell),
                entries == cell.engine.knownhosts@[self.spec_id()].entries@,
                prev matches Some(p) ==> p < entries.len() && p + 1 == hosts@.len(),
                prev is None ==> hosts@.len() == 0,
                hosts@.len() <= entries.len(),
                forall|i: int|
                    0 <= i < hosts@.len() ==> ((#[trigger] hosts@[i]).spec_name() is Some <==>
                        entries[i].name is Some) && (entries[i].name is Some ==> hosts@[i].spec_name().unwrap()
                        == entries[i].name.unwrap()@) && hosts@[i].spec_key() == entries[i].key@,
            decreases entries.len() - hosts@.len(),
        {
            match cell.engine.knownhost_get(self.id, prev) {
                None => {
                    return Ok(hosts);
                }
                Some(next) => {
                    let (name, key, _fmt) = cell.engine.knownhost_entry_at(self.id, next);
                    hosts.push(Host { name, key });
                    prev = Some(next);
                }
            }
        }
    }

    /// Create an owned list over all of the known hosts in this structure.
    pub fn iter(&self, cell: &SessionCell) -> (r: Result<Vec<Host>, Error>)
        requires
            self.wf(*cell),
        ensures
            r is Ok,
            ({
                let entries = cell.engine.knownhosts@[self.spec_id()].entries@;
                let hosts = r->Ok_0;
                &&& hosts@.len() == entries.len()
                &&& forall|i: int|
                    0 <= i < entries.len() ==> ((#[trigger] hosts@[i]).spec_name() is Some
                        <==> entries[i].name is Some) && (entries[i].name is Some
                        ==> hosts@[i].spec_name().unwrap() == entries[i].name.unwrap()@)
                        && hosts@[i].spec_key() == entries[i].key@
            }),
    {
        self.hosts(cell)
    }

    /// Find the index of the first entry matching `host` by name and key:
    /// the same cursor walk the enumeration uses.
    fn resolve_to_raw_host(&self, cell: &SessionCell, host: &Host) -> (r: Option<usize>)
        requires
            self.wf(*cell),
        ensures
            ({
                let entries = cell.engine.knownhosts@[self.spec_id()].entries@;
                &&& (r matches Some(k) ==> k < entries.len() && spec_entry_matches(
                    entries[k as int],
                    *host,
                ) && spec_no_match_before(entries, *host, k as int))
                &&& (r is None ==> spec_no_match_before(entries, *host, entries.len() as int))
            }),
    {
        let ghost entries = cell.engine.knownhosts@[self.spec_id()].entries@;
        let mut prev: Option<usize> = None;
        loop
            invariant
                self.wf(*cell),
                entries == cell.engine.knownhosts@[self.spec_id()].entries@,
                prev matches Some(p) ==> p < entries.len(),
                spec_no_match_before(
                    entries,
                    *host,
                    match prev {
                        Some(p) => p + 1,
                        None => 0int,
                    },
                ),
            decreases entries.len() - (match prev {
                Some(p) => p + 1,
                None => 0int,
            }),
        {
            match cell.engine.knownhost_get(self.id, prev) {
                None => {
                    return None;
                }
                Some(next) => {
                    let (name, key, _fmt) = cell.engine.knownhost_entry_at(self.id, next);
                    let name_eq = match (&name, &host.name) {
                        (Some(a), Some(b)) => *a == *b,
                        (None, None) => true,
                        _ => false,
                    };
                    if name_eq && name.is_some() {
                        let key_eq = key == host.key;
                        if key_eq {
                            proof {
                                assert(spec_entry_matches(entries[next as int], *host));
                            }
                            return Some(next);
                        }
                    }
                    proof {
                        assert(!spec_entry_matches(entries[next as int], *host));
                    }
                    prev = Some(next);
                }
            }
        }
    }

    /// Delete the first entry matching `host` from the collection; removing
    /// a host that is not in the collection is a no-op.
    pub fn remove(&self, cell: &mut SessionCell, host: &Host) -> (r: Result<(), Error>)
        requires
            self.wf(*old(cell)),
        ensures
            self.wf(*final(cell)),
            SessionCell::spec_same_but_engine(*old(cell), *final(cell)),
            r is Ok,
            ({
                let entries = old(cell).engine.knownhosts@[self.spec_id()].entries@;
                &&& (exists|k: int|
                    0 <= k < entries.len() && spec_entry_matches(#[trigger] entries[k], *host))
                    ==> final(cell).engine.knownhosts@[self.spec_id()].entries@
                    == entries.remove(spec_match_at(entries, *host)) && final(cell).engine.knownhosts@ == old(cell).engine.knownhosts@.update(
                    self.spec_id(),
                    (KnownHostsSlot {
                        entries: final(cell).engine.knownhosts@[self.spec_id()].entries,
                        ..old(cell).engine.knownhosts@[self.spec_id()]
                    }),
                ) && final(cell).engine == (Engine {
                    knownhosts: final(cell).engine.knownhosts,
                    ..old(cell).engine
                })
                &&& spec_no_match_before(entries, *host, entries.len() as int) ==> *final(cell)
                    == *old(cell)
            }),
    {
        match self.resolve_to_raw_host(cell, host) {
            Some(k) => {
                proof {
                    lemma_match_at(
                        cell.engine.knownhosts@[self.spec_id()].entries@,
                        *host,
                        k as int,
                    );
                }
                let code = cell.engine.knownhost_del(self.id, k);
                cell.rc(code)
            }
            None => Ok(()),
        }
    }

    /// Check a host and its key against the collection.
    pub fn check(&self, cell: &SessionCell, host: &str, key: &str) -> (r: CheckResult)
        requires
            self.wf(*cell),
        ensures
            ({
                let entries = cell.engine.knownhosts@[self.spec_id()].entries@;
                &&& r == CheckResult::Match <==> Engine::spec_kh_has_pair(entries, host@, key@)
                &&& r == CheckResult::Mismatch <==> (Engine::spec_kh_has_host(entries, host@)
                    && !Engine::spec_kh_has_pair(entries, host@, key@))
                &&& r == CheckResult::NotFound <==> !Engine::spec_kh_has_host(entries, host@)
            }),
    {
        self.check_port_(cell, host, -1, key)
    }

    /// Same as `check`, but takes a port as well. The double keys its
    /// entries by plain host name, so the port does not alter the result.
    pub fn check_port(&self, cell: &SessionCell, host: &str, port: u16, key: &str) -> (r: CheckResult)
        requires
            self.wf(*cell),
        ensures
            ({
                let entries = cell.engine.knownhosts@[self.spec_id()].entries@;
                &&& r == CheckResult::Match <==> Engine::spec_kh_has_pair(entries, host@, key@)
                &&& r == CheckResult::Mismatch <==> (Engine::spec_kh_has_host(entries, host@)
                    && !Engine::spec_kh_has_pair(entries, host@, key@))
                &&& r == CheckResult::NotFound <==> !Engine::spec_kh_has_host(entries, host@)
            }),
    {
        self.check_port_(cell, host, port as i32, key)
    }

    /// Shared body of the checks.
    fn check_port_(&self, cell: &SessionCell, host: &str, port: i32, key: &str) -> (r: CheckResult)
        requires
            self.wf(*cell),
        ensures
            ({
                let entries = cell.engine.knownhosts@[self.spec_id()].entries@;
                &&& r == CheckResult::Match <==> Engine::spec_kh_has_pair(entries, host@, key@)
                &&& r == CheckResult::Mismatch <==> (Engine::spec_kh_has_host(entries, host@)
                    && !Engine::spec_kh_has_pair(entries, host@, key@))
                &&& r == CheckResult::NotFound <==> !Engine::spec_kh_has_host(entries, host@)
            }),
    {
        let _ = port;
        let h = host.to_owned();
        let k = key.to_owned();
        let code = cell.engine.knownhost_checkp(self.id, &h, &k);
        if code == 0 {
            CheckResult::Match
        } else if code == 1 {
            CheckResult::Mismatch
        } else {
            CheckResult::NotFound
        }
    }

    /// Convert a single known host to one line of output for storage,
    /// growing the buffer to the size the engine reports when the first
    /// attempt does not fit.
    ///
    /// Succeeds exactly when the collection holds an entry matching the
    /// host by name and key; the line is then that entry's name and key,
    /// separated by one space. A host not in the collection is the "bad
    /// use" error.
    pub fn write_string(&self, cell: &SessionCell, host: &Host, kind: KnownHostFileKind) -> (r: Result<String, Error>)
        requires
            self.wf(*cell),
        ensures
            ({
                let entries = cell.engine.knownhosts@[self.spec_id()].entries@;
                &&& r is Ok <==> exists|k: int|
                    0 <= k < entries.len() && spec_entry_matches(#[trigger] entries[k], *host)
                &&& (r matches Ok(line) ==> line@ == host.spec_name().unwrap() + " "@
                    + host.spec_key())
                &&& (r matches Err(e) ==> e.spec_code() == ErrorCode::Session(ERROR_BAD_USE)
                    && e.spec_message() == "Host is not in the set of known hosts"@)
            }),
    {
        let _ = kind;
        let k = match self.resolve_to_raw_host(cell, host) {
            Some(k) => k,
            None => {
                proof {
                    let entries = cell.engine.knownhosts@[self.spec_id()].entries@;
                    assert(forall|j: int|
                        0 <= j < entries.len() ==> !spec_entry_matches(
                            #[trigger] entries[j],
                            *host,
                        ));
                }
                return Err(
                    Error::new(
                        ErrorCode::Session(ERROR_BAD_USE),
                        "Host is not in the set of known hosts",
                    ),
                );
            }
        };
        let mut cap: usize = 128;
        loop
            invariant
                self.wf(*cell),
                k < cell.engine.knownhosts@[self.spec_id()].entries@.len(),
                spec_entry_matches(
                    cell.engine.knownhosts@[self.spec_id()].entries@[k as int],
                    *host,
                ),
            decreases ({
                let e = cell.engine.knownhosts@[self.spec_id()].entries@[k as int];
                let line_len = (match e.name {
                    Some(n) => n@,
                    None => Seq::<char>::empty(),
                }).len() + 1 + e.key@.len();
                if line_len >= cap {
                    line_len + 1 - cap
                } else {
                    0int
                }
            }),
        {
            proof {
                reveal_strlit(" ");
            }
            match cell.engine.knownhost_writeline(self.id, k, cap) {
                Ok(line) => {
                    proof {
                        let entries = cell.engine.knownhosts@[self.spec_id()].entries@;
                        assert(spec_entry_matches(entries[k as int], *host));
                        assert(line@ == host.spec_name().unwrap() + " "@ + host.spec_key());
                    }
                    return Ok(line);
                }
                Err((_code, needed)) => {
                    if needed < usize::MAX {
                        cap = needed + 1;
                    } else {
                        cap = usize::MAX;
                    }
                }
            }
        }
    }

    /// Retire this handle: release the engine's collection and drop the
    /// counted reference on the cell.
    pub fn dispose(self, cell: &mut SessionCell)
        requires
            self.wf(*old(cell)),
        ensures
            final(cell).wf(),
            final(cell).refs == old(cell).refs - 1,
            (final(cell).engine_alive <==> final(cell).refs > 0),
            !final(cell).engine.knownhosts@[self.spec_id()].alive,
            final(cell).engine == (Engine {
                knownhosts: final(cell).engine.knownhosts,
                ..old(cell).engine
            }),
            *final(cell) == (SessionCell {
                engine: final(cell).engine,
                refs: final(cell).refs,
                engine_alive: final(cell).engine_alive,
                ..*old(cell)
            }),
    {
        cell.engine.knownhost_free(self.id);
        cell.refs = cell.refs - 1;
        if cell.refs == 0 {
            cell.engine_alive = false;
        }
    }
}

} // verus!
