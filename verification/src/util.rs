//! Marshalling helpers: NUL checking for strings and paths, byte copying,
//! and the grow-and-retry capacity discipline for fixed-buffer native
//! calls.

use vstd::prelude::*;
use vstd::string::StringSliceAdditionalSpecFns;
use crate::error::{Error, ErrorCode, ERROR_INVAL};

verus! {

/// Reject a byte string that holds an embedded NUL; such a value cannot be
/// handed to the engine, which works with NUL-terminated buffers.
///
/// Returns the input unchanged when it is clean.
pub fn check(b: Vec<u8>) -> (r: Result<Vec<u8>, Error>)
    ensures
        r is Ok <==> !b@.contains(0u8),
        r matches Ok(v) ==> v == b,
        r matches Err(e) ==> e.spec_code() == ErrorCode::Session(ERROR_INVAL)
            && e.spec_message() == "path provided contains a 0 byte"@,
{
    let mut i: usize = 0;
    while i < b.len()
        invariant
            i <= b@.len(),
            forall|j: int| 0 <= j < i ==> b@[j] != 0u8,
        decreases b@.len() - i,
    {
        if b[i] == 0u8 {
            assert(b@.contains(0u8));
            return Err(Error::new(
                ErrorCode::Session(ERROR_INVAL),
                "path provided contains a 0 byte",
            ));
        }
        i = i + 1;
    }
    assert(forall|j: int| 0 <= j < b@.len() ==> b@[j] != 0u8);
    Ok(b)
}

/// The error raised when a supplied string holds an embedded NUL byte.
pub open spec fn spec_is_nul_error(e: Error) -> bool {
    e.spec_code() == ErrorCode::Session(ERROR_INVAL) && e.spec_message()
        == "provided data contained a nul byte and could not be used as as string"@
}

/// The error raised when a supplied path holds an embedded NUL byte.
pub open spec fn spec_is_path_nul_error(e: Error) -> bool {
    e.spec_code() == ErrorCode::Session(ERROR_INVAL) && e.spec_message()
        == "path provided contains a 0 byte"@
}

/// Marshal a host string for the engine: refuse embedded NUL bytes and hand
/// back the owned byte form.
pub(crate) fn str_to_c_bytes(s: &str) -> (r: Result<Vec<u8>, Error>)
    ensures
        r is Ok <==> !s.spec_bytes().contains(0u8),
        r matches Ok(v) ==> v@ == s.spec_bytes(),
        r matches Err(e) ==> spec_is_nul_error(e),
{
    let bytes = s.as_bytes();
    let mut i: usize = 0;
    while i < bytes.len()
        invariant
            i <= bytes@.len(),
            bytes@ == s.spec_bytes(),
            forall|j: int| 0 <= j < i ==> bytes@[j] != 0u8,
        decreases bytes@.len() - i,
    {
        if bytes[i] == 0u8 {
            assert(s.spec_bytes().contains(0u8));
            return Err(Error::new(
                ErrorCode::Session(ERROR_INVAL),
                "provided data contained a nul byte and could not be used as as string",
            ));
        }
        i = i + 1;
    }
    assert(forall|j: int| 0 <= j < s.spec_bytes().len() ==> s.spec_bytes()[j] != 0u8);
    Ok(copy_bytes(bytes))
}

/// Convert a path to the byte form handed to the engine: refuse embedded
/// NUL bytes and hand the bytes over unchanged.
///
/// Directory separators are not rewritten: on this platform the native
/// separator and the protocol's `/` coincide, and a backslash is an
/// ordinary filename byte that must survive the crossing untouched.
pub fn path2bytes(p: &[u8]) -> (r: Result<Vec<u8>, Error>)
    ensures
        r is Ok <==> !p@.contains(0u8),
        r matches Ok(v) ==> v@ == p@,
        r matches Err(e) ==> spec_is_path_nul_error(e),
{
    let mut out: Vec<u8> = Vec::new();
    let mut i: usize = 0;
    while i < p.len()
        invariant
            i <= p@.len(),
            out@ == p@.subrange(0, i as int),
            forall|j: int| 0 <= j < i ==> p@[j] != 0u8,
        decreases p@.len() - i,
    {
        let b = p[i];
        if b == 0u8 {
            assert(p@.contains(0u8));
            return Err(Error::new(
                ErrorCode::Session(ERROR_INVAL),
                "path provided contains a 0 byte",
            ));
        }
        out.push(b);
        assert(out@ =~= p@.subrange(0, i + 1 as int));
        i = i + 1;
    }
    assert(forall|j: int| 0 <= j < p@.len() ==> p@[j] != 0u8);
    assert(out@ =~= p@);
    Ok(out)
}

/// Bridge for string literals and other ASCII strings: a string of ASCII
/// characters none of which is the NUL character has no NUL byte in its
/// byte form, so it passes the marshalling checks. Callers discharge the
/// hypotheses for a literal with `reveal_strlit`.
pub proof fn lemma_ascii_nul_free(s: &str)
    requires
        vstd::string::is_ascii(s),
        forall|i: int| 0 <= i < s@.len() ==> s@[i] != '\0',
    ensures
        !s.spec_bytes().contains(0u8),
{
    broadcast use vstd::utf8::is_ascii_chars_encode_utf8;

    assert(s.spec_bytes().len() == s@.len());
    assert forall|i: int| 0 <= i < s.spec_bytes().len() implies s.spec_bytes()[i] != 0u8 by {
        assert(s@[i] as u8 == s.spec_bytes()[i]);
        assert('\0' <= s@[i] <= '\u{7f}');
        assert(s@[i] != '\0');
    }
    if s.spec_bytes().contains(0u8) {
        let i = choose|i: int| 0 <= i < s.spec_bytes().len() && s.spec_bytes()[i] == 0u8;
        assert(false);
    }
}

/// Copy a byte slice into an owned vector.
pub(crate) fn copy_bytes(v: &[u8]) -> (r: Vec<u8>)
    ensures
        r@ == v@,
{
    let mut out: Vec<u8> = Vec::new();
    let mut i: usize = 0;
    while i < v.len()
        invariant
            i <= v@.len(),
            out@ == v@.subrange(0, i as int),
        decreases v@.len() - i,
    {
        out.push(v[i]);
        assert(out@ =~= v@.subrange(0, i + 1 as int));
        i = i + 1;
    }
    assert(out@ =~= v@);
    out
}

/// Copy `n` bytes of a slice starting at `start`.
pub(crate) fn copy_range(v: &[u8], start: usize, n: usize) -> (r: Vec<u8>)
    requires
        start + n <= v@.len(),
    ensures
        r@ == v@.subrange(start as int, start as int + n as int),
{
    let vlen: usize = v.len();
    assert(start + n <= vlen);
    let mut out: Vec<u8> = Vec::new();
    let mut i: usize = 0;
    while i < n
        invariant
            i <= n,
            start + n <= v@.len(),
            v@.len() == vlen,
            out@ == v@.subrange(start as int, start as int + i as int),
        decreases n - i,
    {
        out.push(v[start + i]);
        assert(out@ =~= v@.subrange(start as int, start as int + (i + 1) as int));
        i = i + 1;
    }
    out
}

/// The number of fixed-buffer attempts the doubling discipline makes before
/// a result of size `needed` fits, starting from capacity `initial`: the
/// logarithmic retry budget of the grow-and-retry loops.
pub open spec fn spec_retry_budget(initial: nat, needed: nat) -> nat
    decreases (if initial >= needed {
        0int
    } else {
        needed - initial
    }),
{
    if initial == 0 || initial >= needed {
        1
    } else {
        1 + spec_retry_budget(2 * initial, needed)
    }
}

/// The budget always allows at least one attempt.
pub proof fn lemma_retry_budget_pos(initial: nat, needed: nat)
    ensures
        spec_retry_budget(initial, needed) >= 1,
{
}

/// A larger starting capacity never needs more attempts.
pub proof fn lemma_retry_budget_mono(i1: nat, i2: nat, needed: nat)
    requires
        1 <= i1 <= i2,
    ensures
        spec_retry_budget(i2, needed) <= spec_retry_budget(i1, needed),
    decreases (if i1 >= needed {
        0int
    } else {
        needed - i1
    }),
{
    if i1 < needed && i2 < needed {
        lemma_retry_budget_mono(2 * i1, 2 * i2, needed);
    }
}

/// The retry budget is exactly one more than the base-two logarithm of the
/// growth ratio: the capacity after the budgeted attempts covers the needed
/// size, and one attempt fewer would not.
pub proof fn lemma_retry_budget_is_log(initial: nat, needed: nat)
    requires
        1 <= initial,
    ensures
        initial * pow2((spec_retry_budget(initial, needed) - 1) as nat) >= needed,
        spec_retry_budget(initial, needed) > 1 ==> initial * pow2(
            (spec_retry_budget(initial, needed) - 2) as nat,
        ) < needed,
    decreases (if initial >= needed {
        0int
    } else {
        needed - initial
    }),
{
    let b = spec_retry_budget(initial, needed);
    if initial >= needed {
        assert(b == 1);
        assert(pow2(0) == 1);
        assert(initial * 1 >= needed) by (nonlinear_arith)
            requires initial >= needed;
    } else {
        lemma_retry_budget_is_log(2 * initial, needed);
        let b2 = spec_retry_budget(2 * initial, needed);
        assert(b == 1 + b2);
        assert(pow2((b - 1) as nat) == 2 * pow2((b - 2) as nat));
        assert(initial * (2 * pow2((b2 - 1) as nat)) == (2 * initial) * pow2((b2 - 1) as nat))
            by (nonlinear_arith);
        if b2 == 1 {
            assert(pow2((b - 2) as nat) == 1);
            assert(initial * 1 == initial) by (nonlinear_arith);
        } else {
            assert(pow2((b2 - 1) as nat) == 2 * pow2((b2 - 2) as nat));
            assert(initial * (2 * pow2((b2 - 2) as nat)) == (2 * initial) * pow2(
                (b2 - 2) as nat,
            )) by (nonlinear_arith);
        }
    }
}

/// Two to the power `n`.
pub open spec fn pow2(n: nat) -> nat
    decreases n,
{
    if n == 0 {
        1
    } else {
        2 * pow2((n - 1) as nat)
    }
}

/// `base`, doubled `n` times.
pub open spec fn spec_doubled(base: nat, n: nat) -> nat
    decreases n,
{
    if n == 0 {
        base
    } else {
        2 * spec_doubled(base, (n - 1) as nat)
    }
}

/// Doubling `n` times multiplies by the `n`-th power of two.
pub proof fn lemma_doubled_is_pow2(base: nat, n: nat)
    ensures
        spec_doubled(base, n) == base * pow2(n),
    decreases n,
{
    if n == 0 {
        assert(base * 1 == base) by (nonlinear_arith);
    } else {
        lemma_doubled_is_pow2(base, (n - 1) as nat);
        assert(base * (2 * pow2((n - 1) as nat)) == 2 * (base * pow2((n - 1) as nat)))
            by (nonlinear_arith);
    }
}

/// The grow-and-retry capacity discipline, run to convergence.
///
/// A native call that writes into a caller-sized buffer reports "buffer too
/// small" while the capacity is below `needed`; the caller must grow the
/// buffer and retry rather than truncate. Starting from `initial`, each
/// retry doubles the capacity. The result is the final capacity together
/// with the number of calls made.
///
/// The contract is the convergence bound: the loop always finishes, the
/// final capacity suffices and loses nothing, and the number of calls is
/// exactly the logarithmic retry budget [`spec_retry_budget`] - the
/// capacity after `calls` calls is exactly `initial * pow2(calls - 1)`,
/// and unless the first call already fit, the final capacity is below
/// twice `needed`, so no retry is wasted.
pub fn grow_to_fit(initial: usize, needed: usize) -> (r: (usize, usize))
    requires
        1 <= initial,
        needed <= usize::MAX / 2,
    ensures
        r.0 >= needed,
        r.1 >= 1,
        r.0 as nat == initial as nat * pow2((r.1 - 1) as nat),
        r.1 > 1 ==> r.0 < 2 * needed,
        initial >= needed ==> r == (initial, 1usize),
        r.1 == spec_retry_budget(initial as nat, needed as nat),
{
    let mut cap: usize = initial;
    let mut calls: usize = 1;
    while cap < needed
        invariant
            needed <= usize::MAX / 2,
            1 <= calls,
            calls - 1 <= cap,
            cap as nat == spec_doubled(initial as nat, (calls - 1) as nat),
            calls > 1 ==> cap < 2 * needed,
            cap >= 1,
            initial >= needed ==> cap == initial && calls == 1,
            calls + spec_retry_budget(cap as nat, needed as nat) == 1 + spec_retry_budget(
                initial as nat,
                needed as nat,
            ),
        decreases 2 * needed - cap,
    {
        cap = cap * 2;
        calls = calls + 1;
    }
    proof {
        lemma_doubled_is_pow2(initial as nat, (calls - 1) as nat);
    }
    (cap, calls)
}

} // verus!
