//! A fixed version identifier, exposed read-only to callers.
//!
//! The library owns a single value: the version string of the core, in
//! `MAJOR.MINOR.PATCH` form. It is fixed at build time, never mutated and
//! never absent. `sf_core_full_version` hands out a borrowed view of it;
//! `sf_core_full_version_c_bytes` gives the same value in null-terminated
//! byte form, for a caller that feeds a C-style string consumer.

use vstd::prelude::*;

verus! {

/// The version identifier of the core, as a sequence of characters.
pub open spec fn full_version_spec() -> Seq<char> {
    "0.0.1"@
}

/// The version identifier in C form: each character as one byte, followed
/// by a single terminating zero byte.
pub open spec fn full_version_c_bytes_spec() -> Seq<u8> {
    full_version_spec().map_values(|c: char| c as u8).push(0u8)
}

/// Returns the full version string of the core.
///
/// The result is a borrowed view of fixed, immutable data: every call, from
/// any caller, returns the same non-empty string, and nothing is allocated
/// on the caller's behalf.
pub fn sf_core_full_version() -> (s: &'static str)
    ensures
        s@ == full_version_spec(),
        s@.len() > 0,
{
    proof {
        reveal_strlit("0.0.1");
    }
    "0.0.1"
}

/// Returns the version string in null-terminated byte form.
///
/// The bytes are the version's characters one byte each, then one zero
/// byte, so a C-style consumer that stops at the first zero reads exactly
/// the version string.
pub fn sf_core_full_version_c_bytes() -> (b: Vec<u8>)
    ensures
        b@ == full_version_c_bytes_spec(),
        b@.len() > 0,
{
    let mut b: Vec<u8> = Vec::new();
    b.push(48);
    b.push(46);
    b.push(48);
    b.push(46);
    b.push(49);
    b.push(0);
    proof {
        reveal_strlit("0.0.1");
        assert(b@ =~= full_version_c_bytes_spec());
    }
    b
}

/// Referential stability: the version is one process-wide immutable value,
/// so any two results of `sf_core_full_version` are byte-for-byte identical.
pub proof fn lemma_full_version_stable(s1: Seq<char>, s2: Seq<char>)
    requires
        s1 == full_version_spec(),
        s2 == full_version_spec(),
    ensures
        s1 == s2,
{
}

/// The C byte form decodes to the version string: it is exactly one byte
/// per character plus the terminator, the terminator is the only zero byte,
/// and the decoded string is non-empty.
pub proof fn lemma_c_bytes_decode()
    ensures
        full_version_spec().len() > 0,
        full_version_c_bytes_spec().len() == full_version_spec().len() + 1,
        full_version_c_bytes_spec().last() == 0u8,
        forall|i: int|
            0 <= i < full_version_spec().len() ==> full_version_c_bytes_spec()[i]
                == full_version_spec()[i] as u8,
        forall|i: int|
            0 <= i < full_version_spec().len() ==> full_version_c_bytes_spec()[i] != 0u8,
{
    reveal_strlit("0.0.1");
}

} // verus!
