//! Trusted boundary to the process-wide interning store (the `ustr` crate).
//!
//! The store deduplicates text: distinct text values map to distinct small
//! handles, equal text to the same handle, and every handle stays valid for
//! the life of the process. Everything the library knows of a handle is what
//! the contracts here say about [`interned_text`].

use vstd::prelude::*;

use core::cmp::Ordering;

use crate::order::lex_cmp;

verus! {

#[verifier::external_type_specification]
#[verifier::external_body]
pub struct ExUstr(ustr::Ustr);

/// The text a handle stands for in the process-wide interning store.
pub uninterp spec fn interned_text(u: ustr::Ustr) -> Seq<char>;

/// The hash the interning store computed and cached for a handle's entry
/// when its text was first interned. It is a fixed part of the entry, but
/// only stable within one process run, so no contract relates it to the
/// text itself.
pub uninterp spec fn interned_hash(u: ustr::Ustr) -> u64;

/// Relies on `Ustr::from`: it stores exactly the given text and returns a
/// handle standing for it, deduplicated — creating handles from the same
/// string always yields the identical handle.
#[verifier::external_body]
pub(crate) fn intern(s: &str) -> (u: ustr::Ustr)
    ensures
        interned_text(u) == s@,
        forall|v: ustr::Ustr| #[trigger] interned_text(v) == s@ ==> v == u,
{
    ustr::Ustr::from(s)
}

/// Relies on `Ustr::as_str`: it returns the stored text unchanged.
#[verifier::external_body]
pub(crate) fn resolve(u: &ustr::Ustr) -> (r: &str)
    ensures
        r@ == interned_text(*u),
{
    u.as_str()
}

/// Relies on `Ustr`'s `PartialEq` (pointer comparison) together with the
/// store's deduplication: two handles are equal exactly when they stand
/// for the same text.
#[verifier::external_body]
pub(crate) fn handle_eq(a: &ustr::Ustr, b: &ustr::Ustr) -> (r: bool)
    ensures
        r == (interned_text(*a) == interned_text(*b)),
{
    a == b
}

/// Relies on `Ustr`'s `Ord`: it compares the stored texts as `str`,
/// byte-lexicographically over their UTF-8 encodings, which orders pairs
/// of texts exactly as `lex_cmp` orders their character sequences.
#[verifier::external_body]
pub(crate) fn handle_cmp(a: &ustr::Ustr, b: &ustr::Ustr) -> (r: Ordering)
    ensures
        r == lex_cmp(interned_text(*a), interned_text(*b)),
{
    a.cmp(b)
}

} // verus!
