//! Aggregate identities: 128-bit, UUID-shaped values, parsed once at the
//! pipeline's edge from caller-supplied text and carried as plain integers
//! everywhere else.

use vstd::prelude::*;

verus! {

/// What the uuid parser denotes: the 128-bit value a well-formed textual
/// identity names, read big-endian from its hexadecimal digits, or `None`
/// where the text is malformed. The value depends on the characters alone.
pub uninterp spec fn uuid_of(s: Seq<char>) -> Option<u128>;

/// Relies on `uuid::Uuid::parse_str`, which accepts a string of hexadecimal
/// digits with optional hyphens (simple, hyphenated, urn and GUID forms), and
/// on `uuid::Uuid::as_u128`, the big-endian reading of the parsed bytes.
#[verifier::external_body]
pub(crate) fn parse_aggregate_id(s: &str) -> (r: Option<u128>)
    ensures
        r == uuid_of(s@),
{
    match uuid::Uuid::parse_str(s) {
        Ok(u) => Some(u.as_u128()),
        Err(_) => None,
    }
}

} // verus!
