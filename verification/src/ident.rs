//! The identifier generator: 128-bit, time-sortable, collision-resistant
//! session identifiers with a fixed-length printable rendering.
//!
//! An identifier string that does not decode behaves exactly like one that
//! is not present in the store, so decoding yields an `Option` and no
//! distinct error class.

use vstd::prelude::*;

verus! {

/// The canonical 26-character rendering of an identifier, as the ulid
/// crate's `to_string` produces it. Left uninterpreted: a function of the
/// identifier value alone.
pub uninterp spec fn id_str_of(id: u128) -> Seq<char>;

/// What the ulid crate's `from_string` decodes a candidate identifier
/// string to, if anything. Left uninterpreted: a function of the string
/// alone.
pub uninterp spec fn parsed_id_of(s: Seq<char>) -> Option<u128>;

/// Relies on `ulid::Ulid::generate`: a fresh identifier drawn from the
/// clock and a random source. Nothing is promised of the value; every
/// caller must cope with whatever comes back.
#[verifier::external_body]
pub fn fresh_id() -> u128 {
    ulid::Ulid::generate().0
}

/// Relies on `ulid::Ulid::to_string`: the canonical 26-character
/// rendering, determined by the value alone, which ulid documents
/// `from_string` to decode back to the same value.
#[verifier::external_body]
pub fn format_id(id: u128) -> (r: String)
    ensures
        r@ == id_str_of(id),
        r@.len() == 26,
        parsed_id_of(r@) == Some(id),
{
    ulid::Ulid(id).to_string()
}

/// Relies on `ulid::Ulid::from_string`: whether a candidate identifier
/// string decodes, and to what value, depends on the string alone.
#[verifier::external_body]
pub fn parse_id(s: &str) -> (r: Option<u128>)
    ensures
        r == parsed_id_of(s@),
{
    match ulid::Ulid::from_string(s) {
        Ok(u) => Some(u.0),
        Err(_) => None,
    }
}

} // verus!
