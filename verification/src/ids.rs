//! Panel identifiers are UUIDs carried as `u128` values; the textual form
//! used inside component identifiers is handled by the `uuid` crate.
use vstd::prelude::*;

verus! {

/// What `uuid::Uuid::parse_str` yields on a given string: the 128-bit value,
/// or nothing when the string is not a textual UUID.
pub uninterp spec fn uuid_parse_spec(s: Seq<char>) -> Option<u128>;

/// The hyphenated rendering of a 128-bit UUID value.
pub uninterp spec fn uuid_str_spec(u: u128) -> Seq<char>;

/// Relies on `uuid::Uuid::parse_str`: a deterministic parse of a textual
/// UUID, yielding nothing exactly on strings that are not one.
#[verifier::external_body]
pub fn uuid_parse(s: &str) -> (r: Option<u128>)
    ensures
        r == uuid_parse_spec(s@),
{
    match uuid::Uuid::parse_str(s) {
        Ok(u) => Some(u.as_u128()),
        Err(_) => None,
    }
}

/// Relies on `uuid::fmt::Hyphenated`: 36 characters of lowercase hex and
/// hyphens (so never a colon), and `uuid::Uuid::parse_str` accepts that
/// rendering and returns the same value.
#[verifier::external_body]
pub fn uuid_to_string(u: u128) -> (r: String)
    ensures
        r@ == uuid_str_spec(u),
        r@.len() == 36,
        forall|i: int| 0 <= i < r@.len() ==> r@[i] != ':',
        uuid_parse_spec(r@) == Some(u),
{
    uuid::Uuid::from_u128(u).hyphenated().to_string()
}

} // verus!
