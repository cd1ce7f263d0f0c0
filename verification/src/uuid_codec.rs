//! Service UUIDs, carried as their 128-bit value and converted to and
//! from their string spelling by the `uuid` crate.

use vstd::prelude::*;

verus! {

/// The value a UUID string parses to, or none when the string is not a
/// UUID spelling (hyphenated, simple, urn or braced form).
pub uninterp spec fn parsed_uuid(s: Seq<char>) -> Option<u128>;

/// The hyphenated lower-case spelling of a 128-bit UUID value.
pub uninterp spec fn uuid_string_of(u: u128) -> Seq<char>;

/// Relies on uuid::Uuid::parse_str: whether a string parses, and to
/// which value, depends on the string alone.
#[verifier::external_body]
pub fn parse_uuid(s: &str) -> (r: Option<u128>)
    ensures
        r == parsed_uuid(s@),
{
    match uuid::Uuid::parse_str(s) {
        Ok(u) => Some(u.as_u128()),
        Err(_) => None,
    }
}

/// Relies on uuid::Uuid's display form: the hyphenated spelling of the
/// value, thirty-six characters, depending on the value alone.
#[verifier::external_body]
pub fn format_uuid(u: u128) -> (r: String)
    ensures
        r@ == uuid_string_of(u),
        r@.len() == 36,
{
    uuid::Uuid::from_u128(u).to_string()
}

} // verus!
