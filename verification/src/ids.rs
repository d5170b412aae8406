//! Identifier primitives: parsing, formatting and generation of the
//! 128-bit identifiers, through the `uuid` crate.

use vstd::prelude::*;

verus! {

/// The identifier encoded by a string, if any: the result of UUID parsing
/// (hexadecimal digits with optional hyphens), which depends on the
/// characters of the string alone.
pub uninterp spec fn parsed_uuid(s: Seq<char>) -> Option<u128>;

/// The canonical string form of an identifier (hyphenated, lower-case
/// hexadecimal), which depends on the identifier alone.
pub uninterp spec fn uuid_str(id: u128) -> Seq<char>;

/// Relies on uuid::Uuid::parse_str and Uuid::as_u128: parsing is a pure
/// function of the input string, and `as_u128` reads the 16 parsed bytes
/// back as one 128-bit value.
#[verifier::external_body]
pub fn parse_uuid(s: &str) -> (r: Option<u128>)
    ensures
        r == parsed_uuid(s@),
{
    match uuid::Uuid::parse_str(s) {
        Ok(u) => Some(u.as_u128()),
        Err(_) => None,
    }
}

/// Relies on uuid::Uuid::from_u128 and the Display impl of uuid::Uuid:
/// formatting is a pure function of the 128-bit value.
#[verifier::external_body]
pub fn uuid_string(id: u128) -> (r: String)
    ensures
        r@ == uuid_str(id),
{
    uuid::Uuid::from_u128(id).to_string()
}

/// Relies on uuid::Uuid::new_v4: a freshly drawn random identifier.
/// Nothing can be promised of a random value, so no clause states one.
/// The call can panic only on a broken environment (the operating
/// system's random source failing).
#[verifier::external_body]
pub fn fresh_uuid() -> u128 {
    uuid::Uuid::new_v4().as_u128()
}

} // verus!
