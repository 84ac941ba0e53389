use vstd::prelude::*;
use vstd::string::*;

verus! {

/// What `uuid::Uuid::parse_str` makes of a text: the identifier's 128 bits,
/// most significant byte first, or `None` where the text is refused.
pub uninterp spec fn uuid_parse_str(text: Seq<char>) -> Option<u128>;

/// The number of characters of an identifier in canonical form: 32
/// hexadecimal digits in groups of 8, 4, 4, 4 and 12, with a hyphen between
/// two groups.
pub const CANONICAL_LEN: usize = 36;

/// The identifier that a path segment stands for. Only a text of the
/// canonical length is looked at.
pub open spec fn parsed_id(text: Seq<char>) -> Option<u128> {
    if text.len() == CANONICAL_LEN {
        uuid_parse_str(text)
    } else {
        None
    }
}

/// The version and variant bits of an identifier.
pub open spec fn version_bits(id: u128) -> u128 {
    id & 0x0000_0000_0000_F000_C000_0000_0000_0000u128
}

/// Those bits as every randomly generated identifier has them: version 4,
/// variant 10.
pub open spec fn is_random_id(id: u128) -> bool {
    version_bits(id) == 0x0000_0000_0000_4000_8000_0000_0000_0000u128
}

/// Calls `uuid::Uuid::parse_str` and hands back the value of `Uuid::as_u128`,
/// or `None` for any error. The result is a function of the text alone.
#[verifier::external_body]
pub(crate) fn uuid_from_text(text: &str) -> (id: Option<u128>)
    ensures
        id == uuid_parse_str(text@),
{
    match uuid::Uuid::parse_str(text) {
        Ok(parsed) => Some(parsed.as_u128()),
        Err(_) => None,
    }
}

/// Calls `uuid::Uuid::new_v4` and hands back the value of `Uuid::as_u128`.
/// The 122 random bits are left open; the version and variant bits are the
/// ones that `new_v4` sets.
#[verifier::external_body]
pub(crate) fn random_id() -> (id: u128)
    ensures
        is_random_id(id),
{
    uuid::Uuid::new_v4().as_u128()
}

/// Reads an identifier from a path segment.
pub fn parse_id(text: &str) -> (id: Option<u128>)
    ensures
        id == parsed_id(text@),
{
    if text.unicode_len() == CANONICAL_LEN {
        uuid_from_text(text)
    } else {
        None
    }
}

/// Whether an identifier carries the version and variant of a random one.
pub fn has_random_version(id: u128) -> (b: bool)
    ensures
        b == is_random_id(id),
{
    id & 0x0000_0000_0000_F000_C000_0000_0000_0000u128
        == 0x0000_0000_0000_4000_8000_0000_0000_0000u128
}

} // verus!
