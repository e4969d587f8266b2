//! User identifiers: made and read by the `uuid` crate.

use vstd::prelude::*;
use crate::model::UserId;

verus! {

/// The 128 bits that `uuid` reads from a text, or `None` where it rejects
/// the text.
pub uninterp spec fn uuid_parse(text: Seq<char>) -> Option<u128>;

/// The identifier with the given bits, where there are any.
pub open spec fn id_of(bits: Option<u128>) -> Option<UserId> {
    match bits {
        Some(value) => Some(UserId { value }),
        None => None,
    }
}

/// The bits that every version 4 UUID of the RFC variant has in common: the
/// version nibble is 4 and the two variant bits are `10`.
pub open spec fn is_random_uuid(value: u128) -> bool {
    value & 0x0000_0000_0000_F000_C000_0000_0000_0000u128
        == 0x0000_0000_0000_4000_8000_0000_0000_0000u128
}

/// Trusted: calls `uuid::Uuid::parse_str` and hands out the bits of the UUID
/// it read (`Uuid::as_u128`). The contract only gives the outcome its name:
/// the same text is read the same way every time.
#[verifier::external_body]
pub(crate) fn parse_uuid(text: &str) -> (parsed: Option<UserId>)
    ensures
        parsed == id_of(uuid_parse(text@)),
{
    match uuid::Uuid::parse_str(text) {
        Ok(uuid) => Some(UserId { value: uuid.as_u128() }),
        Err(_) => None,
    }
}

/// Trusted: calls `uuid::Uuid::new_v4` and hands out its bits
/// (`Uuid::as_u128`). The bits are random but for the version and the
/// variant, which `new_v4` sets; nothing else is claimed of them. The call
/// panics if the operating system cannot supply random bytes.
#[verifier::external_body]
pub(crate) fn random_uuid() -> (id: UserId)
    ensures
        is_random_uuid(id.value),
{
    UserId { value: uuid::Uuid::new_v4().as_u128() }
}

impl UserId {
    /// Reads an identifier from its text form. Returns `None` exactly where
    /// the text is no UUID.
    pub fn parse(text: &str) -> (parsed: Option<UserId>)
        ensures
            parsed == id_of(uuid_parse(text@)),
    {
        parse_uuid(text)
    }

    /// A new random identifier.
    pub fn generate() -> (id: UserId)
        ensures
            is_random_uuid(id.value),
    {
        random_uuid()
    }
}

} // verus!
