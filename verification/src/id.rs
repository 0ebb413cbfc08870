//! User identifiers: 128-bit UUIDs, made and parsed by the `uuid` crate.

use vstd::prelude::*;

verus! {

/// The bits of a UUID that hold its version and its variant.
pub const VERSION_VARIANT_MASK: u128 = 0x0000_0000_0000_f000_c000_0000_0000_0000u128;

/// What those bits hold in a random (version 4) UUID of the RFC variant.
pub const RANDOM_MARK: u128 = 0x0000_0000_0000_4000_8000_0000_0000_0000u128;

/// The identifier of a user: the 128 bits of a UUID, most significant byte first.
#[derive(Clone, Copy, Debug, PartialEq, Eq, Hash, Structural)]
pub struct UserId(pub u128);

/// What `uuid::Uuid::parse_str` makes of a text: the bits of the UUID it
/// reads, or `None` where it reports an error.
pub uninterp spec fn uuid_parse_str(text: Seq<char>) -> Option<u128>;

/// Calls `uuid::Uuid::new_v4`. Its source masks the random bits so that the
/// version is 4 and the variant is the RFC one; of the other 122 bits nothing
/// is known.
#[verifier::external_body]
fn new_v4() -> (bits: u128)
    ensures
        bits & VERSION_VARIANT_MASK == RANDOM_MARK,
{
    uuid::Uuid::new_v4().as_u128()
}

/// Calls `uuid::Uuid::parse_str`, which depends on the text alone, and hands
/// out the bits of the UUID it read.
#[verifier::external_body]
fn parse_str(text: &str) -> (parsed: Option<u128>)
    ensures
        parsed == uuid_parse_str(text@),
{
    match uuid::Uuid::parse_str(text) {
        Ok(uuid) => Some(uuid.as_u128()),
        Err(_) => None,
    }
}

impl UserId {
    /// Whether the identifier has the shape of a random UUID.
    pub open spec fn is_random(self) -> bool {
        self.0 & VERSION_VARIANT_MASK == RANDOM_MARK
    }

    /// The identifier that a text stands for, if it stands for one.
    pub open spec fn parsed(text: Seq<char>) -> Option<UserId> {
        match uuid_parse_str(text) {
            Some(bits) => Some(UserId(bits)),
            None => None,
        }
    }

    /// The identifier with the given bits.
    pub fn from_bits(bits: u128) -> (id: UserId)
        ensures
            id == UserId(bits),
    {
        UserId(bits)
    }

    /// The bits of the identifier.
    pub fn bits(self) -> (bits: u128)
        ensures
            bits == self.0,
    {
        self.0
    }

    /// A new random identifier.
    pub fn generate() -> (id: UserId)
        ensures
            id.is_random(),
    {
        UserId::from_bits(new_v4())
    }

    /// Reads an identifier from a segment of a request path. `None` means
    /// that the segment is no UUID, and the request reaches no operation.
    pub fn parse(text: &str) -> (id: Option<UserId>)
        ensures
            id == UserId::parsed(text@),
    {
        match parse_str(text) {
            Some(bits) => Some(UserId::from_bits(bits)),
            None => None,
        }
    }
}

} // verus!
