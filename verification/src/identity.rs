//! A player's identity as the store keys it.
//!
//! A player is known by a UUID, held here as its 128 bits with the most
//! significant first. The store keys its rows by the text of the UUID, which
//! the crate `uuid` writes.

use vstd::prelude::*;

verus! {

/// The text that `uuid` writes for the UUID of the 128 bits `bits`: what
/// `Uuid::from_u128(bits)` displays as.
pub uninterp spec fn uuid_text(bits: u128) -> Seq<char>;

/// Calls `Uuid::from_u128` and writes the result with its `Display`. The
/// contract only names what comes back: the text depends on the bits alone,
/// and nothing is claimed of its shape.
#[verifier::external_body]
pub(crate) fn write_uuid(bits: u128) -> (text: String)
    ensures
        text@ == uuid_text(bits),
{
    uuid::Uuid::from_u128(bits).to_string()
}

} // verus!
