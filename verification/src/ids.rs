//! Fresh identities.
use vstd::prelude::*;

verus! {

/// The bits of an id that tell how it was made.
pub const ID_KIND_BITS: u128 = 0xf000_c000_0000_0000_0000;

/// How the bits are set in a random id.
pub const RANDOM_ID_KIND: u128 = 0x4000_8000_0000_0000_0000;

/// The id says of itself that it is random.
pub open spec fn is_random(id: u128) -> bool {
    id & ID_KIND_BITS == RANDOM_ID_KIND
}

/// `uuid::Uuid::new_v4`: a random id, whose version bits say that it is random
/// and whose variant bits are those of RFC 4122. Nothing is said of the other
/// bits, and so not that ids differ.
#[verifier::external_body]
pub(crate) fn random_id() -> (id: u128)
    ensures
        is_random(id),
{
    uuid::Uuid::new_v4().as_u128()
}

} // verus!
