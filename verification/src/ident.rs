//! Identifiers of todo items.
//!
//! An item is identified by a UUID, held as the 128-bit number whose
//! big-endian bytes are the UUID's sixteen bytes. New identifiers are drawn
//! at random by the `uuid` crate.

use uuid::Uuid;
use vstd::prelude::*;

verus! {

/// The bits of an identifier that hold the UUID's version and variant.
pub const VERSION_VARIANT_MASK: u128 = 0x0000_0000_0000_f000_c000_0000_0000_0000u128;

/// The value of those bits in a random (version 4) UUID of the RFC variant.
pub const RANDOM_VERSION_VARIANT: u128 = 0x0000_0000_0000_4000_8000_0000_0000_0000u128;

/// Whether `id` has the shape of a random UUID: version 4 in its version
/// field and the RFC variant in its variant field. The other 122 bits are
/// free.
pub open spec fn is_random_id(id: u128) -> bool {
    id & VERSION_VARIANT_MASK == RANDOM_VERSION_VARIANT
}

/// Draws a new identifier.
///
/// Trusted: the body calls `uuid::Uuid::new_v4`, which fills 128 bits from
/// the operating system's random source and then sets the version field to 4
/// and the variant field to the RFC variant, and converts the result with
/// `Uuid::as_u128`. The contract claims only that shape, which holds of every
/// outcome; nothing is claimed of the random bits, so two calls may return
/// the same value as far as a proof can tell. `new_v4` panics where the
/// operating system cannot supply random bytes.
#[verifier::external_body]
pub(crate) fn random_id() -> (id: u128)
    ensures
        is_random_id(id),
{
    Uuid::new_v4().as_u128()
}

} // verus!
