//! Idempotency tokens: the value that tells the service that two requests are
//! one submission sent twice.

use vstd::prelude::*;

verus! {

/// The bits of a UUID that hold its version and its variant.
pub const VERSION_AND_VARIANT_BITS: u128 = 0x0000_0000_0000_f000_c000_0000_0000_0000;

/// What those bits hold in a random (version 4) UUID of the RFC 4122 variant.
pub const RANDOM_UUID_BITS: u128 = 0x0000_0000_0000_4000_8000_0000_0000_0000;

/// Whether a 128-bit value, read as a UUID in big-endian order, is a random
/// (version 4) UUID.
pub open spec fn is_random_uuid(value: u128) -> bool {
    value & VERSION_AND_VARIANT_BITS == RANDOM_UUID_BITS
}

/// A fresh idempotency token.
///
/// Calls `uuid::Uuid::new_v4` and reads the result as a 128-bit number with
/// `Uuid::as_u128`. Trusted: `new_v4` draws 128 bits from the operating
/// system and overwrites the version and variant bits, so every value it
/// returns is a version 4 UUID. Nothing is claimed about the other bits; two
/// calls are expected to differ, which no contract can say. `new_v4` panics
/// if the operating system has no random bytes to give.
#[verifier::external_body]
pub(crate) fn fresh_idempotency_token() -> (token: u128)
    ensures
        is_random_uuid(token),
{
    uuid::Uuid::new_v4().as_u128()
}

} // verus!
