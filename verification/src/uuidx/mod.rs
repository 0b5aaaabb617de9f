//! Generation of random (version 4) UUIDs.

use uuid::Uuid;
use vstd::prelude::*;

verus! {

/// `uuid::Uuid`, carried through as an opaque value.
#[verifier::external_type_specification]
#[verifier::external_body]
pub struct ExUuid(uuid::Uuid);

/// The 128 bits that a UUID holds, read as one big-endian number (what
/// `Uuid::as_u128` returns).
pub uninterp spec fn uuid_value(id: Uuid) -> u128;

/// The bits of the version field (the high four bits of the seventh byte) and
/// of the variant field (the high two bits of the ninth byte).
pub const VERSION_AND_VARIANT_MASK: u128 = 0x0000_0000_0000_F000_C000_0000_0000_0000u128;

/// The version field holding 4 and the variant field holding binary 10.
pub const RANDOM_VERSION_AND_VARIANT: u128 = 0x0000_0000_0000_4000_8000_0000_0000_0000u128;

/// Whether `value` has the layout of a random UUID: version 4 and the
/// variant of RFC 9562.
pub open spec fn is_random_layout(value: u128) -> bool {
    value & VERSION_AND_VARIANT_MASK == RANDOM_VERSION_AND_VARIANT
}

/// `Uuid::new_v4` draws 128 random bits from the operating system and then
/// fixes the version field to 4 and the variant field to binary 10. Trusted:
/// only that layout is claimed, which holds whatever bits were drawn. Where
/// the operating system has no random bits to give, the call panics.
pub assume_specification[ Uuid::new_v4 ]() -> (id: Uuid)
    ensures
        is_random_layout(uuid_value(id)),
;

/// Generates a new random UUID (version 4).
pub fn generate_new_v4() -> (id: Uuid)
    ensures
        is_random_layout(uuid_value(id)),
{
    Uuid::new_v4()
}

} // verus!
