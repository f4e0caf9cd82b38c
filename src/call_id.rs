//! Call identifiers: minted at random for every call, with one reserved
//! value that marks a fatal outcome meant for every pending call.

use vstd::prelude::*;

verus! {

/// The identifier of one call, a UUID held as its 128-bit value.
pub type PluginOpCallId = u128;

/// The reserved sentinel id (the nil UUID): an outcome carrying it is
/// broadcast to every pending call.
pub const SENTINEL_CALL_ID: u128 = 0;

/// The version and variant bits of a random (version 4, RFC 4122) UUID.
pub const RANDOM_UUID_MASK: u128 = 0xF000_C000_0000_0000_0000;

/// The value of those bits in a random UUID.
pub const RANDOM_UUID_BITS: u128 = 0x4000_8000_0000_0000_0000;

/// Relies on `uuid::Uuid::new_v4` and `Uuid::as_u128`: a random UUID whose
/// version nibble is 4 and whose variant bits are `10`.
#[verifier::external_body]
fn random_uuid() -> (r: u128)
    ensures
        r & RANDOM_UUID_MASK == RANDOM_UUID_BITS,
{
    uuid::Uuid::new_v4().as_u128()
}

/// Whether `id` is the sentinel that triggers the fatal broadcast.
pub fn is_sentinel(id: PluginOpCallId) -> (r: bool)
    ensures
        r == (id == SENTINEL_CALL_ID),
{
    id == SENTINEL_CALL_ID
}

/// Mints a fresh call id: a random UUID, which is never the sentinel.
pub fn new_call_id() -> (r: PluginOpCallId)
    ensures
        r & RANDOM_UUID_MASK == RANDOM_UUID_BITS,
        r != SENTINEL_CALL_ID,
{
    let r = random_uuid();
    assert(r & 0xF000_C000_0000_0000_0000u128 == 0x4000_8000_0000_0000_0000u128 ==> r != 0u128)
        by (bit_vector);
    r
}

} // verus!
