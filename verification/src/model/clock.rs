//! The two sources of fresh values an entry needs: the time and a random id.
use vstd::prelude::*;

verus! {

/// Calls `time::OffsetDateTime::now_utc()` and returns its
/// `unix_timestamp_nanos()`. Nothing is promised of the value: it is the
/// time at the call.
#[verifier::external_body]
pub fn now_unix_nanos() -> (t: i128) {
    time::OffsetDateTime::now_utc().unix_timestamp_nanos()
}

/// The version and variant bits of a random (version 4, RFC 4122) UUID.
pub open spec fn spec_is_v4_uuid(id: u128) -> bool {
    id & 0x0000_0000_0000_F000_C000_0000_0000_0000u128 == 0x0000_0000_0000_4000_8000_0000_0000_0000u128
}

/// Calls `uuid::Uuid::new_v4()` and returns it as a `u128`.
///
/// Claimed of uuid 1.x (`Uuid::new_v4` masks the random bits): the version
/// nibble is 4 and the variant bits are `10`; the rest is random.
#[verifier::external_body]
pub fn new_entry_id() -> (id: u128)
    ensures
        spec_is_v4_uuid(id),
{
    uuid::Uuid::new_v4().as_u128()
}

} // verus!
