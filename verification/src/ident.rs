use vstd::prelude::*;

verus! {

/// The version tag embedded in a 128-bit identifier: the high nibble of the
/// seventh byte of its big-endian representation.
pub open spec fn uuid_version(id: u128) -> u128 {
    (id >> 76) & 0xf
}

/// Relies on `uuid::Uuid::from_u128`, which lays the argument out as its
/// big-endian bytes, and `uuid::Uuid::get_version_num`, which returns the
/// high nibble of byte six of that layout: together they read the version
/// tag of the identifier.
#[verifier::external_body]
pub(crate) fn uuid_version_num(id: u128) -> (r: usize)
    ensures
        r as u128 == uuid_version(id),
{
    uuid::Uuid::from_u128(id).get_version_num()
}

} // verus!
