use vstd::prelude::*;

use crate::error::SignalError;

verus! {

/// Number of bytes in a distribution id.
pub const DISTRIBUTION_ID_LEN: usize = 16;

#[verifier::external_type_specification]
#[verifier::external_body]
pub struct ExUuid(uuid::Uuid);

/// The 16 bytes that `uuid::Uuid::as_bytes` returns for `u`.
pub uninterp spec fn uuid_bytes(u: uuid::Uuid) -> Seq<u8>;

/// `uuid::Uuid::from_bytes` wraps the 16 bytes unchanged (`Uuid(bytes)` in
/// the crate's source): the bytes `as_bytes` gives back for the result are the
/// bytes given.
pub assume_specification[ uuid::Uuid::from_bytes ](bytes: uuid::Bytes) -> (u: uuid::Uuid)
    ensures
        uuid_bytes(u) == bytes@,
;

/// `uuid::Uuid::as_bytes` returns a reference to the 16 bytes the id holds
/// (`&self.0` in the crate's source); `uuid_bytes` names them.
pub assume_specification[ uuid::Uuid::as_bytes ](u: &uuid::Uuid) -> (bytes: &uuid::Bytes)
    ensures
        bytes@ == uuid_bytes(*u),
;

/// The distribution id holding exactly `bytes`.
fn uuid_of_array(bytes: [u8; 16]) -> (u: uuid::Uuid)
    ensures
        uuid_bytes(u) == bytes@,
{
    uuid::Uuid::from_bytes(bytes)
}

/// The 16 bytes a distribution id holds, copied out.
pub(crate) fn uuid_array(u: &uuid::Uuid) -> (bytes: [u8; 16])
    ensures
        bytes@ == uuid_bytes(*u),
{
    *u.as_bytes()
}

/// Builds a distribution id from a byte string.
///
/// Succeeds exactly when `bytes` has length 16, and then the id holds those
/// bytes; otherwise fails with `SignalError::InvalidUuidLength` carrying the
/// length that was given.
pub fn uuid_from_bytes(bytes: &[u8]) -> (r: Result<uuid::Uuid, SignalError>)
    ensures
        r is Ok <==> bytes@.len() == DISTRIBUTION_ID_LEN,
        r matches Ok(u) ==> uuid_bytes(u) == bytes@,
        r matches Err(e) ==> e == (SignalError::InvalidUuidLength { len: bytes@.len() as usize }),
{
    if bytes.len() != DISTRIBUTION_ID_LEN {
        return Err(SignalError::InvalidUuidLength { len: bytes.len() });
    }
    let mut arr = [0u8; 16];
    let mut i: usize = 0;
    while i < DISTRIBUTION_ID_LEN
        invariant
            bytes@.len() == DISTRIBUTION_ID_LEN,
            i <= DISTRIBUTION_ID_LEN,
            forall|j: int| 0 <= j < i ==> arr@[j] == bytes@[j],
        decreases DISTRIBUTION_ID_LEN - i,
    {
        arr[i] = bytes[i];
        i = i + 1;
    }
    assert(arr@ =~= bytes@);
    Ok(uuid_of_array(arr))
}

} // verus!
