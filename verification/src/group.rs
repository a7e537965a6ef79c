use vstd::prelude::*;

use crate::device::{is_valid_device_id, to_device_id, Address};
use crate::distribution::{uuid_bytes, uuid_from_bytes, DISTRIBUTION_ID_LEN};
use crate::error::SignalError;
use crate::sender_key_store::{ArcSenderKeyStore, SenderKeyName};

verus! {

/// The error, if any, with which a sender-key request is refused: the device
/// id is checked first, the length of the distribution id second.
pub open spec fn sender_key_request_error(sender_device_id: u32, distribution_id_len: nat) -> Option<SignalError> {
    if !is_valid_device_id(sender_device_id as int) {
        Some(SignalError::InvalidDeviceId { id: sender_device_id })
    } else if distribution_id_len != DISTRIBUTION_ID_LEN {
        Some(SignalError::InvalidUuidLength { len: distribution_id_len as usize })
    } else {
        None
    }
}

/// The name a well-formed sender-key request refers to.
pub open spec fn sender_key_request_name(
    sender_id: Seq<char>,
    sender_device_id: u32,
    distribution_id: Seq<u8>,
) -> SenderKeyName {
    (sender_id, sender_device_id as u8, distribution_id)
}

/// Turns the raw parts of a sender-key request into the sender's address and
/// the distribution id.
///
/// Fails as `sender_key_request_error` says; otherwise the address is
/// `(sender_id, sender_device_id)` and the id holds the given bytes.
pub fn sender_key_target(
    sender_id: String,
    sender_device_id: u32,
    distribution_id_bytes: &[u8],
) -> (r: Result<(Address, uuid::Uuid), SignalError>)
    ensures
        r is Err <==> sender_key_request_error(sender_device_id, distribution_id_bytes@.len()) is Some,
        r matches Err(e) ==> sender_key_request_error(sender_device_id, distribution_id_bytes@.len())
            == Some(e),
        r matches Ok((addr, dist)) ==> addr@ == (sender_id@, sender_device_id as u8) && uuid_bytes(dist)
            == distribution_id_bytes@,
{
    let device_id = to_device_id(sender_device_id)?;
    let dist = uuid_from_bytes(distribution_id_bytes)?;
    Ok((Address::new(sender_id, device_id), dist))
}

/// Forgets the sender key of `sender_id`'s device `sender_device_id` for the
/// given distribution, so that the next distribution message starts a fresh
/// chain.
///
/// A malformed request is refused as `sender_key_request_error` says and
/// leaves the store as it was. Otherwise the result tells whether a key was
/// filed there, and afterwards none is.
pub fn delete_sender_key<R>(
    store: &mut ArcSenderKeyStore<R>,
    sender_id: String,
    sender_device_id: u32,
    distribution_id_bytes: Vec<u8>,
) -> (r: Result<bool, SignalError>)
    ensures
        r is Err <==> sender_key_request_error(sender_device_id, distribution_id_bytes@.len()) is Some,
        r matches Err(e) ==> sender_key_request_error(sender_device_id, distribution_id_bytes@.len())
            == Some(e) && final(store)@ == old(store)@,
        r matches Ok(removed) ==> {
            let name = sender_key_request_name(sender_id@, sender_device_id, distribution_id_bytes@);
            &&& removed == old(store)@.contains_key(name)
            &&& final(store)@ == old(store)@.remove(name)
        },
{
    let (sender, dist) = sender_key_target(sender_id, sender_device_id, distribution_id_bytes.as_slice())?;
    Ok(store.delete(&sender, dist))
}

/// Whether a sender key is filed for `sender_id`'s device `sender_device_id`
/// and the given distribution.
///
/// A malformed request is refused as `sender_key_request_error` says.
pub fn has_sender_key<R>(
    store: &ArcSenderKeyStore<R>,
    sender_id: String,
    sender_device_id: u32,
    distribution_id_bytes: Vec<u8>,
) -> (r: Result<bool, SignalError>)
    ensures
        r is Err <==> sender_key_request_error(sender_device_id, distribution_id_bytes@.len()) is Some,
        r matches Err(e) ==> sender_key_request_error(sender_device_id, distribution_id_bytes@.len())
            == Some(e),
        r matches Ok(found) ==> found == store@.contains_key(
            sender_key_request_name(sender_id@, sender_device_id, distribution_id_bytes@),
        ),
{
    let (sender, dist) = sender_key_target(sender_id, sender_device_id, distribution_id_bytes.as_slice())?;
    Ok(store.load_sender_key(&sender, dist).is_some())
}

/// Drops every sender key: afterwards the store is empty.
pub fn reset_sender_key_store<R>(store: &mut ArcSenderKeyStore<R>)
    ensures
        final(store)@ == Map::<SenderKeyName, R>::empty(),
{
    *store = ArcSenderKeyStore::new();
}

} // verus!
