use vstd::prelude::*;

use crate::error::SignalError;

verus! {

/// Version banner of the protocol engine, for a liveness check from the client.
pub fn signal_protocol_version() -> (v: String)
    ensures
        v@ == "libsignal-protocol v0.94.1 (PQXDH + SPQR Triple Ratchet + Sender Key)"@,
{
    "libsignal-protocol v0.94.1 (PQXDH + SPQR Triple Ratchet + Sender Key)".to_owned()
}

/// Wire code of a pre-key message (a message that also sets up the session).
pub const PRE_KEY_MESSAGE_TYPE: u8 = 3;

/// How an incoming one-to-one message is to be decrypted.
#[derive(Debug, PartialEq, Eq, Structural, Clone, Copy)]
pub enum IncomingMessageKind {
    /// The first message of a session, carrying the pre-key material.
    PreKey,
    /// A message of an established session.
    Signal,
}

/// Chooses the decryption path from the message type the sender reported:
/// the pre-key path for `PRE_KEY_MESSAGE_TYPE`, the session path for any
/// other value.
pub fn incoming_message_kind(message_type: u8) -> (k: IncomingMessageKind)
    ensures
        k == (if message_type == PRE_KEY_MESSAGE_TYPE {
            IncomingMessageKind::PreKey
        } else {
            IncomingMessageKind::Signal
        }),
{
    if message_type == PRE_KEY_MESSAGE_TYPE {
        IncomingMessageKind::PreKey
    } else {
        IncomingMessageKind::Signal
    }
}

/// Pairs the optional one-time pre-key id with its optional key bytes: a
/// one-time pre-key takes part in the handshake only when both are given.
pub fn paired_one_time_pre_key(id: Option<u32>, key_bytes: Option<Vec<u8>>) -> (r: Option<(u32, Vec<u8>)>)
    ensures
        r is Some <==> (id is Some && key_bytes is Some),
        r matches Some((i, k)) ==> id == Some(i) && key_bytes == Some(k),
{
    match (id, key_bytes) {
        (Some(i), Some(k)) => Some((i, k)),
        _ => None,
    }
}

/// Creation time of a signed pre-key in milliseconds since the epoch, from
/// the current time in whole seconds.
pub fn signed_pre_key_timestamp_millis(epoch_secs: u64) -> (millis: u64)
    requires
        epoch_secs * 1000 <= u64::MAX,
    ensures
        millis == epoch_secs * 1000,
{
    epoch_secs * 1000
}

/// Holder of the protocol store, which is empty until the store is set up.
pub struct StoreSlot<S> {
    store: Option<S>,
}

impl<S> View for StoreSlot<S> {
    type V = Option<S>;

    closed spec fn view(&self) -> Option<S> {
        self.store
    }
}

impl<S> StoreSlot<S> {
    /// A slot with no store in it.
    pub fn new() -> (slot: Self)
        ensures
            slot@ is None,
    {
        StoreSlot { store: None }
    }

    /// Puts `store` in the slot, replacing whatever was there.
    pub fn install(&mut self, store: S)
        ensures
            final(self)@ == Some(store),
    {
        self.store = Some(store);
    }

    /// The store, or `SignalError::StoreNotInitialized` while there is none.
    pub fn get(&self) -> (r: Result<&S, SignalError>)
        ensures
            r is Ok <==> self@ is Some,
            r matches Ok(s) ==> self@ == Some(*s),
            r matches Err(e) ==> e == SignalError::StoreNotInitialized,
    {
        match &self.store {
            Some(s) => Ok(s),
            None => Err(SignalError::StoreNotInitialized),
        }
    }

    /// The store for changing it, or `SignalError::StoreNotInitialized` while
    /// there is none; what is done through the reference is what the slot
    /// holds afterwards.
    pub fn get_mut(&mut self) -> (r: Result<&mut S, SignalError>)
        ensures
            r is Ok <==> old(self)@ is Some,
            r matches Ok(s) ==> old(self)@ == Some(*s) && final(self)@ == Some(*final(s)),
            r matches Err(e) ==> e == SignalError::StoreNotInitialized && final(self)@ == old(self)@,
    {
        match &mut self.store {
            Some(s) => Ok(s),
            None => Err(SignalError::StoreNotInitialized),
        }
    }
}

/// Key pair returned to the client.
pub struct SignalKeyPairResult {
    pub public_key: Vec<u8>,
    pub private_key: Vec<u8>,
}

/// Signed pre-key returned to the client.
pub struct SignalSignedPreKeyResult {
    pub key_id: u32,
    pub public_key: Vec<u8>,
    pub private_key: Vec<u8>,
    pub signature: Vec<u8>,
}

/// Key pair with its id returned to the client.
pub struct SignalKeyPairWithIdResult {
    pub key_id: u32,
    pub public_key: Vec<u8>,
    pub private_key: Vec<u8>,
}

/// Post-quantum (ML-KEM-1024) pre-key returned to the client.
pub struct SignalKyberPreKeyResult {
    pub key_id: u32,
    pub public_key: Vec<u8>,
    pub signature: Vec<u8>,
    pub record_bytes: Vec<u8>,
}

/// Encrypted one-to-one message and its wire type.
pub struct SignalEncryptResult {
    pub ciphertext: Vec<u8>,
    pub message_type: u8,
}

} // verus!
