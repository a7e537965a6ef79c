//! Verified core of the Arc Signal binding: device-id and distribution-id
//! validation, the sender-key store, the session registry and the result
//! types handed back to the client.

pub mod device;
pub mod error;
pub mod distribution;
pub mod sender_key_store;
pub mod group;
pub mod sessions;
pub mod protocol;
pub mod laws;
