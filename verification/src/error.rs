use vstd::prelude::*;

verus! {

/// Errors that the binding raises itself, before any protocol work is done.
#[derive(Debug, PartialEq, Eq, Structural, Clone, Copy)]
pub enum SignalError {
    /// A device id outside `1..=127`.
    InvalidDeviceId { id: u32 },
    /// A distribution id whose byte length is not 16.
    InvalidUuidLength { len: usize },
    /// The protocol store was used before it was initialised.
    StoreNotInitialized,
}

} // verus!
