use vstd::prelude::*;

use crate::error::SignalError;

verus! {

/// Smallest device id the protocol accepts.
pub const MIN_DEVICE_ID: u32 = 1;

/// Largest device id the protocol accepts.
pub const MAX_DEVICE_ID: u32 = 127;

/// Whether `id` is a device id the protocol accepts.
pub open spec fn is_valid_device_id(id: int) -> bool {
    MIN_DEVICE_ID <= id <= MAX_DEVICE_ID
}

/// A device id known to lie in `1..=127`.
#[derive(Clone, Copy, Debug)]
pub struct DeviceId(u8);

impl DeviceId {
    #[verifier::type_invariant]
    spec fn in_range(self) -> bool {
        is_valid_device_id(self.0 as int)
    }

    /// The numeric value of the id.
    pub closed spec fn spec_value(self) -> u8 {
        self.0
    }

    /// The numeric value of the id; always in `1..=127`.
    pub fn value(&self) -> (v: u8)
        ensures
            v == self.spec_value(),
            is_valid_device_id(v as int),
    {
        proof {
            use_type_invariant(self);
        }
        self.0
    }
}

impl View for DeviceId {
    type V = u8;

    open spec fn view(&self) -> u8 {
        self.spec_value()
    }
}

/// Checks a device id given as `u32` and turns it into a `DeviceId`.
///
/// Succeeds exactly on `1..=127`; any other value is refused with
/// `SignalError::InvalidDeviceId` carrying the offending id.
pub fn to_device_id(id: u32) -> (r: Result<DeviceId, SignalError>)
    ensures
        r is Ok <==> is_valid_device_id(id as int),
        r matches Ok(d) ==> d@ == id,
        r matches Err(e) ==> e == (SignalError::InvalidDeviceId { id }),
{
    if id == 0 || id > MAX_DEVICE_ID {
        return Err(SignalError::InvalidDeviceId { id });
    }
    Ok(DeviceId(id as u8))
}

/// Device id of the single device every Arc user has.
pub fn single_device_id() -> (d: DeviceId)
    ensures
        d@ == 1,
{
    DeviceId(1)
}

/// The address of one device of one user: the user's name and a device id.
pub struct Address {
    pub name: String,
    pub device_id: DeviceId,
}

impl View for Address {
    type V = (Seq<char>, u8);

    open spec fn view(&self) -> (Seq<char>, u8) {
        (self.name@, self.device_id@)
    }
}

impl Address {
    /// Builds the address of device `device_id` of user `name`.
    pub fn new(name: String, device_id: DeviceId) -> (a: Address)
        ensures
            a@ == (name@, device_id@),
    {
        Address { name, device_id }
    }
}

} // verus!
