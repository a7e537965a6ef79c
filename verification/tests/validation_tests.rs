use arc_signal::device::{single_device_id, to_device_id, Address};
use arc_signal::distribution::uuid_from_bytes;
use arc_signal::error::SignalError;

#[test]
fn device_ids_one_to_127_are_accepted() {
    assert_eq!(to_device_id(1).unwrap().value(), 1);
    assert_eq!(to_device_id(64).unwrap().value(), 64);
    assert_eq!(to_device_id(127).unwrap().value(), 127);
    assert_eq!(single_device_id().value(), 1);
}

#[test]
fn device_ids_outside_range_are_refused() {
    assert_eq!(to_device_id(0).unwrap_err(), SignalError::InvalidDeviceId { id: 0 });
    assert_eq!(to_device_id(128).unwrap_err(), SignalError::InvalidDeviceId { id: 128 });
    assert_eq!(to_device_id(256 + 1).unwrap_err(), SignalError::InvalidDeviceId { id: 257 });
    assert_eq!(
        to_device_id(u32::MAX).unwrap_err(),
        SignalError::InvalidDeviceId { id: u32::MAX }
    );
}

#[test]
fn address_keeps_name_and_device() {
    let a = Address::new("dave".to_string(), to_device_id(7).unwrap());
    assert_eq!(a.name, "dave");
    assert_eq!(a.device_id.value(), 7);
}

#[test]
fn uuid_needs_exactly_sixteen_bytes() {
    assert_eq!(uuid_from_bytes(&[]).unwrap_err(), SignalError::InvalidUuidLength { len: 0 });
    assert_eq!(uuid_from_bytes(&[1u8; 15]).unwrap_err(), SignalError::InvalidUuidLength { len: 15 });
    assert_eq!(uuid_from_bytes(&[1u8; 17]).unwrap_err(), SignalError::InvalidUuidLength { len: 17 });
}

#[test]
fn uuid_keeps_the_bytes() {
    let bytes: Vec<u8> = (0u8..16).map(|b| b * 3 + 1).collect();
    let id = uuid_from_bytes(&bytes).unwrap();
    assert_eq!(id.as_bytes().to_vec(), bytes);
    assert_eq!(id.to_string(), "0104070a-0d10-1316-191c-1f2225282b2e");
}
