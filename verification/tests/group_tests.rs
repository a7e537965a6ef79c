use arc_signal::device::{to_device_id, Address};
use arc_signal::distribution::uuid_from_bytes;
use arc_signal::error::SignalError;
use arc_signal::group::{delete_sender_key, has_sender_key, reset_sender_key_store, sender_key_target};
use arc_signal::sender_key_store::ArcSenderKeyStore;

fn dist_id_bytes_for(label: &str) -> Vec<u8> {
    let mut bytes = [0u8; 16];
    let label_bytes = label.as_bytes();
    let copy_len = label_bytes.len().min(16);
    bytes[..copy_len].copy_from_slice(&label_bytes[..copy_len]);
    bytes[6] = (bytes[6] & 0x0f) | 0x50;
    bytes[8] = (bytes[8] & 0x3f) | 0x80;
    bytes.to_vec()
}

fn address(name: &str, device: u32) -> Address {
    Address::new(name.to_string(), to_device_id(device).unwrap())
}

#[test]
fn delete_sender_key_returns_false_for_nonexistent() {
    let mut store: ArcSenderKeyStore<Vec<u8>> = ArcSenderKeyStore::new();
    reset_sender_key_store(&mut store);
    let dist = dist_id_bytes_for("group_test_002");

    let removed = delete_sender_key(&mut store, "nonexistent_user".into(), 1, dist)
        .expect("delete sender key");
    assert!(!removed, "delete must return false for nonexistent entry");
}

#[test]
fn delete_sender_key_removes_stored_entry() {
    let mut store: ArcSenderKeyStore<Vec<u8>> = ArcSenderKeyStore::new();
    let dist = dist_id_bytes_for("group_test_001");
    let dist_id = uuid_from_bytes(&dist).unwrap();
    store.store_sender_key(address("alice", 1), dist_id, vec![1, 2, 3]);

    assert!(has_sender_key(&store, "alice".into(), 1, dist.clone()).unwrap());
    let removed = delete_sender_key(&mut store, "alice".into(), 1, dist.clone()).unwrap();
    assert!(removed);
    assert!(!has_sender_key(&store, "alice".into(), 1, dist.clone()).unwrap());
    let removed_again = delete_sender_key(&mut store, "alice".into(), 1, dist).unwrap();
    assert!(!removed_again);
}

#[test]
fn store_then_load_gives_the_record() {
    let mut store: ArcSenderKeyStore<Vec<u8>> = ArcSenderKeyStore::new();
    let dist_id = uuid_from_bytes(&dist_id_bytes_for("g")).unwrap();
    let alice = address("alice", 1);
    assert!(store.load_sender_key(&alice, dist_id).is_none());
    store.store_sender_key(address("alice", 1), dist_id, vec![7]);
    assert_eq!(store.load_sender_key(&alice, dist_id), Some(&vec![7]));
    store.store_sender_key(address("alice", 1), dist_id, vec![8, 9]);
    assert_eq!(store.load_sender_key(&alice, dist_id), Some(&vec![8, 9]));
}

#[test]
fn keys_are_told_apart_by_sender_device_and_distribution() {
    let mut store: ArcSenderKeyStore<u32> = ArcSenderKeyStore::new();
    let d1 = uuid_from_bytes(&dist_id_bytes_for("one")).unwrap();
    let d2 = uuid_from_bytes(&dist_id_bytes_for("two")).unwrap();
    store.store_sender_key(address("alice", 1), d1, 1);
    store.store_sender_key(address("alice", 2), d1, 2);
    store.store_sender_key(address("bob", 1), d1, 3);
    store.store_sender_key(address("alice", 1), d2, 4);
    assert_eq!(store.load_sender_key(&address("alice", 1), d1), Some(&1));
    assert_eq!(store.load_sender_key(&address("alice", 2), d1), Some(&2));
    assert_eq!(store.load_sender_key(&address("bob", 1), d1), Some(&3));
    assert_eq!(store.load_sender_key(&address("alice", 1), d2), Some(&4));

    assert!(store.delete(&address("alice", 2), d1));
    assert_eq!(store.load_sender_key(&address("alice", 2), d1), None);
    assert_eq!(store.load_sender_key(&address("alice", 1), d1), Some(&1));
    assert_eq!(store.load_sender_key(&address("bob", 1), d1), Some(&3));
    assert_eq!(store.load_sender_key(&address("alice", 1), d2), Some(&4));
}

#[test]
fn reset_forgets_every_sender_key() {
    let mut store: ArcSenderKeyStore<u8> = ArcSenderKeyStore::new();
    let dist = dist_id_bytes_for("reset");
    let dist_id = uuid_from_bytes(&dist).unwrap();
    store.store_sender_key(address("alice", 1), dist_id, 5);
    store.store_sender_key(address("bob", 3), dist_id, 6);
    reset_sender_key_store(&mut store);
    assert!(!has_sender_key(&store, "alice".into(), 1, dist.clone()).unwrap());
    assert!(!has_sender_key(&store, "bob".into(), 3, dist).unwrap());
}

#[test]
fn malformed_requests_are_refused_device_first() {
    let mut store: ArcSenderKeyStore<u8> = ArcSenderKeyStore::new();
    let dist = dist_id_bytes_for("x");
    let dist_id = uuid_from_bytes(&dist).unwrap();
    store.store_sender_key(address("alice", 1), dist_id, 5);

    assert_eq!(
        delete_sender_key(&mut store, "alice".into(), 0, vec![1, 2, 3]),
        Err(SignalError::InvalidDeviceId { id: 0 })
    );
    assert_eq!(
        delete_sender_key(&mut store, "alice".into(), 1, vec![1, 2, 3]),
        Err(SignalError::InvalidUuidLength { len: 3 })
    );
    assert_eq!(
        has_sender_key(&store, "alice".into(), 128, dist.clone()),
        Err(SignalError::InvalidDeviceId { id: 128 })
    );
    assert_eq!(
        has_sender_key(&store, "alice".into(), 1, vec![0u8; 17]),
        Err(SignalError::InvalidUuidLength { len: 17 })
    );
    assert!(has_sender_key(&store, "alice".into(), 1, dist).unwrap());
}

#[test]
fn sender_key_target_builds_address_and_id() {
    let dist = dist_id_bytes_for("target");
    let (addr, id) = sender_key_target("carol".into(), 42, &dist).unwrap();
    assert_eq!(addr.name, "carol");
    assert_eq!(addr.device_id.value(), 42);
    assert_eq!(id.as_bytes().to_vec(), dist);
    assert!(sender_key_target("carol".into(), 0, &dist).is_err());
}
