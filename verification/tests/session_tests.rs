use arc_signal::error::SignalError;
use arc_signal::protocol::{
    incoming_message_kind, paired_one_time_pre_key, signal_protocol_version,
    signed_pre_key_timestamp_millis, IncomingMessageKind, StoreSlot, PRE_KEY_MESSAGE_TYPE,
};
use arc_signal::sessions::{clear_all_signal_sessions, has_signal_session, SessionMap};

#[test]
fn recorded_sessions_are_reported() {
    let mut m = SessionMap::new();
    assert!(!has_signal_session(&m, &"bob".to_string()));
    m.insert("bob".to_string());
    m.insert("carol".to_string());
    m.insert("bob".to_string());
    assert!(has_signal_session(&m, &"bob".to_string()));
    assert!(has_signal_session(&m, &"carol".to_string()));
    assert!(!has_signal_session(&m, &"dave".to_string()));
}

#[test]
fn removed_session_is_no_longer_reported() {
    let mut m = SessionMap::new();
    m.insert("bob".to_string());
    m.insert("carol".to_string());
    m.remove(&"bob".to_string());
    assert!(!has_signal_session(&m, &"bob".to_string()));
    assert!(has_signal_session(&m, &"carol".to_string()));
    m.remove(&"nobody".to_string());
    assert!(has_signal_session(&m, &"carol".to_string()));
}

#[test]
fn clear_reports_the_number_of_sessions() {
    let mut m = SessionMap::new();
    m.insert("a".to_string());
    m.insert("b".to_string());
    m.insert("c".to_string());
    m.insert("a".to_string());
    assert_eq!(clear_all_signal_sessions(&mut m), 3);
    assert!(!has_signal_session(&m, &"a".to_string()));
    assert_eq!(clear_all_signal_sessions(&mut m), 0);
}

#[test]
fn version_banner() {
    assert_eq!(
        signal_protocol_version(),
        "libsignal-protocol v0.94.1 (PQXDH + SPQR Triple Ratchet + Sender Key)"
    );
}

#[test]
fn message_type_selects_decryption_path() {
    assert_eq!(PRE_KEY_MESSAGE_TYPE, 3);
    assert_eq!(incoming_message_kind(3), IncomingMessageKind::PreKey);
    assert_eq!(incoming_message_kind(2), IncomingMessageKind::Signal);
    assert_eq!(incoming_message_kind(0), IncomingMessageKind::Signal);
    assert_eq!(incoming_message_kind(255), IncomingMessageKind::Signal);
}

#[test]
fn one_time_pre_key_needs_id_and_bytes() {
    assert_eq!(paired_one_time_pre_key(Some(5), Some(vec![1, 2])), Some((5, vec![1, 2])));
    assert_eq!(paired_one_time_pre_key(Some(5), None), None);
    assert_eq!(paired_one_time_pre_key(None, Some(vec![1])), None);
    assert_eq!(paired_one_time_pre_key(None, None), None);
}

#[test]
fn timestamp_is_in_milliseconds() {
    assert_eq!(signed_pre_key_timestamp_millis(0), 0);
    assert_eq!(signed_pre_key_timestamp_millis(1_700_000_000), 1_700_000_000_000);
}

#[test]
fn store_slot_refuses_use_before_install() {
    let mut slot: StoreSlot<Vec<u8>> = StoreSlot::new();
    assert_eq!(slot.get().unwrap_err(), SignalError::StoreNotInitialized);
    assert!(slot.get_mut().is_err());
    slot.install(vec![1]);
    slot.get_mut().unwrap().push(2);
    assert_eq!(slot.get().unwrap(), &vec![1, 2]);
    slot.install(vec![9]);
    assert_eq!(slot.get().unwrap(), &vec![9]);
}
