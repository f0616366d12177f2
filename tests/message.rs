use topic_router::{Message, MessageData};

#[test]
fn new_wraps_payload_with_fresh_id() {
    let a = Message::new(Some("orders".to_string()), 1u8);
    let b = Message::new(Some("orders".to_string()), 1u8);
    assert_eq!(a.data, MessageData::Data(1));
    assert_eq!(a.topic, Some("orders".to_string()));
    assert_ne!(a.id, b.id);
    assert_ne!(a.id, uuid::Uuid::nil());
    assert!(a.timestamp > 1_600_000_000);
}

#[test]
fn new_with_id_keeps_the_id() {
    let id = uuid::Uuid::new_v4();
    let m = Message::new_with_id(id, "x", None);
    assert_eq!(m.id, id);
    assert_eq!(m.topic, None);
    assert_eq!(m.data, MessageData::Data("x"));
    assert!(m.timestamp > 1_600_000_000);
}

#[test]
fn stop_signal_carries_no_data() {
    let m: Message<u8> = Message::stop_signal(None);
    assert_eq!(m.data, MessageData::StopSignal);
    assert_eq!(m.topic, None);
    let n: Message<u8> = Message::stop_signal(None);
    assert_ne!(m.id, n.id);
}

#[test]
fn default_payload_is_empty() {
    let d: MessageData<u8> = MessageData::default();
    assert_eq!(d, MessageData::Empty);
}

#[test]
fn envelopes_are_equal_field_by_field() {
    let m = Message::new(None, 3u8);
    let mut other = m.clone();
    assert_eq!(m, other);
    other.topic = Some("orders".to_string());
    assert_ne!(m, other);
}
