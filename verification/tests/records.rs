use axum_session::SessionData;

fn number(n: u64) -> Vec<u8> {
    n.to_le_bytes().to_vec()
}

fn text(s: &str) -> Vec<u8> {
    let mut bytes = number(s.len() as u64);
    bytes.extend_from_slice(s.as_bytes());
    bytes
}

#[test]
fn an_empty_session_encodes_to_flag_and_count() {
    let data = SessionData::new(100, 0);
    assert_eq!(data.encode(), vec![0, 0, 0, 0, 0, 0, 0, 0, 0]);
}

#[test]
fn a_session_encodes_to_its_entries_in_turn() {
    let mut data = SessionData::new(100, 0);
    data.set("a", "1".to_string());
    data.set("key", "value".to_string());
    data.set_longterm(true, 500);
    let mut expected = vec![1u8];
    expected.extend(number(2));
    expected.extend(text("a"));
    expected.extend(text("1"));
    expected.extend(text("key"));
    expected.extend(text("value"));
    assert_eq!(data.encode(), expected);
    assert_eq!(
        &expected[..27],
        &[1, 2, 0, 0, 0, 0, 0, 0, 0, 1, 0, 0, 0, 0, 0, 0, 0, b'a', 1, 0, 0, 0, 0, 0, 0, 0, b'1']
    );
}

#[test]
fn a_record_decodes_to_what_was_encoded() {
    let mut data = SessionData::new(100, 0);
    data.set("a", "1".to_string());
    data.set("ünï", "cödé ✓".to_string());
    data.set("", "".to_string());
    data.set("a", "2".to_string());
    data.set_longterm(true, 500);
    let read = SessionData::decode(&data.encode(), 500, 7).unwrap();
    assert_eq!(read.get("a"), Some("2".to_string()));
    assert_eq!(read.get("ünï"), Some("cödé ✓".to_string()));
    assert_eq!(read.get(""), Some("".to_string()));
    assert_eq!(read.get("b"), None);
    assert!(read.is_longterm());
    assert_eq!(read.expiry(), 500);
    assert_eq!(read.last_seen(), 7);
    assert!(read.is_storable());
    assert!(!read.is_dirty());
    assert!(!read.is_pending_destroy());
}

#[test]
fn a_later_entry_replaces_an_earlier_one_with_its_key() {
    let mut bytes = vec![0u8];
    bytes.extend(number(3));
    bytes.extend(text("a"));
    bytes.extend(text("1"));
    bytes.extend(text("b"));
    bytes.extend(text("2"));
    bytes.extend(text("a"));
    bytes.extend(text("3"));
    let read = SessionData::decode(&bytes, 10, 0).unwrap();
    assert_eq!(read.get("a"), Some("3".to_string()));
    assert_eq!(read.get("b"), Some("2".to_string()));
    assert!(!read.is_longterm());
}

#[test]
fn decode_rejects_what_is_no_record() {
    assert!(SessionData::decode(&[], 10, 0).is_none());
    assert!(SessionData::decode(&[0, 0, 0, 0, 0, 0, 0, 0], 10, 0).is_none());
    assert!(SessionData::decode(&[2, 0, 0, 0, 0, 0, 0, 0, 0], 10, 0).is_none());
    assert!(SessionData::decode(&[0, 0, 0, 0, 0, 0, 0, 0, 0, 0], 10, 0).is_none());
    assert!(SessionData::decode(&[0, 1, 0, 0, 0, 0, 0, 0, 0], 10, 0).is_none());
    assert!(SessionData::decode(&[0, 255, 255, 255, 255, 255, 255, 255, 255], 10, 0).is_none());

    let mut truncated = vec![0u8];
    truncated.extend(number(1));
    truncated.extend(text("a"));
    assert!(SessionData::decode(&truncated, 10, 0).is_none());

    let mut short_text = vec![0u8];
    short_text.extend(number(1));
    short_text.extend(text("a"));
    short_text.extend(number(5));
    short_text.extend_from_slice(b"1234");
    assert!(SessionData::decode(&short_text, 10, 0).is_none());

    let mut huge = vec![0u8];
    huge.extend(number(1));
    huge.extend(number(u64::MAX));
    huge.extend_from_slice(b"a");
    assert!(SessionData::decode(&huge, 10, 0).is_none());
}

#[test]
fn decode_rejects_text_that_is_not_utf8() {
    let mut bytes = vec![0u8];
    bytes.extend(number(1));
    bytes.extend(number(2));
    bytes.extend_from_slice(&[0xff, 0xfe]);
    bytes.extend(text("1"));
    assert!(SessionData::decode(&bytes, 10, 0).is_none());

    let mut value = vec![0u8];
    value.extend(number(1));
    value.extend(text("a"));
    value.extend(number(1));
    value.extend_from_slice(&[0xc3]);
    assert!(SessionData::decode(&value, 10, 0).is_none());
}

#[test]
fn session_data_operations_follow_the_map() {
    let mut data = SessionData::new(100, 5);
    assert_eq!(data.get("a"), None);
    assert!(!data.is_dirty());
    data.set("a", "1".to_string());
    assert!(data.is_dirty());
    data.set("b", "2".to_string());
    assert_eq!(data.take("a"), Some("1".to_string()));
    assert_eq!(data.take("a"), None);
    data.remove("zzz");
    assert_eq!(data.get("b"), Some("2".to_string()));
    data.mark_saved();
    assert!(!data.is_dirty());
    data.clear();
    assert!(data.is_dirty());
    assert_eq!(data.get("b"), None);
    data.touch(9);
    assert_eq!(data.last_seen(), 9);
    data.doom();
    assert!(data.is_pending_destroy());
    assert!(!data.is_live(0));
    assert!(data.is_purgeable(0));
}

#[test]
fn liveness_and_purging_follow_expiry_and_access() {
    let mut data = SessionData::new(100, 5);
    assert!(data.is_live(100));
    assert!(!data.is_live(101));
    assert!(!data.is_purgeable(100));
    assert!(data.is_purgeable(101));
    data.touch(101);
    assert!(!data.is_purgeable(101));
    assert!(data.is_purgeable(102));
    assert!(!data.is_due_for_save(50));
    data.set("a", "1".to_string());
    assert!(data.is_due_for_save(50));
    assert!(!data.is_due_for_save(101));
    data.set_storable(false);
    assert!(!data.is_due_for_save(50));
    data.mark_saved();
    data.set_storable(true);
    assert!(data.is_due_for_save(50));
}
