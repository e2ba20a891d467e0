use axum_session::{
    CrowdedPool, DatabasePool, MemoryPool, Session, SessionConfig, SessionData, SessionError,
    SessionID, SessionStore,
};
use axum_session::data::deadline_after;

const TABLE: &str = "sessions";

fn config() -> SessionConfig {
    SessionConfig::default()
        .with_lifespan(100)
        .with_longterm_lifespan(1_000)
        .with_sweep_interval(60)
}

fn memory_store() -> SessionStore<MemoryPool> {
    SessionStore::new(None, config())
}

fn persistent_store() -> SessionStore<MemoryPool> {
    SessionStore::new(Some(MemoryPool::new()), config())
}

fn has_row(store: &SessionStore<MemoryPool>, id: SessionID) -> bool {
    store.persistence().unwrap().is_present(id, TABLE).unwrap()
}

#[test]
fn deadline_adds_the_lifespan_and_stops_at_the_largest_instant() {
    assert_eq!(deadline_after(0, 0), 0);
    assert_eq!(deadline_after(10, 100), 110);
    assert_eq!(deadline_after(-50, 20), -30);
    assert_eq!(deadline_after(i64::MIN, u32::MAX), i64::MIN + 4_294_967_295);
    assert_eq!(deadline_after(i64::MAX - 10, 10), i64::MAX);
    assert_eq!(deadline_after(i64::MAX - 10, 11), i64::MAX);
    assert_eq!(deadline_after(i64::MAX, u32::MAX), i64::MAX);
}

#[test]
fn set_longterm_restarts_the_lifespan_from_now() {
    let mut store = memory_store();
    let session = Session::new(&store, None).unwrap();
    let id = session.get_session_id();
    session.set(&mut store, "a", "1".to_string(), 10);
    assert_eq!(store.peek(id).unwrap().expiry(), 110);
    session.set_longterm(&mut store, true, 50);
    assert!(store.peek(id).unwrap().is_longterm());
    assert_eq!(store.peek(id).unwrap().expiry(), 1_050);
    session.set_longterm(&mut store, false, 70);
    assert!(!store.peek(id).unwrap().is_longterm());
    assert_eq!(store.peek(id).unwrap().expiry(), 170);
    assert_eq!(session.get(&mut store, "a", 71), Some("1".to_string()));
}

#[test]
fn set_longterm_stops_at_the_largest_instant() {
    let mut store = memory_store();
    let id = SessionID::from_u128(1);
    store.set_longterm(id, true, i64::MAX - 5);
    assert_eq!(store.peek(id).unwrap().expiry(), i64::MAX);
}

#[test]
fn destroy_is_visible_only_after_the_sweep() {
    let mut store = persistent_store();
    let session = Session::new(&store, None).unwrap();
    let id = session.get_session_id();
    session.set(&mut store, "a", "1".to_string(), 10);
    assert!(store.sweep(11).complete);
    assert!(has_row(&store, id));

    session.destroy(&mut store, 20);
    assert!(store.peek(id).unwrap().is_pending_destroy());
    assert_eq!(session.get(&mut store, "a", 21), Some("1".to_string()));

    let report = store.sweep(30);
    assert!(report.complete);
    assert_eq!(report.purged, 1);
    assert!(!store.is_resident(id));
    assert!(!has_row(&store, id));

    assert_eq!(session.get(&mut store, "a", 31), None);
    assert_eq!(session.get(&mut store, "anything", 31), None);
    let data = store.peek(id).unwrap();
    assert!(!data.is_pending_destroy());
    assert_eq!(data.expiry(), 131);
}

#[test]
fn renew_preserves_data_and_changes_identity() {
    let mut store = persistent_store();
    let mut session = Session::new(&store, None).unwrap();
    let old = session.get_session_id();
    session.set(&mut store, "a", "1".to_string(), 10);
    assert!(store.sweep(11).complete);
    assert!(has_row(&store, old));
    assert_eq!(session.count(&store, 12).unwrap(), 1);

    let fresh = session.renew(&mut store, 20).unwrap();
    assert_ne!(fresh, old);
    assert_eq!(session.get_session_id(), fresh);
    assert!(!store.is_resident(old));
    assert!(store.is_doomed(old));
    assert_eq!(session.get(&mut store, "a", 21), Some("1".to_string()));
    assert_eq!(store.get(fresh, "a", 21), Some("1".to_string()));

    assert!(store.sweep(30).complete);
    assert!(!has_row(&store, old));
    assert!(has_row(&store, fresh));
    assert!(!store.is_doomed(old));
    assert_eq!(session.count(&store, 31).unwrap(), 1);
}

#[test]
fn a_renewed_identifier_gives_an_empty_session() {
    let mut store = persistent_store();
    let mut session = Session::new(&store, None).unwrap();
    let old = session.get_session_id();
    session.set(&mut store, "a", "1".to_string(), 10);
    assert!(store.sweep(11).complete);
    session.renew(&mut store, 20).unwrap();
    assert_eq!(store.get(old, "a", 21), None);
}

#[test]
fn renew_fails_without_a_change_where_no_identifier_can_be_had() {
    let mut store: SessionStore<MemoryPool> =
        SessionStore::new(None, config().with_max_attempts(0));
    let mut session = Session::from_id(SessionID::from_u128(5));
    session.set(&mut store, "a", "1".to_string(), 10);
    match session.renew(&mut store, 20) {
        Err(SessionError::DuplicateIDExhaustion) => {}
        _ => panic!("no attempt is allowed"),
    }
    assert_eq!(session.get_session_id(), SessionID::from_u128(5));
    assert_eq!(store.peek(SessionID::from_u128(5)).unwrap().last_seen(), 10);
    assert_eq!(session.get(&mut store, "a", 21), Some("1".to_string()));
}

#[test]
fn an_expired_session_is_swept_and_not_counted() {
    let mut store = memory_store();
    let session = Session::new(&store, None).unwrap();
    let id = session.get_session_id();
    session.set(&mut store, "a", "1".to_string(), 10);
    assert_eq!(session.count(&store, 110).unwrap(), 1);
    assert_eq!(session.count(&store, 111).unwrap(), 0);
    assert_eq!(session.get(&mut store, "a", 50), Some("1".to_string()));

    let early = store.sweep(110);
    assert_eq!(early.purged, 0);
    assert!(store.is_resident(id));

    let report = store.sweep(111);
    assert_eq!(report.purged, 1);
    assert!(report.complete);
    assert!(!store.is_resident(id));
    assert_eq!(session.count(&store, 111).unwrap(), 0);
    assert_eq!(session.get(&mut store, "a", 112), None);
    assert_eq!(store.peek(id).unwrap().expiry(), 212);
}

#[test]
fn an_expired_session_loses_its_row() {
    let mut store = persistent_store();
    let session = Session::new(&store, None).unwrap();
    let id = session.get_session_id();
    session.set(&mut store, "a", "1".to_string(), 10);
    assert!(store.sweep(20).complete);
    assert!(has_row(&store, id));
    assert_eq!(session.count(&store, 20).unwrap(), 1);
    assert!(store.sweep(500).complete);
    assert!(!store.is_resident(id));
    assert!(!has_row(&store, id));
    assert_eq!(session.count(&store, 500).unwrap(), 0);
    assert_eq!(session.get(&mut store, "a", 501), None);
}

#[test]
fn a_session_that_was_accessed_at_the_sweep_instant_stays() {
    let mut store = memory_store();
    let id = SessionID::from_u128(3);
    store.set(id, "a", "1".to_string(), 10);
    assert_eq!(store.get(id, "a", 200), Some("1".to_string()));
    let report = store.sweep(200);
    assert_eq!(report.purged, 0);
    assert!(store.is_resident(id));
    let later = store.sweep(201);
    assert_eq!(later.purged, 1);
    assert!(!store.is_resident(id));
}

#[test]
fn a_session_that_is_not_storable_is_unloaded_but_stays_in_memory() {
    let mut store = persistent_store();
    let session = Session::new(&store, None).unwrap();
    let id = session.get_session_id();
    session.set(&mut store, "a", "1".to_string(), 10);
    assert!(store.sweep(11).complete);
    assert!(has_row(&store, id));

    session.set_store(&mut store, false, 20);
    assert!(!store.peek(id).unwrap().is_storable());
    assert!(store.sweep(30).complete);
    assert!(!has_row(&store, id));
    assert_eq!(session.get(&mut store, "a", 31), Some("1".to_string()));

    session.set(&mut store, "b", "2".to_string(), 32);
    assert!(store.sweep(40).complete);
    assert!(!has_row(&store, id));
}

#[test]
fn a_session_that_becomes_storable_is_written() {
    let mut store = persistent_store();
    let session = Session::new(&store, None).unwrap();
    let id = session.get_session_id();
    session.set_store(&mut store, false, 5);
    session.set(&mut store, "a", "1".to_string(), 10);
    session.set_longterm(&mut store, true, 11);
    assert!(store.sweep(12).complete);
    assert!(!has_row(&store, id));

    session.set_store(&mut store, true, 20);
    assert!(store.peek(id).unwrap().is_dirty());
    assert!(store.sweep(30).complete);
    assert!(!store.peek(id).unwrap().is_dirty());
    let row = store.persistence().unwrap().load(id, TABLE).unwrap().unwrap();
    assert_eq!(row.expiry, 1_011);
    let read = SessionData::decode(&row.data, row.expiry, 30).unwrap();
    assert_eq!(read.get("a"), Some("1".to_string()));
    assert!(read.is_longterm());
    assert_eq!(row.data, store.peek(id).unwrap().encode());
}

#[test]
fn count_without_a_pool_counts_the_live_sessions() {
    let mut store = memory_store();
    assert_eq!(store.count_sessions(0).unwrap(), 0);
    for value in 1..=5u128 {
        store.set(SessionID::from_u128(value), "a", "1".to_string(), 10);
    }
    store.set_longterm(SessionID::from_u128(1), true, 10);
    store.destroy(SessionID::from_u128(2), 10);
    assert_eq!(store.count_sessions(10).unwrap(), 4);
    assert_eq!(store.count_sessions(110).unwrap(), 4);
    assert_eq!(store.count_sessions(111).unwrap(), 1);
    assert_eq!(store.count_sessions(1_011).unwrap(), 0);
}

#[test]
fn count_with_a_pool_counts_the_rows_of_the_table() {
    let mut pool = MemoryPool::new();
    pool.save(SessionID::from_u128(1), vec![0; 9], 1_000, TABLE).unwrap();
    pool.save(SessionID::from_u128(2), vec![0; 9], 1_000, TABLE).unwrap();
    pool.save(SessionID::from_u128(3), vec![0; 9], 1_000, "elsewhere").unwrap();
    let mut store = SessionStore::new(Some(pool), config());
    assert_eq!(store.count_sessions(10).unwrap(), 2);
    store.set(SessionID::from_u128(9), "a", "1".to_string(), 10);
    assert_eq!(store.count_sessions(10).unwrap(), 2);
    assert!(store.sweep(11).complete);
    assert_eq!(store.count_sessions(12).unwrap(), 3);
}

#[test]
fn a_sweep_is_due_when_the_interval_has_passed() {
    let mut store = memory_store();
    assert!(!store.sweep_due(59));
    assert!(store.sweep_due(60));
    assert!(store.sweep_if_due(59).is_none());
    assert_eq!(store.last_sweep(), 0);
    assert!(store.sweep_if_due(75).is_some());
    assert_eq!(store.last_sweep(), 75);
    assert!(!store.sweep_due(134));
    assert!(store.sweep_due(135));
    assert!(!store.sweep_due(-1_000));
    store.sweep(i64::MAX - 10);
    assert!(!store.sweep_due(i64::MAX));
}

#[test]
fn a_sweep_without_an_interval_is_always_due_from_the_last_one_on() {
    let mut store: SessionStore<MemoryPool> =
        SessionStore::new(None, config().with_sweep_interval(0));
    assert!(store.sweep_due(0));
    assert!(!store.sweep_due(-1));
    store.sweep(i64::MAX);
    assert!(store.sweep_due(i64::MAX));
}

#[test]
fn a_sweep_reports_how_many_sessions_it_purged() {
    let mut store = memory_store();
    for value in 1..=6u128 {
        store.set(SessionID::from_u128(value), "a", "1".to_string(), 10);
    }
    store.destroy(SessionID::from_u128(1), 11);
    store.destroy(SessionID::from_u128(2), 11);
    store.set_longterm(SessionID::from_u128(3), true, 11);
    let first = store.sweep(12);
    assert_eq!(first.purged, 2);
    assert!(first.complete);
    let second = store.sweep(500);
    assert_eq!(second.purged, 3);
    assert!(store.is_resident(SessionID::from_u128(3)));
    assert_eq!(store.count_sessions(500).unwrap(), 1);
}

#[test]
fn the_count_after_a_renewal_is_one() {
    let mut pool = MemoryPool::new();
    let old = SessionID::from_u128(77);
    let mut data = SessionData::new(1_000, 0);
    data.set("a", "1".to_string());
    pool.save(old, data.encode(), 1_000, TABLE).unwrap();
    let mut store = SessionStore::new(Some(pool), config());
    assert_eq!(store.count_sessions(5).unwrap(), 1);
    let fresh = store.renew(old, 10).unwrap();
    assert!(store.sweep(20).complete);
    assert_eq!(store.count_sessions(21).unwrap(), 1);
    assert!(!has_row(&store, old));
    assert!(has_row(&store, fresh));
    assert_eq!(store.get(fresh, "a", 22), Some("1".to_string()));
}

#[test]
fn renew_to_moves_the_session_to_the_given_identifier() {
    let mut store = persistent_store();
    let old = SessionID::from_u128(1);
    let fresh = SessionID::from_u128(2);
    store.set(old, "a", "1".to_string(), 10);
    assert!(store.sweep(11).complete);
    assert!(store.renew_to(old, fresh, 20));
    assert!(!store.is_resident(old));
    assert!(store.is_doomed(old));
    assert!(store.peek(fresh).unwrap().is_dirty());
    assert_eq!(store.peek(fresh).unwrap().last_seen(), 20);
    assert_eq!(store.peek(fresh).unwrap().expiry(), 110);
    assert_eq!(store.get(fresh, "a", 21), Some("1".to_string()));
    assert!(store.sweep(30).complete);
    assert!(!has_row(&store, old));
    assert!(has_row(&store, fresh));
}

#[test]
fn renew_to_moves_nothing_onto_a_session_in_memory() {
    let mut store = memory_store();
    let old = SessionID::from_u128(1);
    let other = SessionID::from_u128(2);
    store.set(old, "a", "1".to_string(), 10);
    store.set(other, "b", "2".to_string(), 10);
    assert!(!store.renew_to(old, other, 20));
    assert_eq!(store.peek(old).unwrap().last_seen(), 10);
    assert_eq!(store.get(old, "a", 21), Some("1".to_string()));
    assert_eq!(store.get(other, "b", 21), Some("2".to_string()));
    assert_eq!(store.get(other, "a", 21), None);
    assert!(!store.renew_to(old, old, 22));
}

#[test]
fn renew_changes_nothing_where_every_identifier_is_taken() {
    let mut store = SessionStore::new(Some(CrowdedPool::new()), config().with_max_attempts(3));
    let mut session = Session::from_id(SessionID::from_u128(5));
    match session.renew(&mut store, 20) {
        Err(SessionError::DuplicateIDExhaustion) => {}
        _ => panic!("every identifier is taken"),
    }
    assert_eq!(session.get_session_id(), SessionID::from_u128(5));
    assert!(!store.is_resident(SessionID::from_u128(5)));
    assert!(!store.is_doomed(SessionID::from_u128(5)));
}

#[test]
fn a_row_that_a_failing_sweep_wrote_is_kept_by_the_next_sweep() {
    let mut pool = MemoryPool::new();
    pool.set_refusing_cleanup(true);
    let mut store = SessionStore::new(Some(pool), config());
    let written = SessionID::from_u128(1);
    let gone = SessionID::from_u128(2);
    store.set(written, "a", "1".to_string(), 10);
    store.set(gone, "b", "2".to_string(), 10);
    store.set_store(written, false, 11);
    store.set_store(written, true, 12);
    store.destroy(gone, 12);
    assert!(store.is_doomed(written));

    let report = store.sweep(20);
    assert!(!report.complete);
    assert!(report.unsaved.is_empty());
    assert_eq!(report.purged, 1);
    assert!(has_row(&store, written));
    assert!(!store.is_doomed(written));
    assert!(store.is_doomed(gone));
    assert!(!store.peek(written).unwrap().is_dirty());

    let mut pool = store.into_persistence().unwrap();
    pool.set_refusing_cleanup(false);
    assert!(pool.is_present(written, TABLE).unwrap());
    let mut store = SessionStore::new(Some(pool), config());
    assert_eq!(store.get(written, "a", 30), Some("1".to_string()));
    assert!(store.sweep(40).complete);
    assert!(has_row(&store, written));
    assert!(!has_row(&store, gone));
}

#[test]
fn a_sweep_that_fails_in_part_keeps_the_written_row_in_the_same_store() {
    let mut pool = MemoryPool::new();
    pool.set_refusing_cleanup(true);
    let mut store = SessionStore::new(Some(pool), config());
    let id = SessionID::from_u128(1);
    store.set(id, "a", "1".to_string(), 10);
    store.set_store(id, false, 11);
    store.set_store(id, true, 12);
    assert!(!store.sweep(20).complete);
    assert!(!store.sweep(30).complete);
    assert!(has_row(&store, id));
    assert!(!store.is_doomed(id));
    assert_eq!(store.get(id, "a", 31), Some("1".to_string()));
}
