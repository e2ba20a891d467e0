use axum_session::reconcile::{after_write, holds, without_saved};
use axum_session::store::{read_answer, revive};
use axum_session::{PoolError, StoredRow};
use axum_session::{
    DatabasePool, MemoryPool, Session, SessionConfig, SessionError, SessionID, SessionStore,
};

const TABLE: &str = "sessions";

fn config() -> SessionConfig {
    SessionConfig::default().with_lifespan(100).with_longterm_lifespan(1_000)
}

fn record() -> Vec<u8> {
    vec![0, 0, 0, 0, 0, 0, 0, 0, 0]
}

#[test]
fn the_memory_pool_keeps_one_row_per_table_and_identifier() {
    let mut pool = MemoryPool::new();
    let id = SessionID::from_u128(1);
    assert!(!pool.is_present(id, TABLE).unwrap());
    assert!(pool.load(id, TABLE).unwrap().is_none());
    pool.save(id, vec![1, 2, 3], 50, TABLE).unwrap();
    pool.save(id, vec![4, 5], 60, "other").unwrap();
    assert!(pool.is_present(id, TABLE).unwrap());
    assert!(!pool.is_present(SessionID::from_u128(2), TABLE).unwrap());
    let row = pool.load(id, TABLE).unwrap().unwrap();
    assert_eq!(row.data, vec![1, 2, 3]);
    assert_eq!(row.expiry, 50);
    pool.save(id, vec![9], 70, TABLE).unwrap();
    let row = pool.load(id, TABLE).unwrap().unwrap();
    assert_eq!(row.data, vec![9]);
    assert_eq!(row.expiry, 70);
    assert_eq!(pool.count(TABLE).unwrap(), 1);
    assert_eq!(pool.count("other").unwrap(), 1);
    assert_eq!(pool.count("none").unwrap(), 0);
    pool.delete(id, TABLE).unwrap();
    pool.delete(id, TABLE).unwrap();
    assert!(!pool.is_present(id, TABLE).unwrap());
    assert_eq!(pool.load(id, "other").unwrap().unwrap().data, vec![4, 5]);
}

#[test]
fn cleanup_purges_the_expired_rows_of_one_table() {
    let mut pool = MemoryPool::new();
    for value in 1..=6u128 {
        pool.save(SessionID::from_u128(value), record(), (value * 10) as i64, TABLE).unwrap();
    }
    pool.save(SessionID::from_u128(1), record(), 10, "other").unwrap();
    pool.cleanup(TABLE, 40).unwrap();
    assert_eq!(pool.count(TABLE).unwrap(), 3);
    assert!(!pool.is_present(SessionID::from_u128(3), TABLE).unwrap());
    assert!(pool.is_present(SessionID::from_u128(4), TABLE).unwrap());
    assert!(pool.is_present(SessionID::from_u128(6), TABLE).unwrap());
    assert!(pool.is_present(SessionID::from_u128(1), "other").unwrap());
    assert_eq!(pool.load(SessionID::from_u128(5), TABLE).unwrap().unwrap().expiry, 50);
}

#[test]
fn a_failing_pool_fails_every_call_and_keeps_its_rows() {
    let mut pool = MemoryPool::new();
    let id = SessionID::from_u128(1);
    pool.save(id, record(), 50, TABLE).unwrap();
    pool.set_failing(true);
    assert!(pool.is_present(id, TABLE).is_err());
    assert!(pool.load(id, TABLE).is_err());
    assert!(pool.save(id, record(), 60, TABLE).is_err());
    assert!(pool.delete(id, TABLE).is_err());
    assert!(pool.count(TABLE).is_err());
    assert!(pool.cleanup(TABLE, 100).is_err());
    assert_eq!(pool.count(TABLE).unwrap_err().message, "the backing store is out of reach");
    pool.set_failing(false);
    assert_eq!(pool.load(id, TABLE).unwrap().unwrap().expiry, 50);
}

#[test]
fn a_session_survives_a_restart() {
    let mut store = SessionStore::new(Some(MemoryPool::new()), config());
    let session = Session::new(&store, None).unwrap();
    let id = session.get_session_id();
    session.set(&mut store, "user", "\"ada\"".to_string(), 10);
    session.set(&mut store, "count", "3".to_string(), 11);
    session.set_longterm(&mut store, true, 12);
    assert!(store.sweep(20).complete);
    let pool = store.into_persistence().unwrap();

    let mut restarted = SessionStore::new(Some(pool), config());
    assert!(!restarted.is_resident(id));
    let again = Session::new(&restarted, Some(&id.inner())).unwrap();
    assert_eq!(again.get(&mut restarted, "user", 30), Some("\"ada\"".to_string()));
    assert_eq!(again.get(&mut restarted, "count", 30), Some("3".to_string()));
    let data = restarted.peek(id).unwrap();
    assert!(data.is_longterm());
    assert_eq!(data.expiry(), 1_012);
    assert_eq!(data.last_seen(), 30);
    assert!(data.is_storable());
    assert!(!data.is_dirty());
}

#[test]
fn a_row_that_is_no_record_gives_an_empty_session() {
    let mut pool = MemoryPool::new();
    let id = SessionID::from_u128(1);
    pool.save(id, vec![7, 7, 7], 900, TABLE).unwrap();
    let mut store = SessionStore::new(Some(pool), config());
    assert_eq!(store.get(id, "a", 10), None);
    assert_eq!(store.peek(id).unwrap().expiry(), 110);
}

#[test]
fn a_failing_load_gives_an_empty_session() {
    let mut store = SessionStore::new(Some(MemoryPool::new()), config());
    let id = SessionID::from_u128(1);
    store.set(id, "a", "1".to_string(), 10);
    assert!(store.sweep(20).complete);
    let mut pool = store.into_persistence().unwrap();
    pool.set_failing(true);
    let mut restarted = SessionStore::new(Some(pool), config());
    assert_eq!(restarted.get(id, "a", 30), None);
    assert!(restarted.is_resident(id));
}

#[test]
fn count_fails_where_the_pool_is_out_of_reach() {
    let mut pool = MemoryPool::new();
    pool.set_failing(true);
    let store = SessionStore::new(Some(pool), config());
    match store.count_sessions(10) {
        Err(SessionError::PersistenceUnavailable(cause)) => {
            assert_eq!(cause.message, "the backing store is out of reach")
        }
        _ => panic!("the count of a pool that is out of reach is unknown"),
    }
}

#[test]
fn a_sweep_that_fails_keeps_the_cache_and_tries_again() {
    let mut store = SessionStore::new(Some(MemoryPool::new()), config());
    let kept = SessionID::from_u128(1);
    let gone = SessionID::from_u128(2);
    store.set(kept, "a", "1".to_string(), 10);
    store.set(gone, "b", "2".to_string(), 10);
    assert!(store.sweep(20).complete);
    store.set(kept, "a", "changed".to_string(), 21);
    store.destroy(gone, 21);

    let mut pool = store.into_persistence().unwrap();
    pool.set_failing(true);
    let mut store = SessionStore::new(Some(pool), config());
    store.set(kept, "a", "changed".to_string(), 22);
    store.destroy(gone, 22);
    let report = store.sweep(30);
    assert!(!report.complete);
    assert_eq!(report.purged, 1);
    assert!(!store.is_resident(gone));
    assert!(store.is_doomed(gone));
    assert!(store.peek(kept).unwrap().is_dirty());
    assert_eq!(store.get(kept, "a", 31), Some("changed".to_string()));
    assert_eq!(store.get(gone, "b", 31), None);

    let mut pool = store.into_persistence().unwrap();
    pool.set_failing(false);
    assert!(pool.is_present(gone, TABLE).unwrap());
    let mut store = SessionStore::new(Some(pool), config());
    store.set(kept, "a", "changed".to_string(), 40);
    store.destroy(gone, 40);
    assert!(store.sweep(50).complete);
    let pool = store.persistence().unwrap();
    assert!(!pool.is_present(gone, TABLE).unwrap());
    assert!(pool.is_present(kept, TABLE).unwrap());
}

#[test]
fn a_deletion_that_failed_is_retried_by_the_next_sweep() {
    let mut pool = MemoryPool::new();
    let id = SessionID::from_u128(1);
    pool.save(id, record(), 900, TABLE).unwrap();
    pool.set_failing(true);
    let mut store = SessionStore::new(Some(pool), config());
    store.set_store(id, false, 10);
    assert!(store.is_doomed(id));
    assert!(!store.sweep(20).complete);
    assert!(store.is_doomed(id));
    assert!(store.is_resident(id));
    assert!(!store.sweep(30).complete);
    assert!(store.is_doomed(id));
}

#[test]
fn rows_of_other_tables_are_left_alone() {
    let mut pool = MemoryPool::new();
    let id = SessionID::from_u128(1);
    pool.save(id, record(), 5, "other").unwrap();
    pool.save(id, record(), 5, TABLE).unwrap();
    let mut store = SessionStore::new(Some(pool), config());
    assert!(store.sweep(100).complete);
    let pool = store.persistence().unwrap();
    assert!(pool.is_present(id, "other").unwrap());
    assert!(!pool.is_present(id, TABLE).unwrap());
}

#[test]
fn revive_reads_a_row_or_makes_a_new_session() {
    let mut data = axum_session::SessionData::new(0, 0);
    data.set("a", "1".to_string());
    let row = axum_session::StoredRow { data: data.encode(), expiry: 700 };
    let read = revive(Some(row), 100, 10);
    assert_eq!(read.get("a"), Some("1".to_string()));
    assert_eq!(read.expiry(), 700);
    assert_eq!(read.last_seen(), 10);
    let broken = axum_session::StoredRow { data: vec![9], expiry: 700 };
    let made = revive(Some(broken), 100, 10);
    assert_eq!(made.get("a"), None);
    assert_eq!(made.expiry(), 110);
    let none = revive(None, 100, 10);
    assert_eq!(none.expiry(), 110);
    assert_eq!(none.last_seen(), 10);
}

#[test]
fn a_row_that_has_expired_is_not_read() {
    let mut data = axum_session::SessionData::new(0, 0);
    data.set("a", "1".to_string());
    let row = axum_session::StoredRow { data: data.encode(), expiry: 50 };
    let at_expiry = revive(Some(row), 100, 50);
    assert_eq!(at_expiry.get("a"), Some("1".to_string()));
    let row = axum_session::StoredRow { data: data.encode(), expiry: 50 };
    let late = revive(Some(row), 100, 51);
    assert_eq!(late.get("a"), None);
    assert_eq!(late.expiry(), 151);

    let mut pool = MemoryPool::new();
    let id = SessionID::from_u128(1);
    pool.save(id, data.encode(), 50, TABLE).unwrap();
    let mut store = SessionStore::new(Some(pool), config());
    assert_eq!(store.get(id, "a", 60), None);
}

#[test]
fn a_failed_load_counts_as_no_row() {
    let row = StoredRow { data: vec![1, 2], expiry: 9 };
    let read = read_answer(Ok(Some(row))).unwrap();
    assert_eq!(read.data, vec![1, 2]);
    assert_eq!(read.expiry, 9);
    assert!(read_answer(Ok(None)).is_none());
    assert!(read_answer(Err(PoolError { message: "down".to_string() })).is_none());
}

#[test]
fn a_session_is_saved_only_where_its_write_succeeded() {
    let mut data = axum_session::SessionData::new(100, 0);
    data.set("a", "1".to_string());
    assert!(data.is_dirty());
    let failed = after_write(data, &Err(PoolError { message: "down".to_string() }));
    assert!(failed.is_dirty());
    assert_eq!(failed.get("a"), Some("1".to_string()));
    let written = after_write(failed, &Ok(()));
    assert!(!written.is_dirty());
    assert_eq!(written.get("a"), Some("1".to_string()));
}

#[test]
fn a_sweep_reports_the_sessions_whose_write_failed() {
    let mut pool = MemoryPool::new();
    pool.set_failing(true);
    let mut store = SessionStore::new(Some(pool), config());
    let due = SessionID::from_u128(1);
    let clean = SessionID::from_u128(2);
    store.set(due, "a", "1".to_string(), 10);
    store.load_session(clean, 10);
    let report = store.sweep(20);
    assert!(!report.complete);
    assert_eq!(report.unsaved, vec![due]);
    assert!(store.peek(due).unwrap().is_dirty());
    assert!(!store.peek(clean).unwrap().is_dirty());

    let mut pool = store.into_persistence().unwrap();
    pool.set_failing(false);
    let mut store = SessionStore::new(Some(pool), config());
    store.set(due, "a", "1".to_string(), 30);
    let report = store.sweep(40);
    assert!(report.complete);
    assert!(report.unsaved.is_empty());
    assert!(!store.peek(due).unwrap().is_dirty());
    assert!(store.persistence().unwrap().is_present(due, TABLE).unwrap());
}

#[test]
fn the_rows_of_written_sessions_leave_the_queue() {
    let saved = vec![SessionID::from_u128(2), SessionID::from_u128(4)];
    assert!(holds(&saved, 2));
    assert!(holds(&saved, 4));
    assert!(!holds(&saved, 3));
    assert!(!holds(&Vec::new(), 2));
    assert_eq!(without_saved(&vec![1, 2, 3, 2, 4, 5], &saved), vec![1, 3, 5]);
    assert_eq!(without_saved(&vec![1, 2], &Vec::new()), vec![1, 2]);
    assert_eq!(without_saved(&Vec::new(), &saved), Vec::<u128>::new());
}

#[test]
fn the_purge_of_expired_rows_can_fail_alone() {
    let mut pool = MemoryPool::new();
    let id = SessionID::from_u128(1);
    pool.set_refusing_cleanup(true);
    pool.save(id, record(), 5, TABLE).unwrap();
    assert!(pool.is_present(id, TABLE).unwrap());
    assert!(pool.cleanup(TABLE, 100).is_err());
    assert!(pool.is_present(id, TABLE).unwrap());
    pool.delete(id, TABLE).unwrap();
    pool.save(id, record(), 5, TABLE).unwrap();
    pool.set_refusing_cleanup(false);
    pool.cleanup(TABLE, 100).unwrap();
    assert!(!pool.is_present(id, TABLE).unwrap());
}
