use axum_session::{MemoryPool, Session, SessionConfig, SessionID, SessionStore};

#[test]
fn default_settings_have_the_documented_values() {
    let config = SessionConfig::default();
    assert_eq!(config.cookie_name, "session");
    assert_eq!(config.table_name, "sessions");
    assert_eq!(config.default_lifespan, 21_600);
    assert_eq!(config.longterm_lifespan, 5_184_000);
    assert_eq!(config.sweep_interval, 3_600);
    assert_eq!(config.max_attempts, 16);
    assert!(config.persistence_enabled);
}

#[test]
fn builders_change_one_setting_each() {
    let config = SessionConfig::default()
        .with_cookie_name("sid")
        .with_table_name("sessions_table")
        .with_lifespan(10)
        .with_longterm_lifespan(20)
        .with_sweep_interval(30)
        .with_max_attempts(4)
        .with_persistence(false);
    assert_eq!(config.cookie_name, "sid");
    assert_eq!(config.table_name, "sessions_table");
    assert_eq!(config.default_lifespan, 10);
    assert_eq!(config.longterm_lifespan, 20);
    assert_eq!(config.sweep_interval, 30);
    assert_eq!(config.max_attempts, 4);
    assert!(!config.persistence_enabled);
}

#[test]
fn a_store_without_a_pool_is_not_persistent() {
    let store: SessionStore<MemoryPool> = SessionStore::new(None, SessionConfig::default());
    assert!(!store.is_persistent());
    assert!(store.persistence().is_none());
    assert_eq!(store.last_sweep(), 0);
}

#[test]
fn a_pool_is_dropped_where_persistence_is_disabled() {
    let config = SessionConfig::default().with_persistence(false);
    let store = SessionStore::new(Some(MemoryPool::new()), config);
    assert!(!store.is_persistent());
}

#[test]
fn a_pool_is_used_where_persistence_is_enabled() {
    let store = SessionStore::new(Some(MemoryPool::new()), SessionConfig::default());
    assert!(store.is_persistent());
    assert_eq!(store.config().table_name, "sessions");
}

#[test]
fn a_handle_carries_its_identifier() {
    let id = SessionID::from_u128(7);
    let session = Session::from_id(id);
    assert_eq!(session.get_session_id(), id);
    assert_eq!(session.get_session_id().as_u128(), 7);
}
