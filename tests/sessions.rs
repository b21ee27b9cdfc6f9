use codi_time::keys::SESSION_ID_LENGTH;
use codi_time::session::{
    saturating_offset, MemorySessionManager, PersistentSessionManager, Session, SessionConfig,
    SessionConfigFull, SessionManager, SessionManagerConfig, SessionManagerType,
    SECONDS_PER_DAY,
};

fn record(id: &str, user_id: i64, expires: i64) -> Session {
    Session { session_id: id.to_string(), user_id, created: 0, expires }
}

#[test]
fn created_session_is_found_with_its_user() {
    let mut store = MemorySessionManager::new(10, 60_000);
    let s = store.create_session(42).expect("fresh id");
    assert_eq!(s.user_id, 42);
    assert_eq!(s.session_id.len(), SESSION_ID_LENGTH);
    assert_eq!(s.expires, s.created + 60_000);
    let found = store.get_session(&s.session_id).expect("held");
    assert_eq!(found.user_id, 42);
    assert_eq!(found, s);
}

#[test]
fn invalidated_session_is_gone() {
    let mut store = MemorySessionManager::new(0, 60_000);
    let s = store.create_session(1).unwrap();
    store.invalidate(&s.session_id);
    assert!(store.get_session(&s.session_id).is_none());
    store.invalidate(&s.session_id);
    assert!(store.get_session(&s.session_id).is_none());
}

#[test]
fn invalidate_leaves_other_sessions() {
    let mut store = MemorySessionManager::new(4, 60_000);
    let a = store.create_session(1).unwrap();
    let b = store.create_session(2).unwrap();
    store.invalidate(&a.session_id);
    assert_eq!(store.get_session(&b.session_id), Some(b));
}

#[test]
fn session_ids_are_unique() {
    let mut store = MemorySessionManager::new(100, 60_000);
    let mut ids: Vec<String> = Vec::new();
    for user in 0..300 {
        let s = store.create_session(user).unwrap();
        assert!(!ids.contains(&s.session_id));
        ids.push(s.session_id);
    }
    assert_eq!(store.records().len(), 300);
}

#[test]
fn unknown_session_is_not_found() {
    let store = MemorySessionManager::new(1, 1000);
    assert!(store.get_session("").is_none());
    assert!(store.get_session("missing").is_none());
}

#[test]
fn sweep_removes_only_expired_sessions() {
    let records = vec![record("old", 1, 100), record("new", 2, 500)];
    let mut store = MemorySessionManager::from_records(records, 1000, 0);
    store.remove_expired(100);
    assert!(store.get_session("old").is_none());
    assert_eq!(store.get_session("new").map(|s| s.user_id), Some(2));
    store.remove_expired(499);
    assert!(store.get_session("new").is_some());
    store.remove_expired(500);
    assert!(store.get_session("new").is_none());
}

#[test]
fn restore_drops_expired_and_keeps_the_later_duplicate() {
    let records = vec![record("a", 1, 50), record("b", 2, 500), record("b", 3, 600)];
    let store = MemorySessionManager::from_records(records, 1000, 100);
    assert!(store.get_session("a").is_none());
    assert_eq!(store.get_session("b").map(|s| s.user_id), Some(3));
    assert_eq!(store.records().len(), 1);
}

#[test]
fn persistent_store_reports_changes() {
    let mut store = PersistentSessionManager::open("sessions.json".to_string(), vec![record("x", 9, 1_000)], 1000, 0);
    assert_eq!(store.file(), "sessions.json");
    assert!(!store.take_changed());
    assert_eq!(store.get_session("x").map(|s| s.user_id), Some(9));
    let s = store.create_session(5).unwrap();
    assert!(store.take_changed());
    assert!(!store.take_changed());
    let saved = store.records();
    assert_eq!(saved.len(), 2);
    assert!(saved.contains(&s));
    store.invalidate("x");
    assert!(store.take_changed());
    assert!(store.get_session("x").is_none());
}

#[test]
fn configuration_selects_the_backend() {
    let config = SessionConfig::default();
    let mut memory = SessionManagerType::new(SessionManagerConfig::Memory { start_size: 8 }, &config, vec![record("x", 1, i64::MAX)], 0);
    assert!(matches!(memory, SessionManagerType::Memory(_)));
    assert!(memory.get_session("x").is_none());
    let s = memory.create_session(3).unwrap();
    assert_eq!(s.expires, s.created + SECONDS_PER_DAY * 1000);

    let file = SessionManagerType::new(SessionManagerConfig::File { file: "s.json".to_string() }, &config, vec![record("x", 1, i64::MAX)], 0);
    assert!(matches!(file, SessionManagerType::File(_)));
    assert_eq!(file.get_session("x").map(|s| s.user_id), Some(1));
}

#[test]
fn default_session_settings() {
    let full = SessionConfigFull::default();
    assert_eq!(full.manager, SessionManagerConfig::Memory { start_size: 100 });
    assert_eq!(full.session_config.cookie_name, "session");
    assert!(full.session_config.allow_in_header);
    assert_eq!(full.session_config.session_lifetime, 86_400);
    assert_eq!(full.session_config.lifetime_millis(), 86_400_000);
}

#[test]
fn lifetimes_saturate() {
    let config = SessionConfig { session_lifetime: i64::MAX / 10, ..SessionConfig::default() };
    assert_eq!(config.lifetime_millis(), i64::MAX);
    assert_eq!(saturating_offset(i64::MAX - 5, 10), i64::MAX);
    assert_eq!(saturating_offset(i64::MIN + 5, -10), i64::MIN);
    assert_eq!(saturating_offset(1000, 234), 1234);
}

#[test]
fn expiry_is_inclusive() {
    let s = record("s", 1, 100);
    assert!(!s.is_expired(99));
    assert!(s.is_expired(100));
}

#[test]
fn revoking_a_user_ends_only_their_sessions() {
    let mut store = MemorySessionManager::new(4, 60_000);
    let a1 = store.create_session(1).unwrap();
    let a2 = store.create_session(1).unwrap();
    let b = store.create_session(2).unwrap();
    store.invalidate_user(1);
    assert!(store.get_session(&a1.session_id).is_none());
    assert!(store.get_session(&a2.session_id).is_none());
    assert_eq!(store.get_session(&b.session_id), Some(b));
}

#[test]
fn insert_if_free_only_takes_unused_ids() {
    let mut store = MemorySessionManager::new(2, 500);
    let s = store.insert_if_free("abc".to_string(), 4, 1000).expect("free");
    assert_eq!(s, Session { session_id: "abc".to_string(), user_id: 4, created: 1000, expires: 1500 });
    assert_eq!(store.insert_if_free("abc".to_string(), 5, 2000), None);
    assert_eq!(store.get_session("abc").map(|s| s.user_id), Some(4));
}

#[test]
fn fresh_store_always_creates_a_session() {
    let mut store = MemorySessionManager::new(0, 500);
    assert!(store.create_session(1).is_ok());
}
