use clawdbot_server::bot_logic::ChatSession;
use clawdbot_server::routes::new_session;
use clawdbot_server::session_store::{SessionStore, DEFAULT_MAX_HISTORY, SESSION_TTL_MILLIS};

#[test]
fn idle_sessions_are_evicted() {
    let mut store = SessionStore::new();
    store.get_or_create(1, 0);
    store.get_or_create(2, 0);
    store.get_or_create(3, 0);
    assert!(store.record_exchange(2, "u", "r", 1_500_000));
    let now = 2_000_000;
    let removed = store.evict_idle(now, SESSION_TTL_MILLIS);
    assert_eq!(removed, 2);
    assert!(!store.contains(1));
    assert!(store.contains(2));
    assert!(!store.contains(3));
    assert_eq!(store.len(), 1);
}

#[test]
fn eviction_at_exact_ttl_removes() {
    let mut store = SessionStore::new();
    store.get_or_create(9, 100);
    assert_eq!(store.evict_idle(100 + SESSION_TTL_MILLIS, SESSION_TTL_MILLIS), 1);
    store.get_or_create(9, 100);
    assert_eq!(store.evict_idle(99 + SESSION_TTL_MILLIS, SESSION_TTL_MILLIS), 0);
}

#[test]
fn get_or_create_keeps_existing() {
    let mut store = SessionStore::new();
    store.get_or_create(5, 10);
    store.record_exchange(5, "a", "b", 20);
    store.get_or_create(5, 30);
    let s = store.get(5).unwrap();
    assert_eq!(s.messages.len(), 2);
    assert_eq!(s.max_history, DEFAULT_MAX_HISTORY);
    assert_eq!(s.created_at, 10);
    assert_eq!(store.len(), 1);
}

#[test]
fn record_exchange_on_missing_session() {
    let mut store = SessionStore::new();
    assert!(!store.record_exchange(5, "a", "b", 20));
    assert_eq!(store.len(), 0);
}

#[test]
fn remove_and_insert() {
    let mut store = SessionStore::new();
    assert_eq!(new_session(&mut store, 77, 3), Some(77));
    store.record_exchange(77, "q", "a", 4);
    assert_eq!(new_session(&mut store, 77, 5), None);
    assert_eq!(store.get(77).unwrap().messages.len(), 2);
    assert!(store.contains(77));
    store.insert(ChatSession::with_id(77, 4, 9));
    assert_eq!(store.len(), 1);
    assert_eq!(store.get(77).unwrap().max_history, 4);
    assert!(store.remove(77));
    assert!(!store.remove(77));
    assert_eq!(store.len(), 0);
}

#[test]
fn exchanges_respect_window() {
    let mut store = SessionStore::new();
    store.insert(ChatSession::with_id(1, 1, 0));
    store.record_exchange(1, "q1", "a1", 1);
    store.record_exchange(1, "q2", "a2", 2);
    let s = store.get(1).unwrap();
    let contents: Vec<&str> = s.messages.iter().map(|m| m.content.as_str()).collect();
    assert_eq!(contents, vec!["q2", "a2"]);
}
