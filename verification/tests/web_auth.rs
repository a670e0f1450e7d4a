use std::time::Instant;
use vendctl::web::auth::{
    check_session_at, generate_token, is_valid_session, login, logout, token_from_nanos,
    SessionStore, SESSION_TIMEOUT_NANOS,
};

fn active_token(store: &SessionStore) -> Option<String> {
    store.active.as_ref().map(|s| s.token.clone())
}

#[test]
fn token_is_prefix_and_clock_reading() {
    assert_eq!(token_from_nanos(0), "esp32_session_0");
    assert_eq!(token_from_nanos(1725029869000000001), "esp32_session_1725029869000000001");
}

#[test]
fn generated_token_has_prefix_and_digits() {
    let t = generate_token();
    let digits = t.strip_prefix("esp32_session_").expect("prefix");
    assert!(!digits.is_empty());
    assert!(digits.chars().all(|c| c.is_ascii_digit()));
}

#[test]
fn login_then_session_is_valid() {
    let mut store = SessionStore::new();
    assert!(store.active.is_none());
    let t = login(&mut store);
    assert_eq!(active_token(&store), Some(t.clone()));
    assert!(is_valid_session(&mut store, &t));
    assert_eq!(active_token(&store), Some(t));
}

#[test]
fn wrong_token_is_refused_and_changes_nothing() {
    let mut store = SessionStore::new();
    let t = login(&mut store);
    let seen = store.active.as_ref().unwrap().last_seen;
    assert!(!is_valid_session(&mut store, "esp32_session_1"));
    assert_eq!(active_token(&store), Some(t));
    assert_eq!(store.active.as_ref().unwrap().last_seen, seen);
}

#[test]
fn no_session_refuses_everything() {
    let mut store = SessionStore::new();
    assert!(!is_valid_session(&mut store, ""));
    assert!(!is_valid_session(&mut store, "esp32_session_5"));
    assert!(store.active.is_none());
}

#[test]
fn logout_ends_only_the_matching_session() {
    let mut store = SessionStore::new();
    let t = login(&mut store);
    logout(&mut store, "someone-else");
    assert_eq!(active_token(&store), Some(t.clone()));
    logout(&mut store, &t);
    assert!(store.active.is_none());
    assert!(!is_valid_session(&mut store, &t));
}

#[test]
fn a_new_login_replaces_the_old_session() {
    let mut store = SessionStore::new();
    let first = login(&mut store);
    let mut second = login(&mut store);
    while second == first {
        second = login(&mut store);
    }
    assert!(!is_valid_session(&mut store, &first));
    assert!(is_valid_session(&mut store, &second));
}

#[test]
fn check_at_the_timeout_expires_the_session() {
    let mut store = SessionStore::new();
    let t = login(&mut store);
    let now = Instant::now();
    assert!(check_session_at(&mut store, &t, SESSION_TIMEOUT_NANOS - 1, now));
    assert_eq!(store.active.as_ref().unwrap().last_seen, now);
    assert!(!check_session_at(&mut store, &t, SESSION_TIMEOUT_NANOS, now));
    assert!(store.active.is_none());
    assert!(!check_session_at(&mut store, &t, 0, now));
}

#[test]
fn fifteen_minutes_is_the_timeout() {
    assert_eq!(SESSION_TIMEOUT_NANOS, 15 * 60 * 1_000_000_000);
}
