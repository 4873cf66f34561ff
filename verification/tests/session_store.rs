//! The session store driven end to end against an in-memory key-value
//! map standing in for the external service.

use madoka_auth::session::{generate, resolve_record, session_key, Session};
use madoka_auth::tokens::new_token;
use std::collections::HashMap;

struct FakeStore {
    map: HashMap<String, String>,
}

impl FakeStore {
    fn new() -> FakeStore {
        FakeStore { map: HashMap::new() }
    }

    fn set(&mut self, key: String, value: String) {
        self.map.insert(key, value);
    }

    fn get(&self, key: &str) -> Option<&String> {
        self.map.get(key)
    }

    fn del(&mut self, key: &str) {
        self.map.remove(key);
    }
}

fn create(store: &mut FakeStore, uid: i32, now: u64) -> String {
    let token = new_token();
    let session = generate(uid, now);
    store.set(session_key(&token), session.to_record());
    token
}

fn resolve(store: &FakeStore, token: &str, now: u64) -> Option<Session> {
    resolve_record(store.get(&session_key(token)), now)
}

#[test]
fn session_key_is_namespaced() {
    assert_eq!(session_key("abc"), "session-abc");
    assert_eq!(session_key(""), "session-");
}

#[test]
fn tokens_are_distinct() {
    let a = new_token();
    let b = new_token();
    assert_eq!(a.len(), 36);
    assert_eq!(b.len(), 36);
    assert_ne!(a, b);
}

#[test]
fn created_session_resolves_until_expiry() {
    let mut store = FakeStore::new();
    let token = create(&mut store, 9, 1000);
    let s = resolve(&store, &token, 1000).expect("fresh session must resolve");
    assert_eq!(s.uid, 9);
    assert_eq!(s.exp, 1000 + madoka_auth::SESSION_LIFETIME_SECS);
    // Past the expiry the same record no longer resolves.
    assert_eq!(resolve(&store, &token, s.exp), None);
}

#[test]
fn invalidate_kills_the_session() {
    let mut store = FakeStore::new();
    let token = create(&mut store, 9, 1000);
    assert!(resolve(&store, &token, 1000).is_some());
    store.del(&session_key(&token));
    assert_eq!(resolve(&store, &token, 1000), None);
    // Invalidation is idempotent: deleting again changes nothing.
    store.del(&session_key(&token));
    assert_eq!(resolve(&store, &token, 1000), None);
}

#[test]
fn two_logins_give_independent_sessions() {
    let mut store = FakeStore::new();
    let t1 = create(&mut store, 7, 1000);
    let t2 = create(&mut store, 7, 1500);
    assert_ne!(t1, t2);
    let s1 = resolve(&store, &t1, 1600).expect("first session valid");
    let s2 = resolve(&store, &t2, 1600).expect("second session valid");
    assert_eq!(s1.uid, 7);
    assert_eq!(s2.uid, 7);
    store.del(&session_key(&t1));
    assert_eq!(resolve(&store, &t1, 1600), None);
    assert_eq!(
        resolve(&store, &t2, 1600),
        Some(s2),
        "invalidating one session must not affect the other"
    );
}

#[test]
fn unknown_token_does_not_resolve() {
    let mut store = FakeStore::new();
    let _ = create(&mut store, 7, 1000);
    assert_eq!(resolve(&store, "some-other-token", 1000), None);
}
