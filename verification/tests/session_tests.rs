use stalwart_panel::config::SessionManager as SessionConfig;
use stalwart_panel::session::{create_session_id, Session, SessionManager};
use stalwart_panel::store::{SessionDb, SessionRecord};

fn manager() -> SessionManager {
    SessionManager::new_in_memory(SessionConfig::default()).expect("in-memory store")
}

#[test]
fn created_session_is_returned_by_lookup() {
    let mut manager = manager();
    let session = manager.create_session(7, 86_400_000, 1_700_000_000_000).expect("create");
    assert_eq!(session.user_id, 7);
    assert_eq!(session.created, 1_700_000_000_000);
    assert_eq!(session.expires, 1_700_000_000_000 + 86_400_000);
    assert_eq!(session.session_id.len(), 7);

    let found = manager
        .get_session(session.session_id.as_str())
        .expect("lookup")
        .expect("session present");
    assert_eq!(found, session);
}

#[test]
fn deleted_session_is_gone() {
    let mut manager = manager();
    let session = manager.create_session(3, 1000, 50_000).expect("create");
    let removed = manager
        .delete_session(session.session_id.as_str())
        .expect("delete")
        .expect("was present");
    assert_eq!(removed, session);
    assert!(manager
        .get_session(session.session_id.as_str())
        .expect("lookup")
        .is_none());
}

#[test]
fn sweep_removes_exactly_the_expired_session() {
    let mut manager = manager();
    let now: i64 = 1_000_000;
    let expired = manager.create_session(1, 10, now - 1000).expect("create");
    let live = manager.create_session(2, 1_000_000, now).expect("create");

    let removed = manager.clean_inner(now).expect("sweep");
    assert_eq!(removed, 1);
    assert!(manager
        .get_session(expired.session_id.as_str())
        .expect("lookup")
        .is_none());
    let still_there = manager
        .get_session(live.session_id.as_str())
        .expect("lookup")
        .expect("live session kept");
    assert_eq!(still_there, live);
}

#[test]
fn sweep_keeps_future_sessions() {
    let mut manager = manager();
    let now: i64 = 500_000;
    let a = manager.create_session(1, 1000, now).expect("create");
    let b = manager.create_session(2, 2000, now).expect("create");

    let removed = manager.clean_inner(now).expect("sweep");
    assert_eq!(removed, 0);
    assert!(manager.get_session(a.session_id.as_str()).expect("lookup").is_some());
    assert!(manager.get_session(b.session_id.as_str()).expect("lookup").is_some());
}

#[test]
fn session_expiring_exactly_now_is_kept() {
    let mut manager = manager();
    let now: i64 = 77_000;
    let boundary = manager.create_session(9, 0, now).expect("create");
    let removed = manager.clean_inner(now).expect("sweep");
    assert_eq!(removed, 0);
    assert!(manager
        .get_session(boundary.session_id.as_str())
        .expect("lookup")
        .is_some());
}

#[test]
fn generator_skips_preseeded_id() {
    let mut db = SessionDb::in_memory().expect("in-memory store");
    // Occupy a known id, then ask the generator for a fresh one: whatever
    // comes back must be a different, unused id.
    db.insert("abc1234", SessionRecord { user_id: 1, expires: 10, created: 5 })
        .expect("seed");
    let id = create_session_id(&db).expect("generate");
    assert_ne!(id, "abc1234");
    assert!(db.get(id.as_str()).expect("probe").is_none());
    assert_eq!(id.len(), 7);
    assert!(id.chars().all(|c| c.is_ascii_alphanumeric()));
}

#[test]
fn distinct_sessions_get_distinct_ids() {
    let mut manager = manager();
    let a = manager.create_session(1, 1000, 0).expect("create");
    let b = manager.create_session(1, 1000, 0).expect("create");
    assert_ne!(a.session_id, b.session_id);
}

#[test]
fn tuple_roundtrip_keeps_every_field() {
    let session = Session {
        user_id: 42,
        session_id: String::from("a1b2c3d"),
        expires: 900,
        created: 100,
    };
    let tuple = session.as_tuple();
    assert_eq!(tuple, (42, String::from("a1b2c3d"), 900, 100));
    let back = Session::from_tuple(tuple);
    assert_eq!(back, session);
}
