use stalwart_panel::auth::{Authentication, AuthenticationRaw, PanelUser, Permissions};
use stalwart_panel::config::SessionManager as SessionConfig;
use stalwart_panel::groups::GroupPermissions;
use stalwart_panel::middleware::{handle_authentication, AuthOutcome, AuthorizationHeader};
use stalwart_panel::password::Password;
use stalwart_panel::session::SessionManager;

fn manager() -> SessionManager {
    SessionManager::new_in_memory(SessionConfig::default()).expect("in-memory store")
}

fn user_record(id: i64, modify_accounts: bool) -> PanelUser {
    PanelUser {
        id,
        name: String::from("Some One"),
        username: String::from("someone"),
        password: Password::new_hashed(String::from("$argon2id$unused")),
        active: true,
        backup_email: None,
        group_id: 1,
        group_name: String::from("users"),
        group_permissions: GroupPermissions { modify_accounts, manage_system: false },
        primary_email: None,
        created: 0,
    }
}

#[test]
fn preflight_passes_through() {
    let manager = manager();
    let outcome = handle_authentication(
        &manager,
        true,
        &AuthorizationHeader::Value(String::from("garbage header")),
        &Some(String::from("cookie")),
    );
    assert!(matches!(outcome, AuthOutcome::Passthrough));
}

#[test]
fn session_header_with_live_session_attaches_it() {
    let mut manager = manager();
    let session = manager.create_session(42, 1000, 0).expect("create");
    let header = format!("session {}", session.session_id);

    let outcome = handle_authentication(
        &manager,
        false,
        &AuthorizationHeader::Value(header),
        &None,
    );
    match outcome {
        AuthOutcome::Authenticated(attached) => assert_eq!(attached, session),
        other => panic!("expected an attached session, got {:?}", other),
    }
}

#[test]
fn unsupported_scheme_is_rejected_before_lookup() {
    let manager = manager();
    let outcome = handle_authentication(
        &manager,
        false,
        &AuthorizationHeader::Value(String::from("bearer xyz")),
        &None,
    );
    assert!(matches!(outcome, AuthOutcome::UnsupportedScheme));
}

#[test]
fn malformed_headers_are_rejected() {
    let manager = manager();
    for bad in ["session", "session two words", ""] {
        let outcome = handle_authentication(
            &manager,
            false,
            &AuthorizationHeader::Value(String::from(bad)),
            &None,
        );
        assert!(matches!(outcome, AuthOutcome::BadHeader), "header {:?}", bad);
    }
    let outcome = handle_authentication(&manager, false, &AuthorizationHeader::Unreadable, &None);
    assert!(matches!(outcome, AuthOutcome::BadHeader));
}

#[test]
fn unknown_token_leaves_request_anonymous() {
    let manager = manager();
    let outcome = handle_authentication(
        &manager,
        false,
        &AuthorizationHeader::Value(String::from("session nosuch1")),
        &None,
    );
    assert!(matches!(outcome, AuthOutcome::Anonymous));
}

#[test]
fn cookie_is_used_when_no_header_is_present() {
    let mut manager = manager();
    let session = manager.create_session(8, 1000, 0).expect("create");
    let outcome = handle_authentication(
        &manager,
        false,
        &AuthorizationHeader::Absent,
        &Some(session.session_id.clone()),
    );
    match outcome {
        AuthOutcome::Authenticated(attached) => assert_eq!(attached, session),
        other => panic!("expected an attached session, got {:?}", other),
    }
}

#[test]
fn no_credential_means_anonymous() {
    let manager = manager();
    let outcome = handle_authentication(&manager, false, &AuthorizationHeader::Absent, &None);
    assert!(matches!(outcome, AuthOutcome::Anonymous));
}

#[test]
fn cookie_replay_hydrates_user_and_reflects_group_flag() {
    // Create a session for user 42 with a one-day lifetime, replay it as
    // a cookie, resolve the attached session against user 42's record,
    // and check the capability mirrors the group flag exactly.
    let mut manager = manager();
    let day_millis: i64 = 24 * 60 * 60 * 1000;
    let session = manager.create_session(42, day_millis, 0).expect("create");

    let outcome = handle_authentication(
        &manager,
        false,
        &AuthorizationHeader::Absent,
        &Some(session.session_id.clone()),
    );
    let attached = match outcome {
        AuthOutcome::Authenticated(s) => s,
        other => panic!("expected an attached session, got {:?}", other),
    };
    assert_eq!(attached.user_id, 42);

    let raw = AuthenticationRaw::Session(attached);
    assert_eq!(raw.user_id(), 42);
    let hydrated = Authentication::resolve(Some(raw), Some(user_record(42, true)))
        .expect("user still exists");
    assert!(hydrated.can_manage_users());
    assert!(!hydrated.can_manage_system());

    let other = Authentication::resolve(
        Some(AuthenticationRaw::Session(session)),
        Some(user_record(42, false)),
    )
    .expect("user still exists");
    assert!(!other.can_manage_users());
}

#[test]
fn resolver_rejects_missing_session_or_user() {
    assert!(Authentication::resolve(None, None).is_err());
    let mut manager = manager();
    let session = manager.create_session(9, 1000, 0).expect("create");
    let raw = AuthenticationRaw::Session(session);
    assert!(Authentication::resolve(Some(raw), None).is_err());
}

#[test]
fn into_user_returns_the_hydrated_record() {
    let mut manager = manager();
    let session = manager.create_session(5, 1000, 0).expect("create");
    let auth = Authentication::resolve(
        Some(AuthenticationRaw::Session(session)),
        Some(user_record(5, false)),
    )
    .expect("resolves");
    let user = auth.into_user();
    assert_eq!(user.id, 5);
    assert_eq!(user.username, "someone");
}
