use session_broker::{
    add_app, add_app_with, auth_session, auth_session_with, login_with, register_with, Broker,
    Validation,
};
use std::collections::HashSet;

const WEEK: i128 = 604_800_000_000_000;

fn text(id: u128) -> String {
    uuid::Uuid::from_u128(id).to_string()
}

/// alice with session 1 (opened at 0 for "shop") and session 2, and the
/// application "shop" with the secret that is the text of 77.
fn populated() -> (Broker, String) {
    let mut broker = Broker::new();
    register_with(&mut broker, "alice", Some("ha".into()), 1, 0, "shop", Some("s"), "h:1");
    login_with(&mut broker, "alice", Some(true), 2, 0, "broker", Some("s"), "h:1");
    let secret = add_app_with(&mut broker, "shop", "https://shop.example/cb?", 77);
    (broker, secret)
}

#[test]
fn app_secret_is_the_text_of_its_token() {
    let mut broker = Broker::new();
    let secret = add_app_with(
        &mut broker,
        "shop",
        "https://shop.example/cb?",
        0xa1a2a3a4_b1b2_c1c2_d1d2_d3d4d5d6d7d8,
    );
    assert_eq!(secret, "a1a2a3a4-b1b2-c1c2-d1d2-d3d4d5d6d7d8");
    let app = broker.apps.lookup("shop").unwrap();
    assert_eq!(app.secret, "a1a2a3a4-b1b2-c1c2-d1d2-d3d4d5d6d7d8");
    assert_eq!(app.url, "https://shop.example/cb?");
    assert!(broker.apps.lookup("bank").is_none());
}

#[test]
fn registering_an_app_again_replaces_it() {
    let mut broker = Broker::new();
    let first = add_app(&mut broker, "shop", "https://one.example/");
    let second = add_app(&mut broker, "shop", "https://two.example/");
    assert_ne!(first, second);
    let app = broker.apps.lookup("shop").unwrap();
    assert_eq!(app.secret, second);
    assert_eq!(app.url, "https://two.example/");
}

#[test]
fn a_thousand_apps_get_a_thousand_secrets() {
    let mut broker = Broker::new();
    let mut secrets = HashSet::new();
    for i in 0..1000 {
        let name = format!("app{}", i);
        let secret = add_app(&mut broker, name.as_str(), "https://example/");
        assert_eq!(broker.apps.lookup(name.as_str()).unwrap().secret, secret);
        assert!(secrets.insert(secret));
    }
    assert_eq!(secrets.len(), 1000);
}

#[test]
fn ten_thousand_sessions_get_ten_thousand_identifiers() {
    let mut broker = Broker::new();
    let mut ids = HashSet::new();
    for _ in 0..10_000 {
        let (id, _) = broker.sessions.create("alice", "h", "broker");
        // Version 4, variant 1: the other 122 bits are drawn at random.
        assert_eq!((id >> 76) & 0xf, 4);
        assert_eq!((id >> 62) & 0x3, 2);
        assert!(ids.insert(id));
        assert!(broker.sessions.contains(id));
    }
    assert_eq!(ids.len(), 10_000);
}

#[test]
fn valid_session_is_confirmed_to_the_app() {
    let (mut broker, secret) = populated();
    let out = auth_session_with(&mut broker, Some(1), "shop", Some(secret.as_str()), Some(77), 5);
    assert_eq!(out, Validation::Valid { username: "alice".to_string(), app: "shop".to_string() });
    let out = auth_session_with(&mut broker, Some(2), "shop", Some(secret.as_str()), Some(77), 5);
    assert_eq!(out, Validation::Valid { username: "alice".to_string(), app: "broker".to_string() });
    assert!(broker.sessions.contains(1) && broker.sessions.contains(2));
}

#[test]
fn validation_asks_its_questions_in_order() {
    let (mut broker, secret) = populated();
    let secret = Some(secret.as_str());
    // No secret comes before everything else.
    assert_eq!(
        auth_session_with(&mut broker, None, "bank", None, None, WEEK),
        Validation::Unauthenticated
    );
    // An unreadable identifier comes next.
    assert_eq!(
        auth_session_with(&mut broker, None, "bank", secret, Some(77), WEEK),
        Validation::Malformed
    );
    // An unknown session hides an unknown app and a wrong secret.
    assert_eq!(
        auth_session_with(&mut broker, Some(9), "bank", Some("guess"), None, 5),
        Validation::UnknownSession
    );
    // An expired session hides an unknown app and a wrong secret.
    assert_eq!(
        auth_session_with(&mut broker, Some(1), "bank", Some("guess"), None, WEEK),
        Validation::Expired
    );
    // An unknown app hides a wrong secret.
    assert_eq!(
        auth_session_with(&mut broker, Some(1), "bank", Some("guess"), None, 5),
        Validation::UnknownApp
    );
    assert_eq!(
        auth_session_with(&mut broker, Some(1), "shop", Some("guess"), None, 5),
        Validation::WrongSecret
    );
    assert!(matches!(
        auth_session_with(&mut broker, Some(1), "shop", secret, Some(77), 5),
        Validation::Valid { .. }
    ));
    assert!(broker.sessions.contains(1) && broker.sessions.contains(2));
}

#[test]
fn session_expires_at_its_last_nanosecond() {
    let (mut broker, secret) = populated();
    let secret = Some(secret.as_str());
    assert_eq!(broker.sessions.get(1).unwrap().expires, WEEK);
    assert!(matches!(
        auth_session_with(&mut broker, Some(1), "shop", secret, None, WEEK - 1),
        Validation::Valid { .. }
    ));
    assert_eq!(
        auth_session_with(&mut broker, Some(1), "shop", secret, None, WEEK),
        Validation::Expired
    );
    assert_eq!(
        auth_session_with(&mut broker, Some(1), "shop", secret, None, WEEK + 1),
        Validation::Expired
    );
    // An expired session stays in the store.
    assert!(broker.sessions.contains(1));
}

/// Like `populated`, with sessions that are opened late in this century.
fn populated_late() -> Broker {
    let mut broker = Broker::new();
    let late = 4_000_000_000_000_000_000;
    register_with(&mut broker, "alice", Some("ha".into()), 1, late, "shop", Some("s"), "h:1");
    login_with(&mut broker, "alice", Some(true), 2, late, "broker", Some("s"), "h:1");
    add_app_with(&mut broker, "shop", "https://shop.example/cb?", 77);
    broker
}

#[test]
fn wrong_secret_removes_the_session_the_secret_names() {
    let mut broker = populated_late();
    let guess = text(2);
    let out = auth_session(&mut broker, text(1).as_str(), "shop", Some(guess.as_str()));
    assert_eq!(out, Validation::WrongSecret);
    // The session that was asked about stays; the one the secret reads as goes.
    assert!(broker.sessions.contains(1));
    assert!(!broker.sessions.contains(2));
}

#[test]
fn wrong_secret_that_names_no_session_changes_nothing() {
    let mut broker = populated_late();
    let out = auth_session(&mut broker, text(1).as_str(), "shop", Some("guess"));
    assert_eq!(out, Validation::WrongSecret);
    let out = auth_session(&mut broker, text(1).as_str(), "shop", Some(text(9).as_str()));
    assert_eq!(out, Validation::WrongSecret);
    assert!(broker.sessions.contains(1) && broker.sessions.contains(2));
}

#[test]
fn validation_reads_identifier_and_clock() {
    let mut broker = Broker::new();
    let (id, _) = broker.sessions.create("alice", "h", "shop");
    let secret = add_app(&mut broker, "shop", "https://shop.example/cb?");
    let ssid = text(id);

    let out = auth_session(&mut broker, ssid.as_str(), "shop", Some(secret.as_str()));
    assert_eq!(out, Validation::Valid { username: "alice".to_string(), app: "shop".to_string() });
    assert_eq!(auth_session(&mut broker, ssid.as_str(), "shop", None), Validation::Unauthenticated);
    assert_eq!(
        auth_session(&mut broker, "nonsense", "shop", Some(secret.as_str())),
        Validation::Malformed
    );
    assert_eq!(
        auth_session(&mut broker, text(9).as_str(), "shop", Some(secret.as_str())),
        Validation::UnknownSession
    );
    assert_eq!(
        auth_session(&mut broker, ssid.as_str(), "bank", Some(secret.as_str())),
        Validation::UnknownApp
    );

    // A session opened more than seven days ago has ended by now.
    broker.sessions.create_with(5, 0, "alice", "h", "shop");
    assert_eq!(
        auth_session(&mut broker, text(5).as_str(), "shop", Some(secret.as_str())),
        Validation::Expired
    );
}
