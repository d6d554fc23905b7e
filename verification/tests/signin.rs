use session_broker::reply::{login_reply, register_reply};
use session_broker::signin::client_host;
use session_broker::{
    add_app_with, auth, login, login_with, logout, register, register_with, Broker, CookieChange,
    Grant, LoginOutcome, LogoutOutcome, Query, RegisterOutcome, Reply,
};

const WEEK: i128 = 604_800_000_000_000;

fn grant_of(out: RegisterOutcome) -> Grant {
    match out {
        RegisterOutcome::Registered(grant) => grant,
        other => panic!("not registered: {:?}", other),
    }
}

fn session_of(out: LoginOutcome) -> Grant {
    match out {
        LoginOutcome::LoggedIn(grant) => grant,
        other => panic!("not signed in: {:?}", other),
    }
}

#[test]
fn registering_a_name_twice_conflicts() {
    let mut broker = Broker::new();
    let first = register(&mut broker, "alice", "pw1", "broker", Some("s"), "10.0.0.1:4000");
    let grant = grant_of(first);
    assert!(broker.sessions.contains(grant.session));
    let hash = broker.users.get("alice").unwrap().password.clone();

    let second = register(&mut broker, "alice", "pw2", "broker", Some("s"), "10.0.0.1:4000");
    assert_eq!(second, RegisterOutcome::Conflict);
    assert!(broker.users.contains("alice"));
    assert_eq!(broker.users.get("alice").unwrap().password, hash);
    assert_eq!(broker.users.verify("alice", "pw1"), Ok(true));
    assert_eq!(broker.users.verify("alice", "pw2"), Ok(false));
}

#[test]
fn password_is_stored_hashed_and_salted() {
    let mut broker = Broker::new();
    grant_of(register(&mut broker, "alice", "pw1", "broker", Some("s"), "h:1"));
    grant_of(register(&mut broker, "bob", "pw1", "broker", Some("s"), "h:1"));
    let alice = broker.users.get("alice").unwrap().password.clone();
    let bob = broker.users.get("bob").unwrap().password.clone();
    assert_ne!(alice, "pw1");
    assert_ne!(alice, bob);
    assert!(alice.starts_with("$2b$10$"));
    assert_eq!(alice.len(), 60);
}

#[test]
fn login_after_register() {
    let mut broker = Broker::new();
    let registered = grant_of(register(&mut broker, "alice", "pw1", "broker", Some("s"), "h:1"));

    let signed_in = session_of(login(&mut broker, "alice", "pw1", "broker", Some("s"), "h:1"));
    assert_ne!(signed_in.session, registered.session);
    assert!(broker.sessions.contains(registered.session));
    assert!(broker.sessions.contains(signed_in.session));

    let wrong = login(&mut broker, "alice", "wrong", "broker", Some("s"), "h:1");
    assert_eq!(wrong, LoginOutcome::Incorrect);
    let unknown = login(&mut broker, "bob", "x", "broker", Some("s"), "h:1");
    assert_eq!(unknown, LoginOutcome::NotFound);
}

#[test]
fn register_without_a_secret_is_turned_away() {
    let mut broker = Broker::new();
    let out = register(&mut broker, "alice", "pw1", "broker", None, "h:1");
    assert_eq!(out, RegisterOutcome::Unauthenticated);
    assert!(!broker.users.contains("alice"));
}

#[test]
fn login_without_a_secret_is_turned_away() {
    let mut broker = Broker::new();
    grant_of(register(&mut broker, "alice", "pw1", "broker", Some("s"), "h:1"));
    let out = login(&mut broker, "alice", "pw1", "broker", None, "h:1");
    assert_eq!(out, LoginOutcome::Unauthenticated);
    let out = login(&mut broker, "nobody", "pw1", "broker", None, "h:1");
    assert_eq!(out, LoginOutcome::Unauthenticated);
}

#[test]
fn register_with_is_exact() {
    let mut broker = Broker::new();
    let out = register_with(
        &mut broker,
        "alice",
        Some("$hash".to_string()),
        0xa1a2a3a4_b1b2_c1c2_d1d2_d3d4d5d6d7d8,
        1_000,
        "shop",
        Some("s"),
        "10.0.0.1:4000",
    );
    assert_eq!(
        out,
        RegisterOutcome::Registered(Grant {
            session: 0xa1a2a3a4_b1b2_c1c2_d1d2_d3d4d5d6d7d8,
            expires: WEEK + 1_000,
            location: "/".to_string(),
        })
    );
    assert_eq!(broker.users.get("alice").unwrap().password, "$hash");
    let session = broker.sessions.get(0xa1a2a3a4_b1b2_c1c2_d1d2_d3d4d5d6d7d8).unwrap();
    assert_eq!(session.username, "alice");
    assert_eq!(session.expires, 604_800_000_001_000);
    assert_eq!(session.ip, "10.0.0.1");
    assert_eq!(session.app, "shop");
}

#[test]
fn register_with_checks_in_order() {
    let mut broker = Broker::new();
    let out = register_with(&mut broker, "alice", None, 1, 0, "broker", None, "h:1");
    assert_eq!(out, RegisterOutcome::Unauthenticated);
    let out = register_with(&mut broker, "alice", None, 1, 0, "broker", Some("s"), "h:1");
    assert_eq!(out, RegisterOutcome::HashFailed);
    assert!(!broker.users.contains("alice"));
    assert!(!broker.sessions.contains(1));

    grant_of(
        register_with(&mut broker, "alice", Some("h".into()), 1, 0, "broker", Some("s"), "h:1"),
    );
    let out = register_with(&mut broker, "alice", None, 2, 0, "broker", Some("s"), "h:1");
    assert_eq!(out, RegisterOutcome::Conflict);
    let out = register_with(&mut broker, "alice", Some("g".into()), 2, 0, "broker", None, "h:1");
    assert_eq!(out, RegisterOutcome::Unauthenticated);
    assert_eq!(broker.users.get("alice").unwrap().password, "h");
    assert!(!broker.sessions.contains(2));
}

#[test]
fn login_with_is_exact() {
    let mut broker = Broker::new();
    grant_of(
        register_with(&mut broker, "alice", Some("h".into()), 1, 0, "broker", Some("s"), "h:1"),
    );

    let out = login_with(
        &mut broker,
        "alice",
        Some(true),
        2,
        5_000,
        "shop",
        Some("s"),
        "10.0.0.1:4000",
    );
    assert_eq!(
        out,
        LoginOutcome::LoggedIn(
            Grant { session: 2, expires: WEEK + 5_000, location: "/".to_string() },
        )
    );
    let session = broker.sessions.get(2).unwrap();
    assert_eq!(session.username, "alice");
    assert_eq!(session.expires, 604_800_000_005_000);
    assert_eq!(session.ip, "10.0.0.1");
    assert_eq!(session.app, "shop");
    assert!(broker.sessions.contains(1));
}

#[test]
fn login_with_checks_in_order() {
    let mut broker = Broker::new();
    grant_of(
        register_with(&mut broker, "alice", Some("h".into()), 1, 0, "broker", Some("s"), "h:1"),
    );

    let out = login_with(&mut broker, "bob", Some(true), 2, 0, "broker", None, "h:1");
    assert_eq!(out, LoginOutcome::Unauthenticated);
    let out = login_with(&mut broker, "bob", Some(true), 2, 0, "broker", Some("s"), "h:1");
    assert_eq!(out, LoginOutcome::NotFound);
    let out = login_with(&mut broker, "alice", None, 2, 0, "broker", Some("s"), "h:1");
    assert_eq!(out, LoginOutcome::HashFailed);
    let out = login_with(&mut broker, "alice", Some(false), 2, 0, "broker", Some("s"), "h:1");
    assert_eq!(out, LoginOutcome::Incorrect);
    assert!(!broker.sessions.contains(2));
}

#[test]
fn login_against_an_unreadable_hash_fails() {
    let mut broker = Broker::new();
    assert_eq!(broker.users.register_hashed("alice", "not a hash".to_string()), Ok(()));
    let out = login(&mut broker, "alice", "pw1", "broker", Some("s"), "h:1");
    assert_eq!(out, LoginOutcome::HashFailed);
}

#[test]
fn redirect_goes_to_the_app_that_shows_its_secret() {
    let mut broker = Broker::new();
    let secret = add_app_with(&mut broker, "shop", "https://shop.example/cb?", 77);
    assert_eq!(secret, "00000000-0000-0000-0000-00000000004d");

    let id = 0xa1a2a3a4_b1b2_c1c2_d1d2_d3d4d5d6d7d8;
    let out = register_with(
        &mut broker,
        "alice",
        Some("h".into()),
        id,
        0,
        "shop",
        Some(secret.as_str()),
        "h:1",
    );
    assert_eq!(
        grant_of(out).location,
        "https://shop.example/cb?id=a1a2a3a4-b1b2-c1c2-d1d2-d3d4d5d6d7d8"
    );

    let out = login_with(
        &mut broker,
        "alice",
        Some(true),
        5,
        0,
        "shop",
        Some(secret.as_str()),
        "h:1",
    );
    assert_eq!(
        session_of(out).location,
        "https://shop.example/cb?id=00000000-0000-0000-0000-000000000005"
    );

    let out = login_with(&mut broker, "alice", Some(true), 6, 0, "shop", Some("guess"), "h:1");
    assert_eq!(session_of(out).location, "/");
    let out = login_with(
        &mut broker,
        "alice",
        Some(true),
        7,
        0,
        "bank",
        Some(secret.as_str()),
        "h:1",
    );
    assert_eq!(session_of(out).location, "/");
    let out = register_with(
        &mut broker,
        "bob",
        Some("h".into()),
        8,
        0,
        "shop",
        Some("guess"),
        "h:1",
    );
    assert_eq!(grant_of(out).location, "/");
}

#[test]
fn callback_and_identifier_are_joined_as_they_stand() {
    let mut broker = Broker::new();
    let secret = add_app_with(&mut broker, "shop", "https://shop.example/cb", 1);
    let out = register_with(
        &mut broker,
        "alice",
        Some("h".into()),
        2,
        0,
        "shop",
        Some(secret.as_str()),
        "h:1",
    );
    assert_eq!(
        grant_of(out).location,
        "https://shop.example/cbid=00000000-0000-0000-0000-000000000002"
    );
}

#[test]
fn new_session_lasts_seven_days() {
    let mut broker = Broker::new();
    let before = std::time::SystemTime::now()
        .duration_since(std::time::UNIX_EPOCH)
        .unwrap()
        .as_nanos() as i128;
    let grant = grant_of(register(&mut broker, "alice", "pw1", "broker", Some("s"), "h:1"));
    let after = std::time::SystemTime::now()
        .duration_since(std::time::UNIX_EPOCH)
        .unwrap()
        .as_nanos() as i128;
    assert!(before + WEEK <= grant.expires);
    assert!(grant.expires <= after + WEEK);
    assert_eq!(broker.sessions.get(grant.session).unwrap().expires, grant.expires);
}

#[test]
fn register_and_login_keep_the_host_of_the_peer_address() {
    let mut broker = Broker::new();
    let first = grant_of(
        register(&mut broker, "alice", "pw1", "broker", Some("s"), "10.0.0.1:4000"),
    );
    assert_eq!(broker.sessions.get(first.session).unwrap().ip, "10.0.0.1");
    let second = session_of(
        login(&mut broker, "alice", "pw1", "broker", Some("s"), "10.0.0.1:4000"),
    );
    assert_eq!(broker.sessions.get(second.session).unwrap().ip, "10.0.0.1");
}

#[test]
fn host_is_what_stands_before_the_first_colon() {
    assert_eq!(client_host("10.0.0.1:4000"), "10.0.0.1");
    assert_eq!(client_host("localhost"), "localhost");
    assert_eq!(client_host(""), "");
    assert_eq!(client_host(":4000"), "");
    assert_eq!(client_host("a:b:c"), "a");
    assert_eq!(client_host("höst:1"), "höst");
}

#[test]
fn issued_cookie_is_accepted_by_the_guard() {
    let mut broker = Broker::new();
    let out = register(&mut broker, "alice", "pw1", "broker", Some("s"), "h:1");
    let grant = grant_of(out.clone());
    let cookie = match register_reply(out) {
        Reply::Redirect { cookie: CookieChange::Issue { value, http_only, expires }, .. } => {
            assert!(http_only);
            assert_eq!(expires, Some(grant.expires));
            value
        }
        other => panic!("no cookie: {:?}", other),
    };
    let (id, session, user) = auth(&broker, Some(cookie.as_str())).unwrap();
    assert_eq!(id, grant.session);
    assert_eq!(session.username, "alice");
    assert_eq!(&user, broker.users.get("alice").unwrap());

    let out = login(&mut broker, "alice", "pw1", "broker", Some("s"), "h:1");
    let second = session_of(out.clone());
    let cookie = match login_reply(out) {
        Reply::Redirect { cookie: CookieChange::Issue { value, expires: None, .. }, .. } => value,
        other => panic!("no cookie: {:?}", other),
    };
    assert_eq!(auth(&broker, Some(cookie.as_str())).unwrap().0, second.session);
    assert_eq!(logout(&mut broker, Some(cookie.as_str())), LogoutOutcome::LoggedOut);
    assert!(!broker.sessions.contains(second.session));
    assert!(broker.sessions.contains(grant.session));
}

#[test]
fn default_query_names_the_broker() {
    assert_eq!(Query::default().app, "broker");
}

#[test]
fn one_of_two_registrations_of_a_name_wins() {
    // Two callers share the store behind a lock; each holds it for its
    // whole registration.
    let broker = std::sync::Mutex::new(Broker::new());
    let mut outcomes = Vec::new();
    for password in ["pw1", "pw2"] {
        let mut held = broker.lock().unwrap();
        outcomes.push(register(&mut held, "alice", password, "broker", Some("s"), "h:1"));
    }
    assert!(matches!(outcomes[0], RegisterOutcome::Registered(_)));
    assert_eq!(outcomes[1], RegisterOutcome::Conflict);
    let held = broker.lock().unwrap();
    assert_eq!(held.users.verify("alice", "pw1"), Ok(true));
    assert_eq!(held.users.verify("alice", "pw2"), Ok(false));
}
