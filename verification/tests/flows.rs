use axum_extra::extract::cookie::{Cookie, CookieJar};
use msggram::chat::{socket_start, socket_step, socket_user, SocketAction, SocketEvent};
use msggram::cookies::{session_from_cookie, SessionCookie};
use msggram::flows::{
    add_contact_inserted, add_contact_lookup, add_contact_session, add_contact_start, home_session,
    home_start, login_outcome, login_success, register_outcome, ContactStep, HomeStep, LoginOutcome,
};
use msggram::pages::{add_contact_page, login_page, register_page};
use msggram::{
    AddContactMessage, HandleSocketError, Login, LoginMessage, Message, Register,
    RegisterMessage, ServerError,
};

fn login(password: &str) -> Login {
    Login { email: String::from("a@b.c"), password: String::from(password) }
}

fn jar_with(value: &str) -> CookieJar {
    CookieJar::new().add(Cookie::new("session_id", value.to_string()))
}

#[test]
fn login_outcomes() {
    match login_outcome(&login("Pw1"), None) {
        LoginOutcome::Refuse { location } => assert_eq!(location, "/login?message=no_such_user"),
        other => panic!("{:?}", other),
    }
    match login_outcome(&login("Pw1"), Some((9, String::from("Pw2")))) {
        LoginOutcome::Refuse { location } => assert_eq!(location, "/login?message=invalid_password"),
        other => panic!("{:?}", other),
    }
    match login_outcome(&login("Pw1"), Some((9, String::from("Pw1")))) {
        LoginOutcome::OpenSession { user_id } => assert_eq!(user_id, 9),
        other => panic!("{:?}", other),
    }
}

#[test]
fn login_success_sets_session_cookie() {
    let (jar, location) = login_success(CookieJar::new(), 42);
    assert_eq!(location, "/");
    assert_eq!(session_from_cookie(&jar), SessionCookie::Valid(42));
}

#[test]
fn register_outcomes() {
    let form = |email: &str, password: &str| Register {
        nickname: String::from("n"),
        email: String::from(email),
        password: String::from(password),
    };
    assert_eq!(register_outcome(&form("x", "Pw1")), Some(String::from("/register?message=no_at_sign")));
    assert_eq!(
        register_outcome(&form("x@.y", "Pw1")),
        Some(String::from("/register?message=wrong_email_format"))
    );
    assert_eq!(
        register_outcome(&form("x@y", "pw")),
        Some(String::from("/register?message=wrong_password_format"))
    );
    assert_eq!(register_outcome(&form("x@y", "Pw1")), None);
}

fn location(step: ContactStep) -> String {
    match step {
        ContactStep::Redirect { location } => location,
        other => panic!("{:?}", other),
    }
}

#[test]
fn add_contact_stages() {
    assert_eq!(location(add_contact_start(&CookieJar::new())), "/login");
    match add_contact_start(&jar_with("bad")) {
        ContactStep::Fail { error: ServerError::HandleSocketError(HandleSocketError::ParsingCookie) } => {}
        other => panic!("{:?}", other),
    }
    match add_contact_start(&jar_with("00000000-0000-0000-0000-00000000000a")) {
        ContactStep::FindSessionUser { session_id } => assert_eq!(session_id, 10),
        other => panic!("{:?}", other),
    }
    assert_eq!(location(add_contact_session(None)), "/add_contact?message=error_finding_user");
    match add_contact_session(Some(3)) {
        ContactStep::FindContact { user_id } => assert_eq!(user_id, 3),
        other => panic!("{:?}", other),
    }
    match add_contact_lookup(3, Err(String::from("db down"))) {
        ContactStep::Fail { error: ServerError::TokioDb(text) } => assert_eq!(text, "db down"),
        other => panic!("{:?}", other),
    }
    assert_eq!(location(add_contact_lookup(3, Ok(None))), "/add_contact?message=error_finding_user");
    match add_contact_lookup(3, Ok(Some(4))) {
        ContactStep::InsertContact { user_id, contact_id } => assert_eq!((user_id, contact_id), (3, 4)),
        other => panic!("{:?}", other),
    }
    assert_eq!(location(add_contact_inserted(true)), "/add_contact?message=user_added");
    assert_eq!(location(add_contact_inserted(false)), "/add_contact?message=already_in_contacts");
}

#[test]
fn home_stages() {
    assert!(matches!(home_start(&CookieJar::new()), HomeStep::ShowLogin));
    assert!(matches!(
        home_start(&jar_with("??")),
        HomeStep::Fail { error: ServerError::HandleSocketError(HandleSocketError::ParsingCookie) }
    ));
    assert!(matches!(
        home_start(&jar_with("00000000-0000-0000-0000-000000000002")),
        HomeStep::FindSessionUser { session_id: 2 }
    ));
    assert!(matches!(home_session(None), HomeStep::ShowLogin));
    assert!(matches!(home_session(Some(8)), HomeStep::ListContacts { user_id: 8 }));
}

#[test]
fn socket_stages() {
    assert_eq!(socket_start(&CookieJar::new()), Err(HandleSocketError::RetrievingCookie));
    assert_eq!(socket_start(&jar_with("x")), Err(HandleSocketError::ParsingCookie));
    assert_eq!(socket_start(&jar_with("00000000-0000-0000-0000-000000000003")), Ok(3));
    assert_eq!(socket_user(None), Err(HandleSocketError::UserNotFound));
    assert_eq!(socket_user(Some(5)), Ok(5));
}

#[test]
fn socket_actions() {
    let m = || Message { receiver_id: 7, contents: String::from("hi") };
    match socket_step(1, SocketEvent::Outgoing(m())) {
        SocketAction::Send(msg) => assert_eq!((msg.receiver_id, msg.contents.as_str()), (7, "hi")),
        other => panic!("{:?}", other),
    }
    match socket_step(1, SocketEvent::Incoming(m())) {
        SocketAction::StoreAndForward { sender_id, message } => {
            assert_eq!(sender_id, 1);
            assert_eq!(message.receiver_id, 7);
            assert_eq!(message.contents, "hi");
        }
        other => panic!("{:?}", other),
    }
    assert!(matches!(socket_step(1, SocketEvent::IncomingOther), SocketAction::Ignore));
    assert!(matches!(socket_step(1, SocketEvent::Ended), SocketAction::Stop));
}

fn message_of(location: &str, path: &str) -> String {
    let prefix = format!("{}?message=", path);
    assert!(location.starts_with(&prefix));
    location[prefix.len()..].to_string()
}

#[test]
fn refused_requests_are_shown() {
    for account in [None, Some((1u128, String::from("other")))] {
        if let LoginOutcome::Refuse { location } = login_outcome(&login("Pw1"), account) {
            let m = message_of(&location, "/login");
            assert_ne!(login_page("Fill all of the fields", &LoginMessage { message: Some(m) }), "");
        } else {
            panic!("expected a refusal");
        }
    }
    for (email, password) in [("x", "Pw1"), ("x@.y", "Pw1"), ("x@y", "pw")] {
        let form = Register {
            nickname: String::from("n"),
            email: String::from(email),
            password: String::from(password),
        };
        let location = register_outcome(&form).expect("refused");
        let m = message_of(&location, "/register");
        assert_ne!(register_page("Fill all of the blanks", &RegisterMessage { message: Some(m) }), "");
    }
    for step in [add_contact_session(None), add_contact_inserted(true), add_contact_inserted(false)] {
        let m = message_of(&location(step), "/add_contact");
        assert_ne!(add_contact_page("Type a username", &AddContactMessage { message: Some(m) }), "");
    }
}
