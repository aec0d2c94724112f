use axum_extra::extract::cookie::{Cookie, CookieJar};
use msggram::cookies::{add_session_cookie, session_cookie, session_from_cookie, SessionCookie};
use msggram::get_cookie;
use msggram::ids::{id_text, parse_id};

const ID: u128 = 0x67e5504410b1426f9247bb680e5fe0c8;
const ID_TEXT: &str = "67e55044-10b1-426f-9247-bb680e5fe0c8";

#[test]
fn writes_hyphenated_ids() {
    assert_eq!(id_text(ID), ID_TEXT);
    assert_eq!(id_text(0), "00000000-0000-0000-0000-000000000000");
}

#[test]
fn reads_ids() {
    assert_eq!(parse_id(ID_TEXT), Some(ID));
    assert_eq!(parse_id("67e5504410b1426f9247bb680e5fe0c8"), Some(ID));
    assert_eq!(parse_id("not an id"), None);
    assert_eq!(parse_id(""), None);
}

#[test]
fn id_text_reads_back() {
    for u in [0u128, 1, ID, u128::MAX] {
        assert_eq!(parse_id(&id_text(u)), Some(u));
    }
}

#[test]
fn get_cookie_reads_values() {
    let jar = CookieJar::new().add(Cookie::new("session_id", "abc")).add(Cookie::new("x", "y"));
    assert_eq!(get_cookie(&jar, "session_id"), Some(String::from("abc")));
    assert_eq!(get_cookie(&jar, "x"), Some(String::from("y")));
    assert_eq!(get_cookie(&jar, "missing"), None);
}

#[test]
fn session_cookie_attributes() {
    let c = session_cookie(ID);
    assert_eq!(c.name, "session_id");
    assert_eq!(c.value, ID_TEXT);
    assert_eq!(c.path, "/");
    assert!(c.http_only);
}

#[test]
fn session_cookie_is_read_back() {
    let jar = add_session_cookie(CookieJar::new(), ID);
    assert_eq!(get_cookie(&jar, "session_id"), Some(String::from(ID_TEXT)));
    assert_eq!(session_from_cookie(&jar), SessionCookie::Valid(ID));
    let replaced = add_session_cookie(jar, 7);
    assert_eq!(session_from_cookie(&replaced), SessionCookie::Valid(7));
}

#[test]
fn session_cookie_verdicts() {
    assert_eq!(session_from_cookie(&CookieJar::new()), SessionCookie::Missing);
    let jar = CookieJar::new().add(Cookie::new("session_id", "garbage"));
    assert_eq!(session_from_cookie(&jar), SessionCookie::Malformed);
}

#[test]
fn session_cookie_in_jar_has_path_and_http_only() {
    let jar = CookieJar::new().add(Cookie::new("other", "kept"));
    let jar = add_session_cookie(jar, ID);
    let cookie = jar.get("session_id").expect("session cookie");
    assert_eq!(cookie.value(), ID_TEXT);
    assert_eq!(cookie.path(), Some("/"));
    assert_eq!(cookie.http_only(), Some(true));
    assert_eq!(get_cookie(&jar, "other"), Some(String::from("kept")));
}

#[test]
fn login_success_cookie_attributes() {
    let (jar, _) = msggram::flows::login_success(CookieJar::new(), 3);
    let cookie = jar.get("session_id").expect("session cookie");
    assert_eq!(cookie.path(), Some("/"));
    assert_eq!(cookie.http_only(), Some(true));
}
