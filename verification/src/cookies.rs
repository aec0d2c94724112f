//! The request's cookie jar: reading a cookie, and the session cookie that
//! a successful sign-in sets.
use vstd::prelude::*;
use axum_extra::extract::cookie::{Cookie, CookieJar};
use crate::ids::{id_text, parse_id, uuid_parse, uuid_text};

verus! {

#[verifier::external_type_specification]
#[verifier::external_body]
pub struct ExCookieJar(CookieJar);

/// What a jar holds, as `CookieJar::get` answers it: the name of each cookie
/// mapped to that cookie's value.
pub uninterp spec fn jar_cookies(jar: CookieJar) -> Map<Seq<char>, Seq<char>>;

/// The attributes of the cookies a jar holds, as `CookieJar::get` finds
/// them: the name of each cookie mapped to its `Cookie::path()` and
/// `Cookie::http_only()`.
pub uninterp spec fn jar_cookie_attrs(jar: CookieJar) -> Map<
    Seq<char>,
    (Option<Seq<char>>, Option<bool>),
>;

/// A cookie to be set on the response.
#[derive(Clone, Debug)]
pub struct SetCookie {
    pub name: String,
    pub value: String,
    pub path: String,
    pub http_only: bool,
}

/// The name of the cookie that carries the session.
pub open spec fn session_cookie_name() -> Seq<char> {
    "session_id"@
}

/// Calls `CookieJar::get` and hands back the cookie's value as text.
#[verifier::external_body]
fn jar_get(jar: &CookieJar, name: &str) -> (r: Option<String>)
    ensures
        r.deep_view() == jar_cookies(*jar).get(name@),
{
    jar.get(name).map(|cookie| cookie.value().to_string())
}

/// Calls `CookieJar::add` with the cookie built from `cookie` (its path and
/// `HttpOnly` flag set). A cookie of the same name is replaced, so `get`
/// answers the new cookie, value, path and flag, for that name and the old
/// answers for every other name.
#[verifier::external_body]
fn jar_add(jar: CookieJar, cookie: SetCookie) -> (r: CookieJar)
    ensures
        jar_cookies(r) == jar_cookies(jar).insert(cookie.name@, cookie.value@),
        jar_cookie_attrs(r) == jar_cookie_attrs(jar).insert(
            cookie.name@,
            (Some(cookie.path@), Some(cookie.http_only)),
        ),
{
    jar.add(
        Cookie::build((cookie.name, cookie.value)).path(cookie.path).http_only(
            cookie.http_only,
        ).build(),
    )
}

/// The value of the cookie named `cookie_name`, if the jar has one.
pub fn get_cookie(jar: &CookieJar, cookie_name: &str) -> (r: Option<String>)
    ensures
        r.deep_view() == jar_cookies(*jar).get(cookie_name@),
{
    jar_get(jar, cookie_name)
}

/// The cookie that carries a session: named `session_id`, holding the
/// session's identifier in hyphenated form, for every path, not readable by
/// scripts.
pub fn session_cookie(session_id: u128) -> (r: SetCookie)
    ensures
        r.name@ == session_cookie_name(),
        r.value@ == uuid_text(session_id),
        r.path@ == "/"@,
        r.http_only,
{
    SetCookie {
        name: String::from_str("session_id"),
        value: id_text(session_id),
        path: String::from_str("/"),
        http_only: true,
    }
}

/// The path and `HttpOnly` flag of the session cookie: every path, not
/// readable by scripts.
pub open spec fn session_cookie_attrs() -> (Option<Seq<char>>, Option<bool>) {
    (Some("/"@), Some(true))
}

/// The jar with the session cookie of `session_id` added; the jar's other
/// cookies are kept.
pub fn add_session_cookie(jar: CookieJar, session_id: u128) -> (r: CookieJar)
    ensures
        jar_cookies(r) == jar_cookies(jar).insert(session_cookie_name(), uuid_text(session_id)),
        jar_cookie_attrs(r) == jar_cookie_attrs(jar).insert(
            session_cookie_name(),
            session_cookie_attrs(),
        ),
{
    jar_add(jar, session_cookie(session_id))
}

/// What a request's session cookie says.
#[derive(Clone, Copy, Debug, PartialEq, Eq, Structural)]
pub enum SessionCookie {
    /// The request carries no session cookie.
    Missing,
    /// The session cookie does not hold an identifier.
    Malformed,
    /// The session cookie holds this identifier.
    Valid(u128),
}

/// What the cookies of a jar say of the session.
pub open spec fn session_verdict(cookies: Map<Seq<char>, Seq<char>>) -> SessionCookie {
    match cookies.get(session_cookie_name()) {
        None => SessionCookie::Missing,
        Some(text) => match uuid_parse(text) {
            None => SessionCookie::Malformed,
            Some(id) => SessionCookie::Valid(id),
        },
    }
}

/// Reads the session identifier from the jar's session cookie.
///
/// A jar that holds the hyphenated text of an identifier under the session
/// cookie's name yields that identifier: so after `add_session_cookie` the
/// session is read back.
pub fn session_from_cookie(jar: &CookieJar) -> (r: SessionCookie)
    ensures
        r == session_verdict(jar_cookies(*jar)),
        forall|u: u128|
            jar_cookies(*jar).get(session_cookie_name()) == Some(#[trigger] uuid_text(u)) ==> r
                == SessionCookie::Valid(u),
{
    proof {
        reveal_strlit("session_id");
    }
    match get_cookie(jar, "session_id") {
        None => SessionCookie::Missing,
        Some(text) => match parse_id(text.as_str()) {
            None => SessionCookie::Malformed,
            Some(id) => SessionCookie::Valid(id),
        },
    }
}

} // verus!
