//! The decisions of the sign-in, sign-up, add-contact and home requests.
//! Each request alternates database work with decisions; the work is done
//! by the caller, the decisions are made here, one function per stage.
use vstd::prelude::*;
use axum_extra::extract::cookie::CookieJar;
use crate::cookies::{
    add_session_cookie, jar_cookie_attrs, jar_cookies, session_cookie_attrs, session_cookie_name,
    session_from_cookie, session_verdict, SessionCookie,
};
use crate::errors::{HandleSocketError, ServerError};
use crate::ids::uuid_text;
use crate::pages::{add_contact_notice, login_notice, register_notice};
use crate::user_data::{checking_user_data, user_data_verdict, Login, Register, UserDataError};

verus! {

// ---------------------------------------------------------------------------
// Sign-in
// ---------------------------------------------------------------------------

/// Where a sign-in attempt goes.
#[derive(Debug)]
pub enum LoginOutcome {
    /// Back to the sign-in page, with a message.
    Refuse { location: String },
    /// Open a session for this user.
    OpenSession { user_id: u128 },
}

/// The message that a page shows a notice for, read from the query of a
/// location that leads to the page at `path`.
pub open spec fn query_message(location: Seq<char>, path: Seq<char>) -> Option<Seq<char>> {
    let prefix = path + "?message="@;
    if prefix.is_prefix_of(location) {
        Some(location.skip(prefix.len() as int))
    } else {
        None
    }
}

/// Where a refused sign-in goes: the account was found but the password
/// did not match, or no account was found.
pub open spec fn login_refusal(account_found: bool) -> Seq<char> {
    if account_found {
        "/login?message=invalid_password"@
    } else {
        "/login?message=no_such_user"@
    }
}

/// Decides a sign-in attempt, given the account found for the form's e-mail
/// address (identifier and stored password), if any.
pub fn login_outcome(form: &Login, account: Option<(u128, String)>) -> (r: LoginOutcome)
    ensures
        match account {
            None => r is Refuse && r->location@ == login_refusal(false),
            Some(found) => if found.1@ == form.password@ {
                r == (LoginOutcome::OpenSession { user_id: found.0 })
            } else {
                r is Refuse && r->location@ == login_refusal(true)
            },
        },
{
    match account {
        None => LoginOutcome::Refuse { location: String::from_str("/login?message=no_such_user") },
        Some((user_id, stored)) => {
            if form.password == stored {
                LoginOutcome::OpenSession { user_id }
            } else {
                LoginOutcome::Refuse {
                    location: String::from_str("/login?message=invalid_password"),
                }
            }
        },
    }
}

/// The answer to a successful sign-in: the jar with the new session's
/// cookie (path `/`, `HttpOnly`) and the jar's other cookies, and the
/// location of the home page.
pub fn login_success(jar: CookieJar, session_id: u128) -> (r: (CookieJar, String))
    ensures
        jar_cookies(r.0) == jar_cookies(jar).insert(session_cookie_name(), uuid_text(session_id)),
        jar_cookie_attrs(r.0) == jar_cookie_attrs(jar).insert(
            session_cookie_name(),
            session_cookie_attrs(),
        ),
        r.1@ == "/"@,
{
    (add_session_cookie(jar, session_id), String::from_str("/"))
}

// ---------------------------------------------------------------------------
// Sign-up
// ---------------------------------------------------------------------------

/// Where a refused sign-up is sent, for each verdict of the sign-up rules;
/// `None` when the account is to be created.
pub open spec fn register_refusal(verdict: Result<(), UserDataError>) -> Option<Seq<char>> {
    match verdict {
        Err(UserDataError::NoAtSign) => Some("/register?message=no_at_sign"@),
        Err(UserDataError::EmailFormat) => Some("/register?message=wrong_email_format"@),
        Err(UserDataError::PasswordFormat) => Some("/register?message=wrong_password_format"@),
        _ => None,
    }
}

/// Decides a sign-up: the location to send a refused one to, or `None` when
/// the account is to be created (after which the answer goes to `/`).
pub fn register_outcome(form: &Register) -> (r: Option<String>)
    ensures
        r.deep_view() == register_refusal(user_data_verdict(form.email@, form.password@)),
{
    let data = Register {
        nickname: form.nickname.clone(),
        email: form.email.clone(),
        password: form.password.clone(),
    };
    match checking_user_data(data) {
        Err(UserDataError::NoAtSign) => Some(String::from_str("/register?message=no_at_sign")),
        Err(UserDataError::EmailFormat) => Some(
            String::from_str("/register?message=wrong_email_format"),
        ),
        Err(UserDataError::PasswordFormat) => Some(
            String::from_str("/register?message=wrong_password_format"),
        ),
        _ => None,
    }
}

// ---------------------------------------------------------------------------
// Adding a contact
// ---------------------------------------------------------------------------

/// The next thing an add-contact request does.
#[derive(Debug)]
pub enum ContactStep {
    /// Answer with a redirect.
    Redirect { location: String },
    /// End the request with an error.
    Fail { error: ServerError },
    /// Look up the user of this session (one that has not expired).
    FindSessionUser { session_id: u128 },
    /// Look up the user named in the form, on behalf of this user.
    FindContact { user_id: u128 },
    /// Record the contact.
    InsertContact { user_id: u128, contact_id: u128 },
}

/// Where an add-contact request goes when the session's user or the named
/// user is not found.
pub open spec fn contact_not_found() -> Seq<char> {
    "/add_contact?message=error_finding_user"@
}

/// Where an add-contact request goes once the contact was recorded, or was
/// found already there.
pub open spec fn contact_recorded(inserted: bool) -> Seq<char> {
    if inserted {
        "/add_contact?message=user_added"@
    } else {
        "/add_contact?message=already_in_contacts"@
    }
}

/// First stage: the session cookie. Without one the user is sent to sign in.
pub fn add_contact_start(jar: &CookieJar) -> (r: ContactStep)
    ensures
        match session_verdict(jar_cookies(*jar)) {
            SessionCookie::Missing => r is Redirect && r->location@ == "/login"@,
            SessionCookie::Malformed => r is Fail && r->error == ServerError::HandleSocketError(
                HandleSocketError::ParsingCookie,
            ),
            SessionCookie::Valid(id) => r == (ContactStep::FindSessionUser { session_id: id }),
        },
{
    match session_from_cookie(jar) {
        SessionCookie::Missing => ContactStep::Redirect { location: String::from_str("/login") },
        SessionCookie::Malformed => ContactStep::Fail {
            error: ServerError::HandleSocketError(HandleSocketError::ParsingCookie),
        },
        SessionCookie::Valid(id) => ContactStep::FindSessionUser { session_id: id },
    }
}

/// Second stage: the user of the session, if the session is live.
pub fn add_contact_session(user: Option<u128>) -> (r: ContactStep)
    ensures
        match user {
            None => r is Redirect && r->location@ == contact_not_found(),
            Some(u) => r == (ContactStep::FindContact { user_id: u }),
        },
{
    match user {
        None => ContactStep::Redirect {
            location: String::from_str("/add_contact?message=error_finding_user"),
        },
        Some(u) => ContactStep::FindContact { user_id: u },
    }
}

/// Third stage: the user named in the form, or the text of the database
/// error that the lookup met.
pub fn add_contact_lookup(user_id: u128, found: Result<Option<u128>, String>) -> (r: ContactStep)
    ensures
        match found {
            Err(e) => r is Fail && r->error == ServerError::TokioDb(e),
            Ok(None) => r is Redirect && r->location@ == contact_not_found(),
            Ok(Some(c)) => r == (ContactStep::InsertContact { user_id: user_id, contact_id: c }),
        },
{
    match found {
        Err(e) => ContactStep::Fail { error: ServerError::TokioDb(e) },
        Ok(None) => ContactStep::Redirect {
            location: String::from_str("/add_contact?message=error_finding_user"),
        },
        Ok(Some(c)) => ContactStep::InsertContact { user_id, contact_id: c },
    }
}

/// Last stage: whether the contact was recorded (it is not when the pair is
/// already there).
pub fn add_contact_inserted(inserted: bool) -> (r: ContactStep)
    ensures
        r is Redirect,
        r->location@ == contact_recorded(inserted),
{
    if inserted {
        ContactStep::Redirect { location: String::from_str("/add_contact?message=user_added") }
    } else {
        ContactStep::Redirect {
            location: String::from_str("/add_contact?message=already_in_contacts"),
        }
    }
}

// ---------------------------------------------------------------------------
// What refused requests are answered
// ---------------------------------------------------------------------------

/// A refused sign-in goes back to the sign-in page with a message for which
/// that page shows a notice.
pub proof fn lemma_login_refusals_are_shown(account_found: bool)
    ensures
        query_message(login_refusal(account_found), "/login"@) is Some,
        login_notice(query_message(login_refusal(account_found), "/login"@)->0).len() > 0,
{
    reveal_strlit("/login?message=invalid_password");
    reveal_strlit("/login?message=no_such_user");
    reveal_strlit("/login");
    reveal_strlit("?message=");
    reveal_strlit("invalid_password");
    reveal_strlit("no_such_user");
    reveal_strlit("<h1>No such user</h1>");
    reveal_strlit("<h1>Invalid password</h1>");
    let prefix = "/login"@ + "?message="@;
    let loc = login_refusal(account_found);
    assert(prefix.is_prefix_of(loc));
    if account_found {
        assert(loc.skip(prefix.len() as int) =~= "invalid_password"@);
        assert("invalid_password"@ != "no_such_user"@);
    } else {
        assert(loc.skip(prefix.len() as int) =~= "no_such_user"@);
    }
}

/// A refused sign-up goes back to the sign-up page with a message for which
/// that page shows a notice.
pub proof fn lemma_register_refusals_are_shown(verdict: Result<(), UserDataError>)
    ensures
        register_refusal(verdict) is Some ==> query_message(register_refusal(verdict)->0, "/register"@) is Some
            && register_notice(query_message(register_refusal(verdict)->0, "/register"@)->0).len()
            > 0,
{
    reveal_strlit("/register?message=no_at_sign");
    reveal_strlit("/register?message=wrong_email_format");
    reveal_strlit("/register?message=wrong_password_format");
    reveal_strlit("/register");
    reveal_strlit("?message=");
    reveal_strlit("no_at_sign");
    reveal_strlit("wrong_email_format");
    reveal_strlit("wrong_password_format");
    reveal_strlit("<h1>No @ sign in email</h1>");
    reveal_strlit("<h1>Wrong email format</h1>");
    reveal_strlit("<h1>Wrong password format</h1>");
    let prefix = "/register"@ + "?message="@;
    match verdict {
        Err(UserDataError::NoAtSign) => {
            assert(prefix.is_prefix_of(register_refusal(verdict)->0));
            assert(register_refusal(verdict)->0.skip(prefix.len() as int) =~= "no_at_sign"@);
        },
        Err(UserDataError::EmailFormat) => {
            assert(prefix.is_prefix_of(register_refusal(verdict)->0));
            assert(register_refusal(verdict)->0.skip(prefix.len() as int) =~= "wrong_email_format"@);
            assert("wrong_email_format"@ != "no_at_sign"@);
        },
        Err(UserDataError::PasswordFormat) => {
            assert(prefix.is_prefix_of(register_refusal(verdict)->0));
            assert(register_refusal(verdict)->0.skip(prefix.len() as int)
                =~= "wrong_password_format"@);
            assert("wrong_password_format"@ != "no_at_sign"@);
            assert("wrong_password_format"@ != "wrong_email_format"@);
        },
        _ => {},
    }
}

/// Every add-contact request that ends on the add-contact page carries a
/// message for which that page shows a notice.
pub proof fn lemma_contact_answers_are_shown(inserted: bool)
    ensures
        query_message(contact_not_found(), "/add_contact"@) is Some,
        add_contact_notice(query_message(contact_not_found(), "/add_contact"@)->0).len() > 0,
        query_message(contact_recorded(inserted), "/add_contact"@) is Some,
        add_contact_notice(query_message(contact_recorded(inserted), "/add_contact"@)->0).len() > 0,
{
    reveal_strlit("/add_contact?message=error_finding_user");
    reveal_strlit("/add_contact?message=user_added");
    reveal_strlit("/add_contact?message=already_in_contacts");
    reveal_strlit("/add_contact");
    reveal_strlit("?message=");
    reveal_strlit("error_finding_user");
    reveal_strlit("already_in_contacts");
    reveal_strlit("user_added");
    reveal_strlit("<h1>Error finding that user</h1>");
    reveal_strlit("<h1>User already in contacts</h1>");
    reveal_strlit("<h1>User added successfully</h1>");
    let prefix = "/add_contact"@ + "?message="@;
    assert(prefix.is_prefix_of(contact_not_found()));
    assert(contact_not_found().skip(prefix.len() as int) =~= "error_finding_user"@);
    assert(prefix.is_prefix_of(contact_recorded(inserted)));
    if inserted {
        assert(contact_recorded(inserted).skip(prefix.len() as int) =~= "user_added"@);
        assert("user_added"@ != "error_finding_user"@);
        assert("user_added"@ != "already_in_contacts"@);
    } else {
        assert(contact_recorded(inserted).skip(prefix.len() as int) =~= "already_in_contacts"@);
        assert("already_in_contacts"@ != "error_finding_user"@);
    }
}

// ---------------------------------------------------------------------------
// Home page
// ---------------------------------------------------------------------------

/// The next thing a home-page request does.
#[derive(Debug)]
pub enum HomeStep {
    /// Answer with the sign-in page.
    ShowLogin,
    /// End the request with an error.
    Fail { error: ServerError },
    /// Look up the user of this session (one that has not expired).
    FindSessionUser { session_id: u128 },
    /// List this user's contacts and show the home page.
    ListContacts { user_id: u128 },
}

/// First stage: the session cookie. Without one the sign-in page is shown.
pub fn home_start(jar: &CookieJar) -> (r: HomeStep)
    ensures
        match session_verdict(jar_cookies(*jar)) {
            SessionCookie::Missing => r is ShowLogin,
            SessionCookie::Malformed => r is Fail && r->error == ServerError::HandleSocketError(
                HandleSocketError::ParsingCookie,
            ),
            SessionCookie::Valid(id) => r == (HomeStep::FindSessionUser { session_id: id }),
        },
{
    match session_from_cookie(jar) {
        SessionCookie::Missing => HomeStep::ShowLogin,
        SessionCookie::Malformed => HomeStep::Fail {
            error: ServerError::HandleSocketError(HandleSocketError::ParsingCookie),
        },
        SessionCookie::Valid(id) => HomeStep::FindSessionUser { session_id: id },
    }
}

/// Second stage: the user of the session, if the session is live; the
/// sign-in page otherwise.
pub fn home_session(user: Option<u128>) -> (r: HomeStep)
    ensures
        match user {
            None => r is ShowLogin,
            Some(u) => r == (HomeStep::ListContacts { user_id: u }),
        },
{
    match user {
        None => HomeStep::ShowLogin,
        Some(u) => HomeStep::ListContacts { user_id: u },
    }
}

} // verus!
