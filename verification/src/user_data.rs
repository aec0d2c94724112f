//! Sign-up and sign-in form data, and the rules that sign-up data must meet.
use vstd::prelude::*;
use crate::text::{
    any_in_class, chars_of, contains_char, copy_range, find_char, first_occurrence, has_char,
    has_class, lemma_trimmed_idempotent, lemma_trimmed_ignores_padding, lemma_trimmed_is_window,
    trim_bounds, trim_window, trimmed, all_whitespace, whitespace_char, CharClass,
};

verus! {

/// The sign-up form.
#[derive(Clone, Debug)]
pub struct Register {
    pub nickname: String,
    pub email: String,
    pub password: String,
}

/// The sign-in form.
#[derive(Clone, Debug)]
pub struct Login {
    pub email: String,
    pub password: String,
}

/// The form that names a user to add to one's contacts.
#[derive(Clone, Debug)]
pub struct AddContact {
    pub nickname: String,
}

/// Why sign-up or sign-in data is refused.
#[derive(Clone, Copy, Debug, PartialEq, Eq, Structural)]
pub enum UserDataError {
    NoAtSign,
    EmailFormat,
    PasswordFormat,
    InvalidCredentials,
}

/// What the e-mail rules say of an address: `None` when it is acceptable.
///
/// The address is taken without leading and trailing whitespace and split at
/// its first `@`; the part before must be non-empty, the part after must be
/// non-empty and neither begin nor end with `.`, and the address must hold
/// no space.
pub open spec fn email_verdict(email: Seq<char>) -> Option<UserDataError> {
    let e = trimmed(email);
    if !has_char(e, '@') {
        Some(UserDataError::NoAtSign)
    } else {
        let at: int = choose|i: int| first_occurrence(e, '@', i);
        let local = e.take(at);
        let domain = e.skip(at + 1);
        if local.len() == 0 || domain.len() == 0 || domain[0] == '.' || domain.last() == '.'
            || has_char(e, ' ') {
            Some(UserDataError::EmailFormat)
        } else {
            None
        }
    }
}

/// A password is acceptable when it holds an alphabetic, a numeric and an
/// uppercase character.
pub open spec fn password_acceptable(password: Seq<char>) -> bool {
    &&& has_class(password, CharClass::Alphabetic)
    &&& has_class(password, CharClass::Numeric)
    &&& has_class(password, CharClass::Uppercase)
}

/// What the sign-up rules say of an e-mail address and a password: the
/// e-mail is judged first, then the password.
pub open spec fn user_data_verdict(email: Seq<char>, password: Seq<char>) -> Result<
    (),
    UserDataError,
> {
    match email_verdict(email) {
        Some(err) => Err(err),
        None => if password_acceptable(password) {
            Ok(())
        } else {
            Err(UserDataError::PasswordFormat)
        },
    }
}

/// The sign-up rules do not see whitespace around the e-mail address: an
/// address and its trimmed form get the same verdict.
pub proof fn lemma_verdict_ignores_surrounding_whitespace(email: Seq<char>, password: Seq<char>)
    ensures
        user_data_verdict(trimmed(email), password) == user_data_verdict(email, password),
{
    lemma_trimmed_idempotent(email);
}

/// Whitespace typed before or after an e-mail address never changes the
/// verdict on the sign-up data.
pub proof fn lemma_verdict_ignores_padding(
    before: Seq<char>,
    email: Seq<char>,
    after: Seq<char>,
    password: Seq<char>,
)
    requires
        all_whitespace(before),
        all_whitespace(after),
    ensures
        user_data_verdict(before + email + after, password) == user_data_verdict(email, password),
{
    lemma_trimmed_ignores_padding(before, email, after);
}

/// An address `local@domain`, with no `@` in `local` and no whitespace at
/// either end, is accepted exactly when `local` and `domain` are non-empty,
/// `domain` neither begins nor ends with `.`, and neither part holds a space;
/// otherwise it is refused as `EmailFormat`. Nothing else about the two
/// parts matters.
pub proof fn lemma_email_verdict_by_parts(local: Seq<char>, domain: Seq<char>)
    requires
        !has_char(local, '@'),
        !whitespace_char((local + seq!['@'] + domain)[0]),
        !whitespace_char((local + seq!['@'] + domain).last()),
    ensures
        email_verdict(local + seq!['@'] + domain) is None <==> (local.len() > 0 && domain.len() > 0
            && domain[0] != '.' && domain.last() != '.' && !has_char(local, ' ') && !has_char(
            domain,
            ' ',
        )),
        email_verdict(local + seq!['@'] + domain) is Some ==> email_verdict(
            local + seq!['@'] + domain,
        ) == Some(UserDataError::EmailFormat),
{
    let e = local + seq!['@'] + domain;
    let n = local.len() as int;
    assert(trim_window(e, 0, e.len() as int));
    lemma_trimmed_is_window(e, 0, e.len() as int);
    assert(e.subrange(0, e.len() as int) =~= e);
    assert forall|j: int| 0 <= j < n implies e[j] != '@' by {
        assert(e[j] == local[j]);
    }
    assert(e[n] == '@');
    assert(first_occurrence(e, '@', n));
    lemma_first_occurrence_unique(e, '@', n);
    assert(has_char(e, '@'));
    assert(e.take(n) =~= local);
    assert(e.skip(n + 1) =~= domain);
    if has_char(e, ' ') {
        let k = choose|k: int| 0 <= k < e.len() && e[k] == ' ';
        if k < n {
            assert(local[k] == ' ');
        } else if k > n {
            assert(domain[k - n - 1] == ' ');
        }
    }
    if has_char(local, ' ') {
        let k = choose|k: int| 0 <= k < local.len() && local[k] == ' ';
        assert(e[k] == ' ');
    }
    if has_char(domain, ' ') {
        let k = choose|k: int| 0 <= k < domain.len() && domain[k] == ' ';
        assert(e[n + 1 + k] == ' ');
    }
}

proof fn lemma_first_occurrence_unique(s: Seq<char>, c: char, i: int)
    requires
        first_occurrence(s, c, i),
    ensures
        (choose|k: int| first_occurrence(s, c, k)) == i,
{
    let k: int = choose|k: int| first_occurrence(s, c, k);
    assert(first_occurrence(s, c, k));
    if k < i {
        assert(s[k] != c);
    } else if k > i {
        assert(s[i] != c);
    }
}

/// Checks sign-up data: the e-mail address first, then the password.
pub fn checking_user_data(data: Register) -> (r: Result<(), UserDataError>)
    ensures
        r == user_data_verdict(data.email@, data.password@),
{
    let raw = chars_of(data.email.as_str());
    let (start, end) = trim_bounds(&raw);
    let email = copy_range(&raw, start, end);
    match find_char(&email, '@') {
        None => {
            return Err(UserDataError::NoAtSign);
        },
        Some(at) => {
            proof {
                lemma_first_occurrence_unique(email@, '@', at as int);
            }
            let n: usize = email.len();
            if at == 0 || at + 1 == n || email[at + 1] == '.' || email[n - 1] == '.'
                || contains_char(&email, ' ') {
                proof {
                    let domain = email@.skip(at + 1);
                    if at + 1 < n {
                        assert(domain[0] == email@[at + 1]);
                        assert(domain.last() == email@[n - 1]);
                    }
                }
                return Err(UserDataError::EmailFormat);
            }
            proof {
                let domain = email@.skip(at + 1);
                assert(domain[0] == email@[at + 1]);
                assert(domain.last() == email@[n - 1]);
            }
        },
    }
    let password = chars_of(data.password.as_str());
    if any_in_class(&password, CharClass::Alphabetic) && any_in_class(
        &password,
        CharClass::Numeric,
    ) && any_in_class(&password, CharClass::Uppercase) {
        Ok(())
    } else {
        Err(UserDataError::PasswordFormat)
    }
}

impl UserDataError {
    /// The message shown for this error.
    pub fn describe(&self) -> (r: String)
        ensures
            r@ == user_data_error_text(*self),
    {
        match self {
            UserDataError::NoAtSign => String::from_str("Abscent @ sign in email"),
            UserDataError::EmailFormat => String::from_str("Wrong email format"),
            UserDataError::PasswordFormat => String::from_str("Wrong password format"),
            UserDataError::InvalidCredentials => String::from_str("Invalid users credentials"),
        }
    }
}

/// The message shown for each sign-up error.
pub open spec fn user_data_error_text(e: UserDataError) -> Seq<char> {
    match e {
        UserDataError::NoAtSign => "Abscent @ sign in email"@,
        UserDataError::EmailFormat => "Wrong email format"@,
        UserDataError::PasswordFormat => "Wrong password format"@,
        UserDataError::InvalidCredentials => "Invalid users credentials"@,
    }
}

} // verus!
