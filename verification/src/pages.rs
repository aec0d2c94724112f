//! The text of the pages: the notice that a page shows for a message in its
//! query, and the contact buttons of the home page.
use vstd::prelude::*;
use crate::text::{
    lemma_replace_all_absent, lemma_replace_all_split, occurs_at, replace_all, replace_text,
    same_text,
};

verus! {

/// The query of the sign-in page.
#[derive(Clone, Debug)]
pub struct LoginMessage {
    pub message: Option<String>,
}

/// The query of the sign-up page.
#[derive(Clone, Debug)]
pub struct RegisterMessage {
    pub message: Option<String>,
}

/// The query of the add-contact page.
#[derive(Clone, Debug)]
pub struct AddContactMessage {
    pub message: Option<String>,
}

/// A page with its placeholder replaced by the notice for the query's
/// message; the page unchanged when the query has no message.
pub open spec fn page_with_notice(
    page: Seq<char>,
    placeholder: Seq<char>,
    message: Option<Seq<char>>,
    notice: spec_fn(Seq<char>) -> Seq<char>,
) -> Seq<char> {
    match message {
        None => page,
        Some(m) => replace_all(page, placeholder, notice(m)),
    }
}

/// A page whose query has a message shows the message's notice where its
/// placeholder stood: `before + placeholder + after`, with no placeholder
/// beginning inside `before` and none in `after`, becomes
/// `before + notice + after`. Without a message the page is unchanged.
pub proof fn lemma_notice_replaces_placeholder(
    before: Seq<char>,
    placeholder: Seq<char>,
    after: Seq<char>,
    message: Seq<char>,
    notice: spec_fn(Seq<char>) -> Seq<char>,
)
    requires
        placeholder.len() > 0,
        forall|p: int| 0 <= p < before.len() ==> !occurs_at(before + placeholder, placeholder, p),
        forall|p: int| !occurs_at(after, placeholder, p),
    ensures
        page_with_notice(before + placeholder + after, placeholder, Some(message), notice) == before
            + notice(message) + after,
        page_with_notice(before + placeholder + after, placeholder, None, notice) == before
            + placeholder + after,
{
    lemma_replace_all_split(before, placeholder, after, notice(message));
    lemma_replace_all_absent(after, placeholder, notice(message));
}

/// The notice of the sign-in page for each message; unknown messages give
/// no notice.
pub open spec fn login_notice(message: Seq<char>) -> Seq<char> {
    if message == "no_such_user"@ {
        "<h1>No such user</h1>"@
    } else if message == "invalid_password"@ {
        "<h1>Invalid password</h1>"@
    } else {
        ""@
    }
}

/// The notice of the sign-up page for each message.
pub open spec fn register_notice(message: Seq<char>) -> Seq<char> {
    if message == "no_at_sign"@ {
        "<h1>No @ sign in email</h1>"@
    } else if message == "wrong_email_format"@ {
        "<h1>Wrong email format</h1>"@
    } else if message == "wrong_password_format"@ {
        "<h1>Wrong password format</h1>"@
    } else {
        ""@
    }
}

/// The notice of the add-contact page for each message.
pub open spec fn add_contact_notice(message: Seq<char>) -> Seq<char> {
    if message == "error_finding_user"@ {
        "<h1>Error finding that user</h1>"@
    } else if message == "already_in_contacts"@ {
        "<h1>User already in contacts</h1>"@
    } else if message == "user_added"@ {
        "<h1>User added successfully</h1>"@
    } else {
        ""@
    }
}

fn login_notice_text(message: &str) -> (r: &'static str)
    ensures
        r@ == login_notice(message@),
{
    if same_text(message, "no_such_user") {
        "<h1>No such user</h1>"
    } else if same_text(message, "invalid_password") {
        "<h1>Invalid password</h1>"
    } else {
        ""
    }
}

fn register_notice_text(message: &str) -> (r: &'static str)
    ensures
        r@ == register_notice(message@),
{
    if same_text(message, "no_at_sign") {
        "<h1>No @ sign in email</h1>"
    } else if same_text(message, "wrong_email_format") {
        "<h1>Wrong email format</h1>"
    } else if same_text(message, "wrong_password_format") {
        "<h1>Wrong password format</h1>"
    } else {
        ""
    }
}

fn add_contact_notice_text(message: &str) -> (r: &'static str)
    ensures
        r@ == add_contact_notice(message@),
{
    if same_text(message, "error_finding_user") {
        "<h1>Error finding that user</h1>"
    } else if same_text(message, "already_in_contacts") {
        "<h1>User already in contacts</h1>"
    } else if same_text(message, "user_added") {
        "<h1>User added successfully</h1>"
    } else {
        ""
    }
}

/// The sign-in page: its placeholder `Fill all of the fields` replaced by
/// the notice for the query's message, if it has one.
pub fn login_page(page: &str, query: &LoginMessage) -> (r: String)
    ensures
        r@ == page_with_notice(
            page@,
            "Fill all of the fields"@,
            query.message.deep_view(),
            |m: Seq<char>| login_notice(m),
        ),
{
    match &query.message {
        None => String::from_str(page),
        Some(message) => {
            proof {
                reveal_strlit("Fill all of the fields");
            }
            replace_text(page, "Fill all of the fields", login_notice_text(message.as_str()))
        },
    }
}

/// The sign-up page: its placeholder `Fill all of the blanks` replaced by
/// the notice for the query's message, if it has one.
pub fn register_page(page: &str, query: &RegisterMessage) -> (r: String)
    ensures
        r@ == page_with_notice(
            page@,
            "Fill all of the blanks"@,
            query.message.deep_view(),
            |m: Seq<char>| register_notice(m),
        ),
{
    match &query.message {
        None => String::from_str(page),
        Some(message) => {
            proof {
                reveal_strlit("Fill all of the blanks");
            }
            replace_text(page, "Fill all of the blanks", register_notice_text(message.as_str()))
        },
    }
}

/// The add-contact page: its placeholder `Type a username` replaced by the
/// notice for the query's message, if it has one.
pub fn add_contact_page(page: &str, query: &AddContactMessage) -> (r: String)
    ensures
        r@ == page_with_notice(
            page@,
            "Type a username"@,
            query.message.deep_view(),
            |m: Seq<char>| add_contact_notice(m),
        ),
{
    match &query.message {
        None => String::from_str(page),
        Some(message) => {
            proof {
                reveal_strlit("Type a username");
            }
            replace_text(page, "Type a username", add_contact_notice_text(message.as_str()))
        },
    }
}

} // verus!
