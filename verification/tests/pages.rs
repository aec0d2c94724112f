use msggram::pages::{add_contact_page, login_page, register_page};
use msggram::{AddContactMessage, LoginMessage, RegisterMessage};

fn msg(m: &str) -> Option<String> {
    Some(String::from(m))
}

#[test]
fn login_page_without_message_is_unchanged() {
    let page = "<p>Fill all of the fields</p>";
    assert_eq!(login_page(page, &LoginMessage { message: None }), page);
}

#[test]
fn login_page_notices() {
    let page = "<p>Fill all of the fields</p>";
    assert_eq!(
        login_page(page, &LoginMessage { message: msg("no_such_user") }),
        "<p><h1>No such user</h1></p>"
    );
    assert_eq!(
        login_page(page, &LoginMessage { message: msg("invalid_password") }),
        "<p><h1>Invalid password</h1></p>"
    );
    assert_eq!(login_page(page, &LoginMessage { message: msg("other") }), "<p></p>");
}

#[test]
fn every_placeholder_is_replaced() {
    let page = "Fill all of the fields|Fill all of the fields|Fill all of the field";
    assert_eq!(
        login_page(page, &LoginMessage { message: msg("no_such_user") }),
        "<h1>No such user</h1>|<h1>No such user</h1>|Fill all of the field"
    );
}

#[test]
fn register_page_notices() {
    let page = "ä Fill all of the blanks ö";
    assert_eq!(register_page(page, &RegisterMessage { message: None }), page);
    assert_eq!(
        register_page(page, &RegisterMessage { message: msg("no_at_sign") }),
        "ä <h1>No @ sign in email</h1> ö"
    );
    assert_eq!(
        register_page(page, &RegisterMessage { message: msg("wrong_email_format") }),
        "ä <h1>Wrong email format</h1> ö"
    );
    assert_eq!(
        register_page(page, &RegisterMessage { message: msg("wrong_password_format") }),
        "ä <h1>Wrong password format</h1> ö"
    );
    assert_eq!(register_page(page, &RegisterMessage { message: msg("") }), "ä  ö");
}

#[test]
fn add_contact_page_notices() {
    let page = "[Type a username]";
    assert_eq!(add_contact_page(page, &AddContactMessage { message: None }), page);
    assert_eq!(
        add_contact_page(page, &AddContactMessage { message: msg("error_finding_user") }),
        "[<h1>Error finding that user</h1>]"
    );
    assert_eq!(
        add_contact_page(page, &AddContactMessage { message: msg("already_in_contacts") }),
        "[<h1>User already in contacts</h1>]"
    );
    assert_eq!(
        add_contact_page(page, &AddContactMessage { message: msg("user_added") }),
        "[<h1>User added successfully</h1>]"
    );
}

#[test]
fn page_without_placeholder_is_unchanged() {
    let page = "nothing to see";
    assert_eq!(login_page(page, &LoginMessage { message: msg("no_such_user") }), page);
}
