use msggram::{checking_user_data, Register, UserDataError};

fn form(email: &str, password: &str) -> Register {
    Register {
        nickname: String::from("nick"),
        email: String::from(email),
        password: String::from(password),
    }
}

#[test]
fn accepts_well_formed_data() {
    assert_eq!(checking_user_data(form("user@example.com", "Passw0rd")), Ok(()));
}

#[test]
fn refuses_email_without_at_sign() {
    assert_eq!(checking_user_data(form("userexample.com", "Passw0rd")), Err(UserDataError::NoAtSign));
}

#[test]
fn refuses_empty_email() {
    assert_eq!(checking_user_data(form("", "Passw0rd")), Err(UserDataError::NoAtSign));
}

#[test]
fn refuses_empty_local_part() {
    assert_eq!(checking_user_data(form("@example.com", "Passw0rd")), Err(UserDataError::EmailFormat));
}

#[test]
fn refuses_empty_domain() {
    assert_eq!(checking_user_data(form("user@", "Passw0rd")), Err(UserDataError::EmailFormat));
}

#[test]
fn refuses_domain_starting_with_dot() {
    assert_eq!(checking_user_data(form("user@.com", "Passw0rd")), Err(UserDataError::EmailFormat));
}

#[test]
fn refuses_domain_ending_with_dot() {
    assert_eq!(checking_user_data(form("user@example.", "Passw0rd")), Err(UserDataError::EmailFormat));
}

#[test]
fn refuses_email_with_space() {
    assert_eq!(checking_user_data(form("us er@example.com", "Passw0rd")), Err(UserDataError::EmailFormat));
    assert_eq!(checking_user_data(form("user@exa mple.com", "Passw0rd")), Err(UserDataError::EmailFormat));
}

#[test]
fn trims_surrounding_whitespace_of_email() {
    assert_eq!(checking_user_data(form("  user@example.com\t\n", "Passw0rd")), Ok(()));
    assert_eq!(checking_user_data(form("\u{a0}user@example.com\u{2003}", "Passw0rd")), Ok(()));
}

#[test]
fn whitespace_only_email_has_no_at_sign() {
    assert_eq!(checking_user_data(form("   ", "Passw0rd")), Err(UserDataError::NoAtSign));
}

#[test]
fn splits_at_first_at_sign() {
    assert_eq!(checking_user_data(form("a@b@c.d", "Passw0rd")), Ok(()));
    assert_eq!(checking_user_data(form("a@.b@c", "Passw0rd")), Err(UserDataError::EmailFormat));
}

#[test]
fn refuses_password_without_uppercase() {
    assert_eq!(checking_user_data(form("user@example.com", "passw0rd")), Err(UserDataError::PasswordFormat));
}

#[test]
fn refuses_password_without_digit() {
    assert_eq!(checking_user_data(form("user@example.com", "Password")), Err(UserDataError::PasswordFormat));
}

#[test]
fn refuses_password_without_letter() {
    assert_eq!(checking_user_data(form("user@example.com", "12345!")), Err(UserDataError::PasswordFormat));
    assert_eq!(checking_user_data(form("user@example.com", "")), Err(UserDataError::PasswordFormat));
}

#[test]
fn password_classes_are_unicode() {
    assert_eq!(checking_user_data(form("user@example.com", "Ünïcode٣")), Ok(()));
    assert_eq!(checking_user_data(form("user@example.com", "ünïcode٣")), Err(UserDataError::PasswordFormat));
}

#[test]
fn email_is_judged_before_password() {
    assert_eq!(checking_user_data(form("no-at-sign", "bad")), Err(UserDataError::NoAtSign));
    assert_eq!(checking_user_data(form("user@.com", "bad")), Err(UserDataError::EmailFormat));
}

#[test]
fn user_data_error_messages() {
    assert_eq!(UserDataError::NoAtSign.describe(), "Abscent @ sign in email");
    assert_eq!(UserDataError::EmailFormat.describe(), "Wrong email format");
    assert_eq!(UserDataError::PasswordFormat.describe(), "Wrong password format");
    assert_eq!(UserDataError::InvalidCredentials.describe(), "Invalid users credentials");
}
