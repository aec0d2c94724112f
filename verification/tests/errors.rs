use msggram::{HandleSocketError, ServerError, UserDataError};

#[test]
fn socket_error_messages() {
    assert_eq!(HandleSocketError::RetrievingCookie.describe(), "Error retrieving cookie");
    assert_eq!(HandleSocketError::ParsingCookie.describe(), "Error parsing cookie");
    assert_eq!(HandleSocketError::UserNotFound.describe(), "Error user not found");
}

#[test]
fn server_error_messages() {
    let d = || String::from("boom");
    assert_eq!(ServerError::TokioDb(d()).describe(), "tokio_postgres database erorr: boom");
    assert_eq!(ServerError::DeadpoolDb(d()).describe(), "deadpool_postgres database erorr: boom");
    assert_eq!(ServerError::PoolCreation(d()).describe(), "Failed to create database: boom");
    assert_eq!(ServerError::Io(d()).describe(), "I/O erorr: boom");
    assert_eq!(ServerError::Env(d()).describe(), ".env erorr: boom");
    assert_eq!(ServerError::SerdeJson(d()).describe(), "boom");
    assert_eq!(ServerError::Axum(d()).describe(), "boom");
    assert_eq!(
        ServerError::HandleSocketError(HandleSocketError::UserNotFound).describe(),
        "WebSocket error: Error user not found"
    );
    assert_eq!(
        ServerError::UserDataError(UserDataError::EmailFormat).describe(),
        "Wrong email format"
    );
}

#[test]
fn server_error_status_codes() {
    assert_eq!(ServerError::UserDataError(UserDataError::NoAtSign).status_code(), 400);
    assert_eq!(ServerError::TokioDb(String::new()).status_code(), 500);
    assert_eq!(ServerError::Io(String::new()).status_code(), 500);
    assert_eq!(ServerError::HandleSocketError(HandleSocketError::ParsingCookie).status_code(), 500);
}

#[test]
fn server_error_from_library_errors() {
    let e: ServerError = UserDataError::PasswordFormat.into();
    assert!(matches!(e, ServerError::UserDataError(UserDataError::PasswordFormat)));
    let e: ServerError = HandleSocketError::RetrievingCookie.into();
    assert!(matches!(e, ServerError::HandleSocketError(HandleSocketError::RetrievingCookie)));
}
