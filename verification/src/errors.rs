//! The server's errors, their messages and the HTTP status each one is
//! answered with.
use vstd::prelude::*;
use crate::user_data::{user_data_error_text, UserDataError};

verus! {

/// Why a web-socket session could not start.
#[derive(Clone, Copy, Debug, PartialEq, Eq, Structural)]
pub enum HandleSocketError {
    RetrievingCookie,
    ParsingCookie,
    UserNotFound,
}

/// The message shown for each web-socket error.
pub open spec fn socket_error_text(e: HandleSocketError) -> Seq<char> {
    match e {
        HandleSocketError::RetrievingCookie => "Error retrieving cookie"@,
        HandleSocketError::ParsingCookie => "Error parsing cookie"@,
        HandleSocketError::UserNotFound => "Error user not found"@,
    }
}

impl HandleSocketError {
    /// The message shown for this error.
    pub fn describe(&self) -> (r: String)
        ensures
            r@ == socket_error_text(*self),
    {
        match self {
            HandleSocketError::RetrievingCookie => String::from_str("Error retrieving cookie"),
            HandleSocketError::ParsingCookie => String::from_str("Error parsing cookie"),
            HandleSocketError::UserNotFound => String::from_str("Error user not found"),
        }
    }
}

/// An error that ends a request. Errors that come from the database, the
/// file system, the environment, JSON or the web framework carry the text
/// that the failing component gave.
#[derive(Clone, Debug)]
pub enum ServerError {
    TokioDb(String),
    DeadpoolDb(String),
    PoolCreation(String),
    Io(String),
    Env(String),
    SerdeJson(String),
    Axum(String),
    HandleSocketError(HandleSocketError),
    UserDataError(UserDataError),
}

/// The message shown for a server error.
pub open spec fn server_error_text(e: ServerError) -> Seq<char> {
    match e {
        ServerError::TokioDb(d) => "tokio_postgres database erorr: "@ + d@,
        ServerError::DeadpoolDb(d) => "deadpool_postgres database erorr: "@ + d@,
        ServerError::PoolCreation(d) => "Failed to create database: "@ + d@,
        ServerError::Io(d) => "I/O erorr: "@ + d@,
        ServerError::Env(d) => ".env erorr: "@ + d@,
        ServerError::SerdeJson(d) => d@,
        ServerError::Axum(d) => d@,
        ServerError::HandleSocketError(s) => "WebSocket error: "@ + socket_error_text(s),
        ServerError::UserDataError(u) => user_data_error_text(u),
    }
}

/// The HTTP status a server error is answered with: 400 for refused user
/// data, 500 for everything else.
pub open spec fn server_error_status(e: ServerError) -> u16 {
    match e {
        ServerError::UserDataError(_) => 400,
        _ => 500,
    }
}

/// Only refused user data is answered as the client's fault (400); every
/// other error, from the database, the pool, files, the environment, JSON,
/// the web framework or the web socket, is answered 500.
pub proof fn lemma_status_blames_client_only_for_user_data(e: ServerError)
    ensures
        server_error_status(e) == 400 <==> e is UserDataError,
        !(e is UserDataError) ==> server_error_status(e) == 500,
        server_error_status(e) == 400 || server_error_status(e) == 500,
{
}

impl ServerError {
    /// The message shown for this error.
    pub fn describe(&self) -> (r: String)
        ensures
            r@ == server_error_text(*self),
    {
        match self {
            ServerError::TokioDb(d) => String::from_str("tokio_postgres database erorr: ").concat(
                d.as_str(),
            ),
            ServerError::DeadpoolDb(d) => String::from_str(
                "deadpool_postgres database erorr: ",
            ).concat(d.as_str()),
            ServerError::PoolCreation(d) => String::from_str("Failed to create database: ").concat(
                d.as_str(),
            ),
            ServerError::Io(d) => String::from_str("I/O erorr: ").concat(d.as_str()),
            ServerError::Env(d) => String::from_str(".env erorr: ").concat(d.as_str()),
            ServerError::SerdeJson(d) => d.clone(),
            ServerError::Axum(d) => d.clone(),
            ServerError::HandleSocketError(s) => String::from_str("WebSocket error: ").concat(
                s.describe().as_str(),
            ),
            ServerError::UserDataError(u) => u.describe(),
        }
    }

    /// The HTTP status this error is answered with.
    pub fn status_code(&self) -> (r: u16)
        ensures
            r == server_error_status(*self),
    {
        match self {
            ServerError::UserDataError(_) => 400,
            _ => 500,
        }
    }
}

impl From<UserDataError> for ServerError {
    fn from(e: UserDataError) -> (r: Self) {
        ServerError::UserDataError(e)
    }
}

impl vstd::std_specs::convert::FromSpecImpl<UserDataError> for ServerError {
    open spec fn obeys_from_spec() -> bool {
        true
    }

    open spec fn from_spec(e: UserDataError) -> ServerError {
        ServerError::UserDataError(e)
    }
}

impl From<HandleSocketError> for ServerError {
    fn from(e: HandleSocketError) -> (r: Self) {
        ServerError::HandleSocketError(e)
    }
}

impl vstd::std_specs::convert::FromSpecImpl<HandleSocketError> for ServerError {
    open spec fn obeys_from_spec() -> bool {
        true
    }

    open spec fn from_spec(e: HandleSocketError) -> ServerError {
        ServerError::HandleSocketError(e)
    }
}

} // verus!
