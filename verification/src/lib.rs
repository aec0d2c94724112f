//! Verified core of a small chat server: validation of sign-up data, the
//! text of its pages, session cookies, and the decisions that its requests
//! and web-socket sessions make between database calls.
pub mod chat;
pub mod contacts;
pub mod cookies;
pub mod errors;
pub mod flows;
pub mod ids;
pub mod pages;
pub mod text;
pub mod user_data;

pub use chat::Message;
pub use cookies::get_cookie;
pub use errors::{HandleSocketError, ServerError};
pub use pages::{AddContactMessage, LoginMessage, RegisterMessage};
pub use user_data::{checking_user_data, AddContact, Login, Register, UserDataError};
