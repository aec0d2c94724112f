//! Chat messages and the decisions of a web-socket session.
use vstd::prelude::*;
use axum_extra::extract::cookie::CookieJar;
use crate::cookies::{jar_cookies, session_from_cookie, session_verdict, SessionCookie};
use crate::errors::HandleSocketError;

verus! {

/// A chat message: its receiver and its text.
#[derive(Clone, Debug)]
pub struct Message {
    pub receiver_id: u128,
    pub contents: String,
}

/// First stage of a web-socket session: the session cookie must be there
/// and hold an identifier.
pub fn socket_start(jar: &CookieJar) -> (r: Result<u128, HandleSocketError>)
    ensures
        r == match session_verdict(jar_cookies(*jar)) {
            SessionCookie::Missing => Err(HandleSocketError::RetrievingCookie),
            SessionCookie::Malformed => Err(HandleSocketError::ParsingCookie),
            SessionCookie::Valid(id) => Ok(id),
        },
{
    match session_from_cookie(jar) {
        SessionCookie::Missing => Err(HandleSocketError::RetrievingCookie),
        SessionCookie::Malformed => Err(HandleSocketError::ParsingCookie),
        SessionCookie::Valid(id) => Ok(id),
    }
}

/// Second stage: the user of the session, who must exist and whose session
/// must be live.
pub fn socket_user(user: Option<u128>) -> (r: Result<u128, HandleSocketError>)
    ensures
        r == match user {
            None => Err(HandleSocketError::UserNotFound),
            Some(u) => Ok(u),
        },
{
    match user {
        None => Err(HandleSocketError::UserNotFound),
        Some(u) => Ok(u),
    }
}

/// What happens on an open web-socket session.
#[derive(Debug)]
pub enum SocketEvent {
    /// A message addressed to this session's user arrived on its channel.
    Outgoing(Message),
    /// The client sent a text frame holding this message.
    Incoming(Message),
    /// The client sent a frame that is not text.
    IncomingOther,
    /// Both the channel and the socket are closed.
    Ended,
}

/// What an open web-socket session does next.
#[derive(Debug)]
pub enum SocketAction {
    /// Send this message to the client.
    Send(Message),
    /// Store the message as sent by this user, and hand it to its receiver
    /// if the receiver is connected.
    StoreAndForward { sender_id: u128, message: Message },
    /// Nothing to do.
    Ignore,
    /// Close the session.
    Stop,
}

/// The action of the session of user `user_id` on an event. A message the
/// client sends is always recorded as sent by the session's own user.
pub fn socket_step(user_id: u128, event: SocketEvent) -> (r: SocketAction)
    ensures
        match event {
            SocketEvent::Outgoing(m) => r == SocketAction::Send(m),
            SocketEvent::Incoming(m) => r == (SocketAction::StoreAndForward {
                sender_id: user_id,
                message: m,
            }),
            SocketEvent::IncomingOther => r is Ignore,
            SocketEvent::Ended => r is Stop,
        },
{
    match event {
        SocketEvent::Outgoing(m) => SocketAction::Send(m),
        SocketEvent::Incoming(m) => SocketAction::StoreAndForward { sender_id: user_id, message: m },
        SocketEvent::IncomingOther => SocketAction::Ignore,
        SocketEvent::Ended => SocketAction::Stop,
    }
}

} // verus!
