//! The subscribe protocol the public WebSocket feed speaks.
//!
//! Client messages carry an event name with channel and symbol lists;
//! server messages are either a keyed event, a data stream frame, or a
//! subscriptions listing. The connection machinery is agnostic to this
//! schema; the host program encodes these values as JSON on the wire,
//! with snake_case event names and camelCase data fields.

use vstd::prelude::*;

verus! {

#[verifier::external_type_specification]
#[verifier::external_body]
pub struct ExJsonValue(serde_json::Value);

/// A message the client sends to the feed.
#[derive(Debug)]
pub enum ClientMsg {
    Ping,
    Subscribe { channel: Vec<String>, symbols: Vec<String> },
    Unsubscribe { channel: Vec<String>, symbols: Vec<String> },
    UnsubscribeAll,
    ListSubscriptions,
}

/// Any message the feed sends back.
#[derive(Debug)]
pub enum ServerMsg {
    Stream(ServerStream),
    Event(ServerEvent),
    Subscriptions { subscriptions: Vec<String> },
}

/// One data frame: raw records under a channel name. The records stay
/// opaque JSON values until a consumer decodes them for its channel.
#[derive(Debug)]
pub struct ServerStream {
    pub data: Vec<serde_json::Value>,
    pub channel: String,
}

impl ServerStream {
    pub fn into_msg(self) -> (r: ServerMsg)
        ensures
            r == ServerMsg::Stream(self),
    {
        ServerMsg::Stream(self)
    }
}

/// A keyed event from the feed.
#[derive(Debug)]
pub enum ServerEvent {
    Pong,
    Subscribe { channel: String },
    Unsubscribe { channel: String },
    UnsubscribeAll { channel: String },
    Error { message: ServerError },
}

impl ServerEvent {
    pub fn into_msg(self) -> (r: ServerMsg)
        ensures
            r == ServerMsg::Event(self),
    {
        ServerMsg::Event(self)
    }
}

/// An error event's payload: a known kind, or free text.
#[derive(Debug)]
pub enum ServerError {
    Kind(ServerErrorKind),
    Unknown(String),
}

impl ServerError {
    pub fn into_msg(self) -> (r: ServerMsg)
        ensures
            r == ServerMsg::Event(ServerEvent::Error { message: self }),
    {
        ServerEvent::Error { message: self }.into_msg()
    }
}

/// The error kinds the feed names.
#[derive(Debug, PartialEq, Eq, Structural, Clone, Copy)]
pub enum ServerErrorKind {
    SubscriptionFailed,
    AlreadySubscribed,
    NotSubscribed,
    BadRequest,
    RequestFailed,
}

impl ServerErrorKind {
    pub fn into_error(self) -> (r: ServerError)
        ensures
            r == ServerError::Kind(self),
    {
        ServerError::Kind(self)
    }

    pub fn into_msg(self) -> (r: ServerMsg)
        ensures
            r == ServerMsg::Event(ServerEvent::Error { message: ServerError::Kind(self) }),
    {
        self.into_error().into_msg()
    }
}

} // verus!
