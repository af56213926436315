//! Routing of live feed messages to their consumers.
//!
//! The host program's streaming loop receives decoded server messages and
//! acts on them: stream frames go to the consumer for their channel,
//! error events end the run, other events are logged and skipped so the
//! connection stays alive. Which of these happens is decided here, as a
//! function of the message and the channel dictionary; performing the
//! action is the host's part.

use crate::interval::Interval;
use crate::interval::IntervalsDict;
use crate::order::str_cmp;
use crate::order::KeyCmp;
use crate::ws::protocol::ServerEvent;
use crate::ws::protocol::ServerMsg;
use vstd::prelude::*;

verus! {

/// A channel the streaming loop consumes.
#[derive(Debug, PartialEq, Eq, Structural, Clone, Copy)]
pub enum Channel {
    /// Candles for one interval.
    Candles(Interval),
    /// The recent-trades feed.
    Trades,
}

/// What the streaming loop should do with one server message.
#[derive(Debug)]
pub enum StreamAction {
    /// Decode these records as trades and store them.
    TradesData(Vec<serde_json::Value>),
    /// Decode these records as candles for this interval and store them.
    CandlesData(Interval, Vec<serde_json::Value>),
    /// A stream frame for a channel nobody subscribed: log it and go on.
    SkipUnknownChannel(String),
    /// The feed reported an error: end the run with it.
    Fail(ServerError),
    /// A routine event: log it and go on.
    LogEvent(ServerEvent),
    /// A subscriptions listing: log it and go on.
    LogSubscriptions(Vec<String>),
}

use crate::ws::protocol::ServerError;

/// Decides what one server message gets. Stream frames resolve their
/// channel name: the trades feed first, then the candle channels through
/// the dictionary; an unknown channel is skipped, not fatal. Error
/// events end the run; every other event is logged and skipped.
pub fn route_server_msg(channels: &IntervalsDict, msg: ServerMsg) -> (a: StreamAction)
    requires
        channels.wf(),
    ensures
        match msg {
            ServerMsg::Stream(s) => {
                if s.channel@ == "trades"@ {
                    a == StreamAction::TradesData(s.data)
                } else if channels.alias_map().contains_key(s.channel@) {
                    a == StreamAction::CandlesData(channels.alias_map()[s.channel@], s.data)
                } else {
                    a == StreamAction::SkipUnknownChannel(s.channel)
                }
            },
            ServerMsg::Event(e) => match e {
                ServerEvent::Error { message } => a == StreamAction::Fail(message),
                _ => a == StreamAction::LogEvent(e),
            },
            ServerMsg::Subscriptions { subscriptions } => a == StreamAction::LogSubscriptions(
                subscriptions,
            ),
        },
{
    match msg {
        ServerMsg::Stream(s) => {
            match str_cmp(s.channel.as_str(), "trades") {
                KeyCmp::Equal => StreamAction::TradesData(s.data),
                _ => {
                    match channels.to_interval(s.channel.as_str()) {
                        Some(interval) => StreamAction::CandlesData(interval, s.data),
                        None => StreamAction::SkipUnknownChannel(s.channel),
                    }
                },
            }
        },
        ServerMsg::Event(e) => match e {
            ServerEvent::Error { message } => StreamAction::Fail(message),
            other => StreamAction::LogEvent(other),
        },
        ServerMsg::Subscriptions { subscriptions } => StreamAction::LogSubscriptions(subscriptions),
    }
}

} // verus!
