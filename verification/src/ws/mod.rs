//! WebSocket side of the exchange connection.
//!
//! A live connection is one background task owning the socket, bridged to
//! the caller by a bounded duplex channel pair. The task's event loop
//! selects over the caller's outgoing queue, the keepalive deadline and
//! the socket; what it does with each event is the pure decision
//! [`ws_step`], verified here, and the awaiting itself is the host
//! program's loop. The keepalive arithmetic is [`Keepalive`]; translation
//! between wire frames and domain messages goes through the codec traits.

pub mod candles;
pub mod intervals;
pub mod protocol;
pub mod trades;

use crate::time::SpanDuration;
use vstd::prelude::*;

verus! {

/// A wire-level WebSocket message, as plain values.
#[derive(Debug, Clone, PartialEq, Eq)]
pub enum WireMessage {
    Text(String),
    Binary(Vec<u8>),
    Ping(Vec<u8>),
    Pong(Vec<u8>),
    Close,
}

/// Inbound half of a codec: wire frame to domain message. `Ok(None)`
/// means "handled internally, nothing to forward" — not an error.
pub trait CodecIn<MSG> {
    fn process_in(&mut self, msg: WireMessage) -> Result<Option<MSG>, String>;
}

/// Outbound half of a codec: domain message to wire frame. `Ok(None)`
/// means "nothing to send".
pub trait CodecOut<MSG> {
    fn process_out(&mut self, msg: MSG) -> Result<Option<WireMessage>, String>;
}

/// The frame-level part of a JSON codec: serialized messages travel as
/// text frames; close and control frames are dropped without ending the
/// session. Turning text into typed values and back is the host
/// program's step, since it needs the serde machinery.
#[derive(Default)]
pub struct SimpleJsonCodec;

impl SimpleJsonCodec {
    /// Every outgoing serialized message becomes a text frame.
    pub fn process_out(&mut self, msg: String) -> (r: Result<Option<WireMessage>, String>)
        ensures
            r matches Ok(w) && w matches Some(m) && m matches WireMessage::Text(t) && t@ == msg@,
    {
        Ok(Some(WireMessage::Text(msg)))
    }

    /// A text frame yields its text; a close or control frame yields
    /// nothing, and is not an error.
    pub fn process_in(&mut self, msg: WireMessage) -> (r: Result<Option<String>, String>)
        ensures
            match msg {
                WireMessage::Text(t) => r matches Ok(s) && s matches Some(out) && out == t,
                _ => r matches Ok(s) && s is None,
            },
    {
        match msg {
            WireMessage::Text(text) => Ok(Some(text)),
            WireMessage::Close => Ok(None),
            _ => Ok(None),
        }
    }
}

/// Configuration a connection is started with.
pub struct WsConfig<C> {
    /// the pre-built ping payload
    pub ping: WireMessage,
    /// how long an idle connection waits before pinging
    pub ping_interval: SpanDuration,
    /// where to connect
    pub uri: String,
    /// the wire codec
    pub codec: C,
}

/// The keepalive schedule: a ping is due a full interval after the last
/// completed send. Only a message actually sent on the wire resets the
/// deadline.
pub struct Keepalive {
    pub interval_ms: u64,
    pub deadline_ms: u64,
}

impl Keepalive {
    /// A schedule started at `now_ms`: the first ping is due one interval
    /// later.
    pub fn start(interval_ms: u64, now_ms: u64) -> (r: Keepalive)
        requires
            now_ms + interval_ms <= u64::MAX,
        ensures
            r.interval_ms == interval_ms,
            r.deadline_ms == now_ms + interval_ms,
    {
        Keepalive { interval_ms, deadline_ms: now_ms + interval_ms }
    }

    /// A send completed at `now_ms`: the next ping moves a full interval
    /// out.
    pub fn on_sent(&mut self, now_ms: u64)
        requires
            now_ms + old(self).interval_ms <= u64::MAX,
        ensures
            final(self).interval_ms == old(self).interval_ms,
            final(self).deadline_ms == now_ms + old(self).interval_ms,
    {
        self.deadline_ms = now_ms + self.interval_ms;
    }

    /// Whether a ping is due at `now_ms`.
    pub fn is_due(&self, now_ms: u64) -> (r: bool)
        ensures
            r == (now_ms >= self.deadline_ms),
    {
        now_ms >= self.deadline_ms
    }

    /// The deadline the host's timer should sleep until.
    pub fn deadline(&self) -> (r: u64)
        ensures
            r == self.deadline_ms,
    {
        self.deadline_ms
    }
}

/// A send completed at time `t` defers the next ping a full interval: at
/// no time before `t + interval` is a ping due. With no traffic at all,
/// pings therefore come exactly one per interval, and any real send
/// pushes the next ping's deadline out.
pub proof fn lemma_send_defers_ping(k: Keepalive, t: u64, now: u64)
    requires
        t + k.interval_ms <= u64::MAX,
        k.deadline_ms == t + k.interval_ms,
        now < t + k.interval_ms,
    ensures
        !(now >= k.deadline_ms),
{
}

/// One event the connection's select loop can wake up on. Codec
/// translation has already happened where it applies: the decision is a
/// function of the translated value, whatever the codec did.
#[derive(Debug)]
pub enum WsEvent<W, D> {
    /// The caller's queue yielded a message, run through the codec's
    /// outbound step.
    CallerMsg(Result<Option<W>, String>),
    /// The caller dropped its sending half.
    CallerClosed,
    /// The keepalive deadline elapsed.
    PingDue,
    /// The socket yielded a frame, run through the codec's inbound step.
    SocketMsg(Result<Option<D>, String>),
    /// The socket stream ended.
    SocketClosed,
    /// Receiving from the socket failed.
    SocketError(String),
}

/// What the loop does in response to one event.
#[derive(Debug)]
pub enum WsAction<W, D> {
    /// Send this wire message; when the send completes, reset the
    /// keepalive deadline. A failed send ends the connection.
    SendWire(W),
    /// Send the configured ping payload; when the send completes, reset
    /// the deadline.
    SendPing,
    /// Hand this decoded message to the caller, blocking while the
    /// caller's queue is full; stop if the caller is gone.
    Forward(D),
    /// Nothing to do: the codec handled the item internally. The
    /// keepalive deadline is not reset.
    Continue,
    /// Close down, reporting an error.
    Fail(String),
    /// Close down cleanly.
    Shutdown,
}

/// The select loop's decision for one event. A codec that declines to
/// decode an inbound frame neither ends the connection nor forwards
/// anything; a closed caller or socket shuts the loop down; codec and
/// socket errors end it with the error.
pub fn ws_step<W, D>(event: WsEvent<W, D>) -> (a: WsAction<W, D>)
    ensures
        match event {
            WsEvent::CallerMsg(c) => match c {
                Ok(Some(w)) => a == WsAction::<W, D>::SendWire(w),
                Ok(None) => a == WsAction::<W, D>::Continue,
                Err(e) => a == WsAction::<W, D>::Fail(e),
            },
            WsEvent::CallerClosed => a == WsAction::<W, D>::Shutdown,
            WsEvent::PingDue => a == WsAction::<W, D>::SendPing,
            WsEvent::SocketMsg(c) => match c {
                Ok(Some(d)) => a == WsAction::<W, D>::Forward(d),
                Ok(None) => a == WsAction::<W, D>::Continue,
                Err(e) => a == WsAction::<W, D>::Fail(e),
            },
            WsEvent::SocketClosed => a == WsAction::<W, D>::Shutdown,
            WsEvent::SocketError(e) => a == WsAction::<W, D>::Fail(e),
        },
{
    match event {
        WsEvent::CallerMsg(c) => match c {
            Ok(Some(w)) => WsAction::SendWire(w),
            Ok(None) => WsAction::Continue,
            Err(e) => WsAction::Fail(e),
        },
        WsEvent::CallerClosed => WsAction::Shutdown,
        WsEvent::PingDue => WsAction::SendPing,
        WsEvent::SocketMsg(c) => match c {
            Ok(Some(d)) => WsAction::Forward(d),
            Ok(None) => WsAction::Continue,
            Err(e) => WsAction::Fail(e),
        },
        WsEvent::SocketClosed => WsAction::Shutdown,
        WsEvent::SocketError(e) => WsAction::Fail(e),
    }
}

} // verus!
