//! The WebSocket loop decisions, keepalive schedule, and frame codec.

use poloniex_connect::ws::Keepalive;
use poloniex_connect::ws::SimpleJsonCodec;
use poloniex_connect::ws::WireMessage;
use poloniex_connect::ws::WsAction;
use poloniex_connect::ws::WsEvent;
use poloniex_connect::ws::ws_step;

#[test]
fn inbound_codec_none_neither_closes_nor_forwards() {
    let action: WsAction<String, String> = ws_step(WsEvent::SocketMsg(Ok(None)));
    assert!(matches!(action, WsAction::Continue));
}

#[test]
fn inbound_message_is_forwarded() {
    let action: WsAction<String, String> =
        ws_step(WsEvent::SocketMsg(Ok(Some("candle".to_owned()))));
    match action {
        WsAction::Forward(msg) => assert_eq!(msg, "candle"),
        other => panic!("wrong action: {other:?}"),
    }
}

#[test]
fn inbound_codec_error_fails_the_connection() {
    let action: WsAction<String, String> =
        ws_step(WsEvent::SocketMsg(Err("bad json".to_owned())));
    match action {
        WsAction::Fail(e) => assert_eq!(e, "bad json"),
        other => panic!("wrong action: {other:?}"),
    }
}

#[test]
fn caller_close_shuts_the_loop_down() {
    let action: WsAction<String, String> = ws_step(WsEvent::CallerClosed);
    assert!(matches!(action, WsAction::Shutdown));
    let action: WsAction<String, String> = ws_step(WsEvent::SocketClosed);
    assert!(matches!(action, WsAction::Shutdown));
}

#[test]
fn outgoing_codec_none_sends_nothing() {
    // The codec handled the message internally: nothing goes on the
    // wire, and (unlike a real send) the ping deadline stays put.
    let action: WsAction<String, String> = ws_step(WsEvent::CallerMsg(Ok(None)));
    assert!(matches!(action, WsAction::Continue));
}

#[test]
fn outgoing_message_is_sent() {
    let action: WsAction<String, String> =
        ws_step(WsEvent::CallerMsg(Ok(Some("subscribe".to_owned()))));
    match action {
        WsAction::SendWire(w) => assert_eq!(w, "subscribe"),
        other => panic!("wrong action: {other:?}"),
    }
}

#[test]
fn ping_due_sends_a_ping() {
    let action: WsAction<String, String> = ws_step(WsEvent::PingDue);
    assert!(matches!(action, WsAction::SendPing));
}

#[test]
fn idle_connection_pings_once_per_interval() {
    // Fast-forwarded clock: interval 20 000 ms, started at t = 1000.
    let mut keepalive = Keepalive::start(20_000, 1000);
    assert!(!keepalive.is_due(1000));
    assert!(!keepalive.is_due(20_999));
    assert!(keepalive.is_due(21_000));
    // The ping is sent at 21 000; the next is due exactly one interval
    // later, not before.
    keepalive.on_sent(21_000);
    assert_eq!(keepalive.deadline(), 41_000);
    assert!(!keepalive.is_due(40_999));
    assert!(keepalive.is_due(41_000));
}

#[test]
fn sending_resets_the_ping_deadline() {
    let mut keepalive = Keepalive::start(20_000, 0);
    assert_eq!(keepalive.deadline(), 20_000);
    // A real message goes out at t = 15 000: the ping that would have
    // fired at 20 000 moves to 35 000.
    keepalive.on_sent(15_000);
    assert!(!keepalive.is_due(20_000));
    assert!(!keepalive.is_due(34_999));
    assert!(keepalive.is_due(35_000));
}

#[test]
fn json_codec_wraps_outgoing_text() {
    let mut codec = SimpleJsonCodec;
    let out = codec.process_out("{\"event\": \"ping\"}".to_owned()).unwrap();
    match out {
        Some(WireMessage::Text(t)) => assert_eq!(t, "{\"event\": \"ping\"}"),
        other => panic!("wrong frame: {other:?}"),
    }
}

#[test]
fn json_codec_passes_text_frames_through() {
    let mut codec = SimpleJsonCodec;
    let got = codec
        .process_in(WireMessage::Text("{\"event\": \"pong\"}".to_owned()))
        .unwrap();
    assert_eq!(got, Some("{\"event\": \"pong\"}".to_owned()));
}

#[test]
fn json_codec_drops_close_and_control_frames() {
    let mut codec = SimpleJsonCodec;
    assert_eq!(codec.process_in(WireMessage::Close).unwrap(), None);
    assert_eq!(codec.process_in(WireMessage::Ping(vec![1])).unwrap(), None);
    assert_eq!(codec.process_in(WireMessage::Pong(vec![])).unwrap(), None);
    assert_eq!(
        codec.process_in(WireMessage::Binary(vec![0, 1])).unwrap(),
        None
    );
}
