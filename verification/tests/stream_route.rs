//! Routing of live feed messages, trade conversion, and paging.

use poloniex_connect::download::DownloadTracker;
use poloniex_connect::download::PageDecision;
use poloniex_connect::interval::database_intervals;
use poloniex_connect::interval::Interval;
use poloniex_connect::interval::IntervalKind;
use poloniex_connect::stream::route_server_msg;
use poloniex_connect::stream::StreamAction;
use poloniex_connect::time::timestamp_ceil;
use poloniex_connect::ws::intervals::supported_ws_candles_channels;
use poloniex_connect::ws::protocol::ServerError;
use poloniex_connect::ws::protocol::ServerErrorKind;
use poloniex_connect::ws::protocol::ServerEvent;
use poloniex_connect::ws::protocol::ServerMsg;
use poloniex_connect::ws::protocol::ServerStream;
use poloniex_connect::ws::trades::TakerSide;
use poloniex_connect::ws::trades::TradesMessage;

fn channels() -> poloniex_connect::interval::IntervalsDict {
    supported_ws_candles_channels(&database_intervals().unwrap()).unwrap()
}

fn record() -> serde_json::Value {
    serde_json::Value::String("record".to_owned())
}

#[test]
fn candle_frames_route_to_their_interval() {
    let msg = ServerStream {
        channel: "candles_minute_1".to_owned(),
        data: vec![record()],
    }
    .into_msg();
    match route_server_msg(&channels(), msg) {
        StreamAction::CandlesData(interval, data) => {
            assert_eq!(
                interval,
                Interval {
                    kind: IntervalKind::Minute,
                    value: 1
                }
            );
            assert_eq!(data.len(), 1);
        }
        other => panic!("wrong action: {other:?}"),
    }
}

#[test]
fn trade_frames_route_to_the_trades_consumer() {
    let msg = ServerStream {
        channel: "trades".to_owned(),
        data: vec![record(), record()],
    }
    .into_msg();
    match route_server_msg(&channels(), msg) {
        StreamAction::TradesData(data) => assert_eq!(data.len(), 2),
        other => panic!("wrong action: {other:?}"),
    }
}

#[test]
fn unknown_channels_are_skipped_not_fatal() {
    let msg = ServerStream {
        channel: "book_lv2".to_owned(),
        data: vec![record()],
    }
    .into_msg();
    match route_server_msg(&channels(), msg) {
        StreamAction::SkipUnknownChannel(name) => assert_eq!(name, "book_lv2"),
        other => panic!("wrong action: {other:?}"),
    }
}

#[test]
fn error_events_end_the_run() {
    let msg = ServerErrorKind::SubscriptionFailed.into_msg();
    match route_server_msg(&channels(), msg) {
        StreamAction::Fail(ServerError::Kind(kind)) => {
            assert_eq!(kind, ServerErrorKind::SubscriptionFailed)
        }
        other => panic!("wrong action: {other:?}"),
    }
}

#[test]
fn routine_events_are_logged_and_skipped() {
    let msg = ServerEvent::Subscribe {
        channel: "trades".to_owned(),
    }
    .into_msg();
    assert!(matches!(
        route_server_msg(&channels(), msg),
        StreamAction::LogEvent(ServerEvent::Subscribe { .. })
    ));
    let msg = ServerMsg::Subscriptions {
        subscriptions: vec!["trades".to_owned()],
    };
    match route_server_msg(&channels(), msg) {
        StreamAction::LogSubscriptions(subs) => assert_eq!(subs, vec!["trades".to_owned()]),
        other => panic!("wrong action: {other:?}"),
    }
}

#[test]
fn server_error_wrappers_nest_correctly() {
    match ServerError::Unknown("Error Message".to_owned()).into_msg() {
        ServerMsg::Event(ServerEvent::Error {
            message: ServerError::Unknown(text),
        }) => assert_eq!(text, "Error Message"),
        other => panic!("wrong shape: {other:?}"),
    }
    assert!(matches!(
        ServerErrorKind::BadRequest.into_error(),
        ServerError::Kind(ServerErrorKind::BadRequest)
    ));
}

#[test]
fn taker_side_spells_out() {
    assert_eq!(TakerSide::Buy.as_str(), "buy");
    assert_eq!(TakerSide::Sell.as_str(), "sell");
}

#[test]
fn trades_convert_to_recent_trade_records() {
    let msg = TradesMessage {
        symbol: "BTC_USDT".to_owned(),
        amount: "200.5".to_owned(),
        taker_side: TakerSide::Sell,
        quantity: "0.002".to_owned(),
        create_time: 1648059516810,
        price: "100250.1".to_owned(),
        id: "194".to_owned(),
        record_time: 1648059516832,
    };
    let trade = msg.recent_trade();
    assert_eq!(trade.tid, "194");
    assert_eq!(trade.pair, "BTC_USDT");
    assert_eq!(trade.price, "100250.1");
    assert_eq!(trade.amount, "200.5");
    assert_eq!(trade.side, "sell");
    assert_eq!(trade.timestamp, 1648059516810);
}

#[test]
fn paging_walks_backwards_until_a_short_page() {
    let mut tracker = DownloadTracker::new(500, None);
    let decision = tracker.on_page(500, Some(1648057140000));
    assert_eq!(
        decision,
        PageDecision::NextPage {
            end_time: 1648057139999
        }
    );
    assert_eq!(tracker.total, 500);
    // A short page means the history is exhausted.
    let decision = tracker.on_page(120, Some(1648000000000));
    assert_eq!(decision, PageDecision::Done);
    assert_eq!(tracker.total, 620);
}

#[test]
fn paging_stops_at_the_total_limit() {
    let mut tracker = DownloadTracker::new(100, Some(150));
    assert_eq!(
        tracker.on_page(100, Some(5000)),
        PageDecision::NextPage { end_time: 4999 }
    );
    assert_eq!(tracker.on_page(100, Some(4000)), PageDecision::Done);
    assert_eq!(tracker.total, 200);
}

#[test]
fn timestamp_ceil_rounds_to_the_next_second() {
    assert_eq!(timestamp_ceil(1738700743999), 1738700744000);
    assert_eq!(timestamp_ceil(1738700744000), 1738700744000);
    assert_eq!(timestamp_ceil(999), 1000);
    assert_eq!(timestamp_ceil(1000), 1000);
    assert_eq!(timestamp_ceil(0), 0);
}
