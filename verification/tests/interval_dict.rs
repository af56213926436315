//! The two-way interval dictionary: round trips, duplicate rejection,
//! and the built-in catalogs.

use poloniex_connect::interval::database_intervals;
use poloniex_connect::interval::DictError;
use poloniex_connect::interval::Interval;
use poloniex_connect::interval::IntervalKind;
use poloniex_connect::interval::IntervalsDict;
use poloniex_connect::rest::intervals::exchange_intervals;
use poloniex_connect::ws::intervals::all_ws_candles_channels;
use poloniex_connect::ws::intervals::supported_ws_candles_channels;

fn minute(value: u8) -> Interval {
    Interval { kind: IntervalKind::Minute, value }
}

fn hour(value: u8) -> Interval {
    Interval { kind: IntervalKind::Hour, value }
}

#[test]
fn round_trip_both_directions() {
    let mut dict = IntervalsDict::new();
    dict.add(minute(1), "1m".to_owned()).unwrap();
    dict.add(hour(4), "4h".to_owned()).unwrap();
    assert_eq!(dict.to_alias(minute(1)), Some("1m"));
    assert_eq!(dict.to_alias(hour(4)), Some("4h"));
    assert_eq!(dict.to_interval("1m"), Some(minute(1)));
    assert_eq!(dict.to_interval("4h"), Some(hour(4)));
    assert_eq!(dict.to_alias(minute(5)), None);
    assert_eq!(dict.to_interval("5m"), None);
}

#[test]
fn duplicate_interval_rejected_and_dict_unchanged() {
    let mut dict = IntervalsDict::new();
    dict.add(minute(1), "1m".to_owned()).unwrap();
    let err = dict.add(minute(1), "one_minute".to_owned()).unwrap_err();
    match err {
        DictError::IntervalTaken {
            interval,
            old_alias,
            new_alias,
        } => {
            assert_eq!(interval, minute(1));
            assert_eq!(old_alias, "1m");
            assert_eq!(new_alias, "one_minute");
        }
        other => panic!("wrong error: {other:?}"),
    }
    // Unchanged: the old pair still round-trips, the newcomer is absent.
    assert_eq!(dict.to_alias(minute(1)), Some("1m"));
    assert_eq!(dict.to_interval("one_minute"), None);
}

#[test]
fn duplicate_alias_rejected_and_dict_unchanged() {
    let mut dict = IntervalsDict::new();
    dict.add(minute(1), "1m".to_owned()).unwrap();
    let err = dict.add(minute(5), "1m".to_owned()).unwrap_err();
    match err {
        DictError::AliasTaken {
            alias,
            old_interval,
            new_interval,
        } => {
            assert_eq!(alias, "1m");
            assert_eq!(old_interval, minute(1));
            assert_eq!(new_interval, minute(5));
        }
        other => panic!("wrong error: {other:?}"),
    }
    assert_eq!(dict.to_interval("1m"), Some(minute(1)));
    assert_eq!(dict.to_alias(minute(5)), None);
}

#[test]
fn with_registers_every_pair_of_one_kind() {
    let dict = IntervalsDict::new()
        .with(IntervalKind::Minute, &[(1, "1m"), (30, "30m")])
        .unwrap()
        .with(IntervalKind::Day, &[(1, "1d")])
        .unwrap();
    assert_eq!(dict.to_alias(minute(1)), Some("1m"));
    assert_eq!(dict.to_alias(minute(30)), Some("30m"));
    assert_eq!(
        dict.to_interval("1d"),
        Some(Interval {
            kind: IntervalKind::Day,
            value: 1
        })
    );
}

#[test]
fn with_stops_at_the_first_conflict() {
    // The error is the one the failing registration itself reported.
    match IntervalsDict::new().with(IntervalKind::Minute, &[(1, "1m"), (1, "60s")]) {
        Err(DictError::IntervalTaken {
            interval,
            old_alias,
            new_alias,
        }) => {
            assert_eq!(interval, minute(1));
            assert_eq!(old_alias, "1m");
            assert_eq!(new_alias, "60s");
        }
        other => panic!("wrong outcome: {other:?}"),
    }
    match IntervalsDict::new().with(IntervalKind::Minute, &[(1, "1m"), (5, "1m")]) {
        Err(DictError::AliasTaken {
            alias,
            old_interval,
            new_interval,
        }) => {
            assert_eq!(alias, "1m");
            assert_eq!(old_interval, minute(1));
            assert_eq!(new_interval, minute(5));
        }
        other => panic!("wrong outcome: {other:?}"),
    }
}

#[test]
fn database_catalog_contents() {
    let dict = database_intervals().unwrap();
    assert_eq!(dict.to_alias(minute(1)), Some("1m"));
    assert_eq!(dict.to_alias(minute(15)), Some("15m"));
    assert_eq!(dict.to_alias(hour(1)), Some("1h"));
    assert_eq!(
        dict.to_alias(Interval {
            kind: IntervalKind::Day,
            value: 1
        }),
        Some("1d")
    );
    assert_eq!(dict.to_alias(minute(5)), None);
    assert_eq!(dict.to_interval("15m"), Some(minute(15)));
}

#[test]
fn exchange_catalog_contents() {
    let dict = exchange_intervals().unwrap();
    assert_eq!(dict.to_alias(minute(1)), Some("MINUTE_1"));
    assert_eq!(dict.to_alias(minute(30)), Some("MINUTE_30"));
    assert_eq!(dict.to_alias(hour(12)), Some("HOUR_12"));
    assert_eq!(
        dict.to_interval("WEEK_1"),
        Some(Interval {
            kind: IntervalKind::Week,
            value: 1
        })
    );
    assert_eq!(dict.to_interval("MINUTE_20"), None);
    let intervals = dict.iter_intervals();
    assert_eq!(intervals.len(), 14);
    // Sorted shortest-first, strictly.
    for pair in intervals.windows(2) {
        assert!(pair[0] < pair[1]);
    }
}

#[test]
fn ws_channel_catalog_contents() {
    let dict = all_ws_candles_channels().unwrap();
    assert_eq!(dict.to_alias(minute(1)), Some("candles_minute_1"));
    assert_eq!(dict.to_interval("candles_hour_6"), Some(hour(6)));
    assert_eq!(dict.iter_intervals().len(), 14);
}

#[test]
fn supported_channels_are_the_database_intersection() {
    let database = database_intervals().unwrap();
    let dict = supported_ws_candles_channels(&database).unwrap();
    let intervals = dict.iter_intervals();
    assert_eq!(intervals.len(), 4);
    assert_eq!(dict.to_alias(minute(1)), Some("candles_minute_1"));
    assert_eq!(dict.to_alias(minute(15)), Some("candles_minute_15"));
    assert_eq!(dict.to_alias(hour(1)), Some("candles_hour_1"));
    assert_eq!(
        dict.to_alias(Interval {
            kind: IntervalKind::Day,
            value: 1
        }),
        Some("candles_day_1")
    );
    assert_eq!(dict.to_alias(minute(5)), None);
    assert_eq!(dict.to_interval("candles_minute_5"), None);
}
