//! The WebSocket candle-channel names, one per supported interval.

use crate::interval::iv;
use crate::interval::lemma_round_trip_alias;
use crate::interval::lemma_round_trip_interval;
use crate::interval::DictError;
use crate::interval::Interval;
use crate::interval::IntervalKind;
use crate::interval::IntervalsDict;
use crate::utils::ValueLabel;
use vstd::prelude::*;

verus! {

broadcast use vstd::string::group_string_axioms;

/// Label for the dictionary of WebSocket candle-channel names.
pub struct WsCandlesChannels;

impl ValueLabel for WsCandlesChannels {
    type Value = IntervalsDict;
}

/// The interval-to-channel direction of the channel dictionary.
pub open spec fn ws_channels_interval_map() -> Map<Interval, Seq<char>> {
    Map::empty()
        .insert(iv(IntervalKind::Minute, 1), "candles_minute_1"@)
        .insert(iv(IntervalKind::Minute, 5), "candles_minute_5"@)
        .insert(iv(IntervalKind::Minute, 10), "candles_minute_10"@)
        .insert(iv(IntervalKind::Minute, 15), "candles_minute_15"@)
        .insert(iv(IntervalKind::Minute, 30), "candles_minute_30"@)
        .insert(iv(IntervalKind::Hour, 1), "candles_hour_1"@)
        .insert(iv(IntervalKind::Hour, 2), "candles_hour_2"@)
        .insert(iv(IntervalKind::Hour, 4), "candles_hour_4"@)
        .insert(iv(IntervalKind::Hour, 6), "candles_hour_6"@)
        .insert(iv(IntervalKind::Hour, 12), "candles_hour_12"@)
        .insert(iv(IntervalKind::Day, 1), "candles_day_1"@)
        .insert(iv(IntervalKind::Day, 3), "candles_day_3"@)
        .insert(iv(IntervalKind::Week, 1), "candles_week_1"@)
        .insert(iv(IntervalKind::Month, 1), "candles_month_1"@)
}

/// The channel-to-interval direction of the channel dictionary.
pub open spec fn ws_channels_alias_map() -> Map<Seq<char>, Interval> {
    Map::empty()
        .insert("candles_minute_1"@, iv(IntervalKind::Minute, 1))
        .insert("candles_minute_5"@, iv(IntervalKind::Minute, 5))
        .insert("candles_minute_10"@, iv(IntervalKind::Minute, 10))
        .insert("candles_minute_15"@, iv(IntervalKind::Minute, 15))
        .insert("candles_minute_30"@, iv(IntervalKind::Minute, 30))
        .insert("candles_hour_1"@, iv(IntervalKind::Hour, 1))
        .insert("candles_hour_2"@, iv(IntervalKind::Hour, 2))
        .insert("candles_hour_4"@, iv(IntervalKind::Hour, 4))
        .insert("candles_hour_6"@, iv(IntervalKind::Hour, 6))
        .insert("candles_hour_12"@, iv(IntervalKind::Hour, 12))
        .insert("candles_day_1"@, iv(IntervalKind::Day, 1))
        .insert("candles_day_3"@, iv(IntervalKind::Day, 3))
        .insert("candles_week_1"@, iv(IntervalKind::Week, 1))
        .insert("candles_month_1"@, iv(IntervalKind::Month, 1))
}

/// Builds the dictionary of every candle channel the WebSocket feed
/// offers.
pub fn all_ws_candles_channels() -> (r: Result<IntervalsDict, DictError>)
    ensures
        r is Ok,
        r matches Ok(d) ==> d.wf() && d.interval_map() == ws_channels_interval_map()
            && d.alias_map() == ws_channels_alias_map(),
{
    proof {
        // The channel names are pairwise distinct, by their lengths and
        // first differing characters; each registration is therefore
        // accepted.
        reveal_strlit("candles_minute_1");
        reveal_strlit("candles_minute_5");
        reveal_strlit("candles_minute_10");
        reveal_strlit("candles_minute_15");
        reveal_strlit("candles_minute_30");
        reveal_strlit("candles_hour_1");
        reveal_strlit("candles_hour_2");
        reveal_strlit("candles_hour_4");
        reveal_strlit("candles_hour_6");
        reveal_strlit("candles_hour_12");
        reveal_strlit("candles_day_1");
        reveal_strlit("candles_day_3");
        reveal_strlit("candles_week_1");
        reveal_strlit("candles_month_1");
        assert("candles_minute_1"@.len() == 16);
        assert("candles_minute_5"@.len() == 16);
        assert("candles_minute_10"@.len() == 17);
        assert("candles_minute_15"@.len() == 17);
        assert("candles_minute_30"@.len() == 17);
        assert("candles_hour_1"@.len() == 14);
        assert("candles_hour_2"@.len() == 14);
        assert("candles_hour_4"@.len() == 14);
        assert("candles_hour_6"@.len() == 14);
        assert("candles_hour_12"@.len() == 15);
        assert("candles_day_1"@.len() == 13);
        assert("candles_day_3"@.len() == 13);
        assert("candles_week_1"@.len() == 14);
        assert("candles_month_1"@.len() == 15);
        assert("candles_day_1"@[12] == '1');
        assert("candles_day_3"@[12] == '3');
        assert("candles_hour_1"@[8] == 'h');
        assert("candles_hour_1"@[13] == '1');
        assert("candles_hour_12"@[8] == 'h');
        assert("candles_hour_2"@[8] == 'h');
        assert("candles_hour_2"@[13] == '2');
        assert("candles_hour_4"@[8] == 'h');
        assert("candles_hour_4"@[13] == '4');
        assert("candles_hour_6"@[8] == 'h');
        assert("candles_hour_6"@[13] == '6');
        assert("candles_minute_1"@[15] == '1');
        assert("candles_minute_10"@[15] == '1');
        assert("candles_minute_10"@[16] == '0');
        assert("candles_minute_15"@[15] == '1');
        assert("candles_minute_15"@[16] == '5');
        assert("candles_minute_30"@[15] == '3');
        assert("candles_minute_5"@[15] == '5');
        assert("candles_month_1"@[8] == 'm');
        assert("candles_week_1"@[8] == 'w');
        assert("candles_minute_1"@ != "candles_minute_5"@);
        assert("candles_minute_1"@ != "candles_minute_10"@);
        assert("candles_minute_1"@ != "candles_minute_15"@);
        assert("candles_minute_1"@ != "candles_minute_30"@);
        assert("candles_minute_1"@ != "candles_hour_1"@);
        assert("candles_minute_1"@ != "candles_hour_2"@);
        assert("candles_minute_1"@ != "candles_hour_4"@);
        assert("candles_minute_1"@ != "candles_hour_6"@);
        assert("candles_minute_1"@ != "candles_hour_12"@);
        assert("candles_minute_1"@ != "candles_day_1"@);
        assert("candles_minute_1"@ != "candles_day_3"@);
        assert("candles_minute_1"@ != "candles_week_1"@);
        assert("candles_minute_1"@ != "candles_month_1"@);
        assert("candles_minute_5"@ != "candles_minute_10"@);
        assert("candles_minute_5"@ != "candles_minute_15"@);
        assert("candles_minute_5"@ != "candles_minute_30"@);
        assert("candles_minute_5"@ != "candles_hour_1"@);
        assert("candles_minute_5"@ != "candles_hour_2"@);
        assert("candles_minute_5"@ != "candles_hour_4"@);
        assert("candles_minute_5"@ != "candles_hour_6"@);
        assert("candles_minute_5"@ != "candles_hour_12"@);
        assert("candles_minute_5"@ != "candles_day_1"@);
        assert("candles_minute_5"@ != "candles_day_3"@);
        assert("candles_minute_5"@ != "candles_week_1"@);
        assert("candles_minute_5"@ != "candles_month_1"@);
        assert("candles_minute_10"@ != "candles_minute_15"@);
        assert("candles_minute_10"@ != "candles_minute_30"@);
        assert("candles_minute_10"@ != "candles_hour_1"@);
        assert("candles_minute_10"@ != "candles_hour_2"@);
        assert("candles_minute_10"@ != "candles_hour_4"@);
        assert("candles_minute_10"@ != "candles_hour_6"@);
        assert("candles_minute_10"@ != "candles_hour_12"@);
        assert("candles_minute_10"@ != "candles_day_1"@);
        assert("candles_minute_10"@ != "candles_day_3"@);
        assert("candles_minute_10"@ != "candles_week_1"@);
        assert("candles_minute_10"@ != "candles_month_1"@);
        assert("candles_minute_15"@ != "candles_minute_30"@);
        assert("candles_minute_15"@ != "candles_hour_1"@);
        assert("candles_minute_15"@ != "candles_hour_2"@);
        assert("candles_minute_15"@ != "candles_hour_4"@);
        assert("candles_minute_15"@ != "candles_hour_6"@);
        assert("candles_minute_15"@ != "candles_hour_12"@);
        assert("candles_minute_15"@ != "candles_day_1"@);
        assert("candles_minute_15"@ != "candles_day_3"@);
        assert("candles_minute_15"@ != "candles_week_1"@);
        assert("candles_minute_15"@ != "candles_month_1"@);
        assert("candles_minute_30"@ != "candles_hour_1"@);
        assert("candles_minute_30"@ != "candles_hour_2"@);
        assert("candles_minute_30"@ != "candles_hour_4"@);
        assert("candles_minute_30"@ != "candles_hour_6"@);
        assert("candles_minute_30"@ != "candles_hour_12"@);
        assert("candles_minute_30"@ != "candles_day_1"@);
        assert("candles_minute_30"@ != "candles_day_3"@);
        assert("candles_minute_30"@ != "candles_week_1"@);
        assert("candles_minute_30"@ != "candles_month_1"@);
        assert("candles_hour_1"@ != "candles_hour_2"@);
        assert("candles_hour_1"@ != "candles_hour_4"@);
        assert("candles_hour_1"@ != "candles_hour_6"@);
        assert("candles_hour_1"@ != "candles_hour_12"@);
        assert("candles_hour_1"@ != "candles_day_1"@);
        assert("candles_hour_1"@ != "candles_day_3"@);
        assert("candles_hour_1"@ != "candles_week_1"@);
        assert("candles_hour_1"@ != "candles_month_1"@);
        assert("candles_hour_2"@ != "candles_hour_4"@);
        assert("candles_hour_2"@ != "candles_hour_6"@);
        assert("candles_hour_2"@ != "candles_hour_12"@);
        assert("candles_hour_2"@ != "candles_day_1"@);
        assert("candles_hour_2"@ != "candles_day_3"@);
        assert("candles_hour_2"@ != "candles_week_1"@);
        assert("candles_hour_2"@ != "candles_month_1"@);
        assert("candles_hour_4"@ != "candles_hour_6"@);
        assert("candles_hour_4"@ != "candles_hour_12"@);
        assert("candles_hour_4"@ != "candles_day_1"@);
        assert("candles_hour_4"@ != "candles_day_3"@);
        assert("candles_hour_4"@ != "candles_week_1"@);
        assert("candles_hour_4"@ != "candles_month_1"@);
        assert("candles_hour_6"@ != "candles_hour_12"@);
        assert("candles_hour_6"@ != "candles_day_1"@);
        assert("candles_hour_6"@ != "candles_day_3"@);
        assert("candles_hour_6"@ != "candles_week_1"@);
        assert("candles_hour_6"@ != "candles_month_1"@);
        assert("candles_hour_12"@ != "candles_day_1"@);
        assert("candles_hour_12"@ != "candles_day_3"@);
        assert("candles_hour_12"@ != "candles_week_1"@);
        assert("candles_hour_12"@ != "candles_month_1"@);
        assert("candles_day_1"@ != "candles_day_3"@);
        assert("candles_day_1"@ != "candles_week_1"@);
        assert("candles_day_1"@ != "candles_month_1"@);
        assert("candles_day_3"@ != "candles_week_1"@);
        assert("candles_day_3"@ != "candles_month_1"@);
        assert("candles_week_1"@ != "candles_month_1"@);
    }
    let mut d = IntervalsDict::new();
    d.add(Interval { kind: IntervalKind::Minute, value: 1 }, "candles_minute_1".to_owned())?;
    d.add(Interval { kind: IntervalKind::Minute, value: 5 }, "candles_minute_5".to_owned())?;
    d.add(Interval { kind: IntervalKind::Minute, value: 10 }, "candles_minute_10".to_owned())?;
    d.add(Interval { kind: IntervalKind::Minute, value: 15 }, "candles_minute_15".to_owned())?;
    d.add(Interval { kind: IntervalKind::Minute, value: 30 }, "candles_minute_30".to_owned())?;
    d.add(Interval { kind: IntervalKind::Hour, value: 1 }, "candles_hour_1".to_owned())?;
    d.add(Interval { kind: IntervalKind::Hour, value: 2 }, "candles_hour_2".to_owned())?;
    d.add(Interval { kind: IntervalKind::Hour, value: 4 }, "candles_hour_4".to_owned())?;
    d.add(Interval { kind: IntervalKind::Hour, value: 6 }, "candles_hour_6".to_owned())?;
    d.add(Interval { kind: IntervalKind::Hour, value: 12 }, "candles_hour_12".to_owned())?;
    d.add(Interval { kind: IntervalKind::Day, value: 1 }, "candles_day_1".to_owned())?;
    d.add(Interval { kind: IntervalKind::Day, value: 3 }, "candles_day_3".to_owned())?;
    d.add(Interval { kind: IntervalKind::Week, value: 1 }, "candles_week_1".to_owned())?;
    d.add(Interval { kind: IntervalKind::Month, value: 1 }, "candles_month_1".to_owned())?;
    Ok(d)
}

/// Builds the channel dictionary cut down to the intervals that
/// `supported_intervals` knows: the channels whose candles can actually be
/// stored.
#[verifier::loop_isolation(false)]
pub fn supported_ws_candles_channels(supported_intervals: &IntervalsDict) -> (r: Result<
    IntervalsDict,
    DictError,
>)
    requires
        supported_intervals.wf(),
    ensures
        r is Ok,
        r matches Ok(d) ==> d.wf() && (forall|i: Interval|
            #[trigger] d.interval_map().contains_key(i) <==> (
            ws_channels_interval_map().contains_key(i)
                && supported_intervals.interval_map().contains_key(i))) && (forall|i: Interval|
            #[trigger] d.interval_map().contains_key(i) ==> d.interval_map()[i]
                == ws_channels_interval_map()[i]) && (forall|a: Seq<char>, i: Interval|
            #[trigger] d.alias_map().contains_pair(a, i) <==> (
            ws_channels_alias_map().contains_pair(a, i)
                && supported_intervals.interval_map().contains_key(i))),
{
    let all = all_ws_candles_channels()?;
    let ivs = all.iter_intervals();
    let mut res = IntervalsDict::new();
    let n = ivs.len();
    let mut idx: usize = 0;
    while idx < n
        invariant
            res.wf(),
            idx <= n,
            forall|i: Interval|
                #[trigger] res.interval_map().contains_key(i) ==> exists|j: int|
                    0 <= j < idx && ivs@[j] == i,
            forall|j: int|
                0 <= j < idx ==> (res.interval_map().contains_key(#[trigger] ivs@[j])
                    <==> supported_intervals.interval_map().contains_key(ivs@[j])),
            forall|i: Interval|
                #[trigger] res.interval_map().contains_key(i) ==> res.interval_map()[i]
                    == all.interval_map()[i],
        decreases n - idx,
    {
        let interval = ivs[idx];
        if supported_intervals.to_alias(interval).is_some() {
            match all.to_alias(interval) {
                Some(alias) => {
                    let a = alias.to_owned();
                    proof {
                        if res.interval_map().contains_key(interval) {
                            let j = choose|j: int| 0 <= j < idx && ivs@[j] == interval;
                            assert(ivs@[j] == ivs@[idx as int]);
                            assert(false);
                        }
                        if res.alias_map().contains_key(a@) {
                            let i0 = res.alias_map()[a@];
                            assert(res.alias_map().contains_pair(a@, i0));
                            lemma_round_trip_alias(&res, a@, i0);
                            assert(res.interval_map()[i0] == all.interval_map()[i0]);
                            lemma_round_trip_interval(&all, i0, a@);
                            lemma_round_trip_interval(&all, interval, a@);
                            assert(i0 == interval);
                            assert(false);
                        }
                    }
                    if let Err(e) = res.add(interval, a) {
                        proof {
                            assert(false);
                        }
                        return Err(e);
                    }
                },
                None => {
                    proof {
                        assert(false);
                    }
                },
            }
        }
        idx += 1;
    }
    proof {
        assert forall|i: Interval| #[trigger]
            res.interval_map().contains_key(i) <==> (ws_channels_interval_map().contains_key(i)
                && supported_intervals.interval_map().contains_key(i)) by {
            if res.interval_map().contains_key(i) {
                let j = choose|j: int| 0 <= j < idx && ivs@[j] == i;
                assert(all.interval_map().contains_key(ivs@[j]));
            }
            if ws_channels_interval_map().contains_key(i)
                && supported_intervals.interval_map().contains_key(i) {
                assert(all.interval_map().contains_key(i));
                assert(ivs@.contains(i));
                let j = choose|j: int| 0 <= j < ivs@.len() && ivs@[j] == i;
                assert(res.interval_map().contains_key(ivs@[j])
                    <==> supported_intervals.interval_map().contains_key(ivs@[j]));
            }
        }
        assert forall|a: Seq<char>, i: Interval| #[trigger]
            res.alias_map().contains_pair(a, i) <==> (ws_channels_alias_map().contains_pair(a, i)
                && supported_intervals.interval_map().contains_key(i)) by {
            if res.alias_map().contains_pair(a, i) {
                lemma_round_trip_alias(&res, a, i);
                assert(res.interval_map().contains_pair(i, a));
                assert(res.interval_map()[i] == all.interval_map()[i]);
                lemma_round_trip_interval(&all, i, a);
            }
            if ws_channels_alias_map().contains_pair(a, i)
                && supported_intervals.interval_map().contains_key(i) {
                lemma_round_trip_alias(&all, a, i);
                assert(all.interval_map().contains_pair(i, a));
                assert(res.interval_map().contains_key(i));
                assert(res.interval_map()[i] == a);
                lemma_round_trip_interval(&res, i, a);
            }
        }
    }
    Ok(res)
}

} // verus!
