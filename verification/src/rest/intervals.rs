//! The interval spellings the exchange's REST API understands.

use crate::interval::iv;
use crate::interval::DictError;
use crate::interval::Interval;
use crate::interval::IntervalKind;
use crate::interval::IntervalsDict;
use vstd::prelude::*;

verus! {

broadcast use vstd::string::group_string_axioms;

/// The interval-to-spelling direction of the exchange dictionary.
pub open spec fn exchange_interval_map() -> Map<Interval, Seq<char>> {
    Map::empty()
        .insert(iv(IntervalKind::Minute, 1), "MINUTE_1"@)
        .insert(iv(IntervalKind::Minute, 5), "MINUTE_5"@)
        .insert(iv(IntervalKind::Minute, 10), "MINUTE_10"@)
        .insert(iv(IntervalKind::Minute, 15), "MINUTE_15"@)
        .insert(iv(IntervalKind::Minute, 30), "MINUTE_30"@)
        .insert(iv(IntervalKind::Hour, 1), "HOUR_1"@)
        .insert(iv(IntervalKind::Hour, 2), "HOUR_2"@)
        .insert(iv(IntervalKind::Hour, 4), "HOUR_4"@)
        .insert(iv(IntervalKind::Hour, 6), "HOUR_6"@)
        .insert(iv(IntervalKind::Hour, 12), "HOUR_12"@)
        .insert(iv(IntervalKind::Day, 1), "DAY_1"@)
        .insert(iv(IntervalKind::Day, 3), "DAY_3"@)
        .insert(iv(IntervalKind::Week, 1), "WEEK_1"@)
        .insert(iv(IntervalKind::Month, 1), "MONTH_1"@)
}

/// The spelling-to-interval direction of the exchange dictionary.
pub open spec fn exchange_alias_map() -> Map<Seq<char>, Interval> {
    Map::empty()
        .insert("MINUTE_1"@, iv(IntervalKind::Minute, 1))
        .insert("MINUTE_5"@, iv(IntervalKind::Minute, 5))
        .insert("MINUTE_10"@, iv(IntervalKind::Minute, 10))
        .insert("MINUTE_15"@, iv(IntervalKind::Minute, 15))
        .insert("MINUTE_30"@, iv(IntervalKind::Minute, 30))
        .insert("HOUR_1"@, iv(IntervalKind::Hour, 1))
        .insert("HOUR_2"@, iv(IntervalKind::Hour, 2))
        .insert("HOUR_4"@, iv(IntervalKind::Hour, 4))
        .insert("HOUR_6"@, iv(IntervalKind::Hour, 6))
        .insert("HOUR_12"@, iv(IntervalKind::Hour, 12))
        .insert("DAY_1"@, iv(IntervalKind::Day, 1))
        .insert("DAY_3"@, iv(IntervalKind::Day, 3))
        .insert("WEEK_1"@, iv(IntervalKind::Week, 1))
        .insert("MONTH_1"@, iv(IntervalKind::Month, 1))
}

/// Builds the dictionary of interval spellings the exchange's candle
/// endpoint accepts.
pub fn exchange_intervals() -> (r: Result<IntervalsDict, DictError>)
    ensures
        r is Ok,
        r matches Ok(d) ==> d.wf() && d.interval_map() == exchange_interval_map()
            && d.alias_map() == exchange_alias_map(),
{
    proof {
        // The spellings are pairwise distinct, by their lengths and first
        // differing characters; each registration is therefore accepted.
        reveal_strlit("MINUTE_1");
        reveal_strlit("MINUTE_5");
        reveal_strlit("MINUTE_10");
        reveal_strlit("MINUTE_15");
        reveal_strlit("MINUTE_30");
        reveal_strlit("HOUR_1");
        reveal_strlit("HOUR_2");
        reveal_strlit("HOUR_4");
        reveal_strlit("HOUR_6");
        reveal_strlit("HOUR_12");
        reveal_strlit("DAY_1");
        reveal_strlit("DAY_3");
        reveal_strlit("WEEK_1");
        reveal_strlit("MONTH_1");
        assert("MINUTE_1"@.len() == 8);
        assert("MINUTE_5"@.len() == 8);
        assert("MINUTE_10"@.len() == 9);
        assert("MINUTE_15"@.len() == 9);
        assert("MINUTE_30"@.len() == 9);
        assert("HOUR_1"@.len() == 6);
        assert("HOUR_2"@.len() == 6);
        assert("HOUR_4"@.len() == 6);
        assert("HOUR_6"@.len() == 6);
        assert("HOUR_12"@.len() == 7);
        assert("DAY_1"@.len() == 5);
        assert("DAY_3"@.len() == 5);
        assert("WEEK_1"@.len() == 6);
        assert("MONTH_1"@.len() == 7);
        assert("DAY_1"@[4] == '1');
        assert("DAY_3"@[4] == '3');
        assert("HOUR_1"@[0] == 'H');
        assert("HOUR_1"@[5] == '1');
        assert("HOUR_12"@[0] == 'H');
        assert("HOUR_2"@[0] == 'H');
        assert("HOUR_2"@[5] == '2');
        assert("HOUR_4"@[0] == 'H');
        assert("HOUR_4"@[5] == '4');
        assert("HOUR_6"@[0] == 'H');
        assert("HOUR_6"@[5] == '6');
        assert("MINUTE_1"@[7] == '1');
        assert("MINUTE_10"@[7] == '1');
        assert("MINUTE_10"@[8] == '0');
        assert("MINUTE_15"@[7] == '1');
        assert("MINUTE_15"@[8] == '5');
        assert("MINUTE_30"@[7] == '3');
        assert("MINUTE_5"@[7] == '5');
        assert("MONTH_1"@[0] == 'M');
        assert("WEEK_1"@[0] == 'W');
        assert("MINUTE_1"@ != "MINUTE_5"@);
        assert("MINUTE_1"@ != "MINUTE_10"@);
        assert("MINUTE_1"@ != "MINUTE_15"@);
        assert("MINUTE_1"@ != "MINUTE_30"@);
        assert("MINUTE_1"@ != "HOUR_1"@);
        assert("MINUTE_1"@ != "HOUR_2"@);
        assert("MINUTE_1"@ != "HOUR_4"@);
        assert("MINUTE_1"@ != "HOUR_6"@);
        assert("MINUTE_1"@ != "HOUR_12"@);
        assert("MINUTE_1"@ != "DAY_1"@);
        assert("MINUTE_1"@ != "DAY_3"@);
        assert("MINUTE_1"@ != "WEEK_1"@);
        assert("MINUTE_1"@ != "MONTH_1"@);
        assert("MINUTE_5"@ != "MINUTE_10"@);
        assert("MINUTE_5"@ != "MINUTE_15"@);
        assert("MINUTE_5"@ != "MINUTE_30"@);
        assert("MINUTE_5"@ != "HOUR_1"@);
        assert("MINUTE_5"@ != "HOUR_2"@);
        assert("MINUTE_5"@ != "HOUR_4"@);
        assert("MINUTE_5"@ != "HOUR_6"@);
        assert("MINUTE_5"@ != "HOUR_12"@);
        assert("MINUTE_5"@ != "DAY_1"@);
        assert("MINUTE_5"@ != "DAY_3"@);
        assert("MINUTE_5"@ != "WEEK_1"@);
        assert("MINUTE_5"@ != "MONTH_1"@);
        assert("MINUTE_10"@ != "MINUTE_15"@);
        assert("MINUTE_10"@ != "MINUTE_30"@);
        assert("MINUTE_10"@ != "HOUR_1"@);
        assert("MINUTE_10"@ != "HOUR_2"@);
        assert("MINUTE_10"@ != "HOUR_4"@);
        assert("MINUTE_10"@ != "HOUR_6"@);
        assert("MINUTE_10"@ != "HOUR_12"@);
        assert("MINUTE_10"@ != "DAY_1"@);
        assert("MINUTE_10"@ != "DAY_3"@);
        assert("MINUTE_10"@ != "WEEK_1"@);
        assert("MINUTE_10"@ != "MONTH_1"@);
        assert("MINUTE_15"@ != "MINUTE_30"@);
        assert("MINUTE_15"@ != "HOUR_1"@);
        assert("MINUTE_15"@ != "HOUR_2"@);
        assert("MINUTE_15"@ != "HOUR_4"@);
        assert("MINUTE_15"@ != "HOUR_6"@);
        assert("MINUTE_15"@ != "HOUR_12"@);
        assert("MINUTE_15"@ != "DAY_1"@);
        assert("MINUTE_15"@ != "DAY_3"@);
        assert("MINUTE_15"@ != "WEEK_1"@);
        assert("MINUTE_15"@ != "MONTH_1"@);
        assert("MINUTE_30"@ != "HOUR_1"@);
        assert("MINUTE_30"@ != "HOUR_2"@);
        assert("MINUTE_30"@ != "HOUR_4"@);
        assert("MINUTE_30"@ != "HOUR_6"@);
        assert("MINUTE_30"@ != "HOUR_12"@);
        assert("MINUTE_30"@ != "DAY_1"@);
        assert("MINUTE_30"@ != "DAY_3"@);
        assert("MINUTE_30"@ != "WEEK_1"@);
        assert("MINUTE_30"@ != "MONTH_1"@);
        assert("HOUR_1"@ != "HOUR_2"@);
        assert("HOUR_1"@ != "HOUR_4"@);
        assert("HOUR_1"@ != "HOUR_6"@);
        assert("HOUR_1"@ != "HOUR_12"@);
        assert("HOUR_1"@ != "DAY_1"@);
        assert("HOUR_1"@ != "DAY_3"@);
        assert("HOUR_1"@ != "WEEK_1"@);
        assert("HOUR_1"@ != "MONTH_1"@);
        assert("HOUR_2"@ != "HOUR_4"@);
        assert("HOUR_2"@ != "HOUR_6"@);
        assert("HOUR_2"@ != "HOUR_12"@);
        assert("HOUR_2"@ != "DAY_1"@);
        assert("HOUR_2"@ != "DAY_3"@);
        assert("HOUR_2"@ != "WEEK_1"@);
        assert("HOUR_2"@ != "MONTH_1"@);
        assert("HOUR_4"@ != "HOUR_6"@);
        assert("HOUR_4"@ != "HOUR_12"@);
        assert("HOUR_4"@ != "DAY_1"@);
        assert("HOUR_4"@ != "DAY_3"@);
        assert("HOUR_4"@ != "WEEK_1"@);
        assert("HOUR_4"@ != "MONTH_1"@);
        assert("HOUR_6"@ != "HOUR_12"@);
        assert("HOUR_6"@ != "DAY_1"@);
        assert("HOUR_6"@ != "DAY_3"@);
        assert("HOUR_6"@ != "WEEK_1"@);
        assert("HOUR_6"@ != "MONTH_1"@);
        assert("HOUR_12"@ != "DAY_1"@);
        assert("HOUR_12"@ != "DAY_3"@);
        assert("HOUR_12"@ != "WEEK_1"@);
        assert("HOUR_12"@ != "MONTH_1"@);
        assert("DAY_1"@ != "DAY_3"@);
        assert("DAY_1"@ != "WEEK_1"@);
        assert("DAY_1"@ != "MONTH_1"@);
        assert("DAY_3"@ != "WEEK_1"@);
        assert("DAY_3"@ != "MONTH_1"@);
        assert("WEEK_1"@ != "MONTH_1"@);
    }
    let mut d = IntervalsDict::new();
    d.add(Interval { kind: IntervalKind::Minute, value: 1 }, "MINUTE_1".to_owned())?;
    d.add(Interval { kind: IntervalKind::Minute, value: 5 }, "MINUTE_5".to_owned())?;
    d.add(Interval { kind: IntervalKind::Minute, value: 10 }, "MINUTE_10".to_owned())?;
    d.add(Interval { kind: IntervalKind::Minute, value: 15 }, "MINUTE_15".to_owned())?;
    d.add(Interval { kind: IntervalKind::Minute, value: 30 }, "MINUTE_30".to_owned())?;
    d.add(Interval { kind: IntervalKind::Hour, value: 1 }, "HOUR_1".to_owned())?;
    d.add(Interval { kind: IntervalKind::Hour, value: 2 }, "HOUR_2".to_owned())?;
    d.add(Interval { kind: IntervalKind::Hour, value: 4 }, "HOUR_4".to_owned())?;
    d.add(Interval { kind: IntervalKind::Hour, value: 6 }, "HOUR_6".to_owned())?;
    d.add(Interval { kind: IntervalKind::Hour, value: 12 }, "HOUR_12".to_owned())?;
    d.add(Interval { kind: IntervalKind::Day, value: 1 }, "DAY_1".to_owned())?;
    d.add(Interval { kind: IntervalKind::Day, value: 3 }, "DAY_3".to_owned())?;
    d.add(Interval { kind: IntervalKind::Week, value: 1 }, "WEEK_1".to_owned())?;
    d.add(Interval { kind: IntervalKind::Month, value: 1 }, "MONTH_1".to_owned())?;
    Ok(d)
}

} // verus!
