//! Candle events from the WebSocket feed.

use vstd::prelude::*;

verus! {

/// One candle as the feed reports it: prices and volumes are decimal
/// strings, times are millisecond timestamps. Unlike the REST record it
/// does not split volume into taker sides.
#[derive(Debug)]
pub struct CandlesMessage {
    /// symbol name
    pub symbol: String,
    /// quote units traded over the interval
    pub amount: String,
    /// highest price over the interval
    pub high: String,
    /// base units traded over the interval
    pub quantity: String,
    /// count of trades
    pub trade_count: u64,
    /// lowest price over the interval
    pub low: String,
    /// close time of interval
    pub close_time: u64,
    /// start time of interval
    pub start_time: u64,
    /// price at the end time
    pub close: String,
    /// price at the start time
    pub open: String,
    /// time the record was pushed; usually later than `close_time`
    pub record_time: u64,
}

} // verus!
