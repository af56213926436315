//! Trade events from the WebSocket feed.

use crate::records::recent_trade::RecentTrade;
use vstd::prelude::*;

verus! {

/// One trade as the feed reports it.
#[derive(Debug)]
pub struct TradesMessage {
    /// symbol name
    pub symbol: String,
    /// quote units traded
    pub amount: String,
    /// trade side (buy, sell)
    pub taker_side: TakerSide,
    /// base units traded
    pub quantity: String,
    /// time the trade was created, milliseconds
    pub create_time: u64,
    /// trade price
    pub price: String,
    /// trade id; the feed sends it as a string
    pub id: String,
    /// time the record was pushed
    pub record_time: u64,
}

/// How the exchange counted the trade.
#[derive(Debug, PartialEq, Eq, Structural, Clone, Copy)]
pub enum TakerSide {
    Buy,
    Sell,
}

impl TakerSide {
    pub fn as_str(&self) -> (r: &'static str)
        ensures
            *self is Buy ==> r@ == "buy"@,
            *self is Sell ==> r@ == "sell"@,
    {
        match self {
            TakerSide::Buy => "buy",
            TakerSide::Sell => "sell",
        }
    }
}

impl TradesMessage {
    /// The trade as a storable record: identifiers and amounts move over
    /// unchanged, the side is spelled out, and the millisecond timestamp
    /// is kept as a signed value.
    pub fn recent_trade(&self) -> (r: RecentTrade)
        requires
            self.create_time <= i64::MAX,
        ensures
            r.tid@ == self.id@,
            r.pair@ == self.symbol@,
            r.price@ == self.price@,
            r.amount@ == self.amount@,
            self.taker_side is Buy ==> r.side@ == "buy"@,
            self.taker_side is Sell ==> r.side@ == "sell"@,
            r.timestamp == self.create_time as i64,
    {
        RecentTrade {
            tid: self.id.clone(),
            pair: self.symbol.clone(),
            price: self.price.clone(),
            amount: self.amount.clone(),
            side: self.taker_side.as_str().to_owned(),
            timestamp: self.create_time as i64,
        }
    }
}

} // verus!
