//! The recent-trade record as the storage layer keeps it.

use vstd::prelude::*;

verus! {

/// One stored trade.
#[derive(Debug)]
pub struct RecentTrade {
    /// transaction id
    pub tid: String,
    /// currency pair name, in our spelling
    pub pair: String,
    /// transaction price
    pub price: String,
    /// transaction volume in the base currency
    pub amount: String,
    /// how the exchange counted the trade: "buy" or "sell"
    pub side: String,
    /// UTC time in milliseconds
    pub timestamp: i64,
}

} // verus!
