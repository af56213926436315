//! The candles endpoint: request parameters and response records.

use crate::decimal::dec_str;
use crate::http::Request;
use crate::interval::ExchangeIntervals;
use crate::interval::Interval;
use crate::url::BuildUrl;
use crate::url::UrlBuildError;
use crate::url::UrlBuilder;
use crate::url::UrlOp;
use crate::utils::Has;
use vstd::prelude::*;

verus! {

/// Parameters of one candles request.
pub struct CandlesRequest {
    /// symbol name
    pub symbol: String,
    /// the unit of time to aggregate data by
    pub interval: Interval,
    /// maximum number of records returned; the server default is 100 and
    /// the maximum 500
    pub limit: Option<u16>,
    /// filters by time; the server default is 0
    pub start_time: Option<u64>,
    /// filters by time; the server default is the current time
    pub end_time: Option<u64>,
}

impl Request for CandlesRequest {
    type Response = Vec<CandlesResponse>;
}

/// The query pairs a candles request appends after its path segments.
pub open spec fn candles_query_ops(req: &CandlesRequest, alias: Seq<char>) -> Seq<UrlOp> {
    seq![UrlOp::Pair("interval"@, alias)] + (match req.limit {
        Some(l) => seq![UrlOp::Pair("limit"@, dec_str(l as int))],
        None => Seq::<UrlOp>::empty(),
    }) + (match req.start_time {
        Some(t) => seq![UrlOp::Pair("startTime"@, dec_str(t as int))],
        None => Seq::<UrlOp>::empty(),
    }) + (match req.end_time {
        Some(t) => seq![UrlOp::Pair("endTime"@, dec_str(t as int))],
        None => Seq::<UrlOp>::empty(),
    })
}

/// A candles request resolves to `markets/<symbol>/candles` with its
/// interval spelled the exchange's way, plus the optional limit and time
/// filters, in that order. It cannot be resolved when the context has no
/// spelling for the interval.
impl<C: Has<ExchangeIntervals>> BuildUrl<C> for CandlesRequest {
    open spec fn build_req(&self, context: &C) -> bool {
        <C as Has<ExchangeIntervals>>::spec_give(context).wf()
    }

    open spec fn spec_ops(&self, context: &C) -> Option<Seq<UrlOp>> {
        let dict = <C as Has<ExchangeIntervals>>::spec_give(context);
        if dict.interval_map().contains_key(self.interval) {
            Some(
                seq![UrlOp::Segments(seq!["markets"@, self.symbol@, "candles"@])]
                    + candles_query_ops(self, dict.interval_map()[self.interval]),
            )
        } else {
            None
        }
    }

    fn build_url(&self, url_builder: &mut UrlBuilder<'_>, context: &C) -> (r: Result<
        (),
        UrlBuildError,
    >) {
        let mut segments: Vec<&str> = Vec::new();
        segments.push("markets");
        segments.push(self.symbol.as_str());
        segments.push("candles");
        proof {
            assert(segments@.map_values(|s: &str| s@) =~= seq!["markets"@, self.symbol@,
                "candles"@]);
        }
        url_builder.add_path_segments(segments.as_slice())?;

        let supported_intervals = context.give(ExchangeIntervals);
        let alias = match supported_intervals.to_alias(self.interval) {
            Some(alias) => alias,
            None => {
                return Err(UrlBuildError::UnsupportedInterval);
            },
        };
        url_builder.add_query_pair("interval", alias)?;
        if let Some(limit) = self.limit {
            url_builder.display_pair("limit", limit as u64)?;
        }
        if let Some(start_time) = self.start_time {
            url_builder.display_pair("startTime", start_time)?;
        }
        if let Some(end_time) = self.end_time {
            url_builder.display_pair("endTime", end_time)?;
        }
        proof {
            let dict = <C as Has<ExchangeIntervals>>::spec_give(context);
            assert(url_builder.ops() =~= old(url_builder).ops() + (seq![
                UrlOp::Segments(seq!["markets"@, self.symbol@, "candles"@]),
            ] + candles_query_ops(self, dict.interval_map()[self.interval])));
        }
        Ok(())
    }
}

/// One candle record as the exchange returns it: prices and volumes are
/// decimal strings, times are millisecond timestamps.
#[derive(Debug, Clone)]
pub struct CandlesResponse {
    /// lowest price over the interval
    pub low: String,
    /// highest price over the interval
    pub high: String,
    /// price at the start time
    pub open: String,
    /// price at the end time
    pub close: String,
    /// quote units traded over the interval
    pub amount: String,
    /// base units traded over the interval
    pub quantity: String,
    /// quote units traded over the interval filled by market buy orders
    pub buy_taker_amount: String,
    /// base units traded over the interval filled by market buy orders
    pub buy_taker_quantity: String,
    /// integer count of trades
    pub trade_count: u64,
    /// time the record was pushed; usually later than `close_time`
    pub record_time: u64,
    /// weighted average over the interval
    pub weighted_average: String,
    /// the selected interval
    pub interval: String,
    /// start time of interval
    pub start_time: u64,
    /// close time of interval
    pub close_time: u64,
}

} // verus!
