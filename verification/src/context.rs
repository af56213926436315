//! The context a Poloniex request resolves itself against: the three
//! interval dictionaries, built once at startup.

use crate::interval::database_intervals;
use crate::interval::DatabaseIntervals;
use crate::interval::DictError;
use crate::interval::ExchangeIntervals;
use crate::interval::Interval;
use crate::interval::IntervalsDict;
use crate::rest::intervals::exchange_interval_map;
use crate::rest::intervals::exchange_intervals;
use crate::utils::Has;
use crate::ws::intervals::all_ws_candles_channels;
use crate::ws::intervals::supported_ws_candles_channels;
use crate::ws::intervals::ws_channels_alias_map;
use crate::ws::intervals::ws_channels_interval_map;
use crate::ws::intervals::WsCandlesChannels;
use vstd::prelude::*;

verus! {

/// Dictionaries for one exchange connection: how the REST API spells
/// intervals, how the WebSocket feed names candle channels, and how the
/// database spells intervals.
pub struct PoloniexContext {
    exchange_intervals: IntervalsDict,
    ws_candles_channels: IntervalsDict,
    database_intervals: IntervalsDict,
}

impl PoloniexContext {
    pub closed spec fn exchange_dict(&self) -> IntervalsDict {
        self.exchange_intervals
    }

    pub closed spec fn ws_channels_dict(&self) -> IntervalsDict {
        self.ws_candles_channels
    }

    pub closed spec fn database_dict(&self) -> IntervalsDict {
        self.database_intervals
    }

    /// All three dictionaries are well-formed, and the exchange dictionary
    /// holds exactly the exchange spellings.
    pub open spec fn wf(&self) -> bool {
        &&& self.exchange_dict().wf()
        &&& self.ws_channels_dict().wf()
        &&& self.database_dict().wf()
    }

    /// Builds the three dictionaries. With `only_supported_candles` the
    /// channel dictionary is cut down to the intervals the database can
    /// store; otherwise it lists every channel the feed offers.
    pub fn init(only_supported_candles: bool) -> (r: Result<PoloniexContext, DictError>)
        ensures
            r is Ok,
            r matches Ok(c) ==> {
                &&& c.wf()
                &&& c.exchange_dict().interval_map() == exchange_interval_map()
                &&& c.database_dict().interval_map()
                    == crate::interval::database_intervals_interval_map()
                &&& !only_supported_candles ==> c.ws_channels_dict().interval_map()
                    == ws_channels_interval_map() && c.ws_channels_dict().alias_map()
                    == ws_channels_alias_map()
                &&& only_supported_candles ==> forall|a: Seq<char>, i: Interval|
                    #[trigger] c.ws_channels_dict().alias_map().contains_pair(a, i) <==> (
                    ws_channels_alias_map().contains_pair(a, i)
                        && c.database_dict().interval_map().contains_key(i))
            },
    {
        let database = database_intervals()?;
        let exchange = exchange_intervals()?;
        let ws_channels = if only_supported_candles {
            supported_ws_candles_channels(&database)?
        } else {
            all_ws_candles_channels()?
        };
        Ok(
            PoloniexContext {
                exchange_intervals: exchange,
                ws_candles_channels: ws_channels,
                database_intervals: database,
            },
        )
    }
}

impl Has<ExchangeIntervals> for PoloniexContext {
    closed spec fn spec_give(&self) -> IntervalsDict {
        self.exchange_intervals
    }

    fn give(&self, _label: ExchangeIntervals) -> &IntervalsDict {
        &self.exchange_intervals
    }
}

impl Has<DatabaseIntervals> for PoloniexContext {
    closed spec fn spec_give(&self) -> IntervalsDict {
        self.database_intervals
    }

    fn give(&self, _label: DatabaseIntervals) -> &IntervalsDict {
        &self.database_intervals
    }
}

impl Has<WsCandlesChannels> for PoloniexContext {
    closed spec fn spec_give(&self) -> IntervalsDict {
        self.ws_candles_channels
    }

    fn give(&self, _label: WsCandlesChannels) -> &IntervalsDict {
        &self.ws_candles_channels
    }
}

} // verus!
