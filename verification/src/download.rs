//! Paging decisions for the historic candle download.
//!
//! Candles are fetched page by page, newest window first, walking
//! backwards: each page's earliest start time bounds the next request.
//! The host program performs the requests; how far to walk is decided
//! here.

use vstd::prelude::*;

verus! {

/// What to do after one page of records.
#[derive(Debug, PartialEq, Eq, Structural)]
pub enum PageDecision {
    /// Request another page, ending just before the earliest record seen.
    NextPage { end_time: u64 },
    /// This symbol and interval are done.
    Done,
}

/// Tracks one symbol-and-interval download.
pub struct DownloadTracker {
    /// records downloaded so far
    pub total: usize,
    /// how many records each request asks for
    pub limit_per_request: u16,
    /// stop once this many records came, if set
    pub total_limit: Option<usize>,
}

impl DownloadTracker {
    pub fn new(limit_per_request: u16, total_limit: Option<usize>) -> (r: DownloadTracker)
        ensures
            r.total == 0,
            r.limit_per_request == limit_per_request,
            r.total_limit == total_limit,
    {
        DownloadTracker { total: 0, limit_per_request, total_limit }
    }

    /// Accounts one page and decides whether to fetch another: stop on a
    /// short page (the history is exhausted) or once the total limit is
    /// reached; otherwise the next page ends one millisecond before the
    /// earliest record of this one.
    pub fn on_page(&mut self, count: usize, first_start_time: Option<u64>) -> (d: PageDecision)
        requires
            old(self).limit_per_request > 0,
            count > 0 ==> old(self).first_start_requirement(first_start_time),
            old(self).total + count <= usize::MAX,
        ensures
            final(self).total == old(self).total + count,
            final(self).limit_per_request == old(self).limit_per_request,
            final(self).total_limit == old(self).total_limit,
            d matches PageDecision::NextPage { end_time } ==> count
                >= old(self).limit_per_request as usize && (match old(self).total_limit {
                Some(l) => old(self).total + count < l,
                None => true,
            }) && (first_start_time matches Some(t) && end_time == t - 1),
            d is Done <==> count < old(self).limit_per_request as usize || (match old(
                self,
            ).total_limit {
                Some(l) => old(self).total + count >= l,
                None => false,
            }),
    {
        self.total = self.total + count;
        if count < self.limit_per_request as usize {
            return PageDecision::Done;
        }
        if let Some(limit) = self.total_limit {
            if self.total >= limit {
                return PageDecision::Done;
            }
        }
        match first_start_time {
            Some(t) => PageDecision::NextPage { end_time: t - 1 },
            None => {
                proof {
                    assert(false);
                }
                PageDecision::Done
            },
        }
    }

    /// A page with records reports its earliest start time, and that time
    /// is positive, so the next window's end does not wrap.
    pub open spec fn first_start_requirement(&self, first_start_time: Option<u64>) -> bool {
        first_start_time matches Some(t) && t > 0
    }
}

} // verus!
