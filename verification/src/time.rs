//! Millisecond UNIX timestamps and time spans as plain integers.

use vstd::prelude::*;

verus! {

/// A span of time stored as whole milliseconds.
///
/// The host program converts this to and from its own duration types; the
/// verified code only ever does arithmetic on the millisecond count.
#[derive(Debug, Clone, Copy, PartialEq, Eq, Structural)]
pub struct SpanDuration {
    pub millis: u64,
}

impl SpanDuration {
    /// A span of whole seconds.
    pub fn from_secs(secs: u64) -> (r: SpanDuration)
        requires
            secs <= u64::MAX / 1000,
        ensures
            r.millis == secs * 1000,
    {
        SpanDuration { millis: secs * 1000 }
    }
}

/// Rounds a millisecond timestamp just past its second boundary down to a
/// whole second, so that `...999` becomes the next full second while an
/// already-round value stays put. The exchange rejects candle requests whose
/// start time is not aligned this way.
pub fn timestamp_ceil(ts: u64) -> (r: u64)
    requires
        ts < u64::MAX,
    ensures
        r == ((ts + 1) / 1000) * 1000,
{
    (ts + 1) / 1000 * 1000
}

/// Relies on jiff's `Timestamp::now`: the current UTC time as whole
/// milliseconds since the UNIX epoch, clamped to `u64`. The result
/// depends on the clock, so nothing is promised of it.
#[verifier::external_body]
pub fn timestamp_now() -> u64 {
    let duration = jiff::Timestamp::now().duration_since(jiff::Timestamp::UNIX_EPOCH);
    duration.as_millis().clamp(0, u64::MAX as i128) as u64
}

} // verus!
