//! The system clock.

use vstd::prelude::*;

verus! {

/// Calls `SystemTime::elapsed` on the Unix epoch, and hands on the whole seconds and the
/// nanoseconds behind them, where the clock is not set before the epoch. Nothing is claimed of
/// the result.
#[verifier::external_body]
fn since_epoch() -> Option<(u64, u32)> {
    std::time::UNIX_EPOCH.elapsed().ok().map(|time| (time.as_secs(), time.subsec_nanos()))
}

/// Tells whether a reading is one that the clock has given: nothing but asking it shows that.
pub closed spec fn is_clock_reading(reading: Option<(u64, u32)>) -> bool {
    call_ensures(since_epoch, (), reading)
}

/// Asks the clock.
fn read_clock() -> (result: Option<(u64, u32)>)
    ensures
        is_clock_reading(result),
{
    since_epoch()
}

/// What the clock reads, as whole milliseconds since the Unix epoch: none where it is set before
/// the epoch, and the low 64 bits where there are too many.
pub open spec fn epoch_millis(reading: Option<(u64, u32)>) -> u64 {
    match reading {
        Some((seconds, nanos)) => (seconds * 1000 + nanos as int / 1_000_000) as u64,
        None => 0,
    }
}

/// Turns what the clock reads into whole milliseconds since the Unix epoch.
fn millis_of(reading: Option<(u64, u32)>) -> (result: u64)
    ensures
        result == epoch_millis(reading),
{
    match reading {
        Some((seconds, nanos)) => {
            let millis: u128 = seconds as u128 * 1000 + (nanos / 1_000_000) as u128;
            millis as u64
        },
        None => 0,
    }
}

/// The time as whole milliseconds since the Unix epoch.
pub(crate) fn now_millis() -> (result: u64)
    ensures
        exists|reading: Option<(u64, u32)>| #[trigger]
            is_clock_reading(reading) && result == epoch_millis(reading),
{
    millis_of(read_clock())
}

/// What the clock reads, as whole seconds since the Unix epoch: none where it is set before the
/// epoch.
pub open spec fn epoch_seconds(reading: Option<(u64, u32)>) -> u64 {
    match reading {
        Some((seconds, _)) => seconds,
        None => 0,
    }
}

/// Turns what the clock reads into whole seconds since the Unix epoch.
fn seconds_of(reading: Option<(u64, u32)>) -> (result: u64)
    ensures
        result == epoch_seconds(reading),
{
    match reading {
        Some((seconds, _)) => seconds,
        None => 0,
    }
}

/// The time as whole seconds since the Unix epoch.
pub(crate) fn now_seconds() -> (result: u64)
    ensures
        exists|reading: Option<(u64, u32)>| #[trigger]
            is_clock_reading(reading) && result == epoch_seconds(reading),
{
    seconds_of(read_clock())
}

} // verus!
