//! Clock readings as whole milliseconds.

use std::time::Instant;

use vstd::prelude::*;

verus! {

/// `std::time::Instant`, carried through without looking inside.
#[verifier::external_type_specification]
#[verifier::external_body]
pub struct ExInstant(Instant);

/// Calls `SystemTime::elapsed` on the Unix epoch and reads the duration in
/// whole milliseconds; `None` where the clock is set before the epoch. Nothing
/// is promised of the reading.
#[verifier::external_body]
fn epoch_reading() -> (reading: Option<u128>) {
    std::time::UNIX_EPOCH.elapsed().ok().map(|since| since.as_millis())
}

/// Calls `Instant::now`. Nothing is promised of the reading.
#[verifier::external_body]
pub(crate) fn instant_now() -> (now: Instant) {
    Instant::now()
}

/// Name of the whole milliseconds from one instant to another, zero where the
/// second one is not the later: the result of
/// `Instant::saturating_duration_since`, read by `Duration::as_millis`.
pub uninterp spec fn instant_millis(started_at: Instant, now: Instant) -> u128;

/// Calls `Instant::saturating_duration_since` and reads the duration in whole
/// milliseconds. The contract claims that the reading depends on the two
/// instants alone and names it; nothing is said of its value.
#[verifier::external_body]
fn instant_reading(started_at: Instant, now: Instant) -> (reading: u128)
    ensures
        reading == instant_millis(started_at, now),
{
    now.saturating_duration_since(started_at).as_millis()
}

/// A reading in the range of `u64`: beyond it, the largest number there is.
pub open spec fn saturated(reading: int) -> int {
    if reading > u64::MAX {
        u64::MAX as int
    } else {
        reading
    }
}

/// Brings a reading into the range of `u64`, saturating rather than wrapping.
pub fn saturate_millis(reading: u128) -> (millis: u64)
    ensures
        millis == saturated(reading as int),
{
    if reading > u64::MAX as u128 {
        u64::MAX
    } else {
        reading as u64
    }
}

/// The timestamp of a wall-clock reading: `0` for a clock that is set before
/// the epoch.
pub open spec fn timestamp(reading: Option<u128>) -> int {
    match reading {
        Some(since) => saturated(since as int),
        None => 0,
    }
}

/// Turns a wall-clock reading into a timestamp.
pub fn epoch_millis(reading: Option<u128>) -> (millis: u64)
    ensures
        millis == timestamp(reading),
{
    match reading {
        Some(since) => saturate_millis(since),
        None => 0,
    }
}

/// Return the current wall-clock time in milliseconds since the Unix epoch.
/// Returns `0` if the clock is set before the epoch.
pub fn now_millis() -> (millis: u64)
    ensures
        exists|reading: Option<u128>| millis == #[trigger] timestamp(reading),
{
    let reading = epoch_reading();
    epoch_millis(reading)
}

/// The whole milliseconds from one instant to another, in the range of `u64`.
pub open spec fn elapsed_between(started_at: Instant, now: Instant) -> u64 {
    saturated(instant_millis(started_at, now) as int) as u64
}

/// Measures the time from one instant to another in whole milliseconds,
/// saturating at [`u64::MAX`].
pub fn millis_between(started_at: Instant, now: Instant) -> (millis: u64)
    ensures
        millis == elapsed_between(started_at, now),
{
    saturate_millis(instant_reading(started_at, now))
}

/// Convert an elapsed [`Instant`] into whole milliseconds, saturating at
/// [`u64::MAX`] rather than panicking or wrapping on absurdly long spans.
pub fn elapsed_millis(started_at: &Instant) -> (millis: u64)
    ensures
        exists|now: Instant| millis == #[trigger] elapsed_between(*started_at, now),
{
    millis_between(*started_at, instant_now())
}

} // verus!
