//! The countdown window: is an instant about so many minutes before the
//! predicted start of the next event?

use crate::instant::{LocalTimestamp, NANOS_PER_SECOND, SECONDS_PER_DAY};
use vstd::prelude::*;

verus! {

/// Width of the window in seconds: it opens this long before the target
/// offset is reached and closes exactly at it.
pub const TOLERANCE_SECONDS: i64 = 15;

/// The whole seconds in a span of nanoseconds, rounded towards zero.
pub open spec fn whole_seconds(nanos: int) -> int {
    if nanos >= 0 {
        nanos / (NANOS_PER_SECOND as int)
    } else {
        -((-nanos) / (NANOS_PER_SECOND as int))
    }
}

/// Whole seconds from the time of day of `now` to the time of day of
/// `predicted`, each read on its own local clock. The dates play no part.
pub open spec fn clock_delta_seconds(predicted: LocalTimestamp, now: LocalTimestamp) -> int {
    whole_seconds(predicted.clock_nanos() - now.clock_nanos())
}

/// `now` lies in the band of fifteen seconds that ends `target_minutes`
/// before `predicted`, both ends included.
pub open spec fn in_window_spec(
    target_minutes: int,
    predicted: LocalTimestamp,
    now: LocalTimestamp,
) -> bool {
    target_minutes * 60 - TOLERANCE_SECONDS <= clock_delta_seconds(predicted, now)
        <= target_minutes * 60
}

/// Computes the whole seconds between two times of day.
pub fn clock_seconds_between(predicted: &LocalTimestamp, now: &LocalTimestamp) -> (delta: i64)
    requires
        predicted.wf(),
        now.wf(),
    ensures
        delta == clock_delta_seconds(*predicted, *now),
        -SECONDS_PER_DAY < delta < SECONDS_PER_DAY,
{
    let billion: i64 = 1_000_000_000;
    let ahead: i64 = predicted.second_of_day() * billion + predicted.nanos as i64;
    let here: i64 = now.second_of_day() * billion + now.nanos as i64;
    let span: i64 = ahead - here;
    if span >= 0 {
        span / billion
    } else {
        -((-span) / billion)
    }
}

/// Decides whether `now` is about `target_minutes` before `predicted`: true
/// exactly when the time of day of `predicted` is ahead of that of `now` by
/// no more than `target_minutes` and no less than fifteen seconds short of it.
pub fn in_window(target_minutes: i64, predicted: &LocalTimestamp, now: &LocalTimestamp) -> (inside:
    bool)
    requires
        target_minutes >= 1,
        predicted.wf(),
        now.wf(),
    ensures
        inside == in_window_spec(target_minutes as int, *predicted, *now),
{
    let delta: i64 = clock_seconds_between(predicted, now);
    // Beyond a day of minutes the window opens later than any time of day.
    if target_minutes > 1_440 {
        false
    } else {
        target_minutes * 60 - TOLERANCE_SECONDS <= delta && delta <= target_minutes * 60
    }
}

} // verus!
