//! From the daily call allowance of the status service to a polling cadence.

use crate::schedule::{on_the_minute, Cadence};
use vstd::prelude::*;

verus! {

/// The crontab line (minute, hour, day of month, month, day of week) that
/// belongs to a daily allowance of `limit` calls.
pub open spec fn cron_job_for_limit(limit: int) -> Seq<char> {
    if limit == 50 {
        "*/30 * * * *"@
    } else if limit == 200 {
        "*/7 * * * *"@
    } else {
        "* * * * *"@
    }
}

/// Returns the crontab line for a daily allowance, on the assumption that
/// every call of the allowance is spent on the national status.
///
/// Fifty calls a day allow one every thirty minutes, two hundred allow one
/// every seven minutes, and any other allowance is polled every minute.
pub fn get_cron_job_based_on_limit(limit: i64) -> (line: &'static str)
    ensures
        line@ == cron_job_for_limit(limit as int),
{
    if limit == 50 {
        "*/30 * * * *"
    } else if limit == 200 {
        "*/7 * * * *"
    } else {
        "* * * * *"
    }
}

/// The cadence at which the status service is polled under a daily allowance
/// of `allowance` calls: every thirty minutes for fifty calls, every seven
/// minutes for two hundred, every minute for anything else.
pub fn cadence_for(allowance: i64) -> (cadence: Cadence)
    ensures
        cadence@ == on_the_minute(cron_job_for_limit(allowance as int)),
        allowance == 50 ==> cadence@ == "0 "@ + "*/30 * * * *"@,
        allowance == 200 ==> cadence@ == "0 "@ + "*/7 * * * *"@,
        allowance != 50 && allowance != 200 ==> cadence@ == "0 "@ + "* * * * *"@,
{
    Cadence::from_crontab(get_cron_job_based_on_limit(allowance))
}

} // verus!
