//! Recurring schedules and the clock that keeps each one ahead of the present.

use crate::instant::{LocalTimestamp, LATEST_SECOND};
use vstd::prelude::*;

verus! {

/// A recurring schedule, held as the expression that the `cron` crate reads:
/// second, minute, hour, day of month, month, day of week.
#[derive(Clone, Debug)]
pub struct Cadence {
    pub source: String,
}

impl View for Cadence {
    type V = Seq<char>;

    open spec fn view(&self) -> Seq<char> {
        self.source@
    }
}

/// The six-field expression that fires at second zero of every minute that
/// the five-field crontab `line` selects.
pub open spec fn on_the_minute(line: Seq<char>) -> Seq<char> {
    "0 "@ + line
}

impl Cadence {
    /// Makes a cadence of a crontab line of five fields, which has minutes as
    /// its finest unit: the cadence fires at the start of each selected minute.
    pub fn from_crontab(line: &str) -> (cadence: Cadence)
        ensures
            cadence@ == on_the_minute(line@),
    {
        Cadence { source: String::from_str("0 ").concat(line) }
    }
}

/// The Unix second of the first firing that the `cron` crate finds for the
/// expression `source` after the instant given by `secs`, `nanos` and
/// `offset`, or `None` where it rejects the expression or finds no firing.
pub uninterp spec fn cron_upcoming(source: Seq<char>, secs: int, nanos: int, offset: int) -> Option<i64>;

/// Asks the `cron` crate for the first firing after an instant.
///
/// The body parses `source` with `cron::Schedule::from_str`, builds the
/// instant as a `chrono::DateTime<FixedOffset>` and takes the first item of
/// `Schedule::after`. Nothing is proved of it: the contract only gives the
/// answer its name, [`cron_upcoming`], which is sound because the answer
/// depends on the four arguments and on nothing else. The instant is kept
/// inside four-digit years, where `chrono` can build it and add the second
/// that `cron` starts its search from.
#[verifier::external_body]
fn cron_first_after(source: &str, secs: i64, nanos: u32, offset: i32) -> (found: Option<i64>)
    requires
        crate::instant::valid_instant(secs as int, nanos as int, offset as int),
    ensures
        found == cron_upcoming(source@, secs as int, nanos as int, offset as int),
{
    let schedule: cron::Schedule = std::str::FromStr::from_str(source).ok()?;
    let zone = chrono::FixedOffset::east_opt(offset)?;
    let start = chrono::DateTime::from_timestamp(secs, nanos)?.with_timezone(&zone);
    let firing = schedule.after(&start).next()?;
    Some(firing.timestamp())
}

/// What the clock makes of a firing second that the schedule reported: the
/// instant at that second in the zone of `now`, provided that it lies after
/// `now` and inside the calendar; otherwise nothing.
pub open spec fn settled(found: Option<i64>, now: LocalTimestamp) -> Option<LocalTimestamp> {
    match found {
        Some(second) => if now.secs < second && second <= LATEST_SECOND {
            Some(LocalTimestamp { secs: second, nanos: 0, offset: now.offset })
        } else {
            None
        },
        None => None,
    }
}

/// The next firing after `now` of the schedule that `source` describes.
pub open spec fn firing_after(source: Seq<char>, now: LocalTimestamp) -> Option<LocalTimestamp> {
    settled(cron_upcoming(source, now.secs as int, now.nanos as int, now.offset as int), now)
}

/// The next firing of `cadence` after `now`.
pub open spec fn next_after_spec(cadence: Cadence, now: LocalTimestamp) -> Option<LocalTimestamp> {
    firing_after(cadence@, now)
}

/// Turns a reported firing second into the next instant of a clock, and
/// refuses one that would not move the clock forward.
pub fn settle(found: Option<i64>, now: &LocalTimestamp) -> (next: Option<LocalTimestamp>)
    requires
        now.wf(),
    ensures
        next == settled(found, *now),
        next matches Some(t) ==> t.wf() && now.position() < t.position(),
{
    match found {
        Some(second) => {
            if now.secs < second && second <= LATEST_SECOND {
                let next = LocalTimestamp { secs: second, nanos: 0, offset: now.offset };
                proof {
                    crate::instant::lemma_position_order(*now, next);
                }
                Some(next)
            } else {
                None
            }
        },
        None => None,
    }
}

/// Computes the next firing of `cadence` strictly after `now`, in the zone of
/// `now`. The answer is `None` where the schedule has no later firing.
pub fn next_after(cadence: &Cadence, now: &LocalTimestamp) -> (next: Option<LocalTimestamp>)
    requires
        now.wf(),
    ensures
        next == next_after_spec(*cadence, *now),
        next matches Some(t) ==> t.wf() && t.nanos == 0 && now.position() < t.position(),
{
    let found = cron_first_after(cadence.source.as_str(), now.secs, now.nanos, now.offset);
    settle(found, now)
}

/// What became of a clock when it was checked against an instant.
#[derive(Clone, Copy, Debug, PartialEq, Eq, Structural)]
pub enum Advance {
    /// The stored firing instant still lies ahead: nothing changed.
    NotDue,
    /// The firing instant was reached, and the clock now holds the next one.
    Fired,
    /// The firing instant was reached but the schedule has none after it:
    /// nothing changed.
    Exhausted,
}

/// A cadence together with the one instant at which it fires next.
#[derive(Clone, Debug)]
pub struct ScheduleState {
    pub cadence: Cadence,
    pub next_fire: LocalTimestamp,
}

/// The clock after a check at `now`, and what the check found, where `found`
/// is the firing second that the schedule reports for `now`.
pub open spec fn advanced(state: ScheduleState, now: LocalTimestamp, found: Option<i64>) -> (
    ScheduleState,
    Advance,
) {
    if state.next_fire.position() <= now.position() {
        match settled(found, now) {
            Some(next) => (ScheduleState { cadence: state.cadence, next_fire: next }, Advance::Fired),
            None => (state, Advance::Exhausted),
        }
    } else {
        (state, Advance::NotDue)
    }
}

impl ScheduleState {
    /// Well-formedness: the firing instant is valid and falls on a whole
    /// second.
    pub open spec fn wf(&self) -> bool {
        self.next_fire.wf() && self.next_fire.nanos == 0
    }

    /// The firing second that the schedule of this clock reports for `now`.
    pub open spec fn upcoming(&self, now: LocalTimestamp) -> Option<i64> {
        cron_upcoming(self.cadence@, now.secs as int, now.nanos as int, now.offset as int)
    }

    /// Primes a clock from a reported firing second; `None` where the
    /// schedule has no firing after `now`.
    pub fn primed(cadence: Cadence, now: &LocalTimestamp, found: Option<i64>) -> (clock: Option<
        ScheduleState,
    >)
        requires
            now.wf(),
        ensures
            clock.is_some() == settled(found, *now).is_some(),
            clock matches Some(c) ==> c.cadence == cadence && Some(c.next_fire) == settled(
                found,
                *now,
            ) && c.wf() && now.position() < c.next_fire.position(),
    {
        match settle(found, now) {
            Some(next_fire) => Some(ScheduleState { cadence, next_fire }),
            None => None,
        }
    }

    /// Primes a clock with the first firing of `cadence` after `now`; `None`
    /// where the schedule has none.
    pub fn start(cadence: Cadence, now: &LocalTimestamp) -> (clock: Option<ScheduleState>)
        requires
            now.wf(),
        ensures
            clock.is_some() == next_after_spec(cadence, *now).is_some(),
            clock matches Some(c) ==> c.cadence == cadence && Some(c.next_fire) == next_after_spec(
                cadence,
                *now,
            ) && c.wf() && now.position() < c.next_fire.position(),
    {
        let found = cron_first_after(cadence.source.as_str(), now.secs, now.nanos, now.offset);
        ScheduleState::primed(cadence, now, found)
    }

    /// Asks the schedule for the firing after `now` if the clock is due, and
    /// not at all if it is not: a clock that is not due moves nowhere, so the
    /// answer then plays no part.
    pub fn consult(&self, now: &LocalTimestamp) -> (found: Option<i64>)
        requires
            self.wf(),
            now.wf(),
        ensures
            advanced(*self, *now, found) == advanced(*self, *now, self.upcoming(*now)),
    {
        if self.next_fire.at_or_before(now) {
            cron_first_after(self.cadence.source.as_str(), now.secs, now.nanos, now.offset)
        } else {
            None
        }
    }

    /// Checks the clock against `now`, given the firing second that the
    /// schedule reports for `now`. A clock that is due moves to that firing;
    /// one that is not due, or has nowhere to move, stays as it is.
    pub fn advance_with(&mut self, now: &LocalTimestamp, found: Option<i64>) -> (outcome: Advance)
        requires
            old(self).wf(),
            now.wf(),
        ensures
            (*final(self), outcome) == advanced(*old(self), *now, found),
            final(self).wf(),
            outcome != Advance::Exhausted ==> now.position() < final(self).next_fire.position(),
    {
        if self.next_fire.at_or_before(now) {
            match settle(found, now) {
                Some(next) => {
                    self.next_fire = next;
                    Advance::Fired
                },
                None => Advance::Exhausted,
            }
        } else {
            Advance::NotDue
        }
    }

    /// Checks the clock against `now`: if the stored firing instant has been
    /// reached, stores the next firing after `now` and reports `Fired`;
    /// otherwise leaves the clock untouched. The schedule is consulted only
    /// when the clock is due.
    pub fn advance_if_due(&mut self, now: &LocalTimestamp) -> (outcome: Advance)
        requires
            old(self).wf(),
            now.wf(),
        ensures
            (*final(self), outcome) == advanced(*old(self), *now, old(self).upcoming(*now)),
            final(self).wf(),
            outcome != Advance::Exhausted ==> now.position() < final(self).next_fire.position(),
    {
        let found = self.consult(now);
        self.advance_with(now, found)
    }
}

/// A firing that `next_after` reports lies strictly after the instant it was
/// asked about.
pub proof fn lemma_next_after_is_later(cadence: Cadence, now: LocalTimestamp)
    requires
        now.wf(),
    ensures
        next_after_spec(cadence, now) matches Some(t) ==> t.wf() && now.position() < t.position(),
{
    if let Some(t) = next_after_spec(cadence, now) {
        crate::instant::lemma_position_order(now, t);
    }
}

/// Feeding each firing back into `next_after` gives a strictly ascending
/// sequence: in a run of instants where each is the firing after the one
/// before it, any earlier entry lies before any later one.
pub proof fn lemma_firings_ascend(cadence: Cadence, run: Seq<LocalTimestamp>, i: int, j: int)
    requires
        run.len() > 0,
        run[0].wf(),
        forall|k: int|
            0 <= k < run.len() - 1 ==> next_after_spec(cadence, #[trigger] run[k]) == Some(
                run[k + 1],
            ),
        0 <= i < j < run.len(),
    ensures
        run[i].wf(),
        run[j].wf(),
        run[i].position() < run[j].position(),
    decreases j,
{
    if j == 1 {
        lemma_next_after_is_later(cadence, run[0]);
    } else if i == j - 1 {
        lemma_firings_ascend(cadence, run, 0, i);
        lemma_next_after_is_later(cadence, run[i]);
    } else {
        lemma_firings_ascend(cadence, run, i, j - 1);
        lemma_next_after_is_later(cadence, run[j - 1]);
    }
}

/// After a check, a clock that was not found exhausted holds a valid firing
/// instant strictly after the instant of the check.
pub proof fn lemma_advanced_is_ahead(state: ScheduleState, now: LocalTimestamp, found: Option<i64>)
    requires
        state.wf(),
        now.wf(),
    ensures
        advanced(state, now, found).0.wf(),
        advanced(state, now, found).1 != Advance::Exhausted ==> now.position() < advanced(
            state,
            now,
            found,
        ).0.next_fire.position(),
{
    if advanced(state, now, found).1 == Advance::Fired {
        crate::instant::lemma_position_order(now, advanced(state, now, found).0.next_fire);
    }
}

/// A clock fires at most once for one instant: after a check that fired (or
/// found the clock not due), a second check at the same instant finds it not
/// due and changes nothing, whatever the schedule reports.
pub proof fn lemma_fires_once(
    state: ScheduleState,
    now: LocalTimestamp,
    first: Option<i64>,
    second: Option<i64>,
)
    requires
        state.wf(),
        now.wf(),
    ensures
        advanced(state, now, first).1 != Advance::Exhausted ==> advanced(
            advanced(state, now, first).0,
            now,
            second,
        ) == (advanced(state, now, first).0, Advance::NotDue),
{
    let after = advanced(state, now, first).0;
    if advanced(state, now, first).1 == Advance::Fired {
        crate::instant::lemma_position_order(now, after.next_fire);
    }
}

} // verus!
