//! The scheduler loop, one tick at a time.
//!
//! The loop itself sleeps, spawns workers and listens for an interrupt, none
//! of which is done here. This module holds what the loop decides: given the
//! present instant, whether shutdown was asked for and what a finished worker
//! brought back, it moves the three clocks, keeps at most one fetch in flight
//! and says which notifications are due.

use crate::budget::{cadence_for, cron_job_for_limit};
use crate::fetch::{AreaStatus, FetchFailure};
use crate::instant::LocalTimestamp;
use crate::schedule::{
    advanced,
    firing_after,
    on_the_minute,
    settled,
    Advance,
    Cadence,
    ScheduleState,
};
use crate::window::{in_window, in_window_spec};
use vstd::prelude::*;

verus! {

/// Minutes before the predicted start at which the early notice goes out.
pub const EARLY_NOTICE_MINUTES: i64 = 55;

/// Minutes before the predicted start at which the late notice goes out.
pub const LATE_NOTICE_MINUTES: i64 = 15;

/// The crontab line of the clock that times the early notice: minute five of
/// every hour.
pub open spec fn early_notice_line() -> Seq<char> {
    "5 * * * *"@
}

/// The crontab line of the clock that times the late notice: minute
/// forty-five of every hour.
pub open spec fn late_notice_line() -> Seq<char> {
    "45 * * * *"@
}

/// Where the loop stands with respect to the status service.
#[derive(Clone, Copy, Debug, PartialEq, Eq, Structural)]
pub enum LoopState {
    /// No fetch is in flight.
    Idle,
    /// One worker is out fetching.
    Fetching,
    /// Shutdown was asked for; the loop has ended.
    Terminated,
}

/// What a finished worker hands back: the statuses by area, or the reason
/// there are none.
pub type FetchResult = Result<Vec<AreaStatus>, FetchFailure>;

/// Everything the loop owns.
#[derive(Clone, Debug)]
pub struct SchedulerLoop {
    /// When the status service is polled next.
    pub status: ScheduleState,
    /// Clock of the early notice.
    pub mark_55: ScheduleState,
    /// Clock of the late notice.
    pub mark_15: ScheduleState,
    /// Best estimate of when the next event starts.
    pub predicted: LocalTimestamp,
    /// Whether a fetch is in flight, or the loop has ended.
    pub phase: LoopState,
    /// The statuses that the last successful fetch brought.
    pub statuses: Vec<AreaStatus>,
}

/// What the loop has to do after a tick.
#[derive(Clone, Debug)]
pub struct TickReport {
    /// Leave the loop.
    pub exit: bool,
    /// Start one worker that calls the status service.
    pub spawn_fetch: bool,
    /// A fetch came back with statuses, and the prediction was renewed.
    pub updated: bool,
    /// A fetch came back without statuses: log this and carry on.
    pub failure: Option<FetchFailure>,
    /// Send the notice that the event is about 55 minutes away.
    pub notify_55: bool,
    /// Send the notice that the event is about 15 minutes away.
    pub notify_15: bool,
    /// What became of the status clock.
    pub status_clock: Advance,
    /// What became of the clock of the early notice.
    pub clock_55: Advance,
    /// What became of the clock of the late notice.
    pub clock_15: Advance,
}

/// The report of a tick on which nothing happens but, perhaps, the exit.
pub open spec fn quiet_report(exit: bool) -> TickReport {
    TickReport {
        exit,
        spawn_fetch: false,
        updated: false,
        failure: None,
        notify_55: false,
        notify_15: false,
        status_clock: Advance::NotDue,
        clock_55: Advance::NotDue,
        clock_15: Advance::NotDue,
    }
}

/// The loop after a worker's result has been taken in. Only a loop that is
/// fetching takes one in: statuses replace the cached ones and renew the
/// prediction with the instant of the next poll; a failure changes neither.
/// Either way the loop is idle again.
pub open spec fn joined(engine: SchedulerLoop, finished: Option<FetchResult>) -> SchedulerLoop {
    if engine.phase == LoopState::Fetching {
        match finished {
            Some(Ok(statuses)) => SchedulerLoop {
                status: engine.status,
                mark_55: engine.mark_55,
                mark_15: engine.mark_15,
                predicted: engine.status.next_fire,
                phase: LoopState::Idle,
                statuses,
            },
            Some(Err(_)) => SchedulerLoop {
                status: engine.status,
                mark_55: engine.mark_55,
                mark_15: engine.mark_15,
                predicted: engine.predicted,
                phase: LoopState::Idle,
                statuses: engine.statuses,
            },
            None => engine,
        }
    } else {
        engine
    }
}

/// The failure that a tick has to report, if any.
pub open spec fn reported_failure(engine: SchedulerLoop, finished: Option<FetchResult>) -> Option<
    FetchFailure,
> {
    if engine.phase == LoopState::Fetching {
        match finished {
            Some(Err(failure)) => Some(failure),
            _ => None,
        }
    } else {
        None
    }
}

/// One tick: the loop afterwards and the report, where the three `found`
/// values are the firing seconds that the schedules of the three clocks
/// report for `now`.
///
/// A request for shutdown ends the loop before anything else is looked at,
/// and an ended loop stays ended. Otherwise a finished worker is taken in,
/// then the status clock is checked and a worker is started if it fired and
/// none is in flight, then each notice clock is checked and, if it fired, its
/// window is evaluated against the prediction.
pub open spec fn ticked(
    engine: SchedulerLoop,
    now: LocalTimestamp,
    shutdown: bool,
    finished: Option<FetchResult>,
    found_status: Option<i64>,
    found_55: Option<i64>,
    found_15: Option<i64>,
) -> (SchedulerLoop, TickReport) {
    if shutdown || engine.phase == LoopState::Terminated {
        (
            SchedulerLoop {
                status: engine.status,
                mark_55: engine.mark_55,
                mark_15: engine.mark_15,
                predicted: engine.predicted,
                phase: LoopState::Terminated,
                statuses: engine.statuses,
            },
            quiet_report(true),
        )
    } else {
        let taken = joined(engine, finished);
        let status = advanced(engine.status, now, found_status);
        let early = advanced(engine.mark_55, now, found_55);
        let late = advanced(engine.mark_15, now, found_15);
        let spawn = status.1 == Advance::Fired && taken.phase == LoopState::Idle;
        (
            SchedulerLoop {
                status: status.0,
                mark_55: early.0,
                mark_15: late.0,
                predicted: taken.predicted,
                phase: if spawn {
                    LoopState::Fetching
                } else {
                    taken.phase
                },
                statuses: taken.statuses,
            },
            TickReport {
                exit: false,
                spawn_fetch: spawn,
                updated: engine.phase == LoopState::Fetching && finished matches Some(Ok(_)),
                failure: reported_failure(engine, finished),
                notify_55: early.1 == Advance::Fired && in_window_spec(
                    EARLY_NOTICE_MINUTES as int,
                    taken.predicted,
                    now,
                ),
                notify_15: late.1 == Advance::Fired && in_window_spec(
                    LATE_NOTICE_MINUTES as int,
                    taken.predicted,
                    now,
                ),
                status_clock: status.1,
                clock_55: early.1,
                clock_15: late.1,
            },
        )
    }
}

impl SchedulerLoop {
    /// Well-formedness: every clock and the prediction hold valid instants.
    pub open spec fn wf(&self) -> bool {
        &&& self.status.wf()
        &&& self.mark_55.wf()
        &&& self.mark_15.wf()
        &&& self.predicted.wf()
    }

    /// The loop at startup for a daily allowance, given the firing seconds
    /// that the three schedules report for `now`: idle, every clock primed
    /// with its first firing, the prediction at the first poll. There is no
    /// loop where one of the schedules has no firing after `now`.
    pub fn assemble(
        allowance: i64,
        now: &LocalTimestamp,
        found_status: Option<i64>,
        found_55: Option<i64>,
        found_15: Option<i64>,
    ) -> (engine: Option<SchedulerLoop>)
        requires
            now.wf(),
        ensures
            engine.is_some() == (settled(found_status, *now).is_some() && settled(
                found_55,
                *now,
            ).is_some() && settled(found_15, *now).is_some()),
            engine matches Some(e) ==> {
                &&& e.wf()
                &&& e.phase == LoopState::Idle
                &&& e.statuses@.len() == 0
                &&& e.status.cadence@ == on_the_minute(cron_job_for_limit(allowance as int))
                &&& e.mark_55.cadence@ == on_the_minute(early_notice_line())
                &&& e.mark_15.cadence@ == on_the_minute(late_notice_line())
                &&& Some(e.status.next_fire) == settled(found_status, *now)
                &&& Some(e.mark_55.next_fire) == settled(found_55, *now)
                &&& Some(e.mark_15.next_fire) == settled(found_15, *now)
                &&& e.predicted == e.status.next_fire
            },
    {
        let status = ScheduleState::primed(cadence_for(allowance), now, found_status);
        let mark_55 = ScheduleState::primed(Cadence::from_crontab("5 * * * *"), now, found_55);
        let mark_15 = ScheduleState::primed(Cadence::from_crontab("45 * * * *"), now, found_15);
        match (status, mark_55, mark_15) {
            (Some(status), Some(mark_55), Some(mark_15)) => {
                let predicted = status.next_fire;
                Some(
                    SchedulerLoop {
                        status,
                        mark_55,
                        mark_15,
                        predicted,
                        phase: LoopState::Idle,
                        statuses: Vec::new(),
                    },
                )
            },
            _ => None,
        }
    }

    /// Starts the loop for a daily allowance at `now`: asks each of the three
    /// schedules for its first firing and assembles the loop from them.
    pub fn start(allowance: i64, now: &LocalTimestamp) -> (engine: Option<SchedulerLoop>)
        requires
            now.wf(),
        ensures
            engine.is_some() == (firing_after(
                on_the_minute(cron_job_for_limit(allowance as int)),
                *now,
            ).is_some() && firing_after(on_the_minute(early_notice_line()), *now).is_some()
                && firing_after(on_the_minute(late_notice_line()), *now).is_some()),
            engine matches Some(e) ==> {
                &&& e.wf()
                &&& e.phase == LoopState::Idle
                &&& e.statuses@.len() == 0
                &&& e.status.cadence@ == on_the_minute(cron_job_for_limit(allowance as int))
                &&& e.mark_55.cadence@ == on_the_minute(early_notice_line())
                &&& e.mark_15.cadence@ == on_the_minute(late_notice_line())
                &&& Some(e.status.next_fire) == firing_after(e.status.cadence@, *now)
                &&& Some(e.mark_55.next_fire) == firing_after(e.mark_55.cadence@, *now)
                &&& Some(e.mark_15.next_fire) == firing_after(e.mark_15.cadence@, *now)
                &&& e.predicted == e.status.next_fire
                &&& now.position() < e.status.next_fire.position()
                &&& now.position() < e.mark_55.next_fire.position()
                &&& now.position() < e.mark_15.next_fire.position()
            },
    {
        let status = ScheduleState::start(cadence_for(allowance), now);
        let mark_55 = ScheduleState::start(Cadence::from_crontab("5 * * * *"), now);
        let mark_15 = ScheduleState::start(Cadence::from_crontab("45 * * * *"), now);
        match (status, mark_55, mark_15) {
            (Some(status), Some(mark_55), Some(mark_15)) => {
                let predicted = status.next_fire;
                Some(
                    SchedulerLoop {
                        status,
                        mark_55,
                        mark_15,
                        predicted,
                        phase: LoopState::Idle,
                        statuses: Vec::new(),
                    },
                )
            },
            _ => None,
        }
    }

    /// Takes in what a finished worker handed back, if the loop is waiting
    /// for one, and returns the failure that is to be reported.
    pub fn join(&mut self, finished: Option<FetchResult>) -> (failure: Option<FetchFailure>)
        requires
            old(self).wf(),
        ensures
            *final(self) == joined(*old(self), finished),
            failure == reported_failure(*old(self), finished),
            final(self).wf(),
    {
        match self.phase {
            LoopState::Fetching => match finished {
                Some(Ok(statuses)) => {
                    self.predicted = self.status.next_fire;
                    self.statuses = statuses;
                    self.phase = LoopState::Idle;
                    None
                },
                Some(Err(failure)) => {
                    self.phase = LoopState::Idle;
                    Some(failure)
                },
                None => None,
            },
            _ => None,
        }
    }

    /// Performs one tick, given the firing seconds that the three schedules
    /// report for `now`.
    pub fn step(
        &mut self,
        now: &LocalTimestamp,
        shutdown: bool,
        finished: Option<FetchResult>,
        found_status: Option<i64>,
        found_55: Option<i64>,
        found_15: Option<i64>,
    ) -> (report: TickReport)
        requires
            old(self).wf(),
            now.wf(),
        ensures
            (*final(self), report) == ticked(
                *old(self),
                *now,
                shutdown,
                finished,
                found_status,
                found_55,
                found_15,
            ),
            final(self).wf(),
    {
        let ended = match self.phase {
            LoopState::Terminated => true,
            _ => false,
        };
        if shutdown || ended {
            self.phase = LoopState::Terminated;
            return TickReport {
                exit: true,
                spawn_fetch: false,
                updated: false,
                failure: None,
                notify_55: false,
                notify_15: false,
                status_clock: Advance::NotDue,
                clock_55: Advance::NotDue,
                clock_15: Advance::NotDue,
            };
        }
        let was_fetching = match self.phase {
            LoopState::Fetching => true,
            _ => false,
        };
        let updated = was_fetching && match &finished {
            Some(Ok(_)) => true,
            _ => false,
        };
        let failure = self.join(finished);
        let status_clock = self.status.advance_with(now, found_status);
        let idle = match self.phase {
            LoopState::Idle => true,
            _ => false,
        };
        let spawn_fetch = status_clock == Advance::Fired && idle;
        if spawn_fetch {
            self.phase = LoopState::Fetching;
        }
        let clock_55 = self.mark_55.advance_with(now, found_55);
        let notify_55 = clock_55 == Advance::Fired && in_window(
            EARLY_NOTICE_MINUTES,
            &self.predicted,
            now,
        );
        let clock_15 = self.mark_15.advance_with(now, found_15);
        let notify_15 = clock_15 == Advance::Fired && in_window(
            LATE_NOTICE_MINUTES,
            &self.predicted,
            now,
        );
        TickReport {
            exit: false,
            spawn_fetch,
            updated,
            failure,
            notify_55,
            notify_15,
            status_clock,
            clock_55,
            clock_15,
        }
    }

    /// Performs one tick at `now`. `shutdown` says whether the interrupt was
    /// seen since the last tick, `finished` holds the result of the worker if
    /// it has ended. The schedules are consulted for the clocks that are due,
    /// and not at all on a tick that ends the loop.
    pub fn tick(&mut self, now: &LocalTimestamp, shutdown: bool, finished: Option<FetchResult>) -> (report:
        TickReport)
        requires
            old(self).wf(),
            now.wf(),
        ensures
            (*final(self), report) == ticked(
                *old(self),
                *now,
                shutdown,
                finished,
                old(self).status.upcoming(*now),
                old(self).mark_55.upcoming(*now),
                old(self).mark_15.upcoming(*now),
            ),
            final(self).wf(),
    {
        let ended = match self.phase {
            LoopState::Terminated => true,
            _ => false,
        };
        if shutdown || ended {
            self.step(now, shutdown, finished, None, None, None)
        } else {
            let found_status = self.status.consult(now);
            let found_55 = self.mark_55.consult(now);
            let found_15 = self.mark_15.consult(now);
            self.step(now, shutdown, finished, found_status, found_55, found_15)
        }
    }
}

/// A request for shutdown ends the loop on the very tick that sees it,
/// whether or not a fetch is in flight: the loop is terminated, the report
/// says to exit, no worker is started, and nothing else changes.
pub proof fn lemma_shutdown_ends_loop(
    engine: SchedulerLoop,
    now: LocalTimestamp,
    finished: Option<FetchResult>,
    found_status: Option<i64>,
    found_55: Option<i64>,
    found_15: Option<i64>,
)
    ensures
        ({
            let (after, report) = ticked(
                engine,
                now,
                true,
                finished,
                found_status,
                found_55,
                found_15,
            );
            &&& after.phase == LoopState::Terminated
            &&& report == quiet_report(true)
            &&& after.predicted == engine.predicted
            &&& after.statuses == engine.statuses
            &&& after.status == engine.status
            &&& after.mark_55 == engine.mark_55
            &&& after.mark_15 == engine.mark_15
        }),
{
}

/// A terminated loop stays terminated: whatever a later tick is given, it
/// changes nothing, starts no worker and says to exit. So the loop never
/// fetches again once shutdown was seen.
pub proof fn lemma_terminated_is_final(
    engine: SchedulerLoop,
    now: LocalTimestamp,
    shutdown: bool,
    finished: Option<FetchResult>,
    found_status: Option<i64>,
    found_55: Option<i64>,
    found_15: Option<i64>,
)
    requires
        engine.phase == LoopState::Terminated,
    ensures
        ticked(engine, now, shutdown, finished, found_status, found_55, found_15) == (
            engine,
            quiet_report(true),
        ),
{
}

/// At most one fetch is in flight: a worker is started only on a tick that
/// leaves the loop fetching and found it idle or took a result in, and while
/// a worker is outstanding no tick starts another, even if the status clock
/// fires again.
pub proof fn lemma_one_fetch_at_a_time(
    engine: SchedulerLoop,
    now: LocalTimestamp,
    shutdown: bool,
    finished: Option<FetchResult>,
    found_status: Option<i64>,
    found_55: Option<i64>,
    found_15: Option<i64>,
)
    ensures
        ({
            let (after, report) = ticked(
                engine,
                now,
                shutdown,
                finished,
                found_status,
                found_55,
                found_15,
            );
            &&& report.spawn_fetch ==> after.phase == LoopState::Fetching && (engine.phase
                == LoopState::Idle || finished.is_some())
            &&& engine.phase == LoopState::Fetching && finished.is_none() ==> !report.spawn_fetch
            &&& engine.phase == LoopState::Fetching && finished.is_none() && !shutdown
                ==> after.phase == LoopState::Fetching
        }),
{
}

/// The prediction is renewed on exactly those ticks on which a fetching loop
/// is handed statuses, and on no other.
pub proof fn lemma_prediction_follows_success(
    engine: SchedulerLoop,
    now: LocalTimestamp,
    shutdown: bool,
    finished: Option<FetchResult>,
    found_status: Option<i64>,
    found_55: Option<i64>,
    found_15: Option<i64>,
)
    ensures
        ({
            let (after, report) = ticked(
                engine,
                now,
                shutdown,
                finished,
                found_status,
                found_55,
                found_15,
            );
            let success = !shutdown && engine.phase == LoopState::Fetching && finished matches Some(
                Ok(_),
            );
            &&& report.updated == success
            &&& success ==> after.predicted == engine.status.next_fire && finished == Some(
                FetchResult::Ok(after.statuses),
            )
            &&& !success ==> after.predicted == engine.predicted && after.statuses
                == engine.statuses
        }),
{
}

/// A failed fetch, whatever the failure, leaves the prediction and the cached
/// statuses as they were and does not end the loop: unless shutdown is asked
/// for on the same tick, the loop goes on, idle or with a new fetch, and the
/// failure is handed out to be logged.
pub proof fn lemma_failure_keeps_loop_alive(
    engine: SchedulerLoop,
    now: LocalTimestamp,
    shutdown: bool,
    failure: FetchFailure,
    found_status: Option<i64>,
    found_55: Option<i64>,
    found_15: Option<i64>,
)
    ensures
        ({
            let (after, report) = ticked(
                engine,
                now,
                shutdown,
                Some(Err(failure)),
                found_status,
                found_55,
                found_15,
            );
            &&& after.predicted == engine.predicted
            &&& after.statuses == engine.statuses
            &&& !shutdown && engine.phase != LoopState::Terminated ==> !report.exit && after.phase
                != LoopState::Terminated
            &&& !shutdown && engine.phase == LoopState::Fetching ==> report.failure == Some(
                failure,
            )
        }),
{
}

/// After a tick that does not end the loop, every clock that was not found
/// exhausted holds a firing instant strictly after the instant of the tick.
pub proof fn lemma_clocks_stay_ahead(
    engine: SchedulerLoop,
    now: LocalTimestamp,
    finished: Option<FetchResult>,
    found_status: Option<i64>,
    found_55: Option<i64>,
    found_15: Option<i64>,
)
    requires
        engine.wf(),
        now.wf(),
        engine.phase != LoopState::Terminated,
    ensures
        ({
            let (after, report) = ticked(
                engine,
                now,
                false,
                finished,
                found_status,
                found_55,
                found_15,
            );
            &&& after.wf()
            &&& report.status_clock != Advance::Exhausted ==> now.position()
                < after.status.next_fire.position()
            &&& report.clock_55 != Advance::Exhausted ==> now.position()
                < after.mark_55.next_fire.position()
            &&& report.clock_15 != Advance::Exhausted ==> now.position()
                < after.mark_15.next_fire.position()
        }),
{
    crate::schedule::lemma_advanced_is_ahead(engine.status, now, found_status);
    crate::schedule::lemma_advanced_is_ahead(engine.mark_55, now, found_55);
    crate::schedule::lemma_advanced_is_ahead(engine.mark_15, now, found_15);
}

/// What one tick is given: the instant, whether shutdown was asked for, what
/// a finished worker handed back, and the firing seconds that the schedules
/// of the three clocks report for the instant.
pub struct Tick {
    pub now: LocalTimestamp,
    pub shutdown: bool,
    pub finished: Option<FetchResult>,
    pub found_status: Option<i64>,
    pub found_55: Option<i64>,
    pub found_15: Option<i64>,
}

/// The loop and the report after the single tick `tick`.
pub open spec fn ticked_with(engine: SchedulerLoop, tick: Tick) -> (SchedulerLoop, TickReport) {
    ticked(
        engine,
        tick.now,
        tick.shutdown,
        tick.finished,
        tick.found_status,
        tick.found_55,
        tick.found_15,
    )
}

/// The loop after the ticks `ticks`, taken in order.
pub open spec fn after_ticks(engine: SchedulerLoop, ticks: Seq<Tick>) -> SchedulerLoop
    decreases ticks.len(),
{
    if ticks.len() == 0 {
        engine
    } else {
        ticked_with(after_ticks(engine, ticks.drop_last()), ticks.last()).0
    }
}

/// The report of tick number `k` of the run `ticks`.
pub open spec fn report_at(engine: SchedulerLoop, ticks: Seq<Tick>, k: int) -> TickReport {
    ticked_with(after_ticks(engine, ticks.take(k)), ticks[k]).1
}

/// Once a tick has seen the request for shutdown, the loop is terminated
/// after that tick and after every later one, and no later tick starts a
/// worker or renews the prediction: each only says to exit.
pub proof fn lemma_nothing_after_shutdown(engine: SchedulerLoop, ticks: Seq<Tick>, k: int, j: int)
    requires
        0 <= k <= j < ticks.len(),
        ticks[k].shutdown,
    ensures
        after_ticks(engine, ticks.take(j + 1)).phase == LoopState::Terminated,
        report_at(engine, ticks, j) == quiet_report(true),
        after_ticks(engine, ticks.take(j + 1)).predicted == after_ticks(
            engine,
            ticks.take(k),
        ).predicted,
    decreases j - k,
{
    assert(ticks.take(j + 1).drop_last() =~= ticks.take(j));
    assert(ticks.take(j + 1).last() == ticks[j]);
    if j > k {
        lemma_nothing_after_shutdown(engine, ticks, k, j - 1);
        assert(ticks.take(j).drop_last() =~= ticks.take(j - 1));
    }
}

/// While a worker is outstanding no second one is started: if tick `k` of a
/// run starts a worker, and on the ticks after it up to tick `j` no result is
/// handed in, then none of those ticks starts a worker or renews the
/// prediction, however often the status clock fires on them.
pub proof fn lemma_no_second_worker(engine: SchedulerLoop, ticks: Seq<Tick>, k: int, j: int)
    requires
        0 <= k < j < ticks.len(),
        report_at(engine, ticks, k).spawn_fetch,
        forall|i: int| k < i <= j ==> (#[trigger] ticks[i]).finished.is_none(),
    ensures
        !report_at(engine, ticks, j).spawn_fetch,
        !report_at(engine, ticks, j).updated,
        after_ticks(engine, ticks.take(j + 1)).predicted == after_ticks(
            engine,
            ticks.take(k + 1),
        ).predicted,
        after_ticks(engine, ticks.take(j)).phase != LoopState::Idle,
    decreases j - k,
{
    assert(ticks.take(j + 1).drop_last() =~= ticks.take(j));
    assert(ticks.take(j + 1).last() == ticks[j]);
    assert(ticks.take(j).drop_last() =~= ticks.take(j - 1));
    assert(ticks.take(j).last() == ticks[j - 1]);
    if j > k + 1 {
        lemma_no_second_worker(engine, ticks, k, j - 1);
    }
}

} // verus!
