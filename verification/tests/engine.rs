use eskom_notifier::engine::{FetchResult, LoopState, SchedulerLoop};
use eskom_notifier::fetch::{AreaStatus, FetchError, FetchFailure};
use eskom_notifier::instant::LocalTimestamp;
use eskom_notifier::schedule::Advance;

// 2023-11-14 22:13:20 UTC, which is 00:13:20 on the 15th two hours east.
const BASE: i64 = 1_700_000_000;

fn at(secs: i64) -> LocalTimestamp {
    LocalTimestamp::new(secs, 0, 7_200).unwrap()
}

fn national(stage: &str) -> Vec<AreaStatus> {
    vec![AreaStatus {
        area: String::from("eskom"),
        name: String::from("National"),
        stage: String::from(stage),
        stage_updated: String::from("2023-11-14T20:00:00+02:00"),
    }]
}

fn fetching_loop() -> SchedulerLoop {
    let mut engine = SchedulerLoop::start(50, &at(BASE)).unwrap();
    let report = engine.tick(&at(BASE + 1_000), false, None);
    assert!(report.spawn_fetch);
    assert_eq!(engine.phase, LoopState::Fetching);
    engine
}

#[test]
fn loop_starts_idle_with_primed_clocks() {
    let engine = SchedulerLoop::start(50, &at(BASE)).unwrap();
    assert_eq!(engine.phase, LoopState::Idle);
    assert_eq!(engine.status.cadence.source, "0 */30 * * * *");
    assert_eq!(engine.mark_55.cadence.source, "0 5 * * * *");
    assert_eq!(engine.mark_15.cadence.source, "0 45 * * * *");
    assert_eq!(engine.status.next_fire, at(BASE + 1_000));
    assert_eq!(engine.mark_55.next_fire, at(BASE + 3_100));
    assert_eq!(engine.mark_15.next_fire, at(BASE + 1_900));
    assert_eq!(engine.predicted, at(BASE + 1_000));
    assert!(engine.statuses.is_empty());
}

#[test]
fn loop_starts_with_the_cadence_of_the_allowance() {
    let engine = SchedulerLoop::start(200, &at(BASE)).unwrap();
    assert_eq!(engine.status.cadence.source, "0 */7 * * * *");
    assert_eq!(engine.status.next_fire, at(BASE + 40));
    let engine = SchedulerLoop::start(2_500, &at(BASE)).unwrap();
    assert_eq!(engine.status.cadence.source, "0 * * * * *");
    assert_eq!(engine.predicted, at(BASE + 40));
}

#[test]
fn loop_does_not_start_where_the_schedules_have_run_out() {
    let late = LocalTimestamp::new(4_200_000_000, 0, 0).unwrap();
    assert!(SchedulerLoop::start(50, &late).is_none());
}

#[test]
fn loop_is_assembled_from_reported_seconds() {
    let now = at(BASE);
    let engine =
        SchedulerLoop::assemble(50, &now, Some(BASE + 1), Some(BASE + 2), Some(BASE + 3)).unwrap();
    assert_eq!(engine.status.next_fire, at(BASE + 1));
    assert_eq!(engine.mark_55.next_fire, at(BASE + 2));
    assert_eq!(engine.mark_15.next_fire, at(BASE + 3));
    assert_eq!(engine.predicted, at(BASE + 1));
    assert_eq!(engine.phase, LoopState::Idle);
    assert!(SchedulerLoop::assemble(50, &now, None, Some(BASE + 2), Some(BASE + 3)).is_none());
    assert!(SchedulerLoop::assemble(50, &now, Some(BASE + 1), Some(BASE), Some(BASE + 3)).is_none());
    assert!(SchedulerLoop::assemble(50, &now, Some(BASE + 1), Some(BASE + 2), None).is_none());
}

#[test]
fn quiet_tick_changes_nothing() {
    let mut engine = SchedulerLoop::start(50, &at(BASE)).unwrap();
    let report = engine.tick(&at(BASE + 1), false, None);
    assert!(!report.exit);
    assert!(!report.spawn_fetch);
    assert!(!report.updated);
    assert!(report.failure.is_none());
    assert!(!report.notify_55);
    assert!(!report.notify_15);
    assert_eq!(report.status_clock, Advance::NotDue);
    assert_eq!(report.clock_55, Advance::NotDue);
    assert_eq!(report.clock_15, Advance::NotDue);
    assert_eq!(engine.phase, LoopState::Idle);
    assert_eq!(engine.status.next_fire, at(BASE + 1_000));
    assert_eq!(engine.predicted, at(BASE + 1_000));
}

#[test]
fn status_cadence_starts_one_worker() {
    let mut engine = SchedulerLoop::start(50, &at(BASE)).unwrap();
    let report = engine.tick(&at(BASE + 1_000), false, None);
    assert!(report.spawn_fetch);
    assert_eq!(report.status_clock, Advance::Fired);
    assert_eq!(engine.phase, LoopState::Fetching);
    assert_eq!(engine.status.next_fire, at(BASE + 2_800));
    // The prediction waits for the worker.
    assert_eq!(engine.predicted, at(BASE + 1_000));
    let again = engine.tick(&at(BASE + 1_000), false, None);
    assert!(!again.spawn_fetch);
    assert_eq!(again.status_clock, Advance::NotDue);
}

#[test]
fn prediction_updates_once_when_the_worker_returns() {
    // Polled every minute; the worker takes two ticks, and the ticks are a
    // minute apart so that the cadence fires again while it is out.
    let mut engine = SchedulerLoop::start(1_000, &at(BASE)).unwrap();
    let first_prediction = engine.predicted;
    assert_eq!(first_prediction, at(BASE + 40));
    let mut spawned = 0;
    let mut updates = 0;

    let report = engine.tick(&at(BASE + 40), false, None);
    spawned += report.spawn_fetch as i32;
    updates += report.updated as i32;
    assert_eq!(report.status_clock, Advance::Fired);
    assert_eq!(engine.phase, LoopState::Fetching);
    assert_eq!(engine.predicted, first_prediction);

    let report = engine.tick(&at(BASE + 100), false, None);
    spawned += report.spawn_fetch as i32;
    updates += report.updated as i32;
    assert_eq!(report.status_clock, Advance::Fired);
    assert!(!report.spawn_fetch);
    assert_eq!(engine.phase, LoopState::Fetching);
    assert_eq!(engine.predicted, first_prediction);
    assert_eq!(engine.status.next_fire, at(BASE + 160));

    let report = engine.tick(&at(BASE + 101), false, Some(Ok(national("4"))));
    spawned += report.spawn_fetch as i32;
    updates += report.updated as i32;
    assert!(report.updated);
    assert!(report.failure.is_none());
    assert_eq!(engine.phase, LoopState::Idle);
    assert_eq!(engine.predicted, at(BASE + 160));
    assert_eq!(engine.statuses.len(), 1);
    assert_eq!(engine.statuses[0].stage, "4");

    let report = engine.tick(&at(BASE + 102), false, None);
    spawned += report.spawn_fetch as i32;
    updates += report.updated as i32;
    assert_eq!(engine.predicted, at(BASE + 160));

    assert_eq!(spawned, 1);
    assert_eq!(updates, 1);
}

#[test]
fn worker_may_start_on_the_tick_that_takes_the_last_one_in() {
    let mut engine = SchedulerLoop::start(1_000, &at(BASE)).unwrap();
    assert!(engine.tick(&at(BASE + 40), false, None).spawn_fetch);
    let report = engine.tick(&at(BASE + 100), false, Some(Ok(national("2"))));
    assert!(report.updated);
    assert!(report.spawn_fetch);
    assert_eq!(engine.phase, LoopState::Fetching);
    // The prediction is the poll that the clock held when the result came in.
    assert_eq!(engine.predicted, at(BASE + 100));
    assert_eq!(engine.status.next_fire, at(BASE + 160));
}

#[test]
fn result_without_a_fetch_is_ignored() {
    let mut engine = SchedulerLoop::start(50, &at(BASE)).unwrap();
    let report = engine.tick(&at(BASE + 1), false, Some(Ok(national("6"))));
    assert!(!report.updated);
    assert!(report.failure.is_none());
    assert!(engine.statuses.is_empty());
    assert_eq!(engine.phase, LoopState::Idle);
    let report =
        engine.tick(&at(BASE + 2), false, Some(Err(FetchFailure::Call(FetchError::Timeout))));
    assert!(report.failure.is_none());
    assert_eq!(engine.phase, LoopState::Idle);
}

#[test]
fn shutdown_ends_an_idle_loop() {
    let mut engine = SchedulerLoop::start(50, &at(BASE)).unwrap();
    let report = engine.tick(&at(BASE + 1), true, None);
    assert!(report.exit);
    assert!(!report.spawn_fetch);
    assert_eq!(engine.phase, LoopState::Terminated);
}

#[test]
fn shutdown_ends_a_fetching_loop_and_drops_the_result() {
    let mut engine = fetching_loop();
    let report = engine.tick(&at(BASE + 1_001), true, Some(Ok(national("4"))));
    assert!(report.exit);
    assert!(!report.updated);
    assert!(!report.spawn_fetch);
    assert_eq!(engine.phase, LoopState::Terminated);
    assert_eq!(engine.predicted, at(BASE + 1_000));
    assert!(engine.statuses.is_empty());
}

#[test]
fn shutdown_wins_over_a_cadence_that_is_due() {
    let mut engine = SchedulerLoop::start(50, &at(BASE)).unwrap();
    let report = engine.tick(&at(BASE + 1_000), true, None);
    assert!(report.exit);
    assert!(!report.spawn_fetch);
    assert_eq!(report.status_clock, Advance::NotDue);
    assert_eq!(engine.status.next_fire, at(BASE + 1_000));
    assert_eq!(engine.phase, LoopState::Terminated);
}

#[test]
fn terminated_loop_never_fetches_again() {
    let mut engine = SchedulerLoop::start(50, &at(BASE)).unwrap();
    engine.tick(&at(BASE + 1), true, None);
    for k in 0..5 {
        let report = engine.tick(&at(BASE + 1_000 + 1_800 * k), false, Some(Ok(national("1"))));
        assert!(report.exit);
        assert!(!report.spawn_fetch);
        assert!(!report.updated);
        assert_eq!(engine.phase, LoopState::Terminated);
        assert_eq!(engine.status.next_fire, at(BASE + 1_000));
    }
}

#[test]
fn forbidden_leaves_the_prediction_and_the_loop_goes_on() {
    let mut engine = fetching_loop();
    let before = engine.predicted;
    let report =
        engine.tick(&at(BASE + 1_001), false, Some(Err(FetchFailure::Call(FetchError::Forbidden))));
    assert!(!report.exit);
    assert!(!report.updated);
    assert!(matches!(report.failure, Some(FetchFailure::Call(FetchError::Forbidden))));
    assert_eq!(engine.predicted, before);
    assert!(engine.statuses.is_empty());
    assert_eq!(engine.phase, LoopState::Idle);
    // The next firing of the cadence tries again.
    let report = engine.tick(&at(BASE + 2_800), false, None);
    assert!(report.spawn_fetch);
    assert_eq!(engine.phase, LoopState::Fetching);
}

#[test]
fn every_failure_is_reported_and_survived() {
    let failures = vec![
        FetchFailure::Call(FetchError::BadRequest),
        FetchFailure::Call(FetchError::NotFound),
        FetchFailure::Call(FetchError::TooManyRequests),
        FetchFailure::Call(FetchError::ServerError(String::from("down"))),
        FetchFailure::Call(FetchError::Timeout),
        FetchFailure::Call(FetchError::NoInternet),
        FetchFailure::Call(FetchError::Unknown),
        FetchFailure::Call(FetchError::UnknownError(String::from("dns"))),
        FetchFailure::Call(FetchError::Other),
        FetchFailure::WorkerPanicked(String::from("boom")),
    ];
    for failure in failures {
        let mut engine = fetching_loop();
        let line = failure.message();
        let report = engine.tick(&at(BASE + 1_001), false, Some(Err(failure)));
        assert!(!report.exit);
        assert_eq!(report.failure.unwrap().message(), line);
        assert_eq!(engine.predicted, at(BASE + 1_000));
        assert_eq!(engine.phase, LoopState::Idle);
    }
}

#[test]
fn failure_keeps_the_statuses_of_the_last_success() {
    let mut engine = fetching_loop();
    engine.tick(&at(BASE + 1_001), false, Some(Ok(national("3"))));
    assert_eq!(engine.predicted, at(BASE + 2_800));
    assert!(engine.tick(&at(BASE + 2_800), false, None).spawn_fetch);
    let report = engine.tick(&at(BASE + 2_801), false, Some(Err(FetchFailure::WorkerPanicked(String::from("boom")))));
    assert!(matches!(report.failure, Some(FetchFailure::WorkerPanicked(_))));
    assert_eq!(engine.statuses.len(), 1);
    assert_eq!(engine.statuses[0].stage, "3");
    assert_eq!(engine.predicted, at(BASE + 2_800));
}

#[test]
fn early_notice_goes_out_55_minutes_ahead() {
    // The event is predicted for 02:00:00; its clock fires at 01:05:00.
    let now = at(BASE);
    let mut engine = SchedulerLoop::start(50, &now).unwrap();
    engine.predicted = at(BASE + 6_400);
    let report = engine.tick(&at(BASE + 3_100), false, None);
    assert_eq!(report.clock_55, Advance::Fired);
    assert!(report.notify_55);
    assert!(!report.notify_15);
    assert_eq!(engine.mark_55.next_fire, at(BASE + 6_700));
    // The clock fired; a second look at the same instant sends nothing.
    let report = engine.tick(&at(BASE + 3_100), false, None);
    assert_eq!(report.clock_55, Advance::NotDue);
    assert!(!report.notify_55);
}

#[test]
fn early_notice_stays_in_when_the_event_is_not_55_minutes_ahead() {
    let mut engine = SchedulerLoop::start(50, &at(BASE)).unwrap();
    engine.predicted = at(BASE + 6_401);
    let report = engine.tick(&at(BASE + 3_100), false, None);
    assert_eq!(report.clock_55, Advance::Fired);
    assert!(!report.notify_55);
}

#[test]
fn late_notice_goes_out_15_minutes_ahead() {
    // The event is predicted for 01:00:00; its clock fires at 00:45:00.
    let mut engine = SchedulerLoop::start(50, &at(BASE)).unwrap();
    engine.predicted = at(BASE + 2_800);
    let report = engine.tick(&at(BASE + 1_900), false, None);
    assert_eq!(report.clock_15, Advance::Fired);
    assert!(report.notify_15);
    assert!(!report.notify_55);
    assert_eq!(engine.mark_15.next_fire, at(BASE + 5_500));
}

#[test]
fn late_notice_tolerates_a_clock_checked_a_few_seconds_late() {
    let mut engine = SchedulerLoop::start(50, &at(BASE)).unwrap();
    engine.predicted = at(BASE + 2_800);
    // 14:50 ahead is inside the band; the clock was due since 00:45:00.
    let report = engine.tick(&at(BASE + 1_910), false, None);
    assert!(report.notify_15);
    let mut engine = SchedulerLoop::start(50, &at(BASE)).unwrap();
    engine.predicted = at(BASE + 2_800);
    // 14:44 ahead is outside.
    let report = engine.tick(&at(BASE + 1_916), false, None);
    assert_eq!(report.clock_15, Advance::Fired);
    assert!(!report.notify_15);
}

#[test]
fn notice_uses_the_prediction_renewed_on_the_same_tick() {
    let mut engine = SchedulerLoop::start(50, &at(BASE)).unwrap();
    assert!(engine.tick(&at(BASE + 1_000), false, None).spawn_fetch);
    // The clock holds 01:00:00 as the next poll; the result arrives at
    // 00:45:00, when the clock of the late notice fires.
    let report = engine.tick(&at(BASE + 1_900), false, Some(Ok(national("4"))));
    assert!(report.updated);
    assert_eq!(engine.predicted, at(BASE + 2_800));
    assert_eq!(report.clock_15, Advance::Fired);
    assert!(report.notify_15);
}

#[test]
fn step_takes_the_reported_seconds() {
    let mut engine = SchedulerLoop::start(50, &at(BASE)).unwrap();
    let now = at(BASE + 4_000);
    let report =
        engine.step(&now, false, None, Some(BASE + 4_100), Some(BASE + 4_200), Some(BASE + 4_300));
    assert!(report.spawn_fetch);
    assert_eq!(report.status_clock, Advance::Fired);
    assert_eq!(report.clock_55, Advance::Fired);
    assert_eq!(report.clock_15, Advance::Fired);
    assert_eq!(engine.status.next_fire, at(BASE + 4_100));
    assert_eq!(engine.mark_55.next_fire, at(BASE + 4_200));
    assert_eq!(engine.mark_15.next_fire, at(BASE + 4_300));
    assert_eq!(engine.phase, LoopState::Fetching);
}

#[test]
fn exhausted_clock_is_reported_and_starts_nothing() {
    let mut engine = SchedulerLoop::start(50, &at(BASE)).unwrap();
    let now = at(BASE + 4_000);
    let report = engine.step(&now, false, None, None, Some(BASE + 4_000), Some(BASE + 4_300));
    assert_eq!(report.status_clock, Advance::Exhausted);
    assert_eq!(report.clock_55, Advance::Exhausted);
    assert_eq!(report.clock_15, Advance::Fired);
    assert!(!report.spawn_fetch);
    assert!(!report.notify_55);
    assert!(!report.exit);
    assert_eq!(engine.phase, LoopState::Idle);
    assert_eq!(engine.status.next_fire, at(BASE + 1_000));
    assert_eq!(engine.mark_55.next_fire, at(BASE + 3_100));
}

#[test]
fn join_takes_a_result_only_while_fetching() {
    let mut engine = fetching_loop();
    let outcome: FetchResult = Ok(national("5"));
    assert!(engine.join(Some(outcome)).is_none());
    assert_eq!(engine.phase, LoopState::Idle);
    assert_eq!(engine.statuses[0].stage, "5");
    assert_eq!(engine.predicted, at(BASE + 2_800));
    // Idle now: a second result is not taken in.
    assert!(engine.join(Some(Ok(national("6")))).is_none());
    assert_eq!(engine.statuses[0].stage, "5");
    assert!(engine.join(Some(Err(FetchFailure::WorkerPanicked(String::new())))).is_none());
    let mut engine = fetching_loop();
    assert!(engine.join(None).is_none());
    assert_eq!(engine.phase, LoopState::Fetching);
    assert!(matches!(
        engine.join(Some(Err(FetchFailure::WorkerPanicked(String::from("boom"))))),
        Some(FetchFailure::WorkerPanicked(_))
    ));
    assert_eq!(engine.phase, LoopState::Idle);
    assert_eq!(engine.predicted, at(BASE + 1_000));
}
