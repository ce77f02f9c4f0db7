use core::time::Duration;
use health_monitoring_lib::common::{EvaluationReport, MonitorEvaluationError, Status};
use health_monitoring_lib::deadline::DeadlineMonitorBuilder;
use health_monitoring_lib::heartbeat::HeartbeatMonitorBuilder;
use health_monitoring_lib::time::TimeError;
use health_monitoring_lib::worker::{MonitorEvalHandle, MonitoringLogic, SupervisorWindow};
use health_monitoring_lib::{DeadlineTag, IdentTag, MonitorTag, TimeRange};
use std::time::Instant;

fn sleep_until(target: Duration, start: Instant) {
    while start.elapsed() < target {
        std::hint::spin_loop();
    }
}

fn range_from_ms(min: u64, max: u64) -> TimeRange {
    TimeRange::new(Duration::from_millis(min), Duration::from_millis(max))
}

fn run(window: &mut SupervisorWindow, failed: &[bool]) -> Vec<bool> {
    failed.iter().map(|failed| window.record_tick(*failed)).collect()
}

#[test]
fn failed_window_is_not_reported_alive() {
    // Five ticks in one window. One tick of the first window reports a
    // failure, the second window is clean.
    let mut window = SupervisorWindow::new(5);
    let first = run(&mut window, &[false, false, true, false, false]);
    assert_eq!(first, vec![false, false, false, false, false]);
    let second = run(&mut window, &[false, false, false, false, false]);
    assert_eq!(second, vec![false, false, false, false, true]);
}

#[test]
fn keep_alive_once_per_clean_window() {
    let mut window = SupervisorWindow::new(3);
    let failed = [
        false, false, false, // clean
        true, false, false, // failed at its first tick
        false, false, true, // failed at its last tick
        false, false, false, // clean
        false, true, false, // failed in the middle
        false, false, false, // clean
    ];
    let keep_alive = run(&mut window, &failed);
    let expected = [
        false, false, true, false, false, false, false, false, false, false, false, true, false,
        false, false, false, false, true,
    ];
    assert_eq!(keep_alive, expected);
    // Never twice within one window's length of ticks.
    for (tick, told) in keep_alive.iter().enumerate() {
        if *told {
            assert!(keep_alive[tick + 1..].iter().take(2).all(|told| !told));
            assert!(failed[tick - 2..=tick].iter().all(|failed| !failed));
        }
    }
}

#[test]
fn window_of_one_tick() {
    let mut window = SupervisorWindow::new(1);
    assert_eq!(
        run(&mut window, &[false, true, false, false, true]),
        vec![true, false, true, true, false]
    );
    assert_eq!(window, SupervisorWindow::new(1));
}

#[test]
fn window_state_after_each_tick() {
    let mut window = SupervisorWindow::new(3);
    assert_eq!(
        window,
        SupervisorWindow {
            ticks_per_window: 3,
            ticks: 0,
            failed: false,
        }
    );
    assert!(!window.record_tick(true));
    assert_eq!(
        window,
        SupervisorWindow {
            ticks_per_window: 3,
            ticks: 1,
            failed: true,
        }
    );
    assert!(!window.record_tick(false));
    assert_eq!(
        window,
        SupervisorWindow {
            ticks_per_window: 3,
            ticks: 2,
            failed: true,
        }
    );
    assert!(!window.record_tick(false));
    assert_eq!(window, SupervisorWindow::new(3));
}

fn report(tag: &'static str, error: MonitorEvaluationError) -> EvaluationReport {
    EvaluationReport {
        tag: IdentTag::new(tag),
        error,
    }
}

#[test]
fn tick_gates_the_supervisor_on_two_monitors() {
    let mut deadline_monitor = DeadlineMonitorBuilder::new()
        .add_deadline(DeadlineTag::new("work"), range_from_ms(300, 10_000))
        .build();
    let heartbeat_monitor = HeartbeatMonitorBuilder::new(range_from_ms(500, 10_000))
        .build(MonitorTag::new("beat"), Duration::from_millis(1));
    let hmon_starting_point = Instant::now();
    let mut deadline = deadline_monitor.get_deadline(DeadlineTag::new("work")).unwrap();
    let mut logic = MonitoringLogic::new(
        vec![
            deadline_monitor.get_eval_handle(),
            heartbeat_monitor.get_eval_handle(),
        ],
        2,
    );
    assert_eq!(logic.monitor_count(), 2);
    let mut reports = Vec::new();

    // First window: the deadline is stopped too early.
    assert_eq!(deadline.start(), Ok(()));
    assert_eq!(deadline.stop(), Ok(()));
    assert_eq!(logic.tick(hmon_starting_point, &mut reports), Ok(false));
    assert_eq!(reports, vec![report("work", MonitorEvaluationError::TooEarly)]);
    assert_eq!(logic.tick(hmon_starting_point, &mut reports), Ok(false));
    assert_eq!(reports.len(), 1);

    // Second window: no failure, one notification at its end.
    assert_eq!(deadline.start(), Ok(()));
    let started = Instant::now();
    assert_eq!(logic.tick(hmon_starting_point, &mut reports), Ok(false));
    sleep_until(Duration::from_millis(310), started);
    assert_eq!(deadline.stop(), Ok(()));
    assert_eq!(logic.tick(hmon_starting_point, &mut reports), Ok(true));
    assert_eq!(reports.len(), 1);

    // Third window: still clean.
    assert_eq!(logic.tick(hmon_starting_point, &mut reports), Ok(false));
    assert_eq!(logic.tick(hmon_starting_point, &mut reports), Ok(true));
    assert_eq!(reports.len(), 1);
}

#[test]
fn tick_evaluates_every_monitor() {
    let first = HeartbeatMonitorBuilder::new(range_from_ms(1, 2))
        .build(MonitorTag::new("first"), Duration::from_millis(1));
    let second = HeartbeatMonitorBuilder::new(range_from_ms(1, 2))
        .build(MonitorTag::new("second"), Duration::from_millis(1));
    let hmon_starting_point = Instant::now();
    let mut logic = MonitoringLogic::new(
        vec![first.get_eval_handle(), second.get_eval_handle()],
        1,
    );
    sleep_until(Duration::from_millis(5), hmon_starting_point);
    let mut reports = Vec::new();
    assert_eq!(logic.tick(hmon_starting_point, &mut reports), Ok(false));
    assert_eq!(
        reports,
        vec![
            report("first", MonitorEvaluationError::TooLate),
            report("second", MonitorEvaluationError::TooLate),
        ]
    );
}

#[test]
fn tick_stops_on_a_clock_that_cannot_be_read() {
    let hmon_starting_point = Instant::now();
    sleep_until(Duration::from_millis(3), hmon_starting_point);
    let monitor = HeartbeatMonitorBuilder::new(range_from_ms(1, 2))
        .build(MonitorTag::new("late"), Duration::from_millis(1));
    let mut logic = MonitoringLogic::new(vec![monitor.get_eval_handle()], 1);
    let mut reports = Vec::new();
    assert_eq!(
        logic.tick(hmon_starting_point, &mut reports),
        Err(TimeError::StartBeforeMonitor)
    );
    assert_eq!(reports, vec![]);
}

#[test]
fn handles_share_the_state_of_their_monitor() {
    let monitor = HeartbeatMonitorBuilder::new(range_from_ms(80, 120))
        .build(MonitorTag::new("shared"), Duration::from_millis(1));
    let handle = monitor.get_eval_handle();
    let other = handle.share();
    monitor.heartbeat_at(90);
    let mut reports = Vec::new();
    match other {
        MonitorEvalHandle::Heartbeat(inner) => {
            assert_eq!(inner.evaluate_at(0, 100, &mut reports), Ok(Status::Running));
        }
        MonitorEvalHandle::Deadline(_) => unreachable!(),
    }
    match handle {
        MonitorEvalHandle::Heartbeat(inner) => {
            assert_eq!(inner.evaluate_at(0, 211, &mut reports), Ok(Status::Failed));
        }
        MonitorEvalHandle::Deadline(_) => unreachable!(),
    }
    assert_eq!(reports, vec![report("shared", MonitorEvaluationError::TooLate)]);
}

#[test]
fn tick_keeps_what_was_reported_before_the_clock_failed() {
    let first = HeartbeatMonitorBuilder::new(range_from_ms(1, 2))
        .build(MonitorTag::new("first"), Duration::from_millis(1));
    let third = HeartbeatMonitorBuilder::new(range_from_ms(1, 2))
        .build(MonitorTag::new("third"), Duration::from_millis(1));
    let hmon_starting_point = Instant::now();
    sleep_until(Duration::from_millis(5), hmon_starting_point);
    // Created after the health monitor has started: its clock cannot be read.
    let second = HeartbeatMonitorBuilder::new(range_from_ms(1, 2))
        .build(MonitorTag::new("second"), Duration::from_millis(1));
    let mut logic = MonitoringLogic::new(
        vec![
            first.get_eval_handle(),
            second.get_eval_handle(),
            third.get_eval_handle(),
        ],
        1,
    );
    let mut reports = Vec::new();
    assert_eq!(
        logic.tick(hmon_starting_point, &mut reports),
        Err(TimeError::StartBeforeMonitor)
    );
    // The first monitor has been evaluated, the third has not.
    assert_eq!(reports, vec![report("first", MonitorEvaluationError::TooLate)]);
}

#[test]
fn tick_without_monitors_never_fails() {
    let hmon_starting_point = Instant::now();
    let mut logic = MonitoringLogic::new(Vec::new(), 2);
    let mut reports = Vec::new();
    assert_eq!(logic.tick(hmon_starting_point, &mut reports), Ok(false));
    assert_eq!(logic.tick(hmon_starting_point, &mut reports), Ok(true));
    assert_eq!(logic.tick(hmon_starting_point, &mut reports), Ok(false));
    assert_eq!(reports, vec![]);
}
