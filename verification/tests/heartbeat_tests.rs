use core::time::Duration;
use health_monitoring_lib::common::{
    ConfigError, EvaluationReport, HeartbeatMonitorEvaluationError, MonitorEvaluationError, Status,
};
use health_monitoring_lib::heartbeat::heartbeat_monitor::{
    evaluate_snapshot, HeartbeatEvaluation, HeartbeatMonitorInner,
};
use health_monitoring_lib::heartbeat::heartbeat_state::{
    beat_word, HeartbeatState, HeartbeatStateSnapshot,
};
use health_monitoring_lib::heartbeat::{HeartbeatMonitor, HeartbeatMonitorBuilder};
use health_monitoring_lib::time::{InternalRange, TimeError};
use health_monitoring_lib::worker::MonitorEvalHandle;
use health_monitoring_lib::{IdentTag, MonitorTag, TimeRange};
use std::sync::Arc;
use std::time::Instant;

const TAG: &str = "heartbeat_monitor";

fn sleep_until(target: Duration, start: Instant) {
    while start.elapsed() < target {
        std::hint::spin_loop();
    }
}

/// How much later than planned a step of a test may happen.
const SLACK: Duration = Duration::from_millis(5);

/// Runs `attempt` until the machine has kept the planned times.
fn in_time<T>(mut attempt: impl FnMut() -> Option<T>) -> T {
    for _ in 0..40 {
        if let Some(outcome) = attempt() {
            return outcome;
        }
    }
    panic!("the machine is too busy to keep time")
}

fn range_from_ms(min: u64, max: u64) -> TimeRange {
    TimeRange::new(Duration::from_millis(min), Duration::from_millis(max))
}

fn create_monitor_single_cycle(range: TimeRange) -> HeartbeatMonitor {
    let tag = MonitorTag::from(TAG);
    let internal_processing_cycle = Duration::from_millis(1);
    HeartbeatMonitorBuilder::new(range).build(tag, internal_processing_cycle)
}

fn inner_of(monitor: &HeartbeatMonitor) -> Arc<HeartbeatMonitorInner> {
    match monitor.get_eval_handle() {
        MonitorEvalHandle::Heartbeat(inner) => inner,
        MonitorEvalHandle::Deadline(_) => unreachable!(),
    }
}

fn evaluate(monitor: &HeartbeatMonitor, hmon_starting_point: Instant) -> Vec<EvaluationReport> {
    let mut reports = Vec::new();
    inner_of(monitor)
        .evaluate(hmon_starting_point, &mut reports)
        .unwrap();
    reports
}

fn evaluate_at(monitor: &HeartbeatMonitor, now: u64) -> (Result<Status, TimeError>, Vec<EvaluationReport>) {
    let mut reports = Vec::new();
    let result = inner_of(monitor).evaluate_at(0, now, &mut reports);
    (result, reports)
}

fn report(error: MonitorEvaluationError) -> EvaluationReport {
    EvaluationReport {
        tag: IdentTag::from(TAG),
        error,
    }
}

#[test]
fn test_no_beat_evaluate_early() {
    let reports = in_time(|| {
        let range = range_from_ms(80, 120);
        let monitor = create_monitor_single_cycle(range);
        let hmon_starting_point = Instant::now();
        let reports = evaluate(&monitor, hmon_starting_point);
        (hmon_starting_point.elapsed() < SLACK).then_some(reports)
    });

    // No beat happened, no error is expected.
    for report in reports {
        let tag = report.tag;
        let error = report.error;
        panic!("error happened, tag: {tag:?}, error: {error:?}")
    }
}

#[test]
fn test_no_beat_evaluate_in_range() {
    let reports = in_time(|| {
        let range = range_from_ms(80, 120);
        let monitor = create_monitor_single_cycle(range);
        let hmon_starting_point = Instant::now();

        // Wait until middle of range.
        sleep_until(Duration::from_millis(100), hmon_starting_point);

        let reports = evaluate(&monitor, hmon_starting_point);
        (hmon_starting_point.elapsed() < Duration::from_millis(100) + SLACK).then_some(reports)
    });

    // No beat happened, no error is expected.
    for report in reports {
        let tag = report.tag;
        let error = report.error;
        panic!("error happened, tag: {tag:?}, error: {error:?}")
    }
}

#[test]
fn test_no_beat_evaluate_late() {
    let range = range_from_ms(80, 120);
    let monitor = create_monitor_single_cycle(range);
    let hmon_starting_point = Instant::now();

    // Wait until late.
    sleep_until(Duration::from_millis(150), hmon_starting_point);

    // No beat happened, too late error is expected.
    assert_eq!(
        evaluate(&monitor, hmon_starting_point),
        vec![report(MonitorEvaluationError::TooLate)]
    );
}

fn beat_eval_test(beat_time: Duration, eval_time: Duration) -> Vec<EvaluationReport> {
    in_time(|| {
        let range = range_from_ms(80, 120);
        let monitor = create_monitor_single_cycle(range);
        let hmon_starting_point = Instant::now();

        // Wait and beat.
        sleep_until(beat_time, hmon_starting_point);
        monitor.heartbeat().unwrap();
        let beaten = hmon_starting_point.elapsed();

        // Wait and evaluate.
        sleep_until(eval_time, hmon_starting_point);
        let reports = evaluate(&monitor, hmon_starting_point);
        let evaluated = hmon_starting_point.elapsed();
        (beaten < beat_time + SLACK && evaluated < eval_time + SLACK).then_some(reports)
    })
}

fn beat_early_test(eval_time: Duration) {
    for report in beat_eval_test(Duration::from_millis(25), eval_time) {
        assert_eq!(report.tag, IdentTag::from(TAG));
        assert_eq!(report.error, MonitorEvaluationError::TooEarly);
    }
}

#[test]
fn test_beat_early_evaluate_early() {
    beat_early_test(Duration::from_millis(50));
}

#[test]
fn test_beat_early_evaluate_in_range() {
    beat_early_test(Duration::from_millis(100));
}

#[test]
fn test_beat_early_evaluate_late() {
    beat_early_test(Duration::from_millis(150));
}

fn beat_in_range_test(eval_time: Duration) {
    for report in beat_eval_test(Duration::from_millis(90), eval_time) {
        let tag = report.tag;
        let error = report.error;
        panic!("error happened, tag: {tag:?}, error: {error:?}")
    }
}

#[test]
fn test_beat_in_range_evaluate_in_range() {
    beat_in_range_test(Duration::from_millis(100));
}

#[test]
fn test_beat_in_range_evaluate_late() {
    beat_in_range_test(Duration::from_millis(150));
}

#[test]
fn test_beat_late_evaluate_late() {
    for report in beat_eval_test(Duration::from_millis(150), Duration::from_millis(200)) {
        assert_eq!(report.tag, IdentTag::from(TAG));
        assert_eq!(report.error, MonitorEvaluationError::TooLate);
    }
}

fn multiple_beats_eval_test(beat_time: Duration, eval_time: Duration) {
    let range = range_from_ms(80, 120);
    let monitor = create_monitor_single_cycle(range);
    let hmon_starting_point = Instant::now();

    // Wait and beat.
    sleep_until(beat_time, hmon_starting_point);
    const NUM_BEATS: usize = 10;
    for _ in 0..NUM_BEATS {
        monitor.heartbeat().unwrap();
    }

    // Wait and evaluate.
    sleep_until(eval_time, hmon_starting_point);
    let reports = evaluate(&monitor, hmon_starting_point);
    assert_eq!(reports.len(), 1);
    for report in reports {
        assert_eq!(report.tag, IdentTag::from(TAG));
        assert_eq!(
            report.error,
            MonitorEvaluationError::HeartbeatSpecific(HeartbeatMonitorEvaluationError::MultipleHeartbeats)
        );
    }
}

#[test]
fn test_multiple_beats_early_evaluate_early() {
    multiple_beats_eval_test(Duration::from_millis(25), Duration::from_millis(50))
}

#[test]
fn test_multiple_beats_early_evaluate_in_range() {
    multiple_beats_eval_test(Duration::from_millis(25), Duration::from_millis(100))
}

#[test]
fn test_multiple_beats_early_evaluate_late() {
    multiple_beats_eval_test(Duration::from_millis(25), Duration::from_millis(150))
}

#[test]
fn test_multiple_beats_in_range_evaluate_in_range() {
    multiple_beats_eval_test(Duration::from_millis(90), Duration::from_millis(100))
}

#[test]
fn test_multiple_beats_in_range_evaluate_late() {
    multiple_beats_eval_test(Duration::from_millis(90), Duration::from_millis(150))
}

#[test]
fn test_multiple_beats_late_evaluate_late() {
    multiple_beats_eval_test(Duration::from_millis(150), Duration::from_millis(200))
}

#[test]
fn test_timestamp_offset() {
    let reports = in_time(|| {
        let range = range_from_ms(80, 120);
        let monitor = create_monitor_single_cycle(range);

        // Move away monitor creation and HMON starting point.
        sleep_until(Duration::from_millis(300), Instant::now());
        let hmon_starting_point = Instant::now();

        // Wait and beat.
        sleep_until(Duration::from_millis(90), hmon_starting_point);
        monitor.heartbeat().unwrap();
        let beaten = hmon_starting_point.elapsed();

        // Wait and evaluate.
        sleep_until(Duration::from_millis(100), hmon_starting_point);
        let reports = evaluate(&monitor, hmon_starting_point);
        (beaten < Duration::from_millis(90) + SLACK).then_some(reports)
    });
    for report in reports {
        let tag = report.tag;
        let error = report.error;
        panic!("error happened, tag: {tag:?}, error: {error:?}")
    }
}

#[test]
fn next_window_starts_at_the_heartbeat_on_the_real_clock() {
    let monitor = create_monitor_single_cycle(range_from_ms(300, 50_000));
    let hmon_starting_point = Instant::now();
    sleep_until(Duration::from_millis(310), hmon_starting_point);
    monitor.heartbeat().unwrap();
    assert_eq!(evaluate(&monitor, hmon_starting_point), vec![]);
    // A second heartbeat at once is too early for the window that the
    // first one has started.
    monitor.heartbeat().unwrap();
    assert_eq!(
        evaluate(&monitor, hmon_starting_point),
        vec![report(MonitorEvaluationError::TooEarly)]
    );
}

#[test]
fn evaluate_before_monitor_was_created() {
    let hmon_starting_point = Instant::now();
    sleep_until(Duration::from_millis(3), hmon_starting_point);
    let monitor = create_monitor_single_cycle(range_from_ms(80, 120));
    let mut reports = Vec::new();
    assert_eq!(
        inner_of(&monitor).evaluate(hmon_starting_point, &mut reports),
        Err(TimeError::StartBeforeMonitor)
    );
    assert_eq!(reports, vec![]);
}

#[test]
fn beat_in_range_moves_the_window() {
    let monitor = create_monitor_single_cycle(range_from_ms(80, 120));
    let first = monitor.heartbeat_at(90);
    assert_eq!(first, HeartbeatStateSnapshot::default());
    assert_eq!(evaluate_at(&monitor, 100), (Ok(Status::Running), vec![]));

    // The subsequent cycle window is [170, 210].
    assert_eq!(InternalRange::new(80, 120).offset(90).min, 170);
    assert_eq!(InternalRange::new(80, 120).offset(90).max, 210);
    assert_eq!(evaluate_at(&monitor, 210), (Ok(Status::Running), vec![]));
    assert_eq!(
        evaluate_at(&monitor, 211),
        (Ok(Status::Failed), vec![report(MonitorEvaluationError::TooLate)])
    );
}

#[test]
fn next_cycle_is_anchored_at_the_heartbeat() {
    // A beat at the first millisecond of the next window is accepted.
    let monitor = create_monitor_single_cycle(range_from_ms(80, 120));
    monitor.heartbeat_at(90);
    assert_eq!(evaluate_at(&monitor, 100), (Ok(Status::Running), vec![]));
    assert_eq!(monitor.heartbeat_at(170), HeartbeatStateSnapshot::new(90));
    assert_eq!(evaluate_at(&monitor, 180), (Ok(Status::Running), vec![]));
    // And the cycle after it starts at 170.
    assert_eq!(monitor.heartbeat_at(290), HeartbeatStateSnapshot::new(170));
    assert_eq!(evaluate_at(&monitor, 290), (Ok(Status::Running), vec![]));
    assert_eq!(monitor.heartbeat_at(291 + 120), HeartbeatStateSnapshot::new(290));
    assert_eq!(
        evaluate_at(&monitor, 500),
        (Ok(Status::Failed), vec![report(MonitorEvaluationError::TooLate)])
    );

    // A beat one millisecond before the next window is too early.
    let monitor = create_monitor_single_cycle(range_from_ms(80, 120));
    monitor.heartbeat_at(90);
    assert_eq!(evaluate_at(&monitor, 100), (Ok(Status::Running), vec![]));
    monitor.heartbeat_at(169);
    assert_eq!(
        evaluate_at(&monitor, 180),
        (Ok(Status::Failed), vec![report(MonitorEvaluationError::TooEarly)])
    );
}

#[test]
fn beat_before_the_window_is_too_early() {
    let monitor = create_monitor_single_cycle(range_from_ms(80, 120));
    monitor.heartbeat_at(25);
    assert_eq!(
        evaluate_at(&monitor, 50),
        (Ok(Status::Failed), vec![report(MonitorEvaluationError::TooEarly)])
    );
}

#[test]
fn no_beat_until_the_window_ends_is_too_late() {
    let monitor = create_monitor_single_cycle(range_from_ms(80, 120));
    assert_eq!(
        evaluate_at(&monitor, 150),
        (Ok(Status::Failed), vec![report(MonitorEvaluationError::TooLate)])
    );
    // The window is closed at both ends.
    let monitor = create_monitor_single_cycle(range_from_ms(80, 120));
    assert_eq!(evaluate_at(&monitor, 120), (Ok(Status::Running), vec![]));
    assert_eq!(
        evaluate_at(&monitor, 121),
        (Ok(Status::Failed), vec![report(MonitorEvaluationError::TooLate)])
    );
}

#[test]
fn ten_beats_in_one_cycle_are_too_many() {
    let monitor = create_monitor_single_cycle(range_from_ms(80, 120));
    for _ in 0..10 {
        monitor.heartbeat_at(25);
    }
    assert_eq!(
        evaluate_at(&monitor, 100),
        (
            Ok(Status::Failed),
            vec![report(MonitorEvaluationError::HeartbeatSpecific(
                HeartbeatMonitorEvaluationError::MultipleHeartbeats
            ))]
        )
    );
}

#[test]
fn a_failed_cycle_stays_failed() {
    let monitor = create_monitor_single_cycle(range_from_ms(80, 120));
    monitor.heartbeat_at(130);
    for now in [131, 150, 400] {
        assert_eq!(
            evaluate_at(&monitor, now),
            (Ok(Status::Failed), vec![report(MonitorEvaluationError::TooLate)])
        );
    }
}

#[test]
fn reports_are_appended() {
    let monitor = create_monitor_single_cycle(range_from_ms(80, 120));
    let earlier = EvaluationReport {
        tag: IdentTag::new("other"),
        error: MonitorEvaluationError::TooEarly,
    };
    let mut reports = vec![earlier];
    assert_eq!(
        inner_of(&monitor).evaluate_at(0, 300, &mut reports),
        Ok(Status::Failed)
    );
    assert_eq!(reports, vec![earlier, report(MonitorEvaluationError::TooLate)]);
}

#[test]
fn first_window_starts_with_the_health_monitor() {
    let range = InternalRange::new(80, 120);
    let one_beat_at = |beat: u32| HeartbeatStateSnapshot::default().record_beat(beat);
    // The monitor was created 300 ms before the health monitor started.
    assert_eq!(
        evaluate_snapshot(one_beat_at(390), range, 300, 400),
        HeartbeatEvaluation::CycleCompleted {
            next: HeartbeatStateSnapshot::new(390)
        }
    );
    assert_eq!(
        evaluate_snapshot(one_beat_at(379), range, 300, 400),
        HeartbeatEvaluation::Failed(MonitorEvaluationError::TooEarly)
    );
    assert_eq!(
        evaluate_snapshot(one_beat_at(380), range, 300, 400),
        HeartbeatEvaluation::CycleCompleted {
            next: HeartbeatStateSnapshot::new(380)
        }
    );
    assert_eq!(
        evaluate_snapshot(one_beat_at(420), range, 300, 430),
        HeartbeatEvaluation::CycleCompleted {
            next: HeartbeatStateSnapshot::new(420)
        }
    );
    assert_eq!(
        evaluate_snapshot(one_beat_at(421), range, 300, 430),
        HeartbeatEvaluation::Failed(MonitorEvaluationError::TooLate)
    );
    assert_eq!(
        evaluate_snapshot(HeartbeatStateSnapshot::default(), range, 300, 420),
        HeartbeatEvaluation::Waiting
    );
    assert_eq!(
        evaluate_snapshot(HeartbeatStateSnapshot::default(), range, 300, 421),
        HeartbeatEvaluation::Failed(MonitorEvaluationError::TooLate)
    );
}

#[test]
fn evaluation_near_the_end_of_time() {
    let range = InternalRange::new(10, 20);
    let start = HeartbeatStateSnapshot::new(u32::MAX - 5);
    assert_eq!(
        evaluate_snapshot(start, range, 0, u32::MAX as u64 + 15),
        HeartbeatEvaluation::Waiting
    );
    assert_eq!(
        evaluate_snapshot(start, range, 0, u32::MAX as u64 + 16),
        HeartbeatEvaluation::Failed(MonitorEvaluationError::TooLate)
    );
    // A state that no heartbeat can produce: the heartbeat lies beyond what
    // a timestamp can hold.
    let beyond = HeartbeatStateSnapshot {
        start_timestamp: u32::MAX - 5,
        heartbeat_timestamp_offset: 12,
        counter: 1,
        post_init: true,
    };
    assert_eq!(
        evaluate_snapshot(beyond, range, 0, u32::MAX as u64 + 12),
        HeartbeatEvaluation::OutOfTime
    );
}

#[test]
fn record_beat_counts_and_saturates() {
    let initial = HeartbeatStateSnapshot::default();
    assert_eq!(
        initial,
        HeartbeatStateSnapshot {
            start_timestamp: 0,
            heartbeat_timestamp_offset: 0,
            counter: 0,
            post_init: false,
        }
    );
    let once = initial.record_beat(40);
    assert_eq!(
        once,
        HeartbeatStateSnapshot {
            start_timestamp: 0,
            heartbeat_timestamp_offset: 40,
            counter: 1,
            post_init: false,
        }
    );
    let mut many = once;
    for _ in 0..100 {
        many = many.record_beat(41);
    }
    assert_eq!(many.counter, 101);
    assert_eq!(many.heartbeat_timestamp_offset, 41);
    assert_eq!(many.start_timestamp, 0);
    assert!(!many.post_init);

    // The counter never wraps: it stays at the largest value.
    let mut full = HeartbeatStateSnapshot {
        counter: u16::MAX - 1,
        ..once
    };
    full = full.record_beat(42);
    assert_eq!(full.counter, u16::MAX);
    full = full.record_beat(43);
    assert_eq!(full.counter, u16::MAX);
    assert_eq!(full.heartbeat_timestamp_offset, 43);

    // In the first cycle the offset has the whole width of a timestamp.
    assert_eq!(initial.record_beat(u32::MAX).heartbeat_timestamp_offset, u32::MAX);

    let later = HeartbeatStateSnapshot::new(1000);
    assert_eq!(
        later,
        HeartbeatStateSnapshot {
            start_timestamp: 1000,
            heartbeat_timestamp_offset: 0,
            counter: 0,
            post_init: true,
        }
    );
    assert_eq!(later.record_beat(1090).heartbeat_timestamp_offset, 90);
    assert_eq!(later.record_beat(1090).counter, 1);
    // A beat before the start of its cycle has the offset zero.
    assert_eq!(later.record_beat(999).heartbeat_timestamp_offset, 0);
    // The offset has the whole width of a timestamp in every cycle.
    assert_eq!(later.record_beat(u32::MAX).heartbeat_timestamp_offset, u32::MAX - 1000);
    assert_eq!(
        HeartbeatStateSnapshot::new(0).record_beat(u32::MAX).heartbeat_timestamp_offset,
        u32::MAX
    );
    // The start of the cycle and the mark of the first cycle are kept.
    assert_eq!(later.record_beat(1090).start_timestamp, 1000);
    assert!(later.record_beat(1090).post_init);
}

#[test]
fn snapshots_survive_packing() {
    let snapshots = [
        HeartbeatStateSnapshot::default(),
        HeartbeatStateSnapshot::default().record_beat(0),
        HeartbeatStateSnapshot::default().record_beat(u32::MAX),
        HeartbeatStateSnapshot::default().record_beat(7).record_beat(8).record_beat(9),
        HeartbeatStateSnapshot::new(0),
        HeartbeatStateSnapshot::new(u32::MAX),
        HeartbeatStateSnapshot::new(90).record_beat(200),
        HeartbeatStateSnapshot::new(90).record_beat(u32::MAX).record_beat(u32::MAX),
        HeartbeatStateSnapshot {
            start_timestamp: 0x1234_5678,
            heartbeat_timestamp_offset: u32::MAX,
            counter: u16::MAX,
            post_init: true,
        },
        HeartbeatStateSnapshot {
            start_timestamp: u32::MAX,
            heartbeat_timestamp_offset: 0x9abc_def0,
            counter: 0x8001,
            post_init: false,
        },
    ];
    for snapshot in snapshots {
        assert_eq!(HeartbeatStateSnapshot::from_word(snapshot.to_word()), snapshot);
    }
    assert_eq!(HeartbeatStateSnapshot::default().to_word(), 0);
    assert_eq!(HeartbeatStateSnapshot::new(1).to_word(), (1u128 << 64) | 1);
    assert_eq!(
        HeartbeatStateSnapshot::new(2).record_beat(5).to_word(),
        (2u128 << 64) | (3 << 32) | (1 << 1) | 1
    );
    assert_eq!(
        HeartbeatStateSnapshot::default().record_beat(5).to_word(),
        (5u128 << 32) | (1 << 1)
    );
    assert_eq!(
        HeartbeatStateSnapshot::from_word(u128::MAX),
        HeartbeatStateSnapshot {
            start_timestamp: u32::MAX,
            heartbeat_timestamp_offset: u32::MAX,
            counter: u16::MAX,
            post_init: true,
        }
    );
    assert_eq!(
        beat_word(HeartbeatStateSnapshot::new(90).to_word(), 100),
        HeartbeatStateSnapshot::new(90).record_beat(100).to_word()
    );
}

#[test]
fn shared_state_is_updated_in_place() {
    let state = HeartbeatState::new(HeartbeatStateSnapshot::default());
    assert_eq!(state.snapshot(), HeartbeatStateSnapshot::default());
    assert_eq!(state.beat(12), HeartbeatStateSnapshot::default());
    assert_eq!(state.snapshot(), HeartbeatStateSnapshot::default().record_beat(12));
    assert_eq!(state.beat(13), HeartbeatStateSnapshot::default().record_beat(12));
    assert_eq!(state.snapshot().counter, 2);
    state.replace(HeartbeatStateSnapshot::new(12));
    assert_eq!(state.snapshot(), HeartbeatStateSnapshot::new(12));
}

#[test]
fn builder_checks_the_range() {
    let cycle = Duration::from_millis(100);
    assert_eq!(
        HeartbeatMonitorBuilder::new(range_from_ms(80, 120)).check(cycle),
        Ok(InternalRange::new(80, 120))
    );
    // Twice the lower end must be longer than the cycle.
    assert_eq!(
        HeartbeatMonitorBuilder::new(range_from_ms(50, 120)).check(cycle),
        Err(ConfigError::RangeTooShort)
    );
    assert_eq!(
        HeartbeatMonitorBuilder::new(TimeRange::new(
            Duration::from_nanos(50_000_001),
            Duration::from_millis(120)
        ))
        .check(cycle),
        Ok(InternalRange::new(50, 120))
    );
    assert_eq!(
        HeartbeatMonitorBuilder::new(range_from_ms(0, 120)).check(Duration::ZERO),
        Err(ConfigError::RangeTooShort)
    );
    assert_eq!(
        HeartbeatMonitorBuilder::new(TimeRange {
            min: Duration::from_millis(121),
            max: Duration::from_millis(120),
        })
        .check(cycle),
        Err(ConfigError::InvalidRange)
    );
    // The ends must fit in a `u32` of milliseconds.
    assert_eq!(
        HeartbeatMonitorBuilder::new(range_from_ms(80, 7 * 24 * 60 * 60 * 1000)).check(cycle),
        Ok(InternalRange::new(80, 7 * 24 * 60 * 60 * 1000))
    );
    assert_eq!(
        HeartbeatMonitorBuilder::new(range_from_ms(80, u32::MAX as u64)).check(cycle),
        Ok(InternalRange::new(80, u32::MAX))
    );
    assert_eq!(
        HeartbeatMonitorBuilder::new(range_from_ms(80, u32::MAX as u64 + 1)).check(cycle),
        Err(ConfigError::RangeTooLong)
    );
    assert_eq!(
        HeartbeatMonitorBuilder::new(range_from_ms(80, u64::MAX / 1000)).check(cycle),
        Err(ConfigError::RangeTooLong)
    );
    assert!(
        HeartbeatMonitorBuilder::new(range_from_ms(50, 120))
            .try_build(MonitorTag::from(TAG), cycle)
            .is_err()
    );
    assert!(
        HeartbeatMonitorBuilder::new(range_from_ms(51, 120))
            .try_build(MonitorTag::from(TAG), cycle)
            .is_ok()
    );
}

fn create_monitor_multiple_cycles(cycle: Duration) -> HeartbeatMonitor {
    let range = range_from_ms(80, 120);
    let tag = MonitorTag::from(TAG);
    HeartbeatMonitorBuilder::new(range).build(tag, cycle)
}

/// Beats at the given times and evaluates once per cycle until the last
/// beat has been evaluated. Returns every failure that was reported.
fn cycle_test(beats: &[u32]) -> Vec<MonitorEvaluationError> {
    const CYCLE_MS: u32 = 20;
    let monitor = create_monitor_multiple_cycles(Duration::from_millis(CYCLE_MS as u64));
    let mut errors = Vec::new();
    let mut beaten = 0;
    let mut now = 0;
    while beaten < beats.len() {
        now += CYCLE_MS;
        while beaten < beats.len() && beats[beaten] <= now {
            monitor.heartbeat_at(beats[beaten]);
            beaten += 1;
        }
        let (result, reports) = evaluate_at(&monitor, now as u64);
        assert!(result.is_ok());
        for report in reports {
            assert_eq!(report.tag, IdentTag::from(TAG));
            errors.push(report.error);
        }
    }
    errors
}

#[test]
fn test_cycle_early() {
    const NUM_BEATS: u32 = 3;
    const BEAT_INTERVAL: u32 = 100;
    // The last heartbeat comes in a shorter interval.
    let errors = cycle_test(&[BEAT_INTERVAL, 2 * BEAT_INTERVAL, NUM_BEATS * BEAT_INTERVAL - 40]);
    // Too early error is expected.
    assert!(!errors.is_empty());
    for error in errors {
        assert_eq!(error, MonitorEvaluationError::TooEarly);
    }
}

#[test]
fn test_cycle_in_range() {
    const BEAT_INTERVAL: u32 = 100;
    // No error is expected.
    for error in cycle_test(&[BEAT_INTERVAL, 2 * BEAT_INTERVAL, 3 * BEAT_INTERVAL]) {
        let tag = IdentTag::from(TAG);
        panic!("error happened, tag: {tag:?}, error: {error:?}")
    }
}

#[test]
fn test_cycle_late() {
    const NUM_BEATS: u32 = 3;
    const BEAT_INTERVAL: u32 = 100;
    // The last heartbeat comes in a longer interval.
    let errors = cycle_test(&[BEAT_INTERVAL, 2 * BEAT_INTERVAL, NUM_BEATS * BEAT_INTERVAL + 40]);
    // No heartbeat or too late error is expected.
    assert!(!errors.is_empty());
    for error in errors {
        assert!(error == MonitorEvaluationError::TooLate);
    }
}

/// One heartbeat and one evaluation at the same time, in both orders in
/// which they can take effect. Returns what each evaluation reports.
fn heartbeat_while_evaluating(now: u32) -> [Vec<EvaluationReport>; 2] {
    let range = range_from_ms(30, 70);

    let monitor = create_monitor_single_cycle(range);
    monitor.heartbeat_at(now);
    let heartbeat_first = evaluate_at(&monitor, now as u64).1;

    let monitor = create_monitor_single_cycle(range);
    let evaluation_first = evaluate_at(&monitor, now as u64).1;
    monitor.heartbeat_at(now);

    [heartbeat_first, evaluation_first]
}

#[test]
fn test_heartbeat_evaluate_too_early() {
    for reports in heartbeat_while_evaluating(0) {
        for report in reports {
            assert_eq!(report.tag, IdentTag::from(TAG));
            assert_eq!(report.error, MonitorEvaluationError::TooEarly);
        }
    }
}

#[test]
fn test_heartbeat_evaluate_in_range() {
    // In range.
    for reports in heartbeat_while_evaluating(50) {
        for report in reports {
            let tag = report.tag;
            let error = report.error;
            panic!("error happened, tag: {tag:?}, error: {error:?}");
        }
    }
}

#[test]
fn test_heartbeat_evaluate_too_late() {
    // Too late.
    for reports in heartbeat_while_evaluating(100) {
        let mut error_detected = false;
        for report in reports {
            assert_eq!(report.tag, IdentTag::from(TAG));
            assert_eq!(report.error, MonitorEvaluationError::TooLate);
            error_detected = true;
        }
        assert!(error_detected);
    }
}

#[test]
fn a_week_between_heartbeats() {
    const WEEK_MS: u64 = 7 * 24 * 60 * 60 * 1000;
    let monitor = create_monitor_single_cycle(range_from_ms(WEEK_MS - 1000, WEEK_MS));
    monitor.heartbeat_at(WEEK_MS as u32 - 500);
    assert_eq!(evaluate_at(&monitor, WEEK_MS), (Ok(Status::Running), vec![]));
    assert_eq!(
        monitor.heartbeat_at(2 * WEEK_MS as u32 - 500),
        HeartbeatStateSnapshot::new(WEEK_MS as u32 - 500)
    );
    assert_eq!(evaluate_at(&monitor, 2 * WEEK_MS), (Ok(Status::Running), vec![]));
    monitor.heartbeat_at(2 * WEEK_MS as u32 + 500);
    assert_eq!(
        evaluate_at(&monitor, 2 * WEEK_MS + 1000),
        (Ok(Status::Failed), vec![report(MonitorEvaluationError::TooEarly)])
    );
}

#[test]
fn every_heartbeat_is_counted() {
    let monitor = create_monitor_single_cycle(range_from_ms(80, 120));
    for beat in 0..1000u32 {
        let previous = monitor.heartbeat_at(beat);
        assert_eq!(previous.counter as u32, beat);
    }
    let state = HeartbeatState::new(HeartbeatStateSnapshot::new(7));
    for beat in 0..70_000u32 {
        state.beat(beat + 7);
    }
    assert_eq!(
        state.snapshot(),
        HeartbeatStateSnapshot {
            start_timestamp: 7,
            heartbeat_timestamp_offset: 69_999,
            counter: u16::MAX,
            post_init: true,
        }
    );
}
