//! The heartbeat monitor and its evaluation.
use core::time::Duration;
use crate::common::{
    granted, ConfigError, EvaluationReport, HeartbeatMonitorEvaluationError, MonitorEvaluationError,
    Status,
};
use crate::heartbeat::heartbeat_state::{HeartbeatState, HeartbeatStateSnapshot};
use crate::shared::share;
use crate::tag::MonitorTag;
use crate::time::{
    checked_duration_to_u32, checked_hmon_time_offset, duration_between, duration_millis,
    duration_nanos, now_of, offset_of_gap, InternalRange, TimeError, TimeRange,
};
use crate::worker::MonitorEvalHandle;
use std::sync::Arc;
use std::time::Instant;
use vstd::prelude::*;

verus! {

/// What one evaluation of a heartbeat monitor finds.
#[derive(Clone, Copy, Debug, PartialEq, Eq, Structural)]
pub enum HeartbeatEvaluation {
    /// No heartbeat yet, and the window is still open.
    Waiting,
    /// The cycle has failed.
    Failed(MonitorEvaluationError),
    /// One heartbeat came inside the window: the next cycle starts at it.
    CycleCompleted { next: HeartbeatStateSnapshot },
    /// One heartbeat came inside the window, at a point in time that a `u32`
    /// cannot hold.
    OutOfTime,
}

/// The verdict on `snapshot`, read at `now`, for a monitor with the accepted
/// `range`. `hmon_offset` is the start of the health monitor; all three
/// points in time count milliseconds since the monitor was created.
///
/// The first cycle starts with the health monitor, each later one at the
/// heartbeat that closed the cycle before it.
pub open spec fn heartbeat_evaluation(
    snapshot: HeartbeatStateSnapshot,
    range: InternalRange,
    hmon_offset: u32,
    now: int,
) -> HeartbeatEvaluation {
    let start: int = if snapshot.post_init {
        snapshot.start_timestamp as int
    } else {
        hmon_offset as int
    };
    let heartbeat = snapshot.heartbeat_timestamp();
    if snapshot.counter > 1 {
        HeartbeatEvaluation::Failed(
            MonitorEvaluationError::HeartbeatSpecific(
                HeartbeatMonitorEvaluationError::MultipleHeartbeats,
            ),
        )
    } else if snapshot.counter == 0 {
        if now > start + range.max {
            HeartbeatEvaluation::Failed(MonitorEvaluationError::TooLate)
        } else {
            HeartbeatEvaluation::Waiting
        }
    } else if heartbeat < start + range.min {
        HeartbeatEvaluation::Failed(MonitorEvaluationError::TooEarly)
    } else if heartbeat > start + range.max {
        HeartbeatEvaluation::Failed(MonitorEvaluationError::TooLate)
    } else if heartbeat > u32::MAX {
        HeartbeatEvaluation::OutOfTime
    } else {
        HeartbeatEvaluation::CycleCompleted {
            next: HeartbeatStateSnapshot::cycle_start(heartbeat as u32),
        }
    }
}

/// Evaluates one reading of the state of a heartbeat monitor.
pub fn evaluate_snapshot(
    snapshot: HeartbeatStateSnapshot,
    range: InternalRange,
    hmon_offset: u32,
    now: u64,
) -> (evaluation: HeartbeatEvaluation)
    ensures
        evaluation == heartbeat_evaluation(snapshot, range, hmon_offset, now as int),
{
    // The first cycle starts with the health monitor.
    let start_timestamp: u32 = if snapshot.post_init {
        snapshot.start_timestamp
    } else {
        hmon_offset
    };
    // While the first cycle lasts, the offset counts from the creation of
    // the monitor.
    let heartbeat_timestamp: u64 = if snapshot.post_init {
        snapshot.start_timestamp as u64 + snapshot.heartbeat_timestamp_offset as u64
    } else {
        snapshot.heartbeat_timestamp_offset as u64
    };
    let window = range.offset(start_timestamp);
    if snapshot.counter > 1 {
        HeartbeatEvaluation::Failed(
            MonitorEvaluationError::HeartbeatSpecific(
                HeartbeatMonitorEvaluationError::MultipleHeartbeats,
            ),
        )
    } else if snapshot.counter == 0 {
        if now > window.max {
            HeartbeatEvaluation::Failed(MonitorEvaluationError::TooLate)
        } else {
            HeartbeatEvaluation::Waiting
        }
    } else if heartbeat_timestamp < window.min {
        HeartbeatEvaluation::Failed(MonitorEvaluationError::TooEarly)
    } else if heartbeat_timestamp > window.max {
        HeartbeatEvaluation::Failed(MonitorEvaluationError::TooLate)
    } else if heartbeat_timestamp > 0xffff_ffff {
        HeartbeatEvaluation::OutOfTime
    } else {
        HeartbeatEvaluation::CycleCompleted {
            next: HeartbeatStateSnapshot::new(heartbeat_timestamp as u32),
        }
    }
}

/// A single heartbeat inside the window starts the next cycle at its own
/// point in time, so the next window depends on that heartbeat alone.
///
/// `before` is the state when the heartbeat at `beat` arrives, `now` the
/// time of the evaluation that follows it.
pub proof fn lemma_cycle_anchors_at_heartbeat(
    before: HeartbeatStateSnapshot,
    range: InternalRange,
    hmon_offset: u32,
    beat: u32,
    now: int,
)
    requires
        before == HeartbeatStateSnapshot::initial() || before == HeartbeatStateSnapshot::cycle_start(
            before.start_timestamp,
        ),
        range.wf(),
        ({
            let start: int = if before.post_init {
                before.start_timestamp as int
            } else {
                hmon_offset as int
            };
            start + range.min <= beat <= start + range.max
        }),
    ensures
        heartbeat_evaluation(before.after_beat(beat), range, hmon_offset, now)
            == (HeartbeatEvaluation::CycleCompleted {
            next: HeartbeatStateSnapshot::cycle_start(beat),
        }),
        heartbeat_evaluation(HeartbeatStateSnapshot::cycle_start(beat), range, hmon_offset, now)
            == if now > beat + range.max {
            HeartbeatEvaluation::Failed(MonitorEvaluationError::TooLate)
        } else {
            HeartbeatEvaluation::Waiting
        },
{
}

/// The state that the evaluator leaves behind: the start of the next cycle
/// where the evaluation has completed one, and the state that it has read in
/// every other case.
pub open spec fn state_after_evaluation(
    snapshot: HeartbeatStateSnapshot,
    evaluation: HeartbeatEvaluation,
) -> HeartbeatStateSnapshot {
    match evaluation {
        HeartbeatEvaluation::CycleCompleted { next } => next,
        _ => snapshot,
    }
}

/// The state after the first `count` rounds of a run in which every
/// heartbeat is followed by one evaluation: round `i` beats at `beats[i]` and
/// evaluates at `evaluations[i]`.
pub open spec fn state_after_rounds(
    range: InternalRange,
    hmon_offset: u32,
    beats: Seq<u32>,
    evaluations: Seq<int>,
    count: int,
) -> HeartbeatStateSnapshot
    decreases count,
{
    if count <= 0 {
        HeartbeatStateSnapshot::initial()
    } else {
        let beaten = state_after_rounds(range, hmon_offset, beats, evaluations, count - 1).after_beat(
            beats[count - 1],
        );
        state_after_evaluation(
            beaten,
            heartbeat_evaluation(beaten, range, hmon_offset, evaluations[count - 1]),
        )
    }
}

/// Every heartbeat lies in the window that the heartbeat before it has
/// opened, the first one in the window that the start of the health monitor
/// has opened.
pub open spec fn beats_in_their_windows(range: InternalRange, hmon_offset: u32, beats: Seq<u32>) -> bool {
    forall|i: int|
        0 <= i < beats.len() ==> {
            let start: int = if i == 0 {
                hmon_offset as int
            } else {
                beats[i - 1] as int
            };
            start + range.min <= #[trigger] beats[i] <= start + range.max
        }
}

/// No drift: while every heartbeat lies in the window opened by the one
/// before it, every round completes its cycle, and each cycle starts exactly
/// at the heartbeat that closed the cycle before it, whenever the evaluations
/// take place.
pub proof fn lemma_windows_follow_the_heartbeats(
    range: InternalRange,
    hmon_offset: u32,
    beats: Seq<u32>,
    evaluations: Seq<int>,
    round: int,
)
    requires
        range.wf(),
        beats_in_their_windows(range, hmon_offset, beats),
        0 <= round < beats.len(),
    ensures
        heartbeat_evaluation(
            state_after_rounds(range, hmon_offset, beats, evaluations, round).after_beat(
                beats[round],
            ),
            range,
            hmon_offset,
            evaluations[round],
        ) == (HeartbeatEvaluation::CycleCompleted {
            next: HeartbeatStateSnapshot::cycle_start(beats[round]),
        }),
        state_after_rounds(range, hmon_offset, beats, evaluations, round + 1)
            == HeartbeatStateSnapshot::cycle_start(beats[round]),
    decreases round,
{
    if round > 0 {
        lemma_windows_follow_the_heartbeats(range, hmon_offset, beats, evaluations, round - 1);
        assert(beats[round - 1] + range.min <= beats[round]);
    }
    lemma_cycle_anchors_at_heartbeat(
        state_after_rounds(range, hmon_offset, beats, evaluations, round),
        range,
        hmon_offset,
        beats[round],
        evaluations[round],
    );
}

/// Builder for [`HeartbeatMonitor`].
#[derive(Debug)]
pub struct HeartbeatMonitorBuilder {
    /// Time range between heartbeats.
    range: TimeRange,
}

impl HeartbeatMonitorBuilder {
    /// The accepted time between heartbeats.
    pub closed spec fn range(&self) -> TimeRange {
        self.range
    }

    /// What `check` returns for `range` and the internal processing cycle.
    ///
    /// The range must be in order, and its ends must fit in a `u32` of
    /// milliseconds; twice its lower end must be longer than the cycle, so
    /// that the evaluator cannot miss a whole window.
    pub open spec fn checked(range: TimeRange, internal_processing_cycle: Duration) -> Result<
        InternalRange,
        ConfigError,
    > {
        if !range.wf() {
            Err(ConfigError::InvalidRange)
        } else if 2 * duration_nanos(range.min) <= duration_nanos(internal_processing_cycle) {
            Err(ConfigError::RangeTooShort)
        } else if duration_millis(range.max) > u32::MAX {
            Err(ConfigError::RangeTooLong)
        } else {
            Ok(InternalRange::of_time_range(range))
        }
    }

    /// Create a new [`HeartbeatMonitorBuilder`].
    ///
    /// - `range` - time range between heartbeats.
    pub fn new(range: TimeRange) -> (builder: Self)
        ensures
            builder.range() == range,
    {
        Self { range }
    }

    /// Tells whether a monitor can be built for this internal processing
    /// cycle, and with which range.
    pub fn check(&self, internal_processing_cycle: Duration) -> (result: Result<
        InternalRange,
        ConfigError,
    >)
        ensures
            result == Self::checked(self.range(), internal_processing_cycle),
            result is Ok ==> result->Ok_0.wf(),
    {
        let min_nanos = self.range.min.as_nanos();
        let max_nanos = self.range.max.as_nanos();
        if min_nanos > max_nanos {
            return Err(ConfigError::InvalidRange);
        }
        let cycle_nanos = internal_processing_cycle.as_nanos();
        if min_nanos <= cycle_nanos / 2 {
            return Err(ConfigError::RangeTooShort);
        }
        match InternalRange::try_from_time_range(self.range) {
            Some(range) => Ok(range),
            None => Err(ConfigError::RangeTooLong),
        }
    }

    /// Build the [`HeartbeatMonitor`], where the range suits the cycle.
    ///
    /// - `tag` - tag of this monitor.
    /// - `internal_processing_cycle` - health monitor processing cycle.
    pub fn try_build(self, tag: MonitorTag, internal_processing_cycle: Duration) -> (result: Result<
        HeartbeatMonitor,
        ConfigError,
    >)
        ensures
            match Self::checked(self.range(), internal_processing_cycle) {
                Ok(range) => result is Ok && result->Ok_0.tag() == tag && result->Ok_0.range()
                    == range,
                Err(error) => result == Err::<HeartbeatMonitor, ConfigError>(error),
            },
    {
        match self.check(internal_processing_cycle) {
            Ok(range) => Ok(HeartbeatMonitor::new(tag, range)),
            Err(error) => Err(error),
        }
    }

    /// Build the [`HeartbeatMonitor`].
    ///
    /// - `tag` - tag of this monitor.
    /// - `internal_processing_cycle` - health monitor processing cycle.
    pub fn build(self, tag: MonitorTag, internal_processing_cycle: Duration) -> (monitor:
        HeartbeatMonitor)
        requires
            Self::checked(self.range(), internal_processing_cycle) is Ok,
        ensures
            monitor.tag() == tag,
            Ok::<InternalRange, ConfigError>(monitor.range()) == Self::checked(
                self.range(),
                internal_processing_cycle,
            ),
    {
        granted(self.try_build(tag, internal_processing_cycle))
    }
}

/// What a heartbeat monitor shares with its evaluator.
pub struct HeartbeatMonitorInner {
    /// Tag of this monitor.
    tag: MonitorTag,
    /// Time range between heartbeats.
    range: InternalRange,
    /// Monitor starting point.
    /// Offset is calculated during evaluation in relation to provided health monitor starting point.
    monitor_starting_point: Instant,
    /// Current heartbeat state.
    /// Contains data in relation to [`Self::monitor_starting_point`].
    heartbeat_state: HeartbeatState,
}

/// The reports that an evaluation adds for a monitor with this tag.
pub open spec fn reports_of(tag: MonitorTag, evaluation: HeartbeatEvaluation) -> Seq<
    EvaluationReport,
> {
    match evaluation {
        HeartbeatEvaluation::Failed(error) => seq![EvaluationReport { tag: tag.0, error }],
        _ => Seq::empty(),
    }
}

/// What an evaluation returns for what it finds: a cycle that cannot be
/// closed for want of room in a `u32` ends the evaluation, a failure makes
/// the monitor failed, and everything else leaves it running.
pub open spec fn status_of(evaluation: HeartbeatEvaluation) -> Result<Status, TimeError> {
    match evaluation {
        HeartbeatEvaluation::OutOfTime => Err(TimeError::RunningTooLong),
        HeartbeatEvaluation::Failed(_) => Ok(Status::Failed),
        _ => Ok(Status::Running),
    }
}

impl HeartbeatMonitorInner {
    /// Tag of this monitor.
    pub closed spec fn tag(&self) -> MonitorTag {
        self.tag
    }

    /// Time range between heartbeats.
    pub closed spec fn range(&self) -> InternalRange {
        self.range
    }

    /// The point in time at which the monitor was created.
    pub closed spec fn starting_point(&self) -> Instant {
        self.monitor_starting_point
    }

    /// The range is in order.
    pub open spec fn wf(&self) -> bool {
        self.range().wf()
    }

    /// An evaluation at `now` may return `result` and add `added` to the
    /// reports: it does where it reads some state for which
    /// `heartbeat_evaluation` gives them.
    pub open spec fn evaluates_at(
        &self,
        hmon_offset: u32,
        now: int,
        result: Result<Status, TimeError>,
        added: Seq<EvaluationReport>,
    ) -> bool {
        exists|snapshot: HeartbeatStateSnapshot|
            {
                &&& result == status_of(
                    #[trigger] heartbeat_evaluation(snapshot, self.range(), hmon_offset, now),
                )
                &&& added == reports_of(
                    self.tag(),
                    heartbeat_evaluation(snapshot, self.range(), hmon_offset, now),
                )
            }
    }

    /// An evaluation against this starting point of the health monitor may
    /// return `result` and add `added` to the reports: it does where the
    /// clock can be read in a `u32` of milliseconds and an evaluation at some
    /// such reading does, or where the clock cannot be read so, and the error
    /// says why.
    pub open spec fn evaluates_to(
        &self,
        hmon_starting_point: Instant,
        result: Result<Status, TimeError>,
        added: Seq<EvaluationReport>,
    ) -> bool {
        match offset_of_gap(duration_between(hmon_starting_point, self.starting_point())) {
            Err(error) => result == Err::<Status, TimeError>(error) && added == Seq::<
                EvaluationReport,
            >::empty(),
            Ok(offset) => {
                ||| result == Err::<Status, TimeError>(TimeError::RunningTooLong) && added == Seq::<
                    EvaluationReport,
                >::empty()
                ||| exists|elapsed: u32| #[trigger]
                    self.evaluates_at(offset, now_of(offset, elapsed), result, added)
            },
        }
    }

    fn new(tag: MonitorTag, range: InternalRange) -> (inner: Self)
        requires
            range.wf(),
        ensures
            inner.tag() == tag,
            inner.range() == range,
            inner.wf(),
    {
        let monitor_starting_point = Instant::now();
        let heartbeat_state_snapshot = HeartbeatStateSnapshot::default();
        let heartbeat_state = HeartbeatState::new(heartbeat_state_snapshot);
        Self { tag, range, monitor_starting_point, heartbeat_state }
    }

    /// Provide a heartbeat at `now`, in milliseconds since the monitor was
    /// created. Returns the state that the heartbeat was added to.
    pub fn heartbeat_at(&self, now: u32) -> (previous: HeartbeatStateSnapshot) {
        // Set heartbeat timestamp and update counter.
        self.heartbeat_state.beat(now)
    }

    /// Provide a heartbeat.
    pub fn heartbeat(&self) -> (result: Result<(), TimeError>)
        ensures
            result is Err ==> result == Err::<(), TimeError>(TimeError::RunningTooLong),
    {
        // Get current timestamp.
        match checked_duration_to_u32(self.monitor_starting_point.elapsed()) {
            Some(now) => {
                let _ = self.heartbeat_at(now);
                Ok(())
            },
            None => Err(TimeError::RunningTooLong),
        }
    }

    /// Evaluates the monitor once at `now`: reads the state, adds to
    /// `reports` what `heartbeat_evaluation` finds for that reading, and
    /// starts the next cycle where the reading completes one.
    ///
    /// - `hmon_offset` - start of the health monitor.
    /// - `now` - the time of the evaluation.
    /// - `reports` - receives the tag of this monitor with each failure.
    ///
    /// Both points in time count milliseconds since the monitor was created.
    pub fn evaluate_at(&self, hmon_offset: u32, now: u64, reports: &mut Vec<EvaluationReport>) -> (result:
        Result<Status, TimeError>)
        ensures
            old(reports)@.len() <= final(reports)@.len(),
            final(reports)@.take(old(reports)@.len() as int) == old(reports)@,
            self.evaluates_at(
                hmon_offset,
                now as int,
                result,
                final(reports)@.skip(old(reports)@.len() as int),
            ),
    {
        let ghost before = reports@;
        // Load current monitor state.
        let snapshot = self.heartbeat_state.snapshot();
        let evaluation = evaluate_snapshot(snapshot, self.range, hmon_offset, now);
        let result = match evaluation {
            HeartbeatEvaluation::Waiting => Ok(Status::Running),
            HeartbeatEvaluation::Failed(error) => {
                reports.push(EvaluationReport { tag: self.tag.ident(), error });
                Ok(Status::Failed)
            },
            HeartbeatEvaluation::CycleCompleted { next } => {
                // Update heartbeat monitor state with a current heartbeat as a beginning of a new cycle.
                self.heartbeat_state.replace(next);
                Ok(Status::Running)
            },
            HeartbeatEvaluation::OutOfTime => Err(TimeError::RunningTooLong),
        };
        proof {
            assert(reports@.take(before.len() as int) =~= before);
            assert(reports@.skip(before.len() as int) =~= reports_of(self.tag(), evaluation));
        }
        result
    }

    /// Evaluates the monitor once at the current time.
    ///
    /// - `hmon_starting_point` - starting point of all monitors.
    /// - `reports` - receives the tag of this monitor with each failure.
    pub fn evaluate(&self, hmon_starting_point: Instant, reports: &mut Vec<EvaluationReport>) -> (result:
        Result<Status, TimeError>)
        ensures
            old(reports)@.len() <= final(reports)@.len(),
            final(reports)@.take(old(reports)@.len() as int) == old(reports)@,
            self.evaluates_to(
                hmon_starting_point,
                result,
                final(reports)@.skip(old(reports)@.len() as int),
            ),
    {
        let ghost before = reports@;
        proof {
            assert(reports@.take(before.len() as int) =~= before);
            assert(reports@.skip(before.len() as int) =~= Seq::empty());
        }
        // Get current timestamp, with offset to HMON time.
        let offset = match checked_hmon_time_offset(
            hmon_starting_point,
            self.monitor_starting_point,
        ) {
            Ok(offset) => offset,
            Err(error) => {
                return Err(error);
            },
        };
        match checked_duration_to_u32(hmon_starting_point.elapsed()) {
            None => Err(TimeError::RunningTooLong),
            Some(elapsed) => {
                let now: u64 = offset as u64 + elapsed as u64;
                let result = self.evaluate_at(offset, now, reports);
                assert(self.evaluates_at(
                    offset,
                    now_of(offset, elapsed),
                    result,
                    reports@.skip(before.len() as int),
                ));
                result
            },
        }
    }
}

/// Heartbeat monitor.
pub struct HeartbeatMonitor {
    inner: Arc<HeartbeatMonitorInner>,
}

impl HeartbeatMonitor {
    /// What this monitor shares with its evaluator.
    pub closed spec fn inner(&self) -> HeartbeatMonitorInner {
        *self.inner
    }

    /// Tag of this monitor.
    pub open spec fn tag(&self) -> MonitorTag {
        self.inner().tag()
    }

    /// Time range between heartbeats.
    pub open spec fn range(&self) -> InternalRange {
        self.inner().range()
    }

    /// The evaluator's handle of this monitor.
    pub open spec fn eval_handle(&self, handle: MonitorEvalHandle) -> bool {
        handle matches MonitorEvalHandle::Heartbeat(inner) && *inner == self.inner()
    }

    /// Create a new [`HeartbeatMonitor`].
    fn new(tag: MonitorTag, range: InternalRange) -> (monitor: Self)
        requires
            range.wf(),
        ensures
            monitor.tag() == tag,
            monitor.range() == range,
            monitor.inner().wf(),
    {
        Self { inner: Arc::new(HeartbeatMonitorInner::new(tag, range)) }
    }

    /// Provide a heartbeat.
    ///
    /// Fails only where the monitor has been running for more milliseconds
    /// than a `u32` holds.
    pub fn heartbeat(&self) -> (result: Result<(), TimeError>)
        ensures
            result is Err ==> result == Err::<(), TimeError>(TimeError::RunningTooLong),
    {
        self.inner.heartbeat()
    }

    /// Provide a heartbeat at `now`, in milliseconds since the monitor was
    /// created. Returns the state that the heartbeat was added to.
    pub fn heartbeat_at(&self, now: u32) -> (previous: HeartbeatStateSnapshot) {
        self.inner.heartbeat_at(now)
    }

    /// Get eval handle.
    pub fn get_eval_handle(&self) -> (handle: MonitorEvalHandle)
        ensures
            self.eval_handle(handle),
    {
        MonitorEvalHandle::Heartbeat(share(&self.inner))
    }
}

} // verus!
