//! The deadline monitor, its builder, and the deadlines that it hands out.
use crate::common::{granted, ConfigError, EvaluationReport, OwnershipState, Status};
use crate::deadline::deadline_state::{
    deadline_evaluation, DeadlineCell, DeadlineState, DeadlineStateSnapshot,
};
use crate::registry::{
    distinct_tags, entries_with, has_tag, lemma_place_is_unique, place_of, TagMap,
};
use crate::shared::share;
use crate::tag::{DeadlineTag, IdentTag};
use crate::time::{
    checked_duration_to_u32, checked_hmon_time_offset, duration_between, duration_millis, now_of,
    offset_of_gap, InternalRange, TimeError, TimeRange,
};
use crate::worker::MonitorEvalHandle;
use std::sync::Arc;
use std::time::Instant;
use vstd::prelude::*;

verus! {

/// Why a deadline monitor does not hand out a deadline.
#[derive(Clone, Copy, Debug, PartialEq, Eq, Structural)]
pub enum DeadlineMonitorError {
    /// The deadline has been handed out before.
    DeadlineInUse,
    /// No deadline is registered under the tag.
    DeadlineNotFound,
}

/// Why a deadline does not start or stop.
#[derive(Clone, Copy, Debug, PartialEq, Eq, Structural)]
pub enum DeadlineError {
    /// The deadline is not in the state that the operation needs.
    WrongState,
    /// The monitor has been running for more milliseconds than a `u32` holds.
    RunningTooLong,
}

/// The range that a deadline monitor keeps for `range`, or the reason why it
/// cannot keep it: the range must be in order, and its ends must fit in a
/// `u32` of milliseconds.
pub open spec fn checked_range(range: TimeRange) -> Result<InternalRange, ConfigError> {
    if !range.wf() {
        Err(ConfigError::InvalidRange)
    } else if duration_millis(range.max) > u32::MAX {
        Err(ConfigError::RangeTooLong)
    } else {
        Ok(InternalRange::of_time_range(range))
    }
}

/// The ranges that a deadline monitor keeps for the first `count` of
/// `entries`, or the reason why the first of them that cannot be kept is
/// refused.
pub open spec fn checked_ranges(entries: Seq<(IdentTag, TimeRange)>, count: int) -> Result<
    Seq<(IdentTag, InternalRange)>,
    ConfigError,
>
    decreases count,
{
    if count <= 0 {
        Ok(Seq::empty())
    } else {
        match checked_ranges(entries, count - 1) {
            Err(error) => Err(error),
            Ok(ranges) => match checked_range(entries[count - 1].1) {
                Err(error) => Err(error),
                Ok(range) => Ok(ranges.push((entries[count - 1].0, range))),
            },
        }
    }
}

/// A refusal among the first entries stays the refusal of every longer
/// prefix.
pub proof fn lemma_checked_ranges_keep_error(
    entries: Seq<(IdentTag, TimeRange)>,
    from: int,
    to: int,
)
    requires
        from <= to,
        checked_ranges(entries, from) is Err,
    ensures
        checked_ranges(entries, to) == checked_ranges(entries, from),
    decreases to - from,
{
    if from < to {
        lemma_checked_ranges_keep_error(entries, from, to - 1);
    }
}

/// Counts `range` in whole milliseconds, or tells why it cannot be kept.
pub fn check_range(range: TimeRange) -> (result: Result<InternalRange, ConfigError>)
    ensures
        result == checked_range(range),
        result is Ok ==> result->Ok_0.wf(),
{
    if range.min.as_nanos() > range.max.as_nanos() {
        return Err(ConfigError::InvalidRange);
    }
    match InternalRange::try_from_time_range(range) {
        Some(internal) => Ok(internal),
        None => Err(ConfigError::RangeTooLong),
    }
}

/// One deadline as its monitor keeps it.
pub struct DeadlineSlot {
    tag: DeadlineTag,
    range: InternalRange,
    /// What the deadline shares with the evaluator.
    cell: DeadlineCell,
}

impl DeadlineSlot {
    /// Tag of the deadline.
    pub closed spec fn tag(&self) -> DeadlineTag {
        self.tag
    }

    /// Accepted length of a measurement.
    pub closed spec fn range(&self) -> InternalRange {
        self.range
    }
}

/// The tags and ranges of `slots`, in their order.
pub open spec fn slot_ranges(slots: Seq<DeadlineSlot>) -> Seq<(IdentTag, InternalRange)> {
    Seq::new(slots.len(), |k: int| (slots[k].tag().0, slots[k].range()))
}

/// Builder for [`DeadlineMonitor`].
pub struct DeadlineMonitorBuilder {
    deadlines: TagMap<TimeRange>,
}

impl DeadlineMonitorBuilder {
    /// The registered deadlines, in the order in which their tags were first
    /// added.
    pub closed spec fn deadlines(&self) -> TagMap<TimeRange> {
        self.deadlines
    }

    /// No tag is registered twice.
    pub open spec fn wf(&self) -> bool {
        self.deadlines().wf()
    }

    /// The ranges that `try_build` keeps, or the reason why it refuses.
    pub open spec fn checked(&self) -> Result<Seq<(IdentTag, InternalRange)>, ConfigError> {
        checked_ranges(self.deadlines().entries(), self.deadlines().entries().len() as int)
    }

    /// Creates a builder without deadlines.
    pub fn new() -> (builder: Self)
        ensures
            builder.deadlines()@ == Map::<Seq<char>, TimeRange>::empty(),
            builder.deadlines().entries() == Seq::<(IdentTag, TimeRange)>::empty(),
            builder.wf(),
    {
        Self { deadlines: TagMap::new() }
    }

    /// Registers a deadline with its accepted range. A deadline registered
    /// under the same tag before is overwritten.
    pub fn add_deadline(self, tag: DeadlineTag, range: TimeRange) -> (builder: Self)
        requires
            self.wf(),
        ensures
            builder.deadlines().entries() == entries_with(self.deadlines().entries(), tag.0, range),
            builder.deadlines()@ == self.deadlines()@.insert(tag@, range),
            builder.wf(),
    {
        let mut builder = self;
        builder.add_deadline_internal(tag, range);
        builder
    }

    /// Registers a deadline without moving the builder.
    pub fn add_deadline_internal(&mut self, tag: DeadlineTag, range: TimeRange)
        requires
            old(self).wf(),
        ensures
            final(self).deadlines().entries() == entries_with(
                old(self).deadlines().entries(),
                tag.0,
                range,
            ),
            final(self).deadlines()@ == old(self).deadlines()@.insert(tag@, range),
            final(self).wf(),
    {
        self.deadlines.insert(tag.0, range);
    }

    /// Builds the monitor where every range can be kept, and returns the
    /// reason why the first range that cannot be kept is refused.
    pub fn try_build(self) -> (result: Result<DeadlineMonitor, ConfigError>)
        requires
            self.wf(),
        ensures
            match self.checked() {
                Err(error) => result == Err::<DeadlineMonitor, ConfigError>(error),
                Ok(ranges) => result is Ok && result->Ok_0.wf() && result->Ok_0.ranges() == ranges
                    && result->Ok_0.all_available(),
            },
    {
        let entries = self.deadlines.into_entries();
        let mut slots: Vec<DeadlineSlot> = Vec::new();
        let mut vended: TagMap<OwnershipState> = TagMap::new();
        let mut i: usize = 0;
        assert(slot_ranges(slots@) =~= Seq::empty());
        while i < entries.len()
            invariant
                i <= entries.len(),
                entries@ == self.deadlines().entries(),
                distinct_tags(entries@),
                slots@.len() == i,
                vended.wf(),
                vended.entries().len() == i,
                checked_ranges(entries@, i as int) == Ok::<
                    Seq<(IdentTag, InternalRange)>,
                    ConfigError,
                >(slot_ranges(slots@)),
                forall|k: int|
                    0 <= k < i ==> #[trigger] vended.entries()[k] == (
                        entries@[k].0,
                        OwnershipState::Available,
                    ),
                forall|k: int|
                    0 <= k < i ==> (#[trigger] slots@[k]).range().wf() && slots@[k].tag().0
                        == entries@[k].0,
            decreases entries.len() - i,
        {
            let tag = entries[i].0;
            match check_range(entries[i].1) {
                Err(error) => {
                    proof {
                        assert(checked_ranges(entries@, i as int + 1) == Err::<
                            Seq<(IdentTag, InternalRange)>,
                            ConfigError,
                        >(error));
                        lemma_checked_ranges_keep_error(
                            entries@,
                            i as int + 1,
                            entries@.len() as int,
                        );
                    }
                    return Err(error);
                },
                Ok(range) => {
                    proof {
                        if has_tag(vended.entries(), tag@) {
                            let k = place_of(vended.entries(), tag@);
                            assert(vended.entries()[k] == (
                                entries@[k].0,
                                OwnershipState::Available,
                            ));
                            assert(entries@[k].0@ != entries@[i as int].0@);
                        }
                    }
                    let ghost before = slots@;
                    slots.push(DeadlineSlot { tag: DeadlineTag(tag), range, cell: DeadlineCell::new() });
                    vended.push_new(tag, OwnershipState::Available);
                    proof {
                        assert(slot_ranges(slots@) =~= slot_ranges(before).push((tag, range)));
                    }
                },
            }
            i += 1;
        }
        let inner = DeadlineMonitorInner { monitor_starting_point: Instant::now(), deadlines: slots };
        Ok(DeadlineMonitor { inner: Arc::new(inner), vended })
    }

    /// Builds the monitor.
    pub fn build(self) -> (monitor: DeadlineMonitor)
        requires
            self.wf(),
            self.checked() is Ok,
        ensures
            monitor.wf(),
            Ok::<Seq<(IdentTag, InternalRange)>, ConfigError>(monitor.ranges()) == self.checked(),
            monitor.all_available(),
    {
        granted(self.try_build())
    }
}

/// The reports that one evaluation adds for the first `count` of `slots`,
/// where it has read `snapshots` at `now`.
pub open spec fn step_reports(
    slots: Seq<DeadlineSlot>,
    snapshots: Seq<DeadlineStateSnapshot>,
    now: int,
    count: int,
) -> Seq<EvaluationReport>
    decreases count,
{
    if count <= 0 {
        Seq::empty()
    } else {
        let reports = step_reports(slots, snapshots, now, count - 1);
        match deadline_evaluation(snapshots[count - 1], slots[count - 1].range(), now).failure() {
            Some(error) => reports.push(EvaluationReport { tag: slots[count - 1].tag().0, error }),
            None => reports,
        }
    }
}

/// What a step returns for the reports that it adds: the monitor has
/// failed where any of its deadlines has.
pub open spec fn status_of(added: Seq<EvaluationReport>) -> Status {
    if added.len() > 0 {
        Status::Failed
    } else {
        Status::Running
    }
}

/// What a deadline monitor shares with its deadlines and its evaluator.
pub struct DeadlineMonitorInner {
    /// Monitor starting point.
    monitor_starting_point: Instant,
    /// The deadlines in the order in which their tags were first registered.
    deadlines: Vec<DeadlineSlot>,
}

impl DeadlineMonitorInner {
    /// The deadlines in the order in which their tags were first registered.
    pub closed spec fn slots(&self) -> Seq<DeadlineSlot> {
        self.deadlines@
    }

    /// The point in time at which the monitor was created.
    pub closed spec fn starting_point(&self) -> Instant {
        self.monitor_starting_point
    }

    /// A step at `now` may add `added` to the reports: it does where it
    /// reads some states for which `step_reports` gives them.
    pub open spec fn steps_at(&self, now: int, added: Seq<EvaluationReport>) -> bool {
        exists|snapshots: Seq<DeadlineStateSnapshot>|
            snapshots.len() == self.slots().len() && added == #[trigger] step_reports(
                self.slots(),
                snapshots,
                now,
                self.slots().len() as int,
            )
    }

    /// A step against this starting point of the health monitor may return
    /// `result` and add `added` to the reports: it does where the clock can
    /// be read in a `u32` of milliseconds and a step at some such reading
    /// does, or where the clock cannot be read so, and the error says why.
    pub open spec fn steps_to(
        &self,
        hmon_starting_point: Instant,
        result: Result<Status, TimeError>,
        added: Seq<EvaluationReport>,
    ) -> bool {
        match offset_of_gap(duration_between(hmon_starting_point, self.starting_point())) {
            Err(error) => result == Err::<Status, TimeError>(error) && added == Seq::<
                EvaluationReport,
            >::empty(),
            Ok(offset) => {
                ||| result == Err::<Status, TimeError>(TimeError::RunningTooLong) && added == Seq::<
                    EvaluationReport,
                >::empty()
                ||| result == Ok::<Status, TimeError>(status_of(added)) && exists|elapsed: u32| #[trigger]
                    self.steps_at(now_of(offset, elapsed), added)
            },
        }
    }

    /// Evaluates every deadline once at `now`, in milliseconds since the
    /// monitor was created: reads the state of each deadline in turn, adds
    /// to `reports` what `deadline_evaluation` finds for that reading, and
    /// makes a deadline idle again where its measurement has finished.
    ///
    /// - `now` - the time of the step.
    /// - `reports` - receives the tag of a deadline with each failure.
    pub fn step_at(&self, now: u64, reports: &mut Vec<EvaluationReport>) -> (status: Status)
        ensures
            old(reports)@.len() <= final(reports)@.len(),
            final(reports)@.take(old(reports)@.len() as int) == old(reports)@,
            self.steps_at(now as int, final(reports)@.skip(old(reports)@.len() as int)),
            status == status_of(final(reports)@.skip(old(reports)@.len() as int)),
    {
        let ghost before = reports@;
        let reported: usize = reports.len();
        let ghost mut snapshots: Seq<DeadlineStateSnapshot> = Seq::empty();
        let mut i: usize = 0;
        while i < self.deadlines.len()
            invariant
                i <= self.deadlines@.len(),
                snapshots.len() == i,
                reported == before.len(),
                reports@ == before + step_reports(self.deadlines@, snapshots, now as int, i as int),
            decreases self.deadlines.len() - i,
        {
            let slot = &self.deadlines[i];
            let snapshot = slot.cell.snapshot();
            proof {
                let ghost earlier = snapshots;
                snapshots = snapshots.push(snapshot);
                lemma_step_reports_prefix(self.deadlines@, earlier, snapshots, now as int, i as int);
            }
            let evaluation = snapshot.evaluate(slot.range, now);
            if let Some(error) = evaluation.reported() {
                reports.push(EvaluationReport { tag: slot.tag.ident(), error });
            }
            if evaluation.has_finished() {
                slot.cell.clear(snapshot);
            }
            assert(reports@ =~= before + step_reports(
                self.deadlines@,
                snapshots,
                now as int,
                i as int + 1,
            ));
            i += 1;
        }
        let status = if reports.len() > reported {
            Status::Failed
        } else {
            Status::Running
        };
        proof {
            let added = step_reports(
                self.slots(),
                snapshots,
                now as int,
                self.slots().len() as int,
            );
            assert(reports@.skip(before.len() as int) =~= added);
            assert(reports@.take(before.len() as int) =~= before);
        }
        status
    }

    /// Evaluates every deadline once at the current time.
    ///
    /// - `hmon_starting_point` - starting point of all monitors.
    /// - `reports` - receives the tag of a deadline with each failure.
    pub fn step(&self, hmon_starting_point: Instant, reports: &mut Vec<EvaluationReport>) -> (result:
        Result<Status, TimeError>)
        ensures
            old(reports)@.len() <= final(reports)@.len(),
            final(reports)@.take(old(reports)@.len() as int) == old(reports)@,
            self.steps_to(
                hmon_starting_point,
                result,
                final(reports)@.skip(old(reports)@.len() as int),
            ),
    {
        let ghost before = reports@;
        proof {
            assert(reports@.take(before.len() as int) =~= before);
            assert(reports@.skip(before.len() as int) =~= Seq::empty());
        }
        let offset = match checked_hmon_time_offset(
            hmon_starting_point,
            self.monitor_starting_point,
        ) {
            Ok(offset) => offset,
            Err(error) => {
                return Err(error);
            },
        };
        match checked_duration_to_u32(hmon_starting_point.elapsed()) {
            None => Err(TimeError::RunningTooLong),
            Some(elapsed) => {
                let now: u64 = offset as u64 + elapsed as u64;
                let status = self.step_at(now, reports);
                assert(self.steps_at(now_of(offset, elapsed), reports@.skip(before.len() as int)));
                Ok(status)
            },
        }
    }
}

/// The reports for the first deadlines depend on the readings of those
/// deadlines alone.
pub proof fn lemma_step_reports_prefix(
    slots: Seq<DeadlineSlot>,
    shorter: Seq<DeadlineStateSnapshot>,
    longer: Seq<DeadlineStateSnapshot>,
    now: int,
    count: int,
)
    requires
        count <= shorter.len() <= longer.len(),
        forall|k: int| 0 <= k < count ==> shorter[k] == longer[k],
    ensures
        step_reports(slots, shorter, now, count) == step_reports(slots, longer, now, count),
    decreases count,
{
    if count > 0 {
        lemma_step_reports_prefix(slots, shorter, longer, now, count - 1);
    }
}

/// Deadline monitor: a fixed set of deadlines, each handed out at most once.
pub struct DeadlineMonitor {
    inner: Arc<DeadlineMonitorInner>,
    /// Who holds each deadline, in the order of the deadlines.
    vended: TagMap<OwnershipState>,
}

impl DeadlineMonitor {
    /// What this monitor shares with its deadlines and its evaluator.
    pub closed spec fn inner(&self) -> DeadlineMonitorInner {
        *self.inner
    }

    /// Who holds each deadline.
    pub closed spec fn vended(&self) -> TagMap<OwnershipState> {
        self.vended
    }

    /// The tags and ranges of the deadlines, in the order in which their
    /// tags were first registered.
    pub open spec fn ranges(&self) -> Seq<(IdentTag, InternalRange)> {
        slot_ranges(self.inner().slots())
    }

    /// Who holds the deadline registered under `tag`, if there is one.
    pub open spec fn ownership(&self, tag: Seq<char>) -> Option<OwnershipState> {
        if self.vended()@.dom().contains(tag) {
            Some(self.vended()@[tag])
        } else {
            None
        }
    }

    /// The place of the deadline registered under `tag`.
    pub open spec fn place(&self, tag: Seq<char>) -> int {
        place_of(self.vended().entries(), tag)
    }

    /// The evaluator's handle of this monitor.
    pub open spec fn eval_handle(&self, handle: MonitorEvalHandle) -> bool {
        handle matches MonitorEvalHandle::Deadline(inner) && *inner == self.inner()
    }

    /// No deadline has been handed out.
    pub open spec fn all_available(&self) -> bool {
        forall|k: int|
            0 <= k < self.vended().entries().len() ==> (#[trigger] self.vended().entries()[k]).1
                == OwnershipState::Available
    }

    /// No tag occurs twice, and the record of who holds what lists the
    /// deadlines in their order.
    pub open spec fn wf(&self) -> bool {
        &&& self.vended().wf()
        &&& self.vended().entries().len() == self.inner().slots().len()
        &&& forall|k: int|
            0 <= k < self.inner().slots().len() ==> (#[trigger] self.inner().slots()[k]).tag().0
                == self.vended().entries()[k].0 && self.inner().slots()[k].range().wf()
    }

    /// Hands out the deadline registered under `tag`, once.
    ///
    /// Fails with `DeadlineNotFound` where nothing is registered under the
    /// tag, and with `DeadlineInUse` where the deadline has been handed out
    /// before.
    pub fn get_deadline(&mut self, tag: DeadlineTag) -> (result: Result<Deadline, DeadlineMonitorError>)
        requires
            old(self).wf(),
        ensures
            final(self).wf(),
            final(self).inner() == old(self).inner(),
            match old(self).ownership(tag@) {
                None => result == Err::<Deadline, DeadlineMonitorError>(
                    DeadlineMonitorError::DeadlineNotFound,
                ) && final(self).vended() == old(self).vended(),
                Some(OwnershipState::Taken) => result == Err::<Deadline, DeadlineMonitorError>(
                    DeadlineMonitorError::DeadlineInUse,
                ) && final(self).vended() == old(self).vended(),
                Some(OwnershipState::Available) => {
                    &&& result is Ok
                    &&& final(self).vended()@ == old(self).vended()@.insert(
                        tag@,
                        OwnershipState::Taken,
                    )
                    &&& result->Ok_0.wf()
                    &&& result->Ok_0.monitor() == old(self).inner()
                    &&& result->Ok_0.index() == old(self).place(tag@)
                    &&& result->Ok_0.tag()@ == tag@
                    &&& result->Ok_0.state() == DeadlineState::Idle
                },
            },
    {
        match self.vended.find(&tag.0) {
            None => Err(DeadlineMonitorError::DeadlineNotFound),
            Some(index) => {
                match *self.vended.value_at(index) {
                    OwnershipState::Taken => Err(DeadlineMonitorError::DeadlineInUse),
                    OwnershipState::Available => {
                        proof {
                            lemma_place_is_unique(self.vended.entries(), index as int);
                        }
                        let _ = self.vended.replace_at(index, OwnershipState::Taken);
                        let slot = &self.inner.deadlines[index];
                        Ok(
                            Deadline {
                                tag: slot.tag,
                                range: slot.range,
                                index,
                                monitor: share(&self.inner),
                                state: DeadlineState::Idle,
                                start_timestamp: None,
                            },
                        )
                    },
                }
            },
        }
    }

    /// Get eval handle.
    pub fn get_eval_handle(&self) -> (handle: MonitorEvalHandle)
        ensures
            self.eval_handle(handle),
    {
        MonitorEvalHandle::Deadline(share(&self.inner))
    }
}

/// A timing gate: work bracketed by `start` and `stop` must take a time
/// inside the accepted range.
pub struct Deadline {
    tag: DeadlineTag,
    range: InternalRange,
    index: usize,
    monitor: Arc<DeadlineMonitorInner>,
    state: DeadlineState,
    start_timestamp: Option<u32>,
}

impl Deadline {
    /// Tag of this deadline.
    pub closed spec fn tag(&self) -> DeadlineTag {
        self.tag
    }

    /// Accepted length of a measurement.
    pub closed spec fn range(&self) -> InternalRange {
        self.range
    }

    /// The place of this deadline in its monitor.
    pub closed spec fn index(&self) -> int {
        self.index as int
    }

    /// What the monitor of this deadline shares.
    pub closed spec fn monitor(&self) -> DeadlineMonitorInner {
        *self.monitor
    }

    /// Whether a measurement is under way.
    pub closed spec fn state(&self) -> DeadlineState {
        self.state
    }

    /// The start of the measurement that is under way, in milliseconds since
    /// the monitor was created.
    pub closed spec fn start_timestamp(&self) -> Option<u32> {
        self.start_timestamp
    }

    /// The deadline belongs to its monitor, and it knows the start of a
    /// measurement exactly while one is under way.
    pub open spec fn wf(&self) -> bool {
        &&& 0 <= self.index() < self.monitor().slots().len()
        &&& self.monitor().slots()[self.index()].tag() == self.tag()
        &&& self.monitor().slots()[self.index()].range() == self.range()
        &&& self.range().wf()
        &&& self.state() is Running <==> self.start_timestamp() is Some
    }

    /// This is the deadline `other` with, at most, another state.
    pub open spec fn same_deadline(&self, other: &Self) -> bool {
        &&& self.tag() == other.tag()
        &&& self.range() == other.range()
        &&& self.index() == other.index()
        &&& self.monitor() == other.monitor()
    }

    /// Whether a measurement is under way.
    pub fn current_state(&self) -> (state: DeadlineState)
        ensures
            state == self.state(),
    {
        self.state
    }

    /// Starts a measurement at `now`, in milliseconds since the monitor was
    /// created.
    ///
    /// Fails with `WrongState`, and changes nothing, where a measurement is
    /// under way, and where the evaluator has not yet cleared the
    /// measurement before this one.
    pub fn start_at(&mut self, now: u32) -> (result: Result<(), DeadlineError>)
        requires
            old(self).wf(),
        ensures
            final(self).wf(),
            final(self).same_deadline(old(self)),
            old(self).state() is Running ==> result is Err,
            result is Err ==> result == Err::<(), DeadlineError>(DeadlineError::WrongState)
                && *final(self) == *old(self),
            result is Ok ==> final(self).state() is Running && final(self).start_timestamp()
                == Some(now),
    {
        match self.state {
            DeadlineState::Running => Err(DeadlineError::WrongState),
            DeadlineState::Idle => {
                match self.monitor.deadlines[self.index].cell.start(now) {
                    Ok(_) => {
                        self.state = DeadlineState::Running;
                        self.start_timestamp = Some(now);
                        Ok(())
                    },
                    Err(_) => Err(DeadlineError::WrongState),
                }
            },
        }
    }

    /// Starts a measurement at the current time.
    ///
    /// Fails with `WrongState`, and changes nothing, where a measurement is
    /// under way, and where the evaluator has not yet cleared the
    /// measurement before this one.
    pub fn start(&mut self) -> (result: Result<(), DeadlineError>)
        requires
            old(self).wf(),
        ensures
            final(self).wf(),
            final(self).same_deadline(old(self)),
            old(self).state() is Running ==> result == Err::<(), DeadlineError>(
                DeadlineError::WrongState,
            ),
            result is Ok ==> old(self).state() is Idle && final(self).state() is Running,
            result is Err ==> *final(self) == *old(self),
    {
        match self.state {
            DeadlineState::Running => Err(DeadlineError::WrongState),
            DeadlineState::Idle => {
                match checked_duration_to_u32(self.monitor.monitor_starting_point.elapsed()) {
                    None => Err(DeadlineError::RunningTooLong),
                    Some(now) => self.start_at(now),
                }
            },
        }
    }

    /// Stops the measurement at `now`, in milliseconds since the monitor was
    /// created, and leaves its length to the evaluator. A measurement that
    /// stops before it started has the length zero.
    ///
    /// Fails with `WrongState`, and changes nothing, exactly where no
    /// measurement is under way.
    pub fn stop_at(&mut self, now: u32) -> (result: Result<(), DeadlineError>)
        requires
            old(self).wf(),
        ensures
            final(self).wf(),
            final(self).same_deadline(old(self)),
            result == if old(self).state() is Idle {
                Err::<(), DeadlineError>(DeadlineError::WrongState)
            } else {
                Ok::<(), DeadlineError>(())
            },
            result is Ok ==> final(self).state() is Idle,
            result is Err ==> *final(self) == *old(self),
    {
        match self.start_timestamp {
            None => Err(DeadlineError::WrongState),
            Some(start_timestamp) => {
                let elapsed: u32 = if now >= start_timestamp {
                    now - start_timestamp
                } else {
                    0
                };
                self.monitor.deadlines[self.index].cell.stop(elapsed);
                self.state = DeadlineState::Idle;
                self.start_timestamp = None;
                Ok(())
            },
        }
    }

    /// Stops the measurement at the current time and leaves its length to
    /// the evaluator.
    ///
    /// Fails with `WrongState`, and changes nothing, exactly where no
    /// measurement is under way.
    pub fn stop(&mut self) -> (result: Result<(), DeadlineError>)
        requires
            old(self).wf(),
        ensures
            final(self).wf(),
            final(self).same_deadline(old(self)),
            old(self).state() is Idle <==> result == Err::<(), DeadlineError>(
                DeadlineError::WrongState,
            ),
            result is Ok ==> old(self).state() is Running && final(self).state() is Idle,
            result is Err ==> *final(self) == *old(self),
    {
        match self.state {
            DeadlineState::Idle => Err(DeadlineError::WrongState),
            DeadlineState::Running => {
                match checked_duration_to_u32(self.monitor.monitor_starting_point.elapsed()) {
                    None => Err(DeadlineError::RunningTooLong),
                    Some(now) => self.stop_at(now),
                }
            },
        }
    }
}

} // verus!
