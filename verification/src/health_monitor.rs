//! The health monitor: the registry of monitors, the handing out of their
//! handles, and the start of the evaluator.
use core::time::Duration;
use crate::common::{granted, ConfigError, OwnershipState, Refusal};
use crate::deadline::deadline_monitor::{DeadlineMonitor, DeadlineMonitorBuilder};
use crate::heartbeat::heartbeat_monitor::{HeartbeatMonitor, HeartbeatMonitorBuilder};
use crate::registry::{
    distinct_tags, entries_with, has_tag, lemma_place_is_unique, place_of, TagMap,
};
use crate::tag::{IdentTag, MonitorTag};
use crate::time::{duration_millis, duration_nanos, NANOS_PER_MILLI};
use crate::worker::{MonitorEvalHandle, MonitoringLogic, SupervisorWindow};
use vstd::prelude::*;
use vstd::string::*;

verus! {

/// The supervisor cycle that a builder starts with, in milliseconds.
pub const DEFAULT_SUPERVISOR_API_CYCLE_MS: u64 = 500;

/// The internal processing cycle that a builder starts with, in
/// milliseconds.
pub const DEFAULT_INTERNAL_PROCESSING_CYCLE_MS: u64 = 100;

/// The internal processing cycles in one supervisor cycle, where the
/// supervisor cycle is a positive whole multiple of the internal processing
/// cycle.
pub open spec fn checked_cycles(
    supervisor_api_cycle: Duration,
    internal_processing_cycle: Duration,
) -> Result<u128, ConfigError> {
    let supervisor = duration_nanos(supervisor_api_cycle);
    let internal = duration_nanos(internal_processing_cycle);
    if internal == 0 || supervisor == 0 || supervisor % internal != 0 {
        Err(ConfigError::CycleNotMultiple)
    } else {
        Ok((supervisor / internal) as u128)
    }
}

/// Counts the internal processing cycles in one supervisor cycle.
pub fn check_cycles(supervisor_api_cycle: Duration, internal_processing_cycle: Duration) -> (result:
    Result<u128, ConfigError>)
    ensures
        result == checked_cycles(supervisor_api_cycle, internal_processing_cycle),
        result is Ok ==> result->Ok_0 > 0,
{
    let supervisor = supervisor_api_cycle.as_nanos();
    let internal = internal_processing_cycle.as_nanos();
    if internal == 0 || supervisor == 0 || supervisor % internal != 0 {
        Err(ConfigError::CycleNotMultiple)
    } else {
        assert(supervisor / internal > 0) by (nonlinear_arith)
            requires
                supervisor > 0,
                internal > 0,
                supervisor % internal == 0,
        ;
        Ok(supervisor / internal)
    }
}

/// The first reason, in the order of the entries, why one of the first
/// `count` deadline monitors cannot be built.
pub open spec fn deadline_builders_error(
    entries: Seq<(IdentTag, DeadlineMonitorBuilder)>,
    count: int,
) -> Option<ConfigError>
    decreases count,
{
    if count <= 0 {
        None
    } else {
        match deadline_builders_error(entries, count - 1) {
            Some(error) => Some(error),
            None => match entries[count - 1].1.checked() {
                Err(error) => Some(error),
                Ok(_) => None,
            },
        }
    }
}

/// The first reason, in the order of the entries, why one of the first
/// `count` heartbeat monitors cannot be built for this internal processing
/// cycle.
pub open spec fn heartbeat_builders_error(
    entries: Seq<(IdentTag, HeartbeatMonitorBuilder)>,
    internal_processing_cycle: Duration,
    count: int,
) -> Option<ConfigError>
    decreases count,
{
    if count <= 0 {
        None
    } else {
        match heartbeat_builders_error(entries, internal_processing_cycle, count - 1) {
            Some(error) => Some(error),
            None => match HeartbeatMonitorBuilder::checked(
                entries[count - 1].1.range(),
                internal_processing_cycle,
            ) {
                Err(error) => Some(error),
                Ok(_) => None,
            },
        }
    }
}

/// A refusal among the first deadline monitors stays the refusal of every
/// longer prefix.
pub proof fn lemma_deadline_builders_keep_error(
    entries: Seq<(IdentTag, DeadlineMonitorBuilder)>,
    from: int,
    to: int,
)
    requires
        from <= to,
        deadline_builders_error(entries, from) is Some,
    ensures
        deadline_builders_error(entries, to) == deadline_builders_error(entries, from),
    decreases to - from,
{
    if from < to {
        lemma_deadline_builders_keep_error(entries, from, to - 1);
    }
}

/// A refusal among the first heartbeat monitors stays the refusal of every
/// longer prefix.
pub proof fn lemma_heartbeat_builders_keep_error(
    entries: Seq<(IdentTag, HeartbeatMonitorBuilder)>,
    internal_processing_cycle: Duration,
    from: int,
    to: int,
)
    requires
        from <= to,
        heartbeat_builders_error(entries, internal_processing_cycle, from) is Some,
    ensures
        heartbeat_builders_error(entries, internal_processing_cycle, to)
            == heartbeat_builders_error(entries, internal_processing_cycle, from),
    decreases to - from,
{
    if from < to {
        lemma_heartbeat_builders_keep_error(entries, internal_processing_cycle, from, to - 1);
    }
}

/// Monitor ownership state in the [`HealthMonitor`].
pub enum MonitorState<Monitor> {
    /// The monitor waits for the caller that takes it.
    Available(Monitor),
    /// The monitor has been handed out; the evaluator's handle stays.
    Taken(MonitorEvalHandle),
}

impl<Monitor> MonitorState<Monitor> {
    /// Who holds the monitor.
    pub open spec fn ownership(self) -> OwnershipState {
        match self {
            MonitorState::Available(_) => OwnershipState::Available,
            MonitorState::Taken(_) => OwnershipState::Taken,
        }
    }
}

/// A deadline monitor that waits to be handed out is well formed.
pub open spec fn waits_well_formed(state: MonitorState<DeadlineMonitor>) -> bool {
    state matches MonitorState::Available(monitor) ==> monitor.wf()
}

/// The deadline monitor built by `builder`, not handed out yet.
pub open spec fn built_deadline_monitor(
    builder: DeadlineMonitorBuilder,
    state: MonitorState<DeadlineMonitor>,
) -> bool {
    &&& state matches MonitorState::Available(monitor)
    &&& monitor.wf()
    &&& monitor.all_available()
    &&& builder.checked() == Ok::<Seq<(IdentTag, crate::time::InternalRange)>, ConfigError>(
        monitor.ranges(),
    )
}

/// The heartbeat monitor built by `builder` under `tag` for this internal
/// processing cycle, not handed out yet.
pub open spec fn built_heartbeat_monitor(
    tag: IdentTag,
    builder: HeartbeatMonitorBuilder,
    internal_processing_cycle: Duration,
    state: MonitorState<HeartbeatMonitor>,
) -> bool {
    &&& state matches MonitorState::Available(monitor)
    &&& monitor.tag() == MonitorTag(tag)
    &&& HeartbeatMonitorBuilder::checked(builder.range(), internal_processing_cycle) == Ok::<
        crate::time::InternalRange,
        ConfigError,
    >(monitor.range())
}

/// Builds every deadline monitor, in the order of the entries, or returns
/// the first refusal.
fn build_deadline_monitors(builders: TagMap<DeadlineMonitorBuilder>) -> (result: Result<
    TagMap<MonitorState<DeadlineMonitor>>,
    ConfigError,
>)
    requires
        builders.wf(),
        forall|k: int| 0 <= k < builders.entries().len() ==> (#[trigger] builders.entries()[k]).1.wf(),
    ensures
        match deadline_builders_error(builders.entries(), builders.entries().len() as int) {
            Some(error) => result == Err::<TagMap<MonitorState<DeadlineMonitor>>, ConfigError>(error),
            None => {
                &&& result is Ok
                &&& result->Ok_0.wf()
                &&& result->Ok_0.entries().len() == builders.entries().len()
                &&& forall|k: int|
                    0 <= k < builders.entries().len() ==> (#[trigger] result->Ok_0.entries()[k]).0
                        == builders.entries()[k].0 && built_deadline_monitor(
                        builders.entries()[k].1,
                        result->Ok_0.entries()[k].1,
                    )
            },
        },
{
    let ghost all = builders.entries();
    let entries = builders.into_entries();
    let mut monitors: TagMap<MonitorState<DeadlineMonitor>> = TagMap::new();
    for entry in iter: entries
        invariant
            iter.seq() == all,
            all == builders.entries(),
            distinct_tags(all),
            forall|k: int| 0 <= k < all.len() ==> (#[trigger] all[k]).1.wf(),
            monitors.wf(),
            monitors.entries().len() == iter.index(),
            deadline_builders_error(all, iter.index() as int) is None,
            forall|k: int|
                0 <= k < iter.index() ==> (#[trigger] monitors.entries()[k]).0 == all[k].0
                    && built_deadline_monitor(all[k].1, monitors.entries()[k].1),
    {
        let ghost i = iter.index() as int;
        let (tag, builder) = entry;
        match builder.try_build() {
            Err(error) => {
                proof {
                    assert(deadline_builders_error(all, i + 1) == Some(error));
                    lemma_deadline_builders_keep_error(all, i + 1, all.len() as int);
                }
                return Err(error);
            },
            Ok(monitor) => {
                proof {
                    if has_tag(monitors.entries(), tag@) {
                        let k = place_of(monitors.entries(), tag@);
                        assert(monitors.entries()[k].0 == all[k].0);
                        assert(all[k].0@ != all[i].0@);
                    }
                }
                monitors.push_new(tag, MonitorState::Available(monitor));
            },
        }
    }
    Ok(monitors)
}

/// Builds every heartbeat monitor for this internal processing cycle, in
/// the order of the entries, or returns the first refusal.
fn build_heartbeat_monitors(
    builders: TagMap<HeartbeatMonitorBuilder>,
    internal_processing_cycle: Duration,
) -> (result: Result<TagMap<MonitorState<HeartbeatMonitor>>, ConfigError>)
    requires
        builders.wf(),
    ensures
        match heartbeat_builders_error(
            builders.entries(),
            internal_processing_cycle,
            builders.entries().len() as int,
        ) {
            Some(error) => result == Err::<TagMap<MonitorState<HeartbeatMonitor>>, ConfigError>(
                error,
            ),
            None => {
                &&& result is Ok
                &&& result->Ok_0.wf()
                &&& result->Ok_0.entries().len() == builders.entries().len()
                &&& forall|k: int|
                    0 <= k < builders.entries().len() ==> (#[trigger] result->Ok_0.entries()[k]).0
                        == builders.entries()[k].0 && built_heartbeat_monitor(
                        builders.entries()[k].0,
                        builders.entries()[k].1,
                        internal_processing_cycle,
                        result->Ok_0.entries()[k].1,
                    )
            },
        },
{
    let ghost all = builders.entries();
    let entries = builders.into_entries();
    let mut monitors: TagMap<MonitorState<HeartbeatMonitor>> = TagMap::new();
    for entry in iter: entries
        invariant
            iter.seq() == all,
            all == builders.entries(),
            distinct_tags(all),
            monitors.wf(),
            monitors.entries().len() == iter.index(),
            heartbeat_builders_error(all, internal_processing_cycle, iter.index() as int) is None,
            forall|k: int|
                0 <= k < iter.index() ==> (#[trigger] monitors.entries()[k]).0 == all[k].0
                    && built_heartbeat_monitor(
                    all[k].0,
                    all[k].1,
                    internal_processing_cycle,
                    monitors.entries()[k].1,
                ),
    {
        let ghost i = iter.index() as int;
        let (tag, builder) = entry;
        match builder.try_build(MonitorTag(tag), internal_processing_cycle) {
            Err(error) => {
                proof {
                    assert(heartbeat_builders_error(all, internal_processing_cycle, i + 1) == Some(
                        error,
                    ));
                    lemma_heartbeat_builders_keep_error(
                        all,
                        internal_processing_cycle,
                        i + 1,
                        all.len() as int,
                    );
                }
                return Err(error);
            },
            Ok(monitor) => {
                proof {
                    if has_tag(monitors.entries(), tag@) {
                        let k = place_of(monitors.entries(), tag@);
                        assert(monitors.entries()[k].0 == all[k].0);
                        assert(all[k].0@ != all[i].0@);
                    }
                }
                monitors.push_new(tag, MonitorState::Available(monitor));
            },
        }
    }
    Ok(monitors)
}

/// Builder for [`HealthMonitor`].
pub struct HealthMonitorBuilder {
    deadline_monitor_builders: TagMap<DeadlineMonitorBuilder>,
    heartbeat_monitor_builders: TagMap<HeartbeatMonitorBuilder>,
    supervisor_api_cycle: Duration,
    internal_processing_cycle: Duration,
}

impl HealthMonitorBuilder {
    /// The registered deadline monitors.
    pub closed spec fn deadline_monitor_builders(&self) -> TagMap<DeadlineMonitorBuilder> {
        self.deadline_monitor_builders
    }

    /// The registered heartbeat monitors.
    pub closed spec fn heartbeat_monitor_builders(&self) -> TagMap<HeartbeatMonitorBuilder> {
        self.heartbeat_monitor_builders
    }

    /// How often the supervisor is told that the process is alive.
    pub closed spec fn supervisor_api_cycle(&self) -> Duration {
        self.supervisor_api_cycle
    }

    /// How often the monitors are evaluated.
    pub closed spec fn internal_processing_cycle(&self) -> Duration {
        self.internal_processing_cycle
    }

    /// No tag is registered twice for one kind of monitor, and every
    /// registered deadline monitor is well formed.
    pub open spec fn wf(&self) -> bool {
        &&& self.deadline_monitor_builders().wf()
        &&& self.heartbeat_monitor_builders().wf()
        &&& forall|k: int|
            0 <= k < self.deadline_monitor_builders().entries().len() ==> (
            #[trigger] self.deadline_monitor_builders().entries()[k]).1.wf()
    }

    /// The internal processing cycles in one supervisor cycle of the health
    /// monitor that `try_build` makes, or the reason why it makes none: the
    /// cycles are looked at first, then the deadline monitors, then the
    /// heartbeat monitors, each kind in the order of registration.
    pub open spec fn checked(&self) -> Result<u128, ConfigError> {
        match checked_cycles(self.supervisor_api_cycle(), self.internal_processing_cycle()) {
            Err(error) => Err(error),
            Ok(ticks_per_window) => match deadline_builders_error(
                self.deadline_monitor_builders().entries(),
                self.deadline_monitor_builders().entries().len() as int,
            ) {
                Some(error) => Err(error),
                None => match heartbeat_builders_error(
                    self.heartbeat_monitor_builders().entries(),
                    self.internal_processing_cycle(),
                    self.heartbeat_monitor_builders().entries().len() as int,
                ) {
                    Some(error) => Err(error),
                    None => Ok(ticks_per_window),
                },
            },
        }
    }

    /// The health monitor `monitor` is what `try_build` makes of this
    /// builder: the same tags in the same order, each with its monitor built
    /// and not handed out, and nothing started.
    pub open spec fn builds(&self, monitor: HealthMonitor) -> bool {
        &&& monitor.wf()
        &&& !monitor.started()
        &&& self.checked() == Ok::<u128, ConfigError>(monitor.ticks_per_window())
        &&& monitor.supervisor_api_cycle() == self.supervisor_api_cycle()
        &&& monitor.internal_processing_cycle() == self.internal_processing_cycle()
        &&& monitor.deadline_monitors().entries().len()
            == self.deadline_monitor_builders().entries().len()
        &&& monitor.heartbeat_monitors().entries().len()
            == self.heartbeat_monitor_builders().entries().len()
        &&& forall|k: int|
            0 <= k < self.deadline_monitor_builders().entries().len() ==> (
            #[trigger] monitor.deadline_monitors().entries()[k]).0
                == self.deadline_monitor_builders().entries()[k].0 && built_deadline_monitor(
                self.deadline_monitor_builders().entries()[k].1,
                monitor.deadline_monitors().entries()[k].1,
            )
        &&& forall|k: int|
            0 <= k < self.heartbeat_monitor_builders().entries().len() ==> (
            #[trigger] monitor.heartbeat_monitors().entries()[k]).0
                == self.heartbeat_monitor_builders().entries()[k].0 && built_heartbeat_monitor(
                self.heartbeat_monitor_builders().entries()[k].0,
                self.heartbeat_monitor_builders().entries()[k].1,
                self.internal_processing_cycle(),
                monitor.heartbeat_monitors().entries()[k].1,
            )
    }

    /// Create a new [`HealthMonitorBuilder`].
    pub fn new() -> (builder: Self)
        ensures
            builder.wf(),
            builder.deadline_monitor_builders().entries() == Seq::<
                (IdentTag, DeadlineMonitorBuilder),
            >::empty(),
            builder.heartbeat_monitor_builders().entries() == Seq::<
                (IdentTag, HeartbeatMonitorBuilder),
            >::empty(),
            duration_nanos(builder.supervisor_api_cycle()) == DEFAULT_SUPERVISOR_API_CYCLE_MS
                * NANOS_PER_MILLI,
            duration_nanos(builder.internal_processing_cycle())
                == DEFAULT_INTERNAL_PROCESSING_CYCLE_MS * NANOS_PER_MILLI,
    {
        Self {
            deadline_monitor_builders: TagMap::new(),
            heartbeat_monitor_builders: TagMap::new(),
            supervisor_api_cycle: Duration::from_millis(DEFAULT_SUPERVISOR_API_CYCLE_MS),
            internal_processing_cycle: Duration::from_millis(DEFAULT_INTERNAL_PROCESSING_CYCLE_MS),
        }
    }

    /// Adds a deadline monitor for a specific identifier tag.
    /// # Arguments
    /// * `tag` - The unique identifier for the deadline monitor.
    /// * `monitor` - The builder for the deadline monitor.
    /// # Note
    /// If a monitor with the same tag already exists, it will be overwritten.
    pub fn add_deadline_monitor(self, tag: MonitorTag, monitor: DeadlineMonitorBuilder) -> (builder:
        Self)
        requires
            self.wf(),
            monitor.wf(),
        ensures
            builder.wf(),
            builder.deadline_monitor_builders().entries() == entries_with(
                self.deadline_monitor_builders().entries(),
                tag.0,
                monitor,
            ),
            builder.deadline_monitor_builders()@ == self.deadline_monitor_builders()@.insert(
                tag@,
                monitor,
            ),
            builder.heartbeat_monitor_builders() == self.heartbeat_monitor_builders(),
            builder.supervisor_api_cycle() == self.supervisor_api_cycle(),
            builder.internal_processing_cycle() == self.internal_processing_cycle(),
    {
        let mut builder = self;
        builder.add_deadline_monitor_internal(tag, monitor);
        builder
    }

    /// Adds a heartbeat monitor for a specific identifier tag.
    /// # Arguments
    /// * `tag` - The unique identifier for the heartbeat monitor.
    /// * `monitor` - The builder for the heartbeat monitor.
    /// # Note
    /// If a monitor with the same tag already exists, it will be overwritten.
    pub fn add_heartbeat_monitor(self, tag: MonitorTag, monitor: HeartbeatMonitorBuilder) -> (builder:
        Self)
        requires
            self.wf(),
        ensures
            builder.wf(),
            builder.heartbeat_monitor_builders().entries() == entries_with(
                self.heartbeat_monitor_builders().entries(),
                tag.0,
                monitor,
            ),
            builder.heartbeat_monitor_builders()@ == self.heartbeat_monitor_builders()@.insert(
                tag@,
                monitor,
            ),
            builder.deadline_monitor_builders() == self.deadline_monitor_builders(),
            builder.supervisor_api_cycle() == self.supervisor_api_cycle(),
            builder.internal_processing_cycle() == self.internal_processing_cycle(),
    {
        let mut builder = self;
        builder.add_heartbeat_monitor_internal(tag, monitor);
        builder
    }

    /// Sets the cycle duration for supervisor API notifications.
    /// This duration determines how often the health monitor notifies the supervisor that the system is alive.
    pub fn with_supervisor_api_cycle(self, cycle_duration: Duration) -> (builder: Self)
        ensures
            builder.supervisor_api_cycle() == cycle_duration,
            builder.internal_processing_cycle() == self.internal_processing_cycle(),
            builder.deadline_monitor_builders() == self.deadline_monitor_builders(),
            builder.heartbeat_monitor_builders() == self.heartbeat_monitor_builders(),
    {
        let mut builder = self;
        builder.with_supervisor_api_cycle_internal(cycle_duration);
        builder
    }

    /// Sets the internal processing cycle duration.
    /// This duration determines how often the health monitor checks deadlines.
    pub fn with_internal_processing_cycle(self, cycle_duration: Duration) -> (builder: Self)
        ensures
            builder.internal_processing_cycle() == cycle_duration,
            builder.supervisor_api_cycle() == self.supervisor_api_cycle(),
            builder.deadline_monitor_builders() == self.deadline_monitor_builders(),
            builder.heartbeat_monitor_builders() == self.heartbeat_monitor_builders(),
    {
        let mut builder = self;
        builder.with_internal_processing_cycle_internal(cycle_duration);
        builder
    }

    /// Builds the HealthMonitor instance, or tells why the configuration is
    /// refused.
    pub fn try_build(self) -> (result: Result<HealthMonitor, ConfigError>)
        requires
            self.wf(),
        ensures
            match self.checked() {
                Err(error) => result == Err::<HealthMonitor, ConfigError>(error),
                Ok(_) => result is Ok && self.builds(result->Ok_0),
            },
    {
        let ticks_per_window = match check_cycles(
            self.supervisor_api_cycle,
            self.internal_processing_cycle,
        ) {
            Ok(ticks_per_window) => ticks_per_window,
            Err(error) => {
                return Err(error);
            },
        };
        // Create deadline monitors.
        let deadline_monitors = match build_deadline_monitors(self.deadline_monitor_builders) {
            Ok(monitors) => monitors,
            Err(error) => {
                return Err(error);
            },
        };
        // Create heartbeat monitors.
        let heartbeat_monitors = match build_heartbeat_monitors(
            self.heartbeat_monitor_builders,
            self.internal_processing_cycle,
        ) {
            Ok(monitors) => monitors,
            Err(error) => {
                return Err(error);
            },
        };
        Ok(
            HealthMonitor {
                deadline_monitors,
                heartbeat_monitors,
                ticks_per_window,
                supervisor_api_cycle: self.supervisor_api_cycle,
                internal_processing_cycle: self.internal_processing_cycle,
                started: false,
            },
        )
    }

    /// Builds the HealthMonitor instance.
    pub fn build(self) -> (monitor: HealthMonitor)
        requires
            self.wf(),
            self.checked() is Ok,
        ensures
            self.builds(monitor),
    {
        granted(self.try_build())
    }

    // Used by callers which prefer not to move the builder instance

    /// Adds a deadline monitor without moving the builder.
    pub fn add_deadline_monitor_internal(&mut self, tag: MonitorTag, monitor: DeadlineMonitorBuilder)
        requires
            old(self).wf(),
            monitor.wf(),
        ensures
            final(self).wf(),
            final(self).deadline_monitor_builders().entries() == entries_with(
                old(self).deadline_monitor_builders().entries(),
                tag.0,
                monitor,
            ),
            final(self).deadline_monitor_builders()@ == old(self).deadline_monitor_builders()@.insert(
                tag@,
                monitor,
            ),
            final(self).heartbeat_monitor_builders() == old(self).heartbeat_monitor_builders(),
            final(self).supervisor_api_cycle() == old(self).supervisor_api_cycle(),
            final(self).internal_processing_cycle() == old(self).internal_processing_cycle(),
    {
        self.deadline_monitor_builders.insert(tag.0, monitor);
        proof {
            let after = self.deadline_monitor_builders.entries();
            assert forall|k: int| 0 <= k < after.len() implies (#[trigger] after[k]).1.wf() by {
                lemma_place_is_unique(after, k);
                if after[k].0@ != tag@ {
                    let found = place_of(old(self).deadline_monitor_builders().entries(), after[k].0@);
                    lemma_place_is_unique(old(self).deadline_monitor_builders().entries(), found);
                }
            }
        }
    }

    /// Adds a heartbeat monitor without moving the builder.
    pub fn add_heartbeat_monitor_internal(
        &mut self,
        tag: MonitorTag,
        monitor: HeartbeatMonitorBuilder,
    )
        requires
            old(self).wf(),
        ensures
            final(self).wf(),
            final(self).heartbeat_monitor_builders().entries() == entries_with(
                old(self).heartbeat_monitor_builders().entries(),
                tag.0,
                monitor,
            ),
            final(self).heartbeat_monitor_builders()@ == old(self).heartbeat_monitor_builders()@.insert(
                tag@,
                monitor,
            ),
            final(self).deadline_monitor_builders() == old(self).deadline_monitor_builders(),
            final(self).supervisor_api_cycle() == old(self).supervisor_api_cycle(),
            final(self).internal_processing_cycle() == old(self).internal_processing_cycle(),
    {
        self.heartbeat_monitor_builders.insert(tag.0, monitor);
    }

    /// Sets the supervisor cycle without moving the builder.
    pub fn with_supervisor_api_cycle_internal(&mut self, cycle_duration: Duration)
        ensures
            final(self).supervisor_api_cycle() == cycle_duration,
            final(self).internal_processing_cycle() == old(self).internal_processing_cycle(),
            final(self).deadline_monitor_builders() == old(self).deadline_monitor_builders(),
            final(self).heartbeat_monitor_builders() == old(self).heartbeat_monitor_builders(),
    {
        self.supervisor_api_cycle = cycle_duration;
    }

    /// Sets the internal processing cycle without moving the builder.
    pub fn with_internal_processing_cycle_internal(&mut self, cycle_duration: Duration)
        ensures
            final(self).internal_processing_cycle() == cycle_duration,
            final(self).supervisor_api_cycle() == old(self).supervisor_api_cycle(),
            final(self).deadline_monitor_builders() == old(self).deadline_monitor_builders(),
            final(self).heartbeat_monitor_builders() == old(self).heartbeat_monitor_builders(),
    {
        self.internal_processing_cycle = cycle_duration;
    }
}

/// `after` holds the monitors of `before` in the same order, each with the
/// state it had, but for the monitor under `tag`, which may have another
/// state.
pub open spec fn same_but_state_of<Monitor>(
    after: Seq<(IdentTag, MonitorState<Monitor>)>,
    before: Seq<(IdentTag, MonitorState<Monitor>)>,
    tag: Seq<char>,
) -> bool {
    &&& after.len() == before.len()
    &&& forall|k: int|
        0 <= k < before.len() ==> (#[trigger] after[k]).0 == before[k].0 && (before[k].0@ != tag
            ==> after[k] == before[k])
}

/// Who holds each monitor of a registry.
pub open spec fn ownership_of<Monitor>(monitors: Map<Seq<char>, MonitorState<Monitor>>) -> Map<
    Seq<char>,
    OwnershipState,
> {
    Map::new(|tag: Seq<char>| monitors.dom().contains(tag), |tag: Seq<char>| monitors[tag].ownership())
}

/// A request for the monitor under `tag` hands it out: the monitor is
/// registered and has not been handed out.
pub open spec fn hands_out(ownership: Map<Seq<char>, OwnershipState>, tag: Seq<char>) -> bool {
    ownership.dom().contains(tag) && ownership[tag] == OwnershipState::Available
}

/// Who holds each monitor after a request for the monitor under `tag`: a
/// registered monitor is taken from then on, and nothing else changes.
pub open spec fn after_request(ownership: Map<Seq<char>, OwnershipState>, tag: Seq<char>) -> Map<
    Seq<char>,
    OwnershipState,
> {
    if ownership.dom().contains(tag) {
        ownership.insert(tag, OwnershipState::Taken)
    } else {
        ownership
    }
}

/// Who holds each monitor after the first `count` of `requests`.
pub open spec fn after_requests(
    ownership: Map<Seq<char>, OwnershipState>,
    requests: Seq<Seq<char>>,
    count: int,
) -> Map<Seq<char>, OwnershipState>
    decreases count,
{
    if count <= 0 {
        ownership
    } else {
        after_request(after_requests(ownership, requests, count - 1), requests[count - 1])
    }
}

/// After some requests a monitor is still available exactly if it was
/// available before them and none of them asked for it.
pub proof fn lemma_available_until_requested(
    ownership: Map<Seq<char>, OwnershipState>,
    requests: Seq<Seq<char>>,
    count: int,
    tag: Seq<char>,
)
    requires
        0 <= count <= requests.len(),
    ensures
        hands_out(after_requests(ownership, requests, count), tag) <==> hands_out(ownership, tag)
            && forall|k: int| 0 <= k < count ==> requests[k] != tag,
    decreases count,
{
    if count > 0 {
        lemma_available_until_requested(ownership, requests, count - 1, tag);
    }
}

/// A handle is handed out exactly once: of all the requests for one tag
/// only the first can succeed, and it does exactly if the monitor was
/// registered and available at the beginning.
pub proof fn lemma_handle_is_handed_out_once(
    ownership: Map<Seq<char>, OwnershipState>,
    requests: Seq<Seq<char>>,
    first: int,
    second: int,
)
    requires
        0 <= first < second < requests.len(),
        requests[first] == requests[second],
    ensures
        !hands_out(after_requests(ownership, requests, second), requests[second]),
        hands_out(after_requests(ownership, requests, first), requests[first]) <==> hands_out(
            ownership,
            requests[first],
        ) && forall|k: int| 0 <= k < first ==> requests[k] != requests[first],
{
    lemma_available_until_requested(ownership, requests, second, requests[second]);
    lemma_available_until_requested(ownership, requests, first, requests[first]);
}

/// Why the evaluator of a health monitor is not handed out.
#[derive(Clone, Copy, Debug, PartialEq, Eq)]
pub enum StartError {
    /// No monitors have been added.
    NoMonitors,
    /// The monitor under `tag` has not been taken: its events would be
    /// missed.
    MonitorNotTaken { tag: IdentTag },
    /// The evaluator has been handed out before.
    AlreadyStarted,
}

impl Refusal for StartError {
    open spec fn reason(&self) -> Seq<char> {
        match self {
            StartError::NoMonitors => "No monitors have been added. HealthMonitor cannot start without any monitors."@,
            StartError::MonitorNotTaken { tag } => "All monitors must be taken before starting HealthMonitor but IdentTag("@
                + tag@ + ") is not taken."@,
            StartError::AlreadyStarted => "Invalid monitor state encountered while starting HealthMonitor."@,
        }
    }

    fn message(&self) -> (text: String) {
        match self {
            StartError::NoMonitors => {
                "No monitors have been added. HealthMonitor cannot start without any monitors."
                    .to_owned()
            },
            StartError::MonitorNotTaken { tag } => {
                "All monitors must be taken before starting HealthMonitor but IdentTag("
                    .to_owned()
                    .concat(tag.as_str())
                    .concat(") is not taken.")
            },
            StartError::AlreadyStarted => {
                "Invalid monitor state encountered while starting HealthMonitor.".to_owned()
            },
        }
    }
}

/// The tag of the first of the first `count` monitors that has not been
/// taken.
pub open spec fn first_waiting<Monitor>(
    entries: Seq<(IdentTag, MonitorState<Monitor>)>,
    count: int,
) -> Option<IdentTag>
    decreases count,
{
    if count <= 0 {
        None
    } else {
        match first_waiting(entries, count - 1) {
            Some(tag) => Some(tag),
            None => match entries[count - 1].1 {
                MonitorState::Available(_) => Some(entries[count - 1].0),
                MonitorState::Taken(_) => None,
            },
        }
    }
}

/// The evaluator's handles of the first `count` monitors, in their order.
pub open spec fn handles_of<Monitor>(
    entries: Seq<(IdentTag, MonitorState<Monitor>)>,
    count: int,
) -> Seq<MonitorEvalHandle>
    decreases count,
{
    if count <= 0 {
        Seq::empty()
    } else {
        handles_of(entries, count - 1).push(entries[count - 1].1->Taken_0)
    }
}

/// A monitor that waits among the first stays the first that waits in every
/// longer prefix.
pub proof fn lemma_first_waiting_stays<Monitor>(
    entries: Seq<(IdentTag, MonitorState<Monitor>)>,
    from: int,
    to: int,
)
    requires
        from <= to,
        first_waiting(entries, from) is Some,
    ensures
        first_waiting(entries, to) == first_waiting(entries, from),
    decreases to - from,
{
    if from < to {
        lemma_first_waiting_stays(entries, from, to - 1);
    }
}

/// Adds the evaluator's handle of every monitor to `handles`, in the order
/// of the monitors, or returns the tag of the first monitor that has not
/// been taken.
fn collect_handles<Monitor>(
    monitors: &TagMap<MonitorState<Monitor>>,
    handles: &mut Vec<MonitorEvalHandle>,
) -> (waiting: Option<IdentTag>)
    ensures
        waiting == first_waiting(monitors.entries(), monitors.entries().len() as int),
        waiting is None ==> final(handles)@ == old(handles)@ + handles_of(
            monitors.entries(),
            monitors.entries().len() as int,
        ),
{
    let ghost before = handles@;
    let mut i: usize = 0;
    while i < monitors.len()
        invariant
            i <= monitors.entries().len(),
            first_waiting(monitors.entries(), i as int) is None,
            handles@ == before + handles_of(monitors.entries(), i as int),
        decreases monitors.entries().len() - i,
    {
        match monitors.value_at(i) {
            MonitorState::Available(_) => {
                proof {
                    lemma_first_waiting_stays(
                        monitors.entries(),
                        i as int + 1,
                        monitors.entries().len() as int,
                    );
                }
                return Some(monitors.tag_at(i));
            },
            MonitorState::Taken(handle) => {
                handles.push(handle.share());
                assert(handles@ =~= before + handles_of(monitors.entries(), i as int + 1));
            },
        }
        i += 1;
    }
    None
}

/// The health monitor: the registered monitors, each with the state of its
/// handle, and the cycles of the evaluator.
pub struct HealthMonitor {
    deadline_monitors: TagMap<MonitorState<DeadlineMonitor>>,
    heartbeat_monitors: TagMap<MonitorState<HeartbeatMonitor>>,
    ticks_per_window: u128,
    supervisor_api_cycle: Duration,
    internal_processing_cycle: Duration,
    started: bool,
}

impl HealthMonitor {
    /// The registered deadline monitors.
    pub closed spec fn deadline_monitors(&self) -> TagMap<MonitorState<DeadlineMonitor>> {
        self.deadline_monitors
    }

    /// The registered heartbeat monitors.
    pub closed spec fn heartbeat_monitors(&self) -> TagMap<MonitorState<HeartbeatMonitor>> {
        self.heartbeat_monitors
    }

    /// The internal processing cycles in one supervisor cycle.
    pub closed spec fn ticks_per_window(&self) -> u128 {
        self.ticks_per_window
    }

    /// How often the supervisor is told that the process is alive.
    pub closed spec fn supervisor_api_cycle(&self) -> Duration {
        self.supervisor_api_cycle
    }

    /// How often the monitors are evaluated.
    pub closed spec fn internal_processing_cycle(&self) -> Duration {
        self.internal_processing_cycle
    }

    /// Whether the evaluator has been handed out.
    pub closed spec fn started(&self) -> bool {
        self.started
    }

    /// No tag is registered twice for one kind of monitor, every deadline
    /// monitor that waits here is well formed, and a supervisor cycle holds
    /// at least one tick.
    pub open spec fn wf(&self) -> bool {
        &&& self.deadline_monitors().wf()
        &&& self.heartbeat_monitors().wf()
        &&& self.ticks_per_window() > 0
        &&& forall|k: int|
            0 <= k < self.deadline_monitors().entries().len() ==> waits_well_formed(
                (#[trigger] self.deadline_monitors().entries()[k]).1,
            )
    }

    /// Who holds each deadline monitor.
    pub open spec fn deadline_monitor_ownership(&self) -> Map<Seq<char>, OwnershipState> {
        ownership_of(self.deadline_monitors()@)
    }

    /// Who holds each heartbeat monitor.
    pub open spec fn heartbeat_monitor_ownership(&self) -> Map<Seq<char>, OwnershipState> {
        ownership_of(self.heartbeat_monitors()@)
    }

    /// This is `other` but for its deadline monitors.
    pub open spec fn same_but_deadline_monitors(&self, other: &Self) -> bool {
        &&& self.heartbeat_monitors() == other.heartbeat_monitors()
        &&& self.ticks_per_window() == other.ticks_per_window()
        &&& self.supervisor_api_cycle() == other.supervisor_api_cycle()
        &&& self.internal_processing_cycle() == other.internal_processing_cycle()
        &&& self.started() == other.started()
    }

    /// This is `other` but for its heartbeat monitors.
    pub open spec fn same_but_heartbeat_monitors(&self, other: &Self) -> bool {
        &&& self.deadline_monitors() == other.deadline_monitors()
        &&& self.ticks_per_window() == other.ticks_per_window()
        &&& self.supervisor_api_cycle() == other.supervisor_api_cycle()
        &&& self.internal_processing_cycle() == other.internal_processing_cycle()
        &&& self.started() == other.started()
    }

    /// The evaluator's handles that `try_start` collects, deadline monitors
    /// first, or the reason why it hands out no evaluator.
    pub open spec fn checked_start(&self) -> Result<Seq<MonitorEvalHandle>, StartError> {
        let deadline_monitors = self.deadline_monitors().entries();
        let heartbeat_monitors = self.heartbeat_monitors().entries();
        if self.started() {
            Err(StartError::AlreadyStarted)
        } else if deadline_monitors.len() == 0 && heartbeat_monitors.len() == 0 {
            Err(StartError::NoMonitors)
        } else {
            match first_waiting(deadline_monitors, deadline_monitors.len() as int) {
                Some(tag) => Err(StartError::MonitorNotTaken { tag }),
                None => match first_waiting(heartbeat_monitors, heartbeat_monitors.len() as int) {
                    Some(tag) => Err(StartError::MonitorNotTaken { tag }),
                    None => Ok(
                        handles_of(deadline_monitors, deadline_monitors.len() as int) + handles_of(
                            heartbeat_monitors,
                            heartbeat_monitors.len() as int,
                        ),
                    ),
                },
            }
        }
    }

    /// Retrieves and removes (hand over to user) a deadline monitor associated with the given identifier tag.
    /// # Arguments
    /// * `tag` - The unique identifier for the deadline monitor.
    /// # Returns
    /// An Option containing the DeadlineMonitor if found, or None if
    ///     - no monitor exists for the given tag or was already obtained
    ///
    pub fn get_deadline_monitor(&mut self, tag: MonitorTag) -> (result: Option<DeadlineMonitor>)
        requires
            old(self).wf(),
        ensures
            final(self).wf(),
            final(self).same_but_deadline_monitors(old(self)),
            same_but_state_of(
                final(self).deadline_monitors().entries(),
                old(self).deadline_monitors().entries(),
                tag@,
            ),
            result is Some <==> hands_out(old(self).deadline_monitor_ownership(), tag@),
            final(self).deadline_monitor_ownership() == after_request(
                old(self).deadline_monitor_ownership(),
                tag@,
            ),
            result matches Some(monitor) ==> {
                &&& old(self).deadline_monitors()@[tag@] == MonitorState::Available(monitor)
                &&& monitor.wf()
                &&& final(self).deadline_monitors()@[tag@] matches MonitorState::Taken(handle)
                &&& monitor.eval_handle(handle)
            },
            result is None ==> final(self).deadline_monitors() == old(self).deadline_monitors(),
    {
        let index = match self.deadline_monitors.find(&tag.0) {
            Some(index) => index,
            None => {
                assert(self.deadline_monitor_ownership() =~= after_request(
                    old(self).deadline_monitor_ownership(),
                    tag@,
                ));
                return None;
            },
        };
        let handle = match self.deadline_monitors.value_at(index) {
            MonitorState::Available(monitor) => monitor.get_eval_handle(),
            MonitorState::Taken(_) => {
                assert(self.deadline_monitor_ownership() =~= after_request(
                    old(self).deadline_monitor_ownership(),
                    tag@,
                ));
                return None;
            },
        };
        let previous = self.deadline_monitors.replace_at(index, MonitorState::Taken(handle));
        proof {
            assert(self.deadline_monitor_ownership() =~= after_request(
                old(self).deadline_monitor_ownership(),
                tag@,
            ));
            let after = self.deadline_monitors.entries();
            assert forall|k: int| 0 <= k < after.len() implies waits_well_formed(
                (#[trigger] after[k]).1,
            ) by {
                if k != index {
                    assert(after[k] == old(self).deadline_monitors().entries()[k]);
                }
            }
        }
        match previous {
            MonitorState::Available(monitor) => Some(monitor),
            MonitorState::Taken(_) => None,
        }
    }

    /// Retrieves and removes (hand over to user) a heartbeat monitor
    /// associated with the given identifier tag, if it is registered and has
    /// not been obtained before.
    pub fn get_heartbeat_monitor(&mut self, tag: MonitorTag) -> (result: Option<HeartbeatMonitor>)
        requires
            old(self).wf(),
        ensures
            final(self).wf(),
            final(self).same_but_heartbeat_monitors(old(self)),
            same_but_state_of(
                final(self).heartbeat_monitors().entries(),
                old(self).heartbeat_monitors().entries(),
                tag@,
            ),
            result is Some <==> hands_out(old(self).heartbeat_monitor_ownership(), tag@),
            final(self).heartbeat_monitor_ownership() == after_request(
                old(self).heartbeat_monitor_ownership(),
                tag@,
            ),
            result matches Some(monitor) ==> {
                &&& old(self).heartbeat_monitors()@[tag@] == MonitorState::Available(monitor)
                &&& final(self).heartbeat_monitors()@[tag@] matches MonitorState::Taken(handle)
                &&& monitor.eval_handle(handle)
            },
            result is None ==> final(self).heartbeat_monitors() == old(self).heartbeat_monitors(),
    {
        let index = match self.heartbeat_monitors.find(&tag.0) {
            Some(index) => index,
            None => {
                assert(self.heartbeat_monitor_ownership() =~= after_request(
                    old(self).heartbeat_monitor_ownership(),
                    tag@,
                ));
                return None;
            },
        };
        let handle = match self.heartbeat_monitors.value_at(index) {
            MonitorState::Available(monitor) => monitor.get_eval_handle(),
            MonitorState::Taken(_) => {
                assert(self.heartbeat_monitor_ownership() =~= after_request(
                    old(self).heartbeat_monitor_ownership(),
                    tag@,
                ));
                return None;
            },
        };
        let previous = self.heartbeat_monitors.replace_at(index, MonitorState::Taken(handle));
        proof {
            assert(self.heartbeat_monitor_ownership() =~= after_request(
                old(self).heartbeat_monitor_ownership(),
                tag@,
            ));
        }
        match previous {
            MonitorState::Available(monitor) => Some(monitor),
            MonitorState::Taken(_) => None,
        }
    }

    /// Hands out the evaluator of all monitors, once, where at least one
    /// monitor is registered and every monitor has been taken.
    ///
    /// From this point the evaluator is to be run on every internal
    /// processing cycle.
    pub fn try_start(&mut self) -> (result: Result<MonitoringLogic, StartError>)
        requires
            old(self).wf(),
        ensures
            final(self).wf(),
            final(self).deadline_monitors() == old(self).deadline_monitors(),
            final(self).heartbeat_monitors() == old(self).heartbeat_monitors(),
            final(self).ticks_per_window() == old(self).ticks_per_window(),
            final(self).supervisor_api_cycle() == old(self).supervisor_api_cycle(),
            final(self).internal_processing_cycle() == old(self).internal_processing_cycle(),
            match old(self).checked_start() {
                Err(error) => result == Err::<MonitoringLogic, StartError>(error) && final(self).started() == old(self).started(),
                Ok(handles) => {
                    &&& result is Ok
                    &&& result->Ok_0.monitors() == handles
                    &&& result->Ok_0.window() == SupervisorWindow::first(old(self).ticks_per_window())
                    &&& result->Ok_0.wf()
                    &&& final(self).started()
                },
            },
    {
        if self.started {
            return Err(StartError::AlreadyStarted);
        }
        if self.deadline_monitors.len() == 0 && self.heartbeat_monitors.len() == 0 {
            return Err(StartError::NoMonitors);
        }
        // Eval handles to all monitors.
        let mut monitors: Vec<MonitorEvalHandle> = Vec::new();
        if let Some(tag) = collect_handles(&self.deadline_monitors, &mut monitors) {
            return Err(StartError::MonitorNotTaken { tag });
        }
        if let Some(tag) = collect_handles(&self.heartbeat_monitors, &mut monitors) {
            return Err(StartError::MonitorNotTaken { tag });
        }
        self.started = true;
        Ok(MonitoringLogic::new(monitors, self.ticks_per_window))
    }

    /// Hands out the evaluator of all monitors.
    ///
    /// From this point the evaluator is to be run on every internal
    /// processing cycle.
    pub fn start(&mut self) -> (logic: MonitoringLogic)
        requires
            old(self).wf(),
            old(self).checked_start() is Ok,
        ensures
            final(self).wf(),
            final(self).deadline_monitors() == old(self).deadline_monitors(),
            final(self).heartbeat_monitors() == old(self).heartbeat_monitors(),
            final(self).started(),
            Ok::<Seq<MonitorEvalHandle>, StartError>(logic.monitors()) == old(self).checked_start(),
            logic.window() == SupervisorWindow::first(old(self).ticks_per_window()),
            logic.wf(),
    {
        granted(self.try_start())
    }

    /// The supervisor cycle in whole milliseconds, as the supervisor is told
    /// it before the first tick; the largest `u64` where there are more.
    pub fn minimum_time_ms(&self) -> (millis: u64)
        ensures
            millis == if duration_millis(self.supervisor_api_cycle()) <= u64::MAX {
                duration_millis(self.supervisor_api_cycle())
            } else {
                u64::MAX as nat
            },
    {
        let whole: u128 = self.supervisor_api_cycle.as_nanos() / NANOS_PER_MILLI;
        if whole <= 0xffff_ffff_ffff_ffff {
            whole as u64
        } else {
            0xffff_ffff_ffff_ffff
        }
    }

    /// How often the supervisor is to be told that the process is alive.
    pub fn supervisor_cycle(&self) -> (cycle: Duration)
        ensures
            cycle == self.supervisor_api_cycle(),
    {
        self.supervisor_api_cycle
    }

    /// How often the evaluator is to be run.
    pub fn internal_cycle(&self) -> (cycle: Duration)
        ensures
            cycle == self.internal_processing_cycle(),
    {
        self.internal_processing_cycle
    }
}

} // verus!
