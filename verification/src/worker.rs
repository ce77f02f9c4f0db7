//! The evaluator: every monitor once per tick, and the supervisor once per
//! window of ticks in which nothing failed.
use crate::common::{EvaluationReport, Status};
use crate::deadline::deadline_monitor::DeadlineMonitorInner;
use crate::heartbeat::heartbeat_monitor::HeartbeatMonitorInner;
use crate::shared::share;
use crate::time::TimeError;
use std::sync::Arc;
use std::time::Instant;
use vstd::prelude::*;

verus! {

/// Handle to the state that a monitor shares with the evaluator, one variant
/// for each kind of monitor.
pub enum MonitorEvalHandle {
    /// The deadlines of a deadline monitor.
    Deadline(Arc<DeadlineMonitorInner>),
    /// The state of a heartbeat monitor.
    Heartbeat(Arc<HeartbeatMonitorInner>),
}

impl MonitorEvalHandle {
    /// An evaluation against this starting point of the health monitor may
    /// return `result` and add `added` to the reports.
    pub open spec fn evaluates_to(
        &self,
        hmon_starting_point: Instant,
        result: Result<Status, TimeError>,
        added: Seq<EvaluationReport>,
    ) -> bool {
        match self {
            MonitorEvalHandle::Deadline(inner) => inner.steps_to(hmon_starting_point, result, added),
            MonitorEvalHandle::Heartbeat(inner) => inner.evaluates_to(
                hmon_starting_point,
                result,
                added,
            ),
        }
    }

    /// One more handle to the same shared state.
    pub fn share(&self) -> (other: Self)
        ensures
            other == *self,
    {
        match self {
            MonitorEvalHandle::Deadline(inner) => MonitorEvalHandle::Deadline(share(inner)),
            MonitorEvalHandle::Heartbeat(inner) => MonitorEvalHandle::Heartbeat(share(inner)),
        }
    }

    /// Run monitor evaluation.
    ///
    /// - `hmon_starting_point` - starting point of all monitors.
    /// - `reports` - receives the tag of what failed with each failure.
    pub fn evaluate(&self, hmon_starting_point: Instant, reports: &mut Vec<EvaluationReport>) -> (result:
        Result<Status, TimeError>)
        ensures
            old(reports)@.len() <= final(reports)@.len(),
            final(reports)@.take(old(reports)@.len() as int) == old(reports)@,
            self.evaluates_to(
                hmon_starting_point,
                result,
                final(reports)@.skip(old(reports)@.len() as int),
            ),
    {
        match self {
            MonitorEvalHandle::Deadline(inner) => inner.step(hmon_starting_point, reports),
            MonitorEvalHandle::Heartbeat(inner) => inner.evaluate(hmon_starting_point, reports),
        }
    }
}

/// The ticks of the evaluator, counted in windows of one supervisor cycle.
#[derive(Clone, Copy, Debug, PartialEq, Eq, Structural)]
pub struct SupervisorWindow {
    /// Ticks in one window.
    pub ticks_per_window: u128,
    /// Ticks of the current window that have passed.
    pub ticks: u128,
    /// Whether any tick of the current window has reported a failure.
    pub failed: bool,
}

impl SupervisorWindow {
    /// A window holds at least one tick, and not all of its ticks have
    /// passed.
    pub open spec fn wf(&self) -> bool {
        self.ticks < self.ticks_per_window
    }

    /// The first window, with no tick passed.
    pub open spec fn first(ticks_per_window: u128) -> Self {
        SupervisorWindow { ticks_per_window, ticks: 0, failed: false }
    }

    /// The window after one more tick, and whether the supervisor is told
    /// that the process is alive: it is told at the last tick of a window in
    /// which no tick has reported a failure. The next window starts clean.
    pub open spec fn after_tick(self, failed: bool) -> (Self, bool) {
        if self.ticks + 1 >= self.ticks_per_window {
            (
                SupervisorWindow { ticks_per_window: self.ticks_per_window, ticks: 0, failed: false },
                !self.failed && !failed,
            )
        } else {
            (
                SupervisorWindow {
                    ticks_per_window: self.ticks_per_window,
                    ticks: (self.ticks + 1) as u128,
                    failed: self.failed || failed,
                },
                false,
            )
        }
    }

    /// Creates the first window.
    pub fn new(ticks_per_window: u128) -> (window: Self)
        requires
            ticks_per_window > 0,
        ensures
            window == Self::first(ticks_per_window),
            window.wf(),
    {
        SupervisorWindow { ticks_per_window, ticks: 0, failed: false }
    }

    /// Counts one tick, which has reported a failure or not, and tells
    /// whether the supervisor is to be told that the process is alive.
    pub fn record_tick(&mut self, failed: bool) -> (keep_alive: bool)
        requires
            old(self).wf(),
        ensures
            (*final(self), keep_alive) == old(self).after_tick(failed),
            final(self).wf(),
    {
        if self.ticks + 1 >= self.ticks_per_window {
            let keep_alive = !self.failed && !failed;
            self.ticks = 0;
            self.failed = false;
            keep_alive
        } else {
            self.ticks = self.ticks + 1;
            self.failed = self.failed || failed;
            false
        }
    }
}

/// The window after the first `count` ticks of a run that starts with the
/// first window, where tick `k` has reported a failure exactly if `failed[k]`
/// holds.
pub open spec fn window_after(ticks_per_window: u128, failed: Seq<bool>, count: int) -> SupervisorWindow
    decreases count,
{
    if count <= 0 {
        SupervisorWindow::first(ticks_per_window)
    } else {
        window_after(ticks_per_window, failed, count - 1).after_tick(failed[count - 1]).0
    }
}

/// Whether the supervisor is told at tick `tick` of such a run that the
/// process is alive.
pub open spec fn keep_alive_at(ticks_per_window: u128, failed: Seq<bool>, tick: int) -> bool {
    window_after(ticks_per_window, failed, tick).after_tick(failed[tick]).1
}

/// The window after `count` ticks counts the ticks since its own start, and
/// it has failed exactly if one of those ticks has reported a failure.
pub proof fn lemma_window_counts_its_ticks(ticks_per_window: u128, failed: Seq<bool>, count: int)
    requires
        ticks_per_window > 0,
        0 <= count <= failed.len(),
    ensures
        ({
            let window = window_after(ticks_per_window, failed, count);
            &&& window.ticks_per_window == ticks_per_window
            &&& window.wf()
            &&& window.ticks <= count
            &&& window.failed <==> exists|j: int| count - window.ticks <= j < count && failed[j]
            &&& forall|earlier: int|
                count - window.ticks <= earlier <= count ==> (#[trigger] window_after(
                    ticks_per_window,
                    failed,
                    earlier,
                )).ticks == window.ticks - (count - earlier)
        }),
    decreases count,
{
    if count > 0 {
        lemma_window_counts_its_ticks(ticks_per_window, failed, count - 1);
        let earlier = window_after(ticks_per_window, failed, count - 1);
        let window = window_after(ticks_per_window, failed, count);
        if window.ticks > 0 {
            assert(window.ticks == earlier.ticks + 1);
            if window.failed {
                if earlier.failed {
                    let j = choose|j: int| count - 1 - earlier.ticks <= j < count - 1 && failed[j];
                    assert(count - window.ticks <= j < count && failed[j]);
                } else {
                    assert(failed[count - 1]);
                }
            }
            assert forall|m: int| count - window.ticks <= m <= count implies (#[trigger] window_after(
                ticks_per_window,
                failed,
                m,
            )).ticks == window.ticks - (count - m) by {
                if m < count {
                    assert(window_after(ticks_per_window, failed, m).ticks == earlier.ticks - (count
                        - 1 - m));
                }
            }
        }
    }
}

/// The supervisor is told that the process is alive only at the end of a
/// full window in which no tick has reported a failure, and not more than
/// once in any window's length of ticks.
pub proof fn lemma_keep_alive_is_gated(ticks_per_window: u128, failed: Seq<bool>, tick: int)
    requires
        ticks_per_window > 0,
        0 <= tick < failed.len(),
        keep_alive_at(ticks_per_window, failed, tick),
    ensures
        tick + 1 >= ticks_per_window,
        forall|j: int| tick - ticks_per_window < j <= tick ==> !failed[j],
        forall|j: int|
            tick - ticks_per_window < j < tick && 0 <= j ==> !keep_alive_at(ticks_per_window, failed, j),
{
    lemma_window_counts_its_ticks(ticks_per_window, failed, tick);
    let window = window_after(ticks_per_window, failed, tick);
    assert(window.ticks + 1 == ticks_per_window);
    assert forall|j: int| tick - ticks_per_window < j < tick && 0 <= j implies !keep_alive_at(
        ticks_per_window,
        failed,
        j,
    ) by {
        lemma_window_counts_its_ticks(ticks_per_window, failed, j);
        assert(window_after(ticks_per_window, failed, j).ticks == window.ticks - (tick - j));
    }
}

/// The reports of the first `count` of `parts`, one after the other.
pub open spec fn joined(parts: Seq<Seq<EvaluationReport>>, count: int) -> Seq<EvaluationReport>
    decreases count,
{
    if count <= 0 {
        Seq::empty()
    } else {
        joined(parts, count - 1) + parts[count - 1]
    }
}

/// The evaluator of a health monitor: the monitors that it samples and the
/// window of ticks that it is in.
pub struct MonitoringLogic {
    monitors: Vec<MonitorEvalHandle>,
    window: SupervisorWindow,
}

impl MonitoringLogic {
    /// The monitors in the order in which they are evaluated.
    pub closed spec fn monitors(&self) -> Seq<MonitorEvalHandle> {
        self.monitors@
    }

    /// The window of ticks that the evaluator is in.
    pub closed spec fn window(&self) -> SupervisorWindow {
        self.window
    }

    /// The window is well formed.
    pub open spec fn wf(&self) -> bool {
        self.window().wf()
    }

    /// Every monitor, evaluated once against this starting point of the
    /// health monitor, may return its status of `statuses` and report its
    /// part of `parts`.
    pub open spec fn evaluated_as(
        &self,
        hmon_starting_point: Instant,
        statuses: Seq<Status>,
        parts: Seq<Seq<EvaluationReport>>,
    ) -> bool {
        &&& parts.len() == self.monitors().len()
        &&& statuses.len() == self.monitors().len()
        &&& forall|k: int|
            0 <= k < self.monitors().len() ==> (#[trigger] self.monitors()[k]).evaluates_to(
                hmon_starting_point,
                Ok(statuses[k]),
                parts[k],
            )
    }

    /// A tick against this starting point of the health monitor may add
    /// `added` to the reports: it does where every monitor is evaluated once,
    /// in order, none of them fails on the clock, and `added` holds what they
    /// report, one after the other.
    pub open spec fn ticks_to(&self, hmon_starting_point: Instant, added: Seq<EvaluationReport>) -> bool {
        exists|statuses: Seq<Status>, parts: Seq<Seq<EvaluationReport>>| #[trigger]
            self.evaluated_as(hmon_starting_point, statuses, parts) && joined(
                parts,
                parts.len() as int,
            ) == added
    }

    /// The monitors before the last part's monitor, evaluated once, in
    /// order, against this starting point of the health monitor, may return
    /// their statuses of `statuses` and report their parts of `parts`, and
    /// the monitor of the last part may then fail on the clock with `error`.
    pub open spec fn evaluated_until_failure(
        &self,
        hmon_starting_point: Instant,
        statuses: Seq<Status>,
        parts: Seq<Seq<EvaluationReport>>,
        error: TimeError,
    ) -> bool {
        &&& 0 < parts.len() <= self.monitors().len()
        &&& statuses.len() == parts.len() - 1
        &&& forall|k: int|
            0 <= k < parts.len() - 1 ==> (#[trigger] self.monitors()[k]).evaluates_to(
                hmon_starting_point,
                Ok(statuses[k]),
                parts[k],
            )
        &&& self.monitors()[parts.len() - 1].evaluates_to(
            hmon_starting_point,
            Err(error),
            parts[parts.len() - 1],
        )
    }

    /// A tick against this starting point of the health monitor may fail
    /// with `error` after it has added `added` to the reports: it does where
    /// one monitor fails on the clock with `error`, the monitors before it
    /// have been evaluated once, in order, without failing on the clock, and
    /// `added` holds what they all report, one after the other. The monitors
    /// after the failing one are not evaluated.
    pub open spec fn fails_to(
        &self,
        hmon_starting_point: Instant,
        error: TimeError,
        added: Seq<EvaluationReport>,
    ) -> bool {
        exists|statuses: Seq<Status>, parts: Seq<Seq<EvaluationReport>>| #[trigger]
            self.evaluated_until_failure(hmon_starting_point, statuses, parts, error) && joined(
                parts,
                parts.len() as int,
            ) == added
    }

    /// Creates the evaluator of `monitors` in its first window.
    ///
    /// - `ticks_per_window` - the internal processing cycles in one
    ///   supervisor cycle.
    pub fn new(monitors: Vec<MonitorEvalHandle>, ticks_per_window: u128) -> (logic: Self)
        requires
            ticks_per_window > 0,
        ensures
            logic.monitors() == monitors@,
            logic.window() == SupervisorWindow::first(ticks_per_window),
            logic.wf(),
    {
        MonitoringLogic { monitors, window: SupervisorWindow::new(ticks_per_window) }
    }

    /// The number of monitors.
    pub fn monitor_count(&self) -> (count: usize)
        ensures
            count == self.monitors().len(),
    {
        self.monitors.len()
    }

    /// Runs one tick: evaluates every monitor once, in order, then counts
    /// the tick. Returns whether the supervisor is to be told now that the
    /// process is alive.
    ///
    /// A failure reported by one monitor does not keep the others from being
    /// evaluated. A monitor that fails on the clock ends the tick at once:
    /// the tick is not counted then.
    pub fn tick(&mut self, hmon_starting_point: Instant, reports: &mut Vec<EvaluationReport>) -> (result:
        Result<bool, TimeError>)
        requires
            old(self).wf(),
        ensures
            final(self).wf(),
            final(self).monitors() == old(self).monitors(),
            old(reports)@.len() <= final(reports)@.len(),
            final(reports)@.take(old(reports)@.len() as int) == old(reports)@,
            old(self).monitors().len() == 0 ==> result is Ok,
            match result {
                Ok(keep_alive) => {
                    &&& old(self).ticks_to(
                        hmon_starting_point,
                        final(reports)@.skip(old(reports)@.len() as int),
                    )
                    &&& (final(self).window(), keep_alive) == old(self).window().after_tick(
                        final(reports)@.len() > old(reports)@.len(),
                    )
                },
                Err(error) => {
                    &&& old(self).fails_to(
                        hmon_starting_point,
                        error,
                        final(reports)@.skip(old(reports)@.len() as int),
                    )
                    &&& final(self).window() == old(self).window()
                },
            },
    {
        let ghost before = reports@;
        let reported: usize = reports.len();
        let ghost mut parts: Seq<Seq<EvaluationReport>> = Seq::empty();
        let ghost mut statuses: Seq<Status> = Seq::empty();
        let mut i: usize = 0;
        while i < self.monitors.len()
            invariant
                i <= self.monitors@.len(),
                *self == *old(self),
                self.wf(),
                before == old(reports)@,
                reported == before.len(),
                parts.len() == i,
                statuses.len() == i,
                reports@ == before + joined(parts, i as int),
                forall|k: int|
                    0 <= k < i ==> (#[trigger] self.monitors@[k]).evaluates_to(
                        hmon_starting_point,
                        Ok(statuses[k]),
                        parts[k],
                    ),
            decreases self.monitors.len() - i,
        {
            let ghost earlier = reports@;
            let evaluated = self.monitors[i].evaluate(hmon_starting_point, reports);
            proof {
                lemma_joined_with_part(before, parts, earlier, reports@);
                parts = parts.push(reports@.skip(earlier.len() as int));
            }
            match evaluated {
                Ok(status) => {
                    proof {
                        statuses = statuses.push(status);
                    }
                },
                Err(error) => {
                    assert(self.evaluated_until_failure(
                        hmon_starting_point,
                        statuses,
                        parts,
                        error,
                    ));
                    return Err(error);
                },
            }
            i += 1;
        }
        proof {
            assert(reports@.skip(before.len() as int) =~= joined(parts, parts.len() as int));
            assert(reports@.take(before.len() as int) =~= before);
            assert(self.evaluated_as(hmon_starting_point, statuses, parts));
        }
        let failed = reports.len() > reported;
        Ok(self.window.record_tick(failed))
    }
}

/// Where the reports so far are what came before and the parts, one after
/// the other, and an evaluation has added to them, the reports are now what
/// came before and the parts with what the evaluation added as one more
/// part.
pub proof fn lemma_joined_with_part(
    before: Seq<EvaluationReport>,
    parts: Seq<Seq<EvaluationReport>>,
    earlier: Seq<EvaluationReport>,
    later: Seq<EvaluationReport>,
)
    requires
        earlier == before + joined(parts, parts.len() as int),
        earlier.len() <= later.len(),
        later.take(earlier.len() as int) == earlier,
    ensures
        ({
            let longer = parts.push(later.skip(earlier.len() as int));
            &&& later == before + joined(longer, longer.len() as int)
            &&& later.take(before.len() as int) == before
            &&& later.skip(before.len() as int) == joined(longer, longer.len() as int)
        }),
{
    let part = later.skip(earlier.len() as int);
    let longer = parts.push(part);
    lemma_joined_prefix(parts, longer, parts.len() as int);
    assert(later =~= later.take(earlier.len() as int) + part);
    assert(later =~= before + joined(longer, longer.len() as int));
    assert(later.take(before.len() as int) =~= before);
    assert(later.skip(before.len() as int) =~= joined(longer, longer.len() as int));
}

/// The reports of the first parts depend on those parts alone.
pub proof fn lemma_joined_prefix(
    shorter: Seq<Seq<EvaluationReport>>,
    longer: Seq<Seq<EvaluationReport>>,
    count: int,
)
    requires
        count <= shorter.len() <= longer.len(),
        forall|k: int| 0 <= k < count ==> shorter[k] == longer[k],
    ensures
        joined(shorter, count) == joined(longer, count),
    decreases count,
{
    if count > 0 {
        lemma_joined_prefix(shorter, longer, count - 1);
    }
}

} // verus!
