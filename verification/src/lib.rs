//! Liveness and timing supervision for cooperating tasks.
//!
//! A health monitor owns a set of named timing monitors. Deadline monitors
//! check that bracketed work finishes inside a time window; heartbeat
//! monitors check that a task ticks once per window. An evaluator samples
//! every monitor on a fixed internal cycle and decides, on a coarser cycle,
//! whether the process supervisor may be told that the process is alive.
//!
//! # How the parts fit
//!
//! - [`tag`] and [`time`] hold the identifiers and the arithmetic on
//!   monotonic time that everything else uses.
//! - [`registry`] is the map from tags to values behind every builder and
//!   every monitor.
//! - [`heartbeat`] and [`deadline`] hold the two kinds of monitor. Each keeps
//!   what it shares with the evaluator in one atomic word; what a heartbeat,
//!   a start, a stop or an evaluation makes of that word is a function on
//!   plain values with an exact contract.
//! - [`worker`] is the evaluator: one tick evaluates every monitor, and a
//!   window of ticks decides whether the supervisor hears from the process.
//! - [`health_monitor`] builds the monitors, hands each of them out once and
//!   hands out the evaluator when all of them are taken.
//! - [`boundary`] maps results to the numbers that callers in other
//!   languages see.
//! - [`alive`] is the step of a simpler loop, which reports to the
//!   supervisor until the first failure, and [`lifecycle`] reads the health
//!   of a unit off its state.
//!
//! The library starts no thread and talks to no supervisor. Whoever runs it
//! calls [`MonitoringLogic::tick`] once per internal processing cycle and
//! notifies the supervisor whenever the tick says so.
//!
//! # Refusals
//!
//! What can be refused comes in two forms. The form whose name begins with
//! `try_` or `checked_` returns the reason of a refusal. The other form has a
//! `requires` that rules the refusal out, for callers that know that nothing
//! is wrong; a caller that breaks it without being seen by the verifier is
//! stopped with the reason as its message.
//!
//! # What is assumed
//!
//! The clock and the shared words are outside of what is proved here. Of the
//! clock nothing is assumed but that the time between two instants is a
//! function of the instants, and that a duration has a length in
//! nanoseconds. Of a shared word nothing is assumed but what `fetch_update`
//! documents of its result: so the contracts of the
//! functions that read the clock or a shared word say what holds for every
//! reading, and the functions that take a reading as an argument say what
//! follows from it.
pub mod alive;
pub mod boundary;
pub mod common;
pub mod deadline;
pub mod health_monitor;
pub mod heartbeat;
pub mod lifecycle;
pub mod registry;
pub mod shared;
pub mod tag;
pub mod time;
pub mod worker;

pub use common::{
    ConfigError, EvaluationReport, HeartbeatMonitorEvaluationError, MonitorEvaluationError,
    Error, OwnershipState, Refusal, Status,
};
pub use health_monitor::{HealthMonitor, HealthMonitorBuilder, StartError};
pub use tag::{DeadlineTag, IdentTag, MonitorTag};
pub use time::{TimeError, TimeRange};
pub use worker::{MonitorEvalHandle, MonitoringLogic, SupervisorWindow};
