//! The state that a deadline and its evaluator share.
//!
//! The state fits in one 64-bit word: the two lowest bits tell the phase,
//! the upper 32 bits hold the point in time or the length that belongs to it.
use crate::common::MonitorEvaluationError;
use crate::shared::{fetch_update, WordUpdate};
use crate::time::InternalRange;
use std::sync::atomic::AtomicU64;
use std::sync::atomic::Ordering;
use vstd::prelude::*;

verus! {

/// The state of a deadline as its handle knows it.
#[derive(Clone, Copy, Debug, PartialEq, Eq, Structural)]
pub enum DeadlineState {
    /// No measurement is under way.
    Idle,
    /// A measurement has been started and not stopped.
    Running,
}

/// One consistent reading of what a deadline shares with its evaluator.
#[derive(Clone, Copy, Debug, PartialEq, Eq, Structural)]
pub enum DeadlineStateSnapshot {
    /// Nothing to evaluate.
    Idle,
    /// A measurement began at `start_timestamp`, in milliseconds since the
    /// monitor was created.
    Running { start_timestamp: u32 },
    /// A measurement took `elapsed` milliseconds and waits for its
    /// evaluation.
    Stopped { elapsed: u32 },
}

/// The word that stands for a snapshot.
pub open spec fn pack(snapshot: DeadlineStateSnapshot) -> u64 {
    match snapshot {
        DeadlineStateSnapshot::Idle => 0,
        DeadlineStateSnapshot::Running { start_timestamp } => ((start_timestamp as u64) << 32) | 1,
        DeadlineStateSnapshot::Stopped { elapsed } => ((elapsed as u64) << 32) | 2,
    }
}

/// The snapshot that a word stands for.
pub open spec fn unpack(word: u64) -> DeadlineStateSnapshot {
    if (word & 3) == 1 {
        DeadlineStateSnapshot::Running { start_timestamp: (word >> 32) as u32 }
    } else if (word & 3) == 2 {
        DeadlineStateSnapshot::Stopped { elapsed: (word >> 32) as u32 }
    } else {
        DeadlineStateSnapshot::Idle
    }
}

/// Packing loses nothing: every snapshot is read back as it was written.
pub proof fn lemma_unpack_pack(snapshot: DeadlineStateSnapshot)
    ensures
        unpack(pack(snapshot)) == snapshot,
{
    assert((0u64 & 3) == 0) by (bit_vector);
    match snapshot {
        DeadlineStateSnapshot::Idle => {},
        DeadlineStateSnapshot::Running { start_timestamp } => {
            let payload = start_timestamp as u64;
            assert(payload <= 0xffff_ffff ==> (((payload << 32) | 1) & 3) == 1 && (((payload << 32)
                | 1) >> 32) == payload) by (bit_vector);
        },
        DeadlineStateSnapshot::Stopped { elapsed } => {
            let payload = elapsed as u64;
            assert(payload <= 0xffff_ffff ==> (((payload << 32) | 2) & 3) == 2 && (((payload << 32)
                | 2) >> 32) == payload) by (bit_vector);
        },
    }
}

/// What one evaluation finds for one deadline.
#[derive(Clone, Copy, Debug, PartialEq, Eq, Structural)]
pub enum DeadlineEvaluation {
    /// Nothing has finished and nothing is overdue.
    Nothing,
    /// A measurement is under way for longer than the range allows.
    Overdue,
    /// A measurement has finished inside its range.
    Completed,
    /// A measurement has finished outside its range.
    Missed(MonitorEvaluationError),
}

impl DeadlineEvaluation {
    /// The failure that the evaluation reports, if it reports one.
    pub open spec fn failure(self) -> Option<MonitorEvaluationError> {
        match self {
            DeadlineEvaluation::Overdue => Some(MonitorEvaluationError::TooLate),
            DeadlineEvaluation::Missed(error) => Some(error),
            _ => None,
        }
    }

    /// Whether the evaluation has seen a finished measurement, after which
    /// the deadline is idle again.
    pub open spec fn clears(self) -> bool {
        self is Completed || self is Missed
    }

    /// The failure that the evaluation reports, if it reports one.
    pub fn reported(self) -> (failure: Option<MonitorEvaluationError>)
        ensures
            failure == self.failure(),
    {
        match self {
            DeadlineEvaluation::Overdue => Some(MonitorEvaluationError::TooLate),
            DeadlineEvaluation::Missed(error) => Some(error),
            _ => None,
        }
    }

    /// Whether the evaluation has seen a finished measurement.
    pub fn has_finished(self) -> (finished: bool)
        ensures
            finished == self.clears(),
    {
        match self {
            DeadlineEvaluation::Completed => true,
            DeadlineEvaluation::Missed(_) => true,
            _ => false,
        }
    }
}

/// The verdict on `snapshot`, read at `now`, for a deadline with the accepted
/// `range`. `now` counts milliseconds since the monitor was created.
///
/// A running measurement is overdue once it has run for longer than the
/// range allows. A finished one has missed its range if it was shorter or
/// longer than the range allows, and has completed otherwise.
pub open spec fn deadline_evaluation(
    snapshot: DeadlineStateSnapshot,
    range: InternalRange,
    now: int,
) -> DeadlineEvaluation {
    match snapshot {
        DeadlineStateSnapshot::Idle => DeadlineEvaluation::Nothing,
        DeadlineStateSnapshot::Running { start_timestamp } => if now - start_timestamp > range.max {
            DeadlineEvaluation::Overdue
        } else {
            DeadlineEvaluation::Nothing
        },
        DeadlineStateSnapshot::Stopped { elapsed } => if elapsed < range.min {
            DeadlineEvaluation::Missed(MonitorEvaluationError::TooEarly)
        } else if elapsed > range.max {
            DeadlineEvaluation::Missed(MonitorEvaluationError::TooLate)
        } else {
            DeadlineEvaluation::Completed
        },
    }
}

impl DeadlineStateSnapshot {
    /// How the shared state changes when a measurement starts at `now`:
    /// only an idle deadline can start.
    pub open spec fn after_start(self, now: u32) -> Option<Self> {
        match self {
            DeadlineStateSnapshot::Idle => Some(DeadlineStateSnapshot::Running { start_timestamp: now }),
            _ => None,
        }
    }

    /// Starts a measurement at `now`, in milliseconds since the monitor was
    /// created, where the deadline is idle.
    pub fn start(self, now: u32) -> (next: Option<Self>)
        ensures
            next == self.after_start(now),
    {
        match self {
            DeadlineStateSnapshot::Idle => Some(DeadlineStateSnapshot::Running { start_timestamp: now }),
            _ => None,
        }
    }

    /// Evaluates one reading of the state of a deadline.
    pub fn evaluate(self, range: InternalRange, now: u64) -> (evaluation: DeadlineEvaluation)
        ensures
            evaluation == deadline_evaluation(self, range, now as int),
    {
        match self {
            DeadlineStateSnapshot::Idle => DeadlineEvaluation::Nothing,
            DeadlineStateSnapshot::Running { start_timestamp } => {
                if now > start_timestamp as u64 + range.max as u64 {
                    DeadlineEvaluation::Overdue
                } else {
                    DeadlineEvaluation::Nothing
                }
            },
            DeadlineStateSnapshot::Stopped { elapsed } => {
                if elapsed < range.min {
                    DeadlineEvaluation::Missed(MonitorEvaluationError::TooEarly)
                } else if elapsed > range.max {
                    DeadlineEvaluation::Missed(MonitorEvaluationError::TooLate)
                } else {
                    DeadlineEvaluation::Completed
                }
            },
        }
    }

    /// Packs the snapshot into one word.
    pub fn to_word(self) -> (word: u64)
        ensures
            word == pack(self),
    {
        match self {
            DeadlineStateSnapshot::Idle => 0,
            DeadlineStateSnapshot::Running { start_timestamp } => ((start_timestamp as u64) << 32)
                | 1,
            DeadlineStateSnapshot::Stopped { elapsed } => ((elapsed as u64) << 32) | 2,
        }
    }

    /// Reads a snapshot out of one word. Every word stands for a snapshot.
    pub fn from_word(word: u64) -> (snapshot: Self)
        ensures
            snapshot == unpack(word),
    {
        if (word & 3) == 1 {
            DeadlineStateSnapshot::Running { start_timestamp: (word >> 32) as u32 }
        } else if (word & 3) == 2 {
            DeadlineStateSnapshot::Stopped { elapsed: (word >> 32) as u32 }
        } else {
            DeadlineStateSnapshot::Idle
        }
    }
}

/// The word after a start at `now`, where the word stands for an idle
/// deadline.
pub open spec fn word_after_start(word: u64, now: u32) -> Option<u64> {
    match unpack(word).after_start(now) {
        Some(next) => Some(pack(next)),
        None => None,
    }
}

/// Starts a measurement at `now` in a packed word.
pub fn start_word(word: u64, now: u32) -> (next: Option<u64>)
    ensures
        next == word_after_start(word, now),
{
    match DeadlineStateSnapshot::from_word(word).start(now) {
        Some(next) => Some(next.to_word()),
        None => None,
    }
}

/// The start of a measurement at `now`, in milliseconds since the monitor
/// was created, as a change to the shared word. It declines where the
/// deadline is not idle.
pub struct Start {
    pub now: u32,
}

impl WordUpdate for Start {
    open spec fn updated(&self, word: u64) -> Option<u64> {
        word_after_start(word, self.now)
    }

    fn update(&self, word: u64) -> (next: Option<u64>) {
        start_word(word, self.now)
    }
}

/// The state of one deadline, shared between its handle and the evaluator.
/// Every update replaces the whole word in one step.
pub struct DeadlineCell {
    word: AtomicU64,
}

impl DeadlineCell {
    /// Creates the shared state of an idle deadline.
    pub fn new() -> (cell: Self) {
        DeadlineCell { word: AtomicU64::new(DeadlineStateSnapshot::Idle.to_word()) }
    }

    /// Reads the state in one step.
    pub fn snapshot(&self) -> (snapshot: DeadlineStateSnapshot) {
        DeadlineStateSnapshot::from_word(self.word.load(Ordering::Acquire))
    }

    /// Starts a measurement at `now` where the deadline is idle, and tells
    /// whether it did. The result is the state that was found.
    pub fn start(&self, now: u32) -> (found: Result<DeadlineStateSnapshot, DeadlineStateSnapshot>)
        ensures
            found matches Ok(snapshot) ==> snapshot is Idle,
            found matches Err(snapshot) ==> !(snapshot is Idle),
    {
        match fetch_update(&self.word, &Start { now }) {
            Ok(word) => Ok(DeadlineStateSnapshot::from_word(word)),
            Err(word) => Err(DeadlineStateSnapshot::from_word(word)),
        }
    }

    /// Records that the measurement took `elapsed` milliseconds.
    pub fn stop(&self, elapsed: u32) {
        self.word.store(DeadlineStateSnapshot::Stopped { elapsed }.to_word(), Ordering::Release)
    }

    /// Makes the deadline idle again, unless the state is no longer `seen`.
    pub fn clear(&self, seen: DeadlineStateSnapshot) {
        let _ = self.word.compare_exchange(
            seen.to_word(),
            DeadlineStateSnapshot::Idle.to_word(),
            Ordering::AcqRel,
            Ordering::Acquire,
        );
    }
}

} // verus!
