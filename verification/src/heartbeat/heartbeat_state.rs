//! The state that a heartbeat producer and its evaluator share.
//!
//! The whole state fits in one word of 128 bits, so both sides can read and
//! replace it in one atomic step. From the lowest bit up the word holds the
//! mark that the first cycle is over (1 bit), the number of heartbeats in the
//! cycle (16 bits, from bit 1), the offset of the last heartbeat from the
//! start of the cycle (32 bits, from bit 32) and the start of the cycle
//! (32 bits, from bit 64).
use crate::shared::{
    fetch_update_wide_word, load_wide_word, new_wide_word, store_wide_word, WideWordUpdate,
};
use portable_atomic::AtomicU128;
use vstd::prelude::*;

verus! {

/// One consistent reading of the state of a heartbeat monitor.
#[derive(Clone, Copy, Debug, PartialEq, Eq, Structural)]
pub struct HeartbeatStateSnapshot {
    /// Start of the current cycle, in milliseconds since the monitor was
    /// created.
    pub start_timestamp: u32,
    /// Milliseconds from `start_timestamp` to the last heartbeat of the cycle.
    pub heartbeat_timestamp_offset: u32,
    /// Heartbeats since the cycle began.
    pub counter: u16,
    /// Set once an evaluation has closed the first cycle.
    pub post_init: bool,
}

/// The word that stands for a snapshot.
pub open spec fn pack(snapshot: HeartbeatStateSnapshot) -> u128 {
    ((snapshot.start_timestamp as u128) << 64) | ((snapshot.heartbeat_timestamp_offset as u128)
        << 32) | ((snapshot.counter as u128) << 1) | (if snapshot.post_init {
        1u128
    } else {
        0u128
    })
}

/// The snapshot that a word stands for.
pub open spec fn unpack(word: u128) -> HeartbeatStateSnapshot {
    HeartbeatStateSnapshot {
        start_timestamp: ((word >> 64) & 0xffff_ffff) as u32,
        heartbeat_timestamp_offset: ((word >> 32) & 0xffff_ffff) as u32,
        counter: ((word >> 1) & 0xffff) as u16,
        post_init: (word & 1) == 1,
    }
}

impl HeartbeatStateSnapshot {
    /// The state of a monitor that has seen nothing yet.
    pub open spec fn initial() -> Self {
        HeartbeatStateSnapshot {
            start_timestamp: 0,
            heartbeat_timestamp_offset: 0,
            counter: 0,
            post_init: false,
        }
    }

    /// The state at the start of a later cycle.
    pub open spec fn cycle_start(start_timestamp: u32) -> Self {
        HeartbeatStateSnapshot {
            start_timestamp,
            heartbeat_timestamp_offset: 0,
            counter: 0,
            post_init: true,
        }
    }

    /// The state after one more heartbeat at `now`, in milliseconds since the
    /// monitor was created: the offset is the time since the start of the
    /// cycle, zero where `now` lies before that start, and the counter goes
    /// up by one, but stays at the largest `u16` once it is there. The start
    /// of the cycle and the mark of the first cycle stay as they are.
    pub open spec fn after_beat(self, now: u32) -> Self {
        HeartbeatStateSnapshot {
            start_timestamp: self.start_timestamp,
            heartbeat_timestamp_offset: if now >= self.start_timestamp {
                (now - self.start_timestamp) as u32
            } else {
                0
            },
            counter: if self.counter < u16::MAX {
                (self.counter + 1) as u16
            } else {
                u16::MAX
            },
            post_init: self.post_init,
        }
    }

    /// The point in time of the last heartbeat, in milliseconds since the
    /// monitor was created. While the first cycle lasts, the offset counts
    /// from the creation of the monitor.
    pub open spec fn heartbeat_timestamp(self) -> int {
        if self.post_init {
            self.start_timestamp + self.heartbeat_timestamp_offset
        } else {
            self.heartbeat_timestamp_offset as int
        }
    }

    /// Creates the state at the start of a cycle that is not the first.
    pub fn new(start_timestamp: u32) -> (snapshot: Self)
        ensures
            snapshot == Self::cycle_start(start_timestamp),
    {
        HeartbeatStateSnapshot {
            start_timestamp,
            heartbeat_timestamp_offset: 0,
            counter: 0,
            post_init: true,
        }
    }

    /// Records a heartbeat at `now`, in milliseconds since the monitor was
    /// created.
    pub fn record_beat(self, now: u32) -> (snapshot: Self)
        ensures
            snapshot == self.after_beat(now),
    {
        HeartbeatStateSnapshot {
            start_timestamp: self.start_timestamp,
            heartbeat_timestamp_offset: if now >= self.start_timestamp {
                now - self.start_timestamp
            } else {
                0
            },
            counter: if self.counter < u16::MAX {
                self.counter + 1
            } else {
                u16::MAX
            },
            post_init: self.post_init,
        }
    }

    /// Packs the snapshot into one word.
    pub fn to_word(self) -> (word: u128)
        ensures
            word == pack(self),
    {
        let flag: u128 = if self.post_init {
            1
        } else {
            0
        };
        ((self.start_timestamp as u128) << 64) | ((self.heartbeat_timestamp_offset as u128) << 32)
            | ((self.counter as u128) << 1) | flag
    }

    /// Reads a snapshot out of one word. Every word stands for a snapshot.
    pub fn from_word(word: u128) -> (snapshot: Self)
        ensures
            snapshot == unpack(word),
    {
        assert(((word >> 64) & 0xffff_ffff) <= 0xffff_ffff) by (bit_vector);
        assert(((word >> 32) & 0xffff_ffff) <= 0xffff_ffff) by (bit_vector);
        assert(((word >> 1) & 0xffff) <= 0xffff) by (bit_vector);
        HeartbeatStateSnapshot {
            start_timestamp: ((word >> 64) & 0xffff_ffff) as u32,
            heartbeat_timestamp_offset: ((word >> 32) & 0xffff_ffff) as u32,
            counter: ((word >> 1) & 0xffff) as u16,
            post_init: (word & 1) == 1,
        }
    }
}

impl Default for HeartbeatStateSnapshot {
    fn default() -> (snapshot: Self)
        ensures
            snapshot == Self::initial(),
    {
        HeartbeatStateSnapshot {
            start_timestamp: 0,
            heartbeat_timestamp_offset: 0,
            counter: 0,
            post_init: false,
        }
    }
}

/// Packing loses nothing: every snapshot is read back as it was written.
pub proof fn lemma_unpack_pack(snapshot: HeartbeatStateSnapshot)
    ensures
        unpack(pack(snapshot)) == snapshot,
{
    let start: u128 = snapshot.start_timestamp as u128;
    let offset: u128 = snapshot.heartbeat_timestamp_offset as u128;
    let counter: u128 = snapshot.counter as u128;
    let flag: u128 = if snapshot.post_init {
        1
    } else {
        0
    };
    let word: u128 = (start << 64) | (offset << 32) | (counter << 1) | flag;
    assert(word == pack(snapshot));
    assert(start <= 0xffff_ffff && offset <= 0xffff_ffff && counter <= 0xffff && flag <= 1 && word == (
    start << 64) | (offset << 32) | (counter << 1) | flag ==> ((word >> 64) & 0xffff_ffff) == start
        && ((word >> 32) & 0xffff_ffff) == offset && ((word >> 1) & 0xffff) == counter && (word
        & 1) == flag) by (bit_vector);
}

/// The word after one more heartbeat at `now`.
pub open spec fn word_after_beat(word: u128, now: u32) -> u128 {
    pack(unpack(word).after_beat(now))
}

/// Records a heartbeat at `now` in a packed word.
pub fn beat_word(word: u128, now: u32) -> (next: u128)
    ensures
        next == word_after_beat(word, now),
{
    HeartbeatStateSnapshot::from_word(word).record_beat(now).to_word()
}

/// One heartbeat at `now`, in milliseconds since the monitor was created,
/// as a change to the shared word. It never declines.
pub struct Beat {
    pub now: u32,
}

impl WideWordUpdate for Beat {
    open spec fn updated(&self, word: u128) -> Option<u128> {
        Some(word_after_beat(word, self.now))
    }

    fn update(&self, word: u128) -> (next: Option<u128>) {
        Some(beat_word(word, self.now))
    }
}

/// The heartbeat state of one monitor, shared between the task that beats
/// and the evaluator. Every update replaces the whole word in one step.
pub struct HeartbeatState {
    word: AtomicU128,
}

impl HeartbeatState {
    /// Creates the shared state with `snapshot` in it.
    pub fn new(snapshot: HeartbeatStateSnapshot) -> (state: Self) {
        HeartbeatState { word: new_wide_word(snapshot.to_word()) }
    }

    /// Reads the state in one step.
    pub fn snapshot(&self) -> (snapshot: HeartbeatStateSnapshot) {
        HeartbeatStateSnapshot::from_word(load_wide_word(&self.word))
    }

    /// Records a heartbeat at `now` and returns the state that it replaced.
    pub fn beat(&self, now: u32) -> (previous: HeartbeatStateSnapshot) {
        match fetch_update_wide_word(&self.word, &Beat { now }) {
            Ok(word) => HeartbeatStateSnapshot::from_word(word),
            Err(word) => HeartbeatStateSnapshot::from_word(word),
        }
    }

    /// Replaces the state by `snapshot` in one step.
    pub fn replace(&self, snapshot: HeartbeatStateSnapshot) {
        store_wide_word(&self.word, snapshot.to_word())
    }
}

} // verus!
