//! Monotonic time: durations in whole milliseconds and accepted ranges.
use core::time::Duration;
use crate::common::{granted, present, ConfigError, Refusal};
use std::time::Instant;
use vstd::prelude::*;

verus! {

/// A point on the monotonic clock. Nothing of its inside is visible here.
#[verifier::external_type_specification]
#[verifier::external_body]
pub struct ExInstant(std::time::Instant);

/// The length of a duration in nanoseconds: what `Duration::as_nanos` returns.
pub uninterp spec fn duration_nanos(duration: Duration) -> nat;

/// The time from `earlier` to `later`: what
/// `Instant::checked_duration_since` returns, `None` where `later` lies
/// before `earlier`.
pub uninterp spec fn duration_between(later: Instant, earlier: Instant) -> Option<Duration>;

/// `Duration::as_nanos` returns the total number of nanoseconds.
pub assume_specification[ Duration::as_nanos ](duration: &Duration) -> (nanos: u128)
    ensures
        nanos == duration_nanos(*duration),
;

/// `Duration::from_millis` makes a duration of that many milliseconds.
pub assume_specification[ Duration::from_millis ](millis: u64) -> (duration: Duration)
    ensures
        duration_nanos(duration) == millis * NANOS_PER_MILLI,
;

/// `Instant::now` reads the monotonic clock; nothing is known of the reading.
pub assume_specification[ Instant::now ]() -> Instant;

/// `Instant::elapsed` reads the clock; nothing is known of the reading.
pub assume_specification[ Instant::elapsed ](instant: &Instant) -> Duration;

/// `Instant::checked_duration_since` depends on the two instants alone.
pub assume_specification[ Instant::checked_duration_since ](
    later: &Instant,
    earlier: Instant,
) -> (gap: Option<Duration>)
    ensures
        gap == duration_between(*later, earlier),
;

/// Nanoseconds in one millisecond.
pub const NANOS_PER_MILLI: u128 = 1_000_000;

/// The whole milliseconds that a duration holds.
pub open spec fn duration_millis(duration: Duration) -> nat {
    duration_nanos(duration) / (NANOS_PER_MILLI as nat)
}

/// Why a reading of the clock could not be used.
#[derive(Clone, Copy, Debug, PartialEq, Eq, Structural)]
pub enum TimeError {
    /// The health monitor was started before the monitor was created.
    StartBeforeMonitor,
    /// More milliseconds have passed than a `u32` can hold.
    RunningTooLong,
}

impl Refusal for TimeError {
    open spec fn reason(&self) -> Seq<char> {
        match self {
            TimeError::StartBeforeMonitor => "HMON starting point is earlier than monitor starting point"@,
            TimeError::RunningTooLong => "Monitor running for too long"@,
        }
    }

    fn message(&self) -> (text: String) {
        match self {
            TimeError::StartBeforeMonitor => {
                "HMON starting point is earlier than monitor starting point".to_owned()
            },
            TimeError::RunningTooLong => "Monitor running for too long".to_owned(),
        }
    }
}

/// The whole milliseconds of `duration`, where they fit in a `u32`.
pub fn checked_duration_to_u32(duration: Duration) -> (millis: Option<u32>)
    ensures
        millis is Some <==> duration_millis(duration) <= u32::MAX,
        millis is Some ==> millis->0 == duration_millis(duration),
{
    let whole: u128 = duration.as_nanos() / NANOS_PER_MILLI;
    if whole <= 0xffff_ffff {
        Some(whole as u32)
    } else {
        None
    }
}

/// The whole milliseconds of `duration`.
pub fn duration_to_u32(duration: Duration) -> (millis: u32)
    requires
        duration_millis(duration) <= u32::MAX,
    ensures
        millis == duration_millis(duration),
{
    present(checked_duration_to_u32(duration), TimeError::RunningTooLong)
}

/// What `checked_hmon_time_offset` returns for a given gap between the two
/// starting points.
pub open spec fn offset_of_gap(gap: Option<Duration>) -> Result<u32, TimeError> {
    match gap {
        None => Err(TimeError::StartBeforeMonitor),
        Some(duration) => if duration_millis(duration) <= u32::MAX {
            Ok(duration_millis(duration) as u32)
        } else {
            Err(TimeError::RunningTooLong)
        },
    }
}

/// Milliseconds from the creation of a monitor to the start of the health
/// monitor, or the reason why there is no such number.
pub fn checked_hmon_time_offset(hmon_starting_point: Instant, monitor_starting_point: Instant) -> (offset:
    Result<u32, TimeError>)
    ensures
        offset == offset_of_gap(duration_between(hmon_starting_point, monitor_starting_point)),
{
    match hmon_starting_point.checked_duration_since(monitor_starting_point) {
        None => Err(TimeError::StartBeforeMonitor),
        Some(duration) => match checked_duration_to_u32(duration) {
            Some(millis) => Ok(millis),
            None => Err(TimeError::RunningTooLong),
        },
    }
}

/// Milliseconds from the creation of a monitor to the start of the health
/// monitor.
pub fn hmon_time_offset(hmon_starting_point: Instant, monitor_starting_point: Instant) -> (offset: u32)
    requires
        offset_of_gap(duration_between(hmon_starting_point, monitor_starting_point)) is Ok,
    ensures
        Ok::<u32, TimeError>(offset) == offset_of_gap(
            duration_between(hmon_starting_point, monitor_starting_point),
        ),
{
    granted(checked_hmon_time_offset(hmon_starting_point, monitor_starting_point))
}

/// The time of an evaluation that finds `elapsed` milliseconds passed since
/// the health monitor started at `hmon_offset`. Both points in time count
/// milliseconds since the monitor was created.
pub open spec fn now_of(hmon_offset: u32, elapsed: u32) -> int {
    hmon_offset + elapsed
}

/// A range of accepted time, both ends included.
#[derive(Clone, Copy, Debug, PartialEq, Eq, Hash)]
pub struct TimeRange {
    pub min: Duration,
    pub max: Duration,
}

impl TimeRange {
    /// The lower end does not lie above the upper end.
    pub open spec fn wf(&self) -> bool {
        duration_nanos(self.min) <= duration_nanos(self.max)
    }

    /// Creates the range from `min` to `max`.
    pub fn new(min: Duration, max: Duration) -> (range: Self)
        requires
            duration_nanos(min) <= duration_nanos(max),
        ensures
            range.min == min,
            range.max == max,
            range.wf(),
    {
        present(Self::try_new(min, max), ConfigError::InvalidRange)
    }

    /// Creates the range from `min` to `max` where `min` does not lie above
    /// `max`.
    pub fn try_new(min: Duration, max: Duration) -> (range: Option<Self>)
        ensures
            range is Some <==> duration_nanos(min) <= duration_nanos(max),
            range is Some ==> range->0.min == min && range->0.max == max && range->0.wf(),
    {
        if min.as_nanos() <= max.as_nanos() {
            Some(Self { min, max })
        } else {
            None
        }
    }
}

/// A range of accepted time in whole milliseconds, both ends included.
#[derive(Clone, Copy, Debug, PartialEq, Eq, Structural)]
pub struct InternalRange {
    pub min: u32,
    pub max: u32,
}

/// A range between two points in time, in milliseconds since a monitor was
/// created, both ends included.
#[derive(Clone, Copy, Debug, PartialEq, Eq, Structural)]
pub struct TimeWindow {
    pub min: u64,
    pub max: u64,
}

impl InternalRange {
    /// The lower end does not lie above the upper end.
    pub open spec fn wf(&self) -> bool {
        self.min <= self.max
    }

    /// The range that stands for `range`, counted in whole milliseconds.
    pub open spec fn of_time_range(range: TimeRange) -> Self {
        InternalRange {
            min: duration_millis(range.min) as u32,
            max: duration_millis(range.max) as u32,
        }
    }

    /// Creates the range from `min` to `max`.
    pub fn new(min: u32, max: u32) -> (range: Self)
        requires
            min <= max,
        ensures
            range.min == min,
            range.max == max,
            range.wf(),
    {
        if min <= max {
            Self { min, max }
        } else {
            None::<Self>.expect("provided min is greater than provided max")
        }
    }

    /// The same range counted from `timestamp`.
    pub fn offset(&self, timestamp: u32) -> (window: TimeWindow)
        ensures
            window.min == self.min + timestamp,
            window.max == self.max + timestamp,
    {
        TimeWindow { min: self.min as u64 + timestamp as u64, max: self.max as u64 + timestamp as u64 }
    }

    /// Counts `range` in whole milliseconds, where both ends fit in a `u32`
    /// and are in order.
    pub fn try_from_time_range(range: TimeRange) -> (internal: Option<Self>)
        ensures
            internal is Some <==> range.wf() && duration_millis(range.max) <= u32::MAX,
            internal is Some ==> internal->0 == Self::of_time_range(range) && internal->0.wf(),
    {
        if range.min.as_nanos() > range.max.as_nanos() {
            return None;
        }
        let min = checked_duration_to_u32(range.min);
        let max = checked_duration_to_u32(range.max);
        match (min, max) {
            (Some(min), Some(max)) => Some(Self::new(min, max)),
            _ => None,
        }
    }
}

} // verus!
