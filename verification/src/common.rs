//! What an evaluation can report, and the states shared by all monitors.
use crate::tag::IdentTag;
use vstd::prelude::*;

verus! {

/// A reason why an operation is refused.
pub trait Refusal {
    /// The reason in words.
    spec fn reason(&self) -> Seq<char>;

    /// The reason in words, as a caller that has misused the operation gets
    /// to read it.
    fn message(&self) -> (text: String)
        ensures
            text@ == self.reason(),
    ;
}

/// The value of a result that holds one.
///
/// Callers that keep to the contracts never pass a refusal. A caller that
/// does pass one is stopped with the message of the refusal.
pub fn granted<T, E: Refusal>(result: Result<T, E>) -> (value: T)
    requires
        result is Ok,
    ensures
        value == result->Ok_0,
{
    match result {
        Ok(value) => value,
        Err(refusal) => None::<T>.expect(refusal.message().as_str()),
    }
}

/// The value of an option that holds one.
///
/// Callers that keep to the contracts never pass `None`. A caller that does
/// is stopped with the message of `refusal`.
pub fn present<T, E: Refusal>(found: Option<T>, refusal: E) -> (value: T)
    requires
        found is Some,
    ensures
        value == found->0,
{
    match found {
        Some(value) => value,
        None => None::<T>.expect(refusal.message().as_str()),
    }
}

/// Failures that only a heartbeat monitor can find.
#[derive(Clone, Copy, Debug, PartialEq, Eq, Hash, Structural)]
pub enum HeartbeatMonitorEvaluationError {
    /// More than one heartbeat was seen in one cycle.
    MultipleHeartbeats,
}

/// Timing failures that an evaluation can find.
#[derive(Clone, Copy, Debug, PartialEq, Eq, Hash, Structural)]
pub enum MonitorEvaluationError {
    /// The event came before the accepted range began.
    TooEarly,
    /// The event came after the accepted range ended, or not at all.
    TooLate,
    /// A failure of a heartbeat monitor.
    HeartbeatSpecific(HeartbeatMonitorEvaluationError),
}

/// One failure found by an evaluation, with the tag of what failed.
#[derive(Clone, Copy, Debug, PartialEq, Eq)]
pub struct EvaluationReport {
    pub tag: IdentTag,
    pub error: MonitorEvaluationError,
}

/// Who holds the handle of a registered item.
#[derive(Clone, Copy, Debug, PartialEq, Eq, Structural)]
pub enum OwnershipState {
    /// The handle has not been handed out yet.
    Available,
    /// The handle has been handed out.
    Taken,
}

/// Why a health monitor or one of its monitors cannot be built.
#[derive(Clone, Copy, Debug, PartialEq, Eq, Structural)]
pub enum ConfigError {
    /// The supervisor cycle is no positive multiple of the internal
    /// processing cycle.
    CycleNotMultiple,
    /// The lower end of a range lies above its upper end.
    InvalidRange,
    /// Twice the lower end of a heartbeat range is not longer than the
    /// internal processing cycle.
    RangeTooShort,
    /// The upper end of a range is longer than a `u32` of milliseconds.
    RangeTooLong,
}

impl Refusal for ConfigError {
    open spec fn reason(&self) -> Seq<char> {
        match self {
            ConfigError::CycleNotMultiple => "supervisor API cycle must be multiple of internal processing cycle"@,
            ConfigError::InvalidRange => "TimeRange min must be less than or equal to max"@,
            ConfigError::RangeTooShort => "internal processing cycle must be shorter than doubled minimum time range"@,
            ConfigError::RangeTooLong => "time range is too long"@,
        }
    }

    fn message(&self) -> (text: String) {
        match self {
            ConfigError::CycleNotMultiple => {
                "supervisor API cycle must be multiple of internal processing cycle".to_owned()
            },
            ConfigError::InvalidRange => {
                "TimeRange min must be less than or equal to max".to_owned()
            },
            ConfigError::RangeTooShort => {
                "internal processing cycle must be shorter than doubled minimum time range"
                    .to_owned()
            },
            ConfigError::RangeTooLong => "time range is too long".to_owned(),
        }
    }
}

/// Why an operation of the monitoring loop's interface is refused.
#[derive(Clone, Copy, Debug, PartialEq, Eq, Structural)]
pub enum Error {
    /// Nothing is wrong. Only callers in other languages get to see this.
    _NoError,
    /// An argument is not acceptable.
    BadParameter,
    /// The operation is not allowed now.
    NotAllowed,
    /// No memory is left.
    OutOfMemory,
    /// Something else went wrong.
    Generic,
}

impl Error {
    /// The number that stands for this error.
    pub open spec fn code(self) -> u32 {
        match self {
            Error::_NoError => 0,
            Error::BadParameter => 1,
            Error::NotAllowed => 2,
            Error::OutOfMemory => 3,
            Error::Generic => 4,
        }
    }

    /// The number that stands for this error.
    pub fn to_u32(self) -> (value: u32)
        ensures
            value == self.code(),
    {
        match self {
            Error::_NoError => 0,
            Error::BadParameter => 1,
            Error::NotAllowed => 2,
            Error::OutOfMemory => 3,
            Error::Generic => 4,
        }
    }

    /// The error that `value` stands for, if it stands for one.
    pub fn try_from_u32(value: u32) -> (error: Option<Self>)
        ensures
            error is Some <==> value <= 4,
            error is Some ==> error->0.code() == value,
    {
        if value == 0 {
            Some(Error::_NoError)
        } else if value == 1 {
            Some(Error::BadParameter)
        } else if value == 2 {
            Some(Error::NotAllowed)
        } else if value == 3 {
            Some(Error::OutOfMemory)
        } else if value == 4 {
            Some(Error::Generic)
        } else {
            None
        }
    }
}

/// The state of a monitored unit as its evaluator sees it.
#[derive(Clone, Copy, Debug, PartialEq, Eq, Structural)]
pub enum Status {
    /// Nothing has failed.
    Running,
    /// The unit is not evaluated.
    Disabled,
    /// A failure has been found.
    Failed,
    /// The evaluation has come to an end.
    Stopped,
}

impl Status {
    /// The number that stands for this status.
    pub open spec fn code(self) -> u32 {
        match self {
            Status::Running => 0,
            Status::Disabled => 1,
            Status::Failed => 2,
            Status::Stopped => 3,
        }
    }

    /// The number that stands for this status.
    pub fn to_u32(self) -> (value: u32)
        ensures
            value == self.code(),
    {
        match self {
            Status::Running => 0,
            Status::Disabled => 1,
            Status::Failed => 2,
            Status::Stopped => 3,
        }
    }

    /// The status that `value` stands for, if it stands for one.
    pub fn try_from_u32(value: u32) -> (status: Option<Self>)
        ensures
            status is Some <==> value <= 3,
            status is Some ==> status->0.code() == value,
    {
        if value == 0 {
            Some(Status::Running)
        } else if value == 1 {
            Some(Status::Disabled)
        } else if value == 2 {
            Some(Status::Failed)
        } else if value == 3 {
            Some(Status::Stopped)
        } else {
            None
        }
    }

    /// The status that `value` stands for.
    pub fn from_u32(value: u32) -> (status: Self)
        requires
            value <= 3,
        ensures
            status.code() == value,
    {
        Self::try_from_u32(value).expect("Trying to create Status from unknown value")
    }
}

} // verus!
