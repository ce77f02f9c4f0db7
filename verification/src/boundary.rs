//! The numbers that callers in other languages see in place of results.
use crate::deadline::deadline_monitor::{Deadline, DeadlineError, DeadlineMonitorError};
use vstd::prelude::*;

verus! {

/// The operation succeeded.
pub const HM_OK: i32 = 0;

/// The named item does not exist.
pub const HM_NOT_FOUND: i32 = 1;

/// The named item has been handed out before.
pub const HM_ALREADY_EXISTS: i32 = 2;

/// An argument is not acceptable.
pub const HM_INVALID_ARGS: i32 = 3;

/// The item is not in the state that the operation needs.
pub const HM_WRONG_STATE: i32 = 4;

/// The operation failed.
pub const HM_FAILED: i32 = 5;

/// What a caller in another language is told of an operation.
#[derive(Clone, Copy, Debug, PartialEq, Eq, Structural)]
pub enum FFIError {
    /// The operation succeeded.
    Success,
    /// The named item does not exist.
    NotFound,
    /// The named item has been handed out before.
    AlreadyExists,
    /// An argument is not acceptable.
    InvalidArgument,
    /// The item is not in the state that the operation needs.
    WrongState,
    /// The operation failed.
    Failed,
}

impl FFIError {
    /// The number that stands for this outcome.
    pub open spec fn code(self) -> i32 {
        match self {
            FFIError::Success => HM_OK,
            FFIError::NotFound => HM_NOT_FOUND,
            FFIError::AlreadyExists => HM_ALREADY_EXISTS,
            FFIError::InvalidArgument => HM_INVALID_ARGS,
            FFIError::WrongState => HM_WRONG_STATE,
            FFIError::Failed => HM_FAILED,
        }
    }

    /// The number that stands for this outcome.
    pub fn to_code(self) -> (code: i32)
        ensures
            code == self.code(),
            0 <= code <= 5,
    {
        match self {
            FFIError::Success => HM_OK,
            FFIError::NotFound => HM_NOT_FOUND,
            FFIError::AlreadyExists => HM_ALREADY_EXISTS,
            FFIError::InvalidArgument => HM_INVALID_ARGS,
            FFIError::WrongState => HM_WRONG_STATE,
            FFIError::Failed => HM_FAILED,
        }
    }

    /// The outcome that `code` stands for, if it stands for one.
    pub fn from_code(code: i32) -> (outcome: Option<Self>)
        ensures
            outcome is Some <==> 0 <= code <= 5,
            outcome is Some ==> outcome->0.code() == code,
    {
        if code == HM_OK {
            Some(FFIError::Success)
        } else if code == HM_NOT_FOUND {
            Some(FFIError::NotFound)
        } else if code == HM_ALREADY_EXISTS {
            Some(FFIError::AlreadyExists)
        } else if code == HM_INVALID_ARGS {
            Some(FFIError::InvalidArgument)
        } else if code == HM_WRONG_STATE {
            Some(FFIError::WrongState)
        } else if code == HM_FAILED {
            Some(FFIError::Failed)
        } else {
            None
        }
    }
}

/// What a caller is told of a request for a deadline.
pub open spec fn get_deadline_outcome(result: Result<Deadline, DeadlineMonitorError>) -> FFIError {
    match result {
        Ok(_) => FFIError::Success,
        Err(DeadlineMonitorError::DeadlineInUse) => FFIError::AlreadyExists,
        Err(DeadlineMonitorError::DeadlineNotFound) => FFIError::NotFound,
    }
}

/// What a caller is told of the start or the stop of a deadline: a deadline
/// in the wrong state is told so, and a clock that cannot be read is a
/// failure.
pub open spec fn deadline_outcome(result: Result<(), DeadlineError>) -> FFIError {
    match result {
        Ok(_) => FFIError::Success,
        Err(DeadlineError::WrongState) => FFIError::WrongState,
        Err(DeadlineError::RunningTooLong) => FFIError::Failed,
    }
}

/// The number that a caller gets for a request for a deadline.
pub fn get_deadline_code(result: &Result<Deadline, DeadlineMonitorError>) -> (code: i32)
    ensures
        code == get_deadline_outcome(*result).code(),
{
    match result {
        Ok(_) => HM_OK,
        Err(DeadlineMonitorError::DeadlineInUse) => HM_ALREADY_EXISTS,
        Err(DeadlineMonitorError::DeadlineNotFound) => HM_NOT_FOUND,
    }
}

/// The number that a caller gets for the start of a deadline.
pub fn deadline_start_code(result: &Result<(), DeadlineError>) -> (code: i32)
    ensures
        code == deadline_outcome(*result).code(),
{
    match result {
        Ok(_) => HM_OK,
        Err(DeadlineError::WrongState) => HM_WRONG_STATE,
        Err(DeadlineError::RunningTooLong) => HM_FAILED,
    }
}

/// The number that a caller gets for the stop of a deadline.
pub fn deadline_stop_code(result: &Result<(), DeadlineError>) -> (code: i32)
    ensures
        code == deadline_outcome(*result).code(),
{
    deadline_start_code(result)
}

} // verus!
