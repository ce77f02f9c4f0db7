use health_monitoring_lib::boundary::{
    deadline_start_code, deadline_stop_code, get_deadline_code, FFIError, HM_ALREADY_EXISTS,
    HM_FAILED, HM_INVALID_ARGS, HM_NOT_FOUND, HM_OK, HM_WRONG_STATE,
};
use health_monitoring_lib::common::{Refusal, Status};
use health_monitoring_lib::deadline::{DeadlineError, DeadlineMonitorBuilder, DeadlineState};
use health_monitoring_lib::{
    ConfigError, DeadlineTag, IdentTag, StartError, TimeError, TimeRange,
};
use std::time::Duration;

#[test]
fn error_codes_are_fixed() {
    assert_eq!(HM_OK, 0);
    assert_eq!(HM_NOT_FOUND, 1);
    assert_eq!(HM_ALREADY_EXISTS, 2);
    assert_eq!(HM_INVALID_ARGS, 3);
    assert_eq!(HM_WRONG_STATE, 4);
    assert_eq!(HM_FAILED, 5);
    let outcomes = [
        FFIError::Success,
        FFIError::NotFound,
        FFIError::AlreadyExists,
        FFIError::InvalidArgument,
        FFIError::WrongState,
        FFIError::Failed,
    ];
    for (code, outcome) in outcomes.iter().enumerate() {
        assert_eq!(outcome.to_code(), code as i32);
        assert_eq!(FFIError::from_code(code as i32), Some(*outcome));
    }
    assert_eq!(FFIError::from_code(-1), None);
    assert_eq!(FFIError::from_code(6), None);
}

#[test]
fn results_map_to_codes() {
    let mut monitor = DeadlineMonitorBuilder::new()
        .add_deadline(
            DeadlineTag::new("work"),
            TimeRange::new(Duration::from_millis(10), Duration::from_millis(40)),
        )
        .build();
    assert_eq!(get_deadline_code(&monitor.get_deadline(DeadlineTag::new("none"))), HM_NOT_FOUND);
    let first = monitor.get_deadline(DeadlineTag::new("work"));
    assert_eq!(get_deadline_code(&first), HM_OK);
    assert_eq!(
        get_deadline_code(&monitor.get_deadline(DeadlineTag::new("work"))),
        HM_ALREADY_EXISTS
    );
    let mut deadline = first.unwrap();
    assert_eq!(deadline_start_code(&deadline.start()), HM_OK);
    // A second start is a state error, and the measurement goes on.
    assert_eq!(deadline_start_code(&deadline.start()), HM_WRONG_STATE);
    assert_eq!(deadline_start_code(&deadline.start()), 4);
    assert_eq!(deadline.current_state(), DeadlineState::Running);
    assert_eq!(deadline_start_code(&Err(DeadlineError::RunningTooLong)), HM_FAILED);
    assert_eq!(deadline_stop_code(&deadline.stop()), HM_OK);
    assert_eq!(deadline_stop_code(&deadline.stop()), HM_WRONG_STATE);
    assert_eq!(deadline_stop_code(&Err(DeadlineError::RunningTooLong)), HM_FAILED);
}

#[test]
fn status_numbers() {
    let statuses = [Status::Running, Status::Disabled, Status::Failed, Status::Stopped];
    for (value, status) in statuses.iter().enumerate() {
        assert_eq!(status.to_u32(), value as u32);
        assert_eq!(Status::from_u32(value as u32), *status);
        assert_eq!(Status::try_from_u32(value as u32), Some(*status));
    }
    assert_eq!(Status::try_from_u32(4), None);
    assert_eq!(Status::try_from_u32(u32::MAX), None);
}

#[test]
fn refusals_have_their_reason_in_words() {
    assert_eq!(
        ConfigError::CycleNotMultiple.message(),
        "supervisor API cycle must be multiple of internal processing cycle"
    );
    assert_eq!(
        ConfigError::InvalidRange.message(),
        "TimeRange min must be less than or equal to max"
    );
    assert_eq!(
        ConfigError::RangeTooShort.message(),
        "internal processing cycle must be shorter than doubled minimum time range"
    );
    assert_eq!(ConfigError::RangeTooLong.message(), "time range is too long");
    assert_eq!(
        TimeError::StartBeforeMonitor.message(),
        "HMON starting point is earlier than monitor starting point"
    );
    assert_eq!(TimeError::RunningTooLong.message(), "Monitor running for too long");
    assert_eq!(
        StartError::NoMonitors.message(),
        "No monitors have been added. HealthMonitor cannot start without any monitors."
    );
    assert_eq!(
        StartError::MonitorNotTaken {
            tag: IdentTag::new("beat")
        }
        .message(),
        "All monitors must be taken before starting HealthMonitor but IdentTag(beat) is not taken."
    );
    assert_eq!(
        StartError::AlreadyStarted.message(),
        "Invalid monitor state encountered while starting HealthMonitor."
    );
}
