use health_monitoring_lib::alive::alive_step;
use health_monitoring_lib::common::{Error, Status};
use health_monitoring_lib::lifecycle::health_of_active_state;

const ALL: [Status; 4] = [Status::Running, Status::Disabled, Status::Failed, Status::Stopped];

#[test]
fn running_loop_reports_until_a_monitor_fails() {
    for deadline in ALL {
        for logic in ALL {
            let failed = deadline == Status::Failed || logic == Status::Failed;
            let expected = if failed {
                (Status::Failed, false)
            } else {
                (Status::Running, true)
            };
            assert_eq!(alive_step(Status::Running, deadline, logic), expected);
        }
    }
}

#[test]
fn loop_that_is_not_running_stays_as_it_is() {
    for status in [Status::Disabled, Status::Failed, Status::Stopped] {
        for deadline in ALL {
            for logic in ALL {
                assert_eq!(alive_step(status, deadline, logic), (status, false));
            }
        }
    }
}

#[test]
fn failure_is_never_forgotten() {
    let rounds = [
        (Status::Running, Status::Running, true),
        (Status::Running, Status::Disabled, true),
        (Status::Failed, Status::Running, false),
        (Status::Running, Status::Running, false),
        (Status::Running, Status::Failed, false),
    ];
    let mut status = Status::Running;
    for (deadline, logic, keep_alive) in rounds {
        let next = alive_step(status, deadline, logic);
        assert_eq!(next.1, keep_alive);
        status = next.0;
    }
    assert_eq!(status, Status::Failed);
}

#[test]
fn error_numbers() {
    let errors = [
        Error::_NoError,
        Error::BadParameter,
        Error::NotAllowed,
        Error::OutOfMemory,
        Error::Generic,
    ];
    for (value, error) in errors.iter().enumerate() {
        assert_eq!(error.to_u32(), value as u32);
        assert_eq!(Error::try_from_u32(value as u32), Some(*error));
    }
    assert_eq!(Error::try_from_u32(5), None);
}

#[test]
fn only_an_active_unit_is_healthy() {
    assert_eq!(health_of_active_state("active"), Ok(()));
    assert_eq!(
        health_of_active_state("inactive"),
        Err(String::from("Invalid state: inactive"))
    );
    assert_eq!(
        health_of_active_state("Active"),
        Err(String::from("Invalid state: Active"))
    );
    assert_eq!(
        health_of_active_state("activ"),
        Err(String::from("Invalid state: activ"))
    );
    assert_eq!(
        health_of_active_state("active "),
        Err(String::from("Invalid state: active "))
    );
    assert_eq!(health_of_active_state(""), Err(String::from("Invalid state: ")));
    assert_eq!(
        health_of_active_state("failed"),
        Err(String::from("Invalid state: failed"))
    );
}
