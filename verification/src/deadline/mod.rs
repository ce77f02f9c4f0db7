//! Deadline monitoring: bracketed work must finish inside its window.
pub mod deadline_monitor;
pub mod deadline_state;

pub use deadline_monitor::{
    Deadline, DeadlineError, DeadlineMonitor, DeadlineMonitorBuilder, DeadlineMonitorError,
};
pub use deadline_state::DeadlineState;
