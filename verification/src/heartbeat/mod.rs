//! Heartbeat monitoring: one tick per accepted window.
pub mod heartbeat_monitor;
pub mod heartbeat_state;

pub use heartbeat_monitor::{HeartbeatMonitor, HeartbeatMonitorBuilder};
