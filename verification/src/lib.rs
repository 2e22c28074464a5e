//! A verified model of a native focus-observation bridge.
//!
//! The library captures the logic of a system that subscribes to
//! operating-system focus-change notifications, marshals each native payload
//! into an owned, normalized event record, and drives a single screen-border
//! overlay in response.  The platform calls themselves (notification
//! registration, run-loop pumping, overlay drawing) are performed by an
//! unverified shell around this crate; every decision the shell must make --
//! whether a subscription may start, how a payload is normalized, which calls
//! may reach the native boundary and what they leave behind -- is stated and
//! proved here.

pub mod bridge;
pub mod event;
pub mod overlay;
