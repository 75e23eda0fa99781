//! Bus-agnostic register access for a multi-axis inertial sensor.
//!
//! The sensor is reachable over either of two serial buses: a two-wire
//! addressed bus, or a four-wire bus with a dedicated chip-select line.
//! This crate presents one read/write capability contract over both, while
//! applying the framing rules each bus imposes: address selection,
//! chip-select sequencing, read/write bit encoding and dummy-byte handling.
//! Transport faults and chip-select faults stay distinguishable throughout.

pub mod bus;
pub mod frames;
pub mod interface;
pub mod sim;
pub mod types;
