//! The audio settings of a device.

pub mod messages;
