//! Values exchanged between the receiver and the measuring device.

pub mod calibration;
pub mod device;
pub mod messages;
