//! Audio-latency calibration for a networked audio receiver.
//!
//! The receiver plays a known signal through its speaker, a measuring
//! device records it and reports the delay, and the receiver turns that
//! delay into an offset in the configuration of its audio daemon.
//!
//! * [`calibration::signal`] lays out the structured calibration signal
//!   and its markers, [`chirp`] the bursts that are played on demand.
//! * [`scheduler`] decides when a burst is played.
//! * [`calibration`] turns a measured latency into an offset, and
//!   [`airplay::config`] writes and reads the daemon's configuration.
//! * [`hardware::detector`] and [`protocol::device`] tell what the board
//!   can do; [`http`] and [`protocol`] hold what travels between the
//!   receiver and the device.
//!
//! Durations are whole microseconds or milliseconds, amplitudes and
//! ratios are thousandths: nothing here computes in floating point.

pub mod airplay;
pub mod calibration;
pub mod chirp;
pub mod error;
pub mod hardware;
pub mod http;
pub mod protocol;
pub mod scheduler;
pub mod text;
