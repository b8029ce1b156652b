//! Finding out what the board can do.

pub mod detector;
