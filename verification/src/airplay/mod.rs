//! The configuration of the audio daemon that plays the stream.

pub mod config;
