//! Status and pairing messages sent over the receiver's socket.

use vstd::prelude::*;

verus! {

/// What the receiver is doing.
#[derive(Debug, Clone, Copy, PartialEq, Eq, Structural)]
pub enum PlaybackStatus {
    Idle,
    Playing,
    Calibrating,
}

/// What is known of the track being played.
#[derive(Debug, Clone, PartialEq, Eq)]
pub struct Metadata {
    pub artist: Option<String>,
    pub title: Option<String>,
    pub album: Option<String>,
}

/// A message on the receiver's socket.
#[derive(Debug, Clone, PartialEq, Eq)]
pub enum WebSocketMessage {
    PairingRequest { timestamp: u64, device_name: String, code: String },
    PairingResponse { timestamp: u64, success: bool, device_id: Option<String>, error: Option<String> },
    StatusUpdate { timestamp: u64, status: PlaybackStatus, metadata: Option<Metadata> },
}

} // verus!
