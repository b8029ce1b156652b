//! When the calibration burst is played.
//!
//! The measuring device first asks for a burst and later says that it is
//! ready to record. Between the two the scheduler is armed: it holds the
//! one burst that was asked for last. The caller supplies the time, does
//! the waiting and plays the burst.

use crate::protocol::calibration::ChirpConfig;
use vstd::prelude::*;

verus! {

/// The delay of a request that names none, in milliseconds.
pub const DEFAULT_DELAY_MS: u64 = 2_000;

/// A request to prepare a calibration burst.
#[derive(Debug, Clone, Copy, PartialEq, Eq, Structural)]
pub struct CalibrationRequestPayload {
    /// The time on the measuring device, in milliseconds since the epoch.
    pub timestamp: u64,
    pub chirp_config: ChirpConfig,
    /// How long after the ready signal the burst starts, unless that
    /// signal names a start time.
    pub delay_ms: Option<u64>,
}

/// The signal that the measuring device is recording.
#[derive(Debug, Clone, Copy, PartialEq, Eq, Structural)]
pub struct CalibrationReadyPayload {
    /// The time on the measuring device, in milliseconds since the epoch.
    pub timestamp: Option<u64>,
    /// The time on the receiver at which the burst is to start.
    pub target_start_ms: Option<u64>,
}

/// A burst that was asked for and has not been played.
#[derive(Debug, Clone, Copy, PartialEq, Eq, Structural)]
pub struct PendingPlayback {
    pub chirp: ChirpConfig,
    pub delay_ms: u64,
    /// When the request arrived, in milliseconds since the epoch.
    pub requested_at: u64,
}

/// Why a signal could not be acted on.
#[derive(Debug, Clone, Copy, PartialEq, Eq, Structural)]
pub enum ScheduleError {
    /// The device said it was ready, but no burst had been asked for.
    NoPendingRequest,
}

/// The burst that a request arms when it arrives at `now_ms`.
pub open spec fn pending_for(request: CalibrationRequestPayload, now_ms: u64) -> PendingPlayback {
    PendingPlayback {
        chirp: request.chirp_config,
        delay_ms: match request.delay_ms {
            Some(delay) => delay,
            None => DEFAULT_DELAY_MS,
        },
        requested_at: now_ms,
    }
}

impl PendingPlayback {
    /// The time at which the burst starts: the one that the ready signal
    /// names, else the delay after `now_ms`.
    pub open spec fn start_time(self, now_ms: u64, target_start_ms: Option<u64>) -> int {
        match target_start_ms {
            Some(target) => target as int,
            None => now_ms + self.delay_ms,
        }
    }

    /// How long to wait at `now_ms` before the burst starts; nothing where
    /// the start time has passed.
    pub open spec fn wait_for(self, now_ms: u64, target_start_ms: Option<u64>) -> int {
        let start = self.start_time(now_ms, target_start_ms);
        if start > now_ms {
            start - now_ms
        } else {
            0
        }
    }

    /// How many milliseconds to wait at `now_ms` before playing the burst.
    pub fn wait_ms(&self, now_ms: u64, target_start_ms: Option<u64>) -> (wait: u64)
        ensures
            wait == self.wait_for(now_ms, target_start_ms),
            target_start_ms is None ==> wait == self.delay_ms,
    {
        match target_start_ms {
            Some(target) => if target > now_ms {
                target - now_ms
            } else {
                0
            },
            None => self.delay_ms,
        }
    }
}

/// The state of the calibration dialogue: idle, or armed with one burst.
pub struct CalibrationScheduler {
    pending: Option<PendingPlayback>,
}

impl View for CalibrationScheduler {
    type V = Option<PendingPlayback>;

    /// The burst that the scheduler is armed with, if any.
    closed spec fn view(&self) -> Option<PendingPlayback> {
        self.pending
    }
}

/// The state after a request: armed with the burst of that request,
/// whatever the state was.
pub open spec fn after_request(
    state: Option<PendingPlayback>,
    request: CalibrationRequestPayload,
    now_ms: u64,
) -> Option<PendingPlayback> {
    Some(pending_for(request, now_ms))
}

/// The state after a ready signal: idle.
pub open spec fn after_ready(state: Option<PendingPlayback>) -> Option<PendingPlayback> {
    None
}

/// The answer to a ready signal: the burst to play, or an error where
/// none was asked for.
pub open spec fn ready_answer(state: Option<PendingPlayback>) -> Result<
    PendingPlayback,
    ScheduleError,
> {
    match state {
        Some(pending) => Ok(pending),
        None => Err(ScheduleError::NoPendingRequest),
    }
}

impl CalibrationScheduler {
    /// An idle scheduler.
    pub fn new() -> (scheduler: Self)
        ensures
            scheduler@ is None,
    {
        CalibrationScheduler { pending: None }
    }

    /// Whether a burst has been asked for and not been played.
    pub fn is_armed(&self) -> (armed: bool)
        ensures
            armed == (self@ is Some),
    {
        self.pending.is_some()
    }

    /// Arms the scheduler with the burst of `request`, which arrived at
    /// `now_ms`. A burst that was waiting is forgotten.
    pub fn request(&mut self, request: &CalibrationRequestPayload, now_ms: u64)
        ensures
            final(self)@ == after_request(old(self)@, *request, now_ms),
    {
        let delay_ms = match request.delay_ms {
            Some(delay) => delay,
            None => DEFAULT_DELAY_MS,
        };
        self.pending = Some(
            PendingPlayback { chirp: request.chirp_config, delay_ms, requested_at: now_ms },
        );
    }

    /// Takes the burst that is waiting, for the caller to play, and leaves
    /// the scheduler idle. Fails where no burst is waiting.
    pub fn ready(&mut self) -> (answer: Result<PendingPlayback, ScheduleError>)
        ensures
            answer == ready_answer(old(self)@),
            final(self)@ == after_ready(old(self)@),
    {
        match self.pending.take() {
            Some(pending) => Ok(pending),
            None => Err(ScheduleError::NoPendingRequest),
        }
    }
}

/// Of two requests with no ready signal between them, the second one
/// alone is played at the next ready signal, and nothing is left after it.
pub proof fn lemma_latest_request_wins(
    state: Option<PendingPlayback>,
    first: CalibrationRequestPayload,
    first_at: u64,
    second: CalibrationRequestPayload,
    second_at: u64,
)
    ensures
        ready_answer(after_request(after_request(state, first, first_at), second, second_at))
            == Ok::<PendingPlayback, ScheduleError>(pending_for(second, second_at)),
        pending_for(second, second_at).chirp == second.chirp_config,
        ready_answer(
            after_ready(after_request(after_request(state, first, first_at), second, second_at)),
        ) == Err::<PendingPlayback, ScheduleError>(ScheduleError::NoPendingRequest),
{
}

/// A burst is played once: the ready signal that takes it leaves nothing
/// for the next one.
pub proof fn lemma_ready_disarms(state: Option<PendingPlayback>)
    ensures
        ready_answer(after_ready(state)) == Err::<PendingPlayback, ScheduleError>(
            ScheduleError::NoPendingRequest,
        ),
{
}

/// A burst starts no earlier than asked: waiting as long as told leads to
/// the start time, or the start time has passed already.
pub proof fn lemma_wait_reaches_start(
    pending: PendingPlayback,
    now_ms: u64,
    target_start_ms: Option<u64>,
)
    ensures
        pending.wait_for(now_ms, target_start_ms) >= 0,
        now_ms + pending.wait_for(now_ms, target_start_ms) >= pending.start_time(
            now_ms,
            target_start_ms,
        ),
        pending.start_time(now_ms, target_start_ms) >= now_ms ==> now_ms + pending.wait_for(
            now_ms,
            target_start_ms,
        ) == pending.start_time(now_ms, target_start_ms),
{
}

} // verus!
