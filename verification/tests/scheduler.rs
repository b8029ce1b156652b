use std::sync::{Arc, Mutex};

use airsync_receiver_core::error::ServiceError;
use airsync_receiver_core::http::PlaybackSink;
use airsync_receiver_core::protocol::calibration::ChirpConfig;
use airsync_receiver_core::scheduler::{
    CalibrationReadyPayload, CalibrationRequestPayload, CalibrationScheduler, PendingPlayback,
    ScheduleError, DEFAULT_DELAY_MS,
};

#[derive(Clone)]
struct MockPlaybackSink {
    last: Arc<Mutex<Option<ChirpConfig>>>,
    calls: Arc<Mutex<u32>>,
    fail: bool,
}

impl MockPlaybackSink {
    fn new() -> Self {
        Self { last: Arc::new(Mutex::new(None)), calls: Arc::new(Mutex::new(0)), fail: false }
    }

    fn last(&self) -> Option<ChirpConfig> {
        *self.last.lock().unwrap()
    }

    fn call_count(&self) -> u32 {
        *self.calls.lock().unwrap()
    }
}

impl PlaybackSink for MockPlaybackSink {
    fn play(&self, chirp: &ChirpConfig) -> Result<(), ServiceError> {
        *self.calls.lock().unwrap() += 1;
        *self.last.lock().unwrap() = Some(*chirp);
        if self.fail {
            return Err(ServiceError { message: "fail".to_string() });
        }
        Ok(())
    }
}

/// What the receiver does with a ready signal: 200 and the burst played,
/// or 400 and nothing played.
fn on_ready(
    scheduler: &mut CalibrationScheduler,
    ready: &CalibrationReadyPayload,
    now_ms: u64,
    sink: &MockPlaybackSink,
) -> (u16, Option<u64>) {
    match scheduler.ready() {
        Ok(pending) => {
            let wait = pending.wait_ms(now_ms, ready.target_start_ms);
            let _ = sink.play(&pending.chirp);
            (200, Some(wait))
        }
        Err(ScheduleError::NoPendingRequest) => (400, None),
    }
}

fn short_chirp() -> ChirpConfig {
    ChirpConfig { start_freq: 2000, end_freq: 8000, duration: 50, repetitions: 5, interval_ms: 500 }
}

#[test]
fn calibration_request_triggers_playback() {
    let playback = MockPlaybackSink::new();
    let mut scheduler = CalibrationScheduler::new();
    let request = CalibrationRequestPayload { timestamp: 1, chirp_config: short_chirp(), delay_ms: Some(1) };
    scheduler.request(&request, 1_000);
    assert!(scheduler.is_armed());
    assert_eq!(playback.call_count(), 0);

    let ready = CalibrationReadyPayload { timestamp: Some(5), target_start_ms: None };
    let (status, wait) = on_ready(&mut scheduler, &ready, 1_010, &playback);
    assert_eq!(status, 200);
    assert_eq!(wait, Some(1));
    assert_eq!(playback.call_count(), 1);
    let last = playback.last().unwrap();
    assert_eq!(last.start_freq, 2000);
    assert_eq!(last.end_freq, 8000);
    assert_eq!(last, short_chirp());
    assert!(!scheduler.is_armed());
}

#[test]
fn calibration_request_failure_logs_and_returns_ok() {
    let playback = MockPlaybackSink {
        last: Arc::new(Mutex::new(None)),
        calls: Arc::new(Mutex::new(0)),
        fail: true,
    };
    let mut scheduler = CalibrationScheduler::new();
    let request = CalibrationRequestPayload { timestamp: 1, chirp_config: short_chirp(), delay_ms: Some(1) };
    scheduler.request(&request, 1_000);
    let ready = CalibrationReadyPayload { timestamp: Some(5), target_start_ms: Some(25) };
    let (status, wait) = on_ready(&mut scheduler, &ready, 1_010, &playback);
    assert_eq!(status, 200);
    assert_eq!(wait, Some(0));
    assert_eq!(playback.call_count(), 1);
    assert!(!scheduler.is_armed());
}

#[test]
fn calibration_ready_without_request_fails() {
    let playback = MockPlaybackSink::new();
    let mut scheduler = CalibrationScheduler::new();
    let ready = CalibrationReadyPayload { timestamp: None, target_start_ms: None };
    let (status, wait) = on_ready(&mut scheduler, &ready, 1_000, &playback);
    assert_eq!(status, 400);
    assert_eq!(wait, None);
    assert_eq!(playback.call_count(), 0);
    assert!(!scheduler.is_armed());
    assert_eq!(scheduler.ready(), Err(ScheduleError::NoPendingRequest));
}

#[test]
fn second_request_supersedes_the_first() {
    let playback = MockPlaybackSink::new();
    let mut scheduler = CalibrationScheduler::new();
    let first = CalibrationRequestPayload { timestamp: 1, chirp_config: short_chirp(), delay_ms: Some(10) };
    let other = ChirpConfig { start_freq: 1000, end_freq: 10000, duration: 100, repetitions: 6, interval_ms: 400 };
    let second = CalibrationRequestPayload { timestamp: 2, chirp_config: other, delay_ms: Some(30) };
    scheduler.request(&first, 1_000);
    scheduler.request(&second, 1_005);
    let ready = CalibrationReadyPayload { timestamp: None, target_start_ms: None };
    let (status, wait) = on_ready(&mut scheduler, &ready, 1_010, &playback);
    assert_eq!(status, 200);
    assert_eq!(wait, Some(30));
    assert_eq!(playback.call_count(), 1);
    assert_eq!(playback.last(), Some(other));

    let (status, _) = on_ready(&mut scheduler, &ready, 1_020, &playback);
    assert_eq!(status, 400);
    assert_eq!(playback.call_count(), 1);
    assert_eq!(playback.last(), Some(other));
}

#[test]
fn request_is_stamped_and_given_the_default_delay() {
    let mut scheduler = CalibrationScheduler::new();
    assert!(!scheduler.is_armed());
    let request = CalibrationRequestPayload { timestamp: 7, chirp_config: short_chirp(), delay_ms: None };
    scheduler.request(&request, 123_456);
    assert_eq!(
        scheduler.ready(),
        Ok(PendingPlayback { chirp: short_chirp(), delay_ms: 2_000, requested_at: 123_456 })
    );
    assert_eq!(DEFAULT_DELAY_MS, 2_000);
}

#[test]
fn wait_lasts_until_the_start_time() {
    let pending = PendingPlayback { chirp: short_chirp(), delay_ms: 2_000, requested_at: 0 };
    assert_eq!(pending.wait_ms(10_000, None), 2_000);
    assert_eq!(pending.wait_ms(10_000, Some(10_750)), 750);
    assert_eq!(pending.wait_ms(10_000, Some(10_000)), 0);
    assert_eq!(pending.wait_ms(10_000, Some(9_000)), 0);
    assert_eq!(pending.wait_ms(0, Some(u64::MAX)), u64::MAX);
    assert_eq!(pending.wait_ms(u64::MAX, None), 2_000);
    let long = PendingPlayback { chirp: short_chirp(), delay_ms: u64::MAX, requested_at: 0 };
    assert_eq!(long.wait_ms(u64::MAX, None), u64::MAX);
}

#[test]
fn default_chirp_is_a_short_sweep() {
    assert_eq!(ChirpConfig::default(), short_chirp());
}
