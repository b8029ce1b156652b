use std::sync::{Arc, Mutex};

use airsync_receiver_core::airplay::config::generate_config;
use airsync_receiver_core::calibration::{
    calibration_outcome, clamp_latency, prepare_calibration, restart_is_skipped, settle_restart, settle_write,
    to_ascii_lower, with_latency_offset,
    CalibrationApplier, CalibrationOutcome, ConfigWriter, ShairportController,
};
use airsync_receiver_core::error::ServiceError;
use airsync_receiver_core::protocol::calibration::CalibrationSubmission;
use airsync_receiver_core::protocol::device::AudioOutput;

#[derive(Clone)]
struct MockWriter {
    contents: Arc<Mutex<Option<String>>>,
    fail: bool,
}

impl MockWriter {
    fn new() -> Self {
        Self { contents: Arc::new(Mutex::new(None)), fail: false }
    }

    fn failing() -> Self {
        Self { contents: Arc::new(Mutex::new(None)), fail: true }
    }

    fn last_contents(&self) -> Option<String> {
        self.contents.lock().unwrap().clone()
    }
}

impl ConfigWriter for MockWriter {
    fn write(&self, contents: &str) -> Result<(), ServiceError> {
        if self.fail {
            return Err(ServiceError { message: "disk full".to_string() });
        }
        *self.contents.lock().unwrap() = Some(contents.to_string());
        Ok(())
    }
}

#[derive(Clone)]
struct MockController {
    restart_calls: Arc<Mutex<u32>>,
    fail: bool,
}

impl MockController {
    fn new() -> Self {
        Self { restart_calls: Arc::new(Mutex::new(0)), fail: false }
    }

    fn failing() -> Self {
        Self { restart_calls: Arc::new(Mutex::new(0)), fail: true }
    }

    fn calls(&self) -> u32 {
        *self.restart_calls.lock().unwrap()
    }
}

impl ShairportController for MockController {
    fn restart(&self) -> Result<(), ServiceError> {
        *self.restart_calls.lock().unwrap() += 1;
        if self.fail {
            return Err(ServiceError { message: "daemon is down".to_string() });
        }
        Ok(())
    }
}

fn millis_text(us: i64) -> String {
    format!("{:.3}", us as f64 / 1000.0)
}

#[test]
fn writes_latency_offset_and_restarts() {
    let writer = MockWriter::new();
    let restarter = MockController::new();
    let applier = CalibrationApplier::new(writer.clone(), restarter.clone());

    let config = generate_config(Some("Living Room"), AudioOutput::I2S);
    let outcome = applier.apply_latency(config, 55_000).unwrap();

    assert_eq!(outcome.measured_latency_us, 55_000);
    assert_eq!(millis_text(outcome.applied_offset_us), "-55.000");
    assert!(!outcome.was_clamped);

    let rendered = writer.last_contents().expect("config should be written");
    assert!(rendered.contains("audio_backend_latency_offset_in_seconds = -0.055"));
    assert_eq!(restarter.calls(), 1);
}

#[test]
fn clamps_excessive_latency_to_supported_range() {
    let writer = MockWriter::new();
    let restarter = MockController::new();
    let applier = CalibrationApplier::new(writer.clone(), restarter.clone());

    let config = generate_config(None, AudioOutput::USB);
    let outcome = applier.apply_latency(config, 800_000).unwrap();

    assert!(outcome.was_clamped);
    assert_eq!(millis_text(outcome.applied_offset_us), "-250.000");
    assert_eq!(outcome.applied_offset_us, -250_000);

    let rendered = writer.last_contents().unwrap();
    assert!(rendered.contains("audio_backend_latency_offset_in_seconds = -0.250"));
}

#[test]
fn delays_playback_when_audio_is_early() {
    let writer = MockWriter::new();
    let restarter = MockController::new();
    let applier = CalibrationApplier::new(writer.clone(), restarter.clone());

    let config = generate_config(None, AudioOutput::Headphone);
    let outcome = applier.apply_latency(config, -20_000).unwrap();

    assert_eq!(millis_text(outcome.applied_offset_us), "20.000");
    assert_eq!(outcome.applied_offset_us, 20_000);
    assert!(!outcome.was_clamped);

    let rendered = writer.last_contents().unwrap();
    assert!(rendered.contains("audio_backend_latency_offset_in_seconds = 0.020"));
}

#[test]
fn applies_submission_payload() {
    let writer = MockWriter::new();
    let restarter = MockController::new();
    let applier = CalibrationApplier::new(writer.clone(), restarter.clone());

    let config = generate_config(Some("Studio"), AudioOutput::HDMI);
    let submission = CalibrationSubmission { timestamp: 1_234, latency_us: 30_000, confidence_milli: 920 };

    let outcome = applier.apply_submission(config, &submission).unwrap();
    assert_eq!(millis_text(outcome.applied_offset_us), "-30.000");
    assert_eq!(restarter.calls(), 1);

    let rendered = writer.last_contents().unwrap();
    assert!(rendered.contains("audio_backend_latency_offset_in_seconds = -0.030"));
}

#[test]
fn clamps_early_audio_beyond_the_range() {
    let outcome = calibration_outcome(-800_000);
    assert_eq!(
        outcome,
        CalibrationOutcome { measured_latency_us: -800_000, applied_offset_us: 250_000, was_clamped: true }
    );
}

#[test]
fn range_ends_are_not_clamped() {
    assert_eq!(
        calibration_outcome(250_000),
        CalibrationOutcome { measured_latency_us: 250_000, applied_offset_us: -250_000, was_clamped: false }
    );
    assert_eq!(
        calibration_outcome(-250_000),
        CalibrationOutcome { measured_latency_us: -250_000, applied_offset_us: 250_000, was_clamped: false }
    );
    assert_eq!(
        calibration_outcome(250_001),
        CalibrationOutcome { measured_latency_us: 250_001, applied_offset_us: -250_000, was_clamped: true }
    );
    assert_eq!(
        calibration_outcome(0),
        CalibrationOutcome { measured_latency_us: 0, applied_offset_us: 0, was_clamped: false }
    );
    assert_eq!(calibration_outcome(i64::MIN).applied_offset_us, 250_000);
    assert_eq!(calibration_outcome(i64::MAX).applied_offset_us, -250_000);
}

#[test]
fn clamp_holds_to_a_quarter_second() {
    assert_eq!(clamp_latency(123), 123);
    assert_eq!(clamp_latency(-123), -123);
    assert_eq!(clamp_latency(250_000), 250_000);
    assert_eq!(clamp_latency(250_001), 250_000);
    assert_eq!(clamp_latency(-250_001), -250_000);
}

#[test]
fn forced_latency_replaces_the_measurement() {
    let writer = MockWriter::new();
    let restarter = MockController::new();
    let applier = CalibrationApplier::new(writer.clone(), restarter.clone());

    let config = generate_config(None, AudioOutput::USB);
    let outcome = applier.apply_latency_with(config, 55_000, Some(-12_500)).unwrap();
    assert_eq!(outcome.measured_latency_us, -12_500);
    assert_eq!(outcome.applied_offset_us, 12_500);
    assert!(!outcome.was_clamped);
    let rendered = writer.last_contents().unwrap();
    assert!(rendered.contains("audio_backend_latency_offset_in_seconds = 0.012;"));

    let config = generate_config(None, AudioOutput::USB);
    let outcome = applier.apply_latency_with(config, 55_000, None).unwrap();
    assert_eq!(outcome.measured_latency_us, 55_000);
    assert_eq!(outcome.applied_offset_us, -55_000);
}

#[test]
fn write_failure_is_reported_and_nothing_is_restarted() {
    let writer = MockWriter::failing();
    let restarter = MockController::new();
    let applier = CalibrationApplier::new(writer.clone(), restarter.clone());

    let config = generate_config(None, AudioOutput::USB);
    let failure = applier.apply_latency(config, 55_000).unwrap_err();
    assert_eq!(failure.message, "disk full");
    assert_eq!(restarter.calls(), 0);
    assert!(writer.last_contents().is_none());
}

#[test]
fn restart_failure_does_not_change_the_outcome() {
    let writer = MockWriter::new();
    let restarter = MockController::failing();
    let applier = CalibrationApplier::new(writer.clone(), restarter.clone());

    let config = generate_config(None, AudioOutput::USB);
    let outcome = applier.apply_latency(config, 55_000).unwrap();
    assert_eq!(outcome.applied_offset_us, -55_000);
    assert_eq!(restarter.calls(), 1);
    assert!(writer.last_contents().is_some());
}

#[test]
fn settling_follows_the_writer_and_ignores_the_controller() {
    let outcome = calibration_outcome(10_000);
    assert_eq!(settle_write(Ok(()), outcome), Ok(outcome));
    let failure = ServiceError { message: "no space".to_string() };
    assert_eq!(settle_write(Err(failure.clone()), outcome), Err(failure.clone()));
    assert_eq!(settle_restart(Ok(()), outcome), outcome);
    assert_eq!(settle_restart(Err(failure), outcome), outcome);
}

#[test]
fn offset_is_stored_in_the_configuration() {
    let config = generate_config(Some("Den"), AudioOutput::HDMI);
    let updated = with_latency_offset(config, -42_000);
    assert_eq!(updated.device_name, "Den");
    assert_eq!(updated.output_device, "hdmi");
    assert_eq!(updated.latency_offset_us, -42_000);
}

#[test]
fn restart_is_skipped_where_the_switch_says_so() {
    assert!(restart_is_skipped(Some("1")));
    assert!(restart_is_skipped(Some("true")));
    assert!(restart_is_skipped(Some("TRUE")));
    assert!(restart_is_skipped(Some("tRuE")));
    assert!(!restart_is_skipped(None));
    assert!(!restart_is_skipped(Some("")));
    assert!(!restart_is_skipped(Some("0")));
    assert!(!restart_is_skipped(Some("11")));
    assert!(!restart_is_skipped(Some("yes")));
    assert!(!restart_is_skipped(Some("true ")));
    assert!(!restart_is_skipped(Some("tru")));
    assert!(!restart_is_skipped(Some("tr\u{fc}e")));
    assert!(!restart_is_skipped(Some("false")));
    assert_eq!(to_ascii_lower('A'), 'a');
    assert_eq!(to_ascii_lower('Z'), 'z');
    assert_eq!(to_ascii_lower('a'), 'a');
    assert_eq!(to_ascii_lower('['), '[');
    assert_eq!(to_ascii_lower('@'), '@');
    assert_eq!(to_ascii_lower('\u{c4}'), '\u{c4}');
}

#[test]
fn prepared_calibration_holds_what_the_writer_gets() {
    let config = generate_config(Some("Den"), AudioOutput::USB);
    let prepared = prepare_calibration(config, 800_000);
    assert_eq!(prepared.outcome, calibration_outcome(800_000));
    assert_eq!(prepared.config.device_name, "Den");
    assert_eq!(prepared.config.output_device, "hw:1,0");
    assert_eq!(prepared.config.latency_offset_us, -250_000);
    assert!(prepared.rendered.contains("name = \"Den\";"));
    assert!(prepared.rendered.contains("audio_backend_latency_offset_in_seconds = -0.250;"));

    let writer = MockWriter::new();
    let applier = CalibrationApplier::new(writer.clone(), MockController::new());
    let config = generate_config(Some("Den"), AudioOutput::USB);
    applier.apply_latency(config, 800_000).unwrap();
    assert_eq!(writer.last_contents(), Some(prepared.rendered));
}
