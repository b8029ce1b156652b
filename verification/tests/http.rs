use airsync_receiver_core::airplay::config::{generate_config, ShairportConfig};
use airsync_receiver_core::calibration::{calibration_outcome, ConfigWriter, ShairportController};
use airsync_receiver_core::error::ServiceError;
use airsync_receiver_core::http::{
    apply_response, apply_settings_update, pairing_response, playback_arguments,
    render_avahi_service, settings_response, submission_of, update_settings,
    CalibrationApplyResponse, CalibrationResultPayload, CalibrationSink, NoopPlaybackSink,
    PlaybackSink, ReceiverInfo, SettingsUpdatePayload,
};
use airsync_receiver_core::protocol::calibration::CalibrationSubmission;
use std::cell::RefCell;
use airsync_receiver_core::protocol::calibration::ChirpConfig;
use airsync_receiver_core::protocol::device::AudioOutput;

#[test]
fn avahi_service_contains_fields() {
    let rendered = render_avahi_service("Living Room", "rx-1", 5000, &["calibration"]);
    assert!(rendered.contains("_airsync._tcp"));
    assert!(rendered.contains("rx-1"));
    assert!(rendered.contains("caps=calibration"));
    assert!(rendered.contains("<port>5000</port>"));
}

#[test]
fn avahi_service_is_rendered_in_full() {
    let rendered = render_avahi_service("Den", "rx-9", 80, &["calibration", "airplay"]);
    let expected = "<service-group>\n  <name replace-wildcards=\"yes\">Den</name>\n  <service>\n    <type>_airsync._tcp</type>\n    <port>80</port>\n    <txt-record>name=Den</txt-record>\n    <txt-record>ver=1</txt-record>\n    <txt-record>api=/api</txt-record>\n    <txt-record>caps=calibration,airplay</txt-record>\n    <txt-record>id=rx-9</txt-record>\n  </service>\n</service-group>\n";
    assert_eq!(rendered, expected);
}

#[test]
fn avahi_service_without_capabilities() {
    let rendered = render_avahi_service("Den", "rx-9", 0, &[]);
    assert!(rendered.contains("<txt-record>caps=</txt-record>"));
    assert!(rendered.contains("<port>0</port>"));
    let rendered = render_avahi_service("Den", "rx-9", 65535, &["a", "b", "c"]);
    assert!(rendered.contains("<txt-record>caps=a,b,c</txt-record>"));
    assert!(rendered.contains("<port>65535</port>"));
}

#[test]
fn noop_sink_accepts_any_burst() {
    let sink = NoopPlaybackSink;
    assert!(sink.play(&ChirpConfig::default()).is_ok());
}

#[test]
fn settings_update_replaces_named_parts_only() {
    let mut config = ShairportConfig {
        device_name: "AirSync".to_string(),
        output_device: "hw:0,0".to_string(),
        latency_offset_us: 0,
    };
    apply_settings_update(
        &mut config,
        SettingsUpdatePayload {
            device_name: Some("Living Room".to_string()),
            output_device: Some("hw:1,0".to_string()),
            latency_offset_us: Some(50_000),
        },
    );
    assert_eq!(config.device_name, "Living Room");
    assert_eq!(config.output_device, "hw:1,0");
    assert_eq!(config.latency_offset_us, 50_000);

    apply_settings_update(
        &mut config,
        SettingsUpdatePayload { device_name: None, output_device: None, latency_offset_us: None },
    );
    assert_eq!(config.device_name, "Living Room");
    assert_eq!(config.output_device, "hw:1,0");
    assert_eq!(config.latency_offset_us, 50_000);

    apply_settings_update(
        &mut config,
        SettingsUpdatePayload {
            device_name: None,
            output_device: Some("hdmi".to_string()),
            latency_offset_us: None,
        },
    );
    assert_eq!(config.device_name, "Living Room");
    assert_eq!(config.output_device, "hdmi");
    assert_eq!(config.latency_offset_us, 50_000);
}

#[test]
fn settings_are_reported_as_they_are() {
    let mut config = generate_config(Some("Studio"), AudioOutput::USB);
    config.latency_offset_us = -55_000;
    let response = settings_response(config);
    assert_eq!(response.device_name, "Studio");
    assert_eq!(response.output_device, "hw:1,0");
    assert_eq!(response.latency_offset_us, -55_000);
}

#[test]
fn response_reports_the_latency_as_submitted() {
    let payload = CalibrationResultPayload { timestamp: 1, latency_us: 800_000, confidence_milli: 900 };
    let submission = submission_of(&payload);
    assert_eq!(submission.timestamp, 1);
    assert_eq!(submission.latency_us, 800_000);
    assert_eq!(submission.confidence_milli, 900);
    let outcome = calibration_outcome(submission.latency_us);
    let response = apply_response(&submission, &outcome);
    assert_eq!(response.measured_latency_us, 800_000);
    assert_eq!(response.applied_offset_us, -250_000);
    assert!(response.was_clamped);
}

struct Recorder {
    written: RefCell<Vec<String>>,
    restarts: RefCell<u32>,
    fail_write: bool,
    fail_restart: bool,
}

impl Recorder {
    fn new(fail_write: bool, fail_restart: bool) -> Self {
        Recorder { written: RefCell::new(Vec::new()), restarts: RefCell::new(0), fail_write, fail_restart }
    }
}

impl ConfigWriter for Recorder {
    fn write(&self, contents: &str) -> Result<(), ServiceError> {
        if self.fail_write {
            return Err(ServiceError { message: "write".to_string() });
        }
        self.written.borrow_mut().push(contents.to_string());
        Ok(())
    }
}

impl ShairportController for Recorder {
    fn restart(&self) -> Result<(), ServiceError> {
        *self.restarts.borrow_mut() += 1;
        if self.fail_restart {
            return Err(ServiceError { message: "restart".to_string() });
        }
        Ok(())
    }
}

fn living_room() -> SettingsUpdatePayload {
    SettingsUpdatePayload {
        device_name: Some("Living Room".to_string()),
        output_device: Some("hw:1,0".to_string()),
        latency_offset_us: Some(50_000),
    }
}

#[test]
fn settings_update_changes_config_and_tracks_restart() {
    let recorder = Recorder::new(false, false);
    let mut config = generate_config(None, AudioOutput::Headphone);
    let stored = update_settings(&mut config, living_room(), &recorder, &recorder);
    assert_eq!(stored, Ok(()));
    assert_eq!(config.device_name, "Living Room");
    assert_eq!(config.output_device, "hw:1,0");
    assert_eq!(config.latency_offset_us, 50_000);
    assert_eq!(*recorder.restarts.borrow(), 1);
    let written = recorder.written.borrow();
    assert_eq!(written.len(), 1);
    assert!(written[0].contains("name = \"Living Room\""));
    assert!(written[0].contains("output_device = \"hw:1,0\""));
    assert!(written[0].contains("audio_backend_latency_offset_in_seconds = 0.050;"));
}

#[test]
fn settings_update_reports_what_failed() {
    let recorder = Recorder::new(true, false);
    let mut config = generate_config(None, AudioOutput::Headphone);
    let stored = update_settings(&mut config, living_room(), &recorder, &recorder);
    assert_eq!(stored, Err(ServiceError { message: "write".to_string() }));
    assert_eq!(*recorder.restarts.borrow(), 0);
    assert_eq!(config.device_name, "Living Room");

    let recorder = Recorder::new(false, true);
    let mut config = generate_config(None, AudioOutput::Headphone);
    let stored = update_settings(&mut config, living_room(), &recorder, &recorder);
    assert_eq!(stored, Err(ServiceError { message: "restart".to_string() }));
    assert_eq!(*recorder.restarts.borrow(), 1);
    assert_eq!(recorder.written.borrow().len(), 1);
    assert_eq!(config.latency_offset_us, 50_000);
}

#[test]
fn pairing_start_returns_receiver_info() {
    let info = ReceiverInfo {
        receiver_id: "rx-1".to_string(),
        name: "Test".to_string(),
        capabilities: vec!["calibration".to_string()],
    };
    let config = generate_config(None, AudioOutput::Headphone);
    let start = pairing_response(&info, config);
    assert_eq!(start.receiver_id, "rx-1");
    assert_eq!(start.capabilities, vec!["calibration"]);
    assert_eq!(start.output_device, "hw:0,0");
}

#[test]
fn player_is_told_the_device_unless_it_is_the_default() {
    assert_eq!(playback_arguments("hw:1,0", "/tmp/a.wav"), vec!["-D", "hw:1,0", "-q", "/tmp/a.wav"]);
    assert_eq!(playback_arguments("", "/tmp/a.wav"), vec!["-q", "/tmp/a.wav"]);
    assert_eq!(playback_arguments("", ""), vec!["-q", ""]);
}

struct MockCalibrationSink {
    last: RefCell<Option<CalibrationSubmission>>,
}

impl CalibrationSink for MockCalibrationSink {
    fn apply(&self, submission: &CalibrationSubmission) -> Result<CalibrationApplyResponse, ServiceError> {
        *self.last.borrow_mut() = Some(*submission);
        Ok(CalibrationApplyResponse {
            measured_latency_us: submission.latency_us,
            applied_offset_us: submission.latency_us,
            was_clamped: false,
        })
    }
}

#[test]
fn calibration_result_calls_sink() {
    let sink = MockCalibrationSink { last: RefCell::new(None) };
    let payload = CalibrationResultPayload { timestamp: 1, latency_us: 42_000, confidence_milli: 900 };
    let applied = sink.apply(&submission_of(&payload));
    assert!(applied.is_ok());
    let recorded = sink.last.borrow().unwrap();
    assert_eq!(recorded.latency_us as f64 / 1000.0, 42.0);
    assert_eq!(recorded.confidence_milli as f64 / 1000.0, 0.9);
}
