//! What the receiver answers over its interface, and the services that it
//! answers through.

use crate::airplay::config::{ShairportConfig, ShairportConfigModel};
use crate::airplay::config::render_config_file;
use crate::calibration::{CalibrationOutcome, ConfigWriter, ShairportController};
use crate::error::ServiceError;
use crate::protocol::calibration::{CalibrationSubmission, ChirpConfig};
use crate::text::decimal::{decimal_text, push_decimal};
use vstd::prelude::*;
use vstd::string::*;

verus! {

/// How the receiver introduces itself.
#[derive(Debug, Clone, PartialEq, Eq)]
pub struct ReceiverInfo {
    pub receiver_id: String,
    pub name: String,
    pub capabilities: Vec<String>,
}

/// The answer to a device that starts pairing.
#[derive(Debug, Clone, PartialEq, Eq)]
pub struct PairingStartResponse {
    pub receiver_id: String,
    pub capabilities: Vec<String>,
    pub output_device: String,
}

/// A measurement as the measuring device sends it.
#[derive(Debug, Clone, Copy, PartialEq, Eq, Structural)]
pub struct CalibrationResultPayload {
    pub timestamp: u64,
    /// Measured delay in microseconds; positive where audio arrived late.
    pub latency_us: i64,
    /// Confidence of the measurement in thousandths.
    pub confidence_milli: u32,
}

/// The answer to a measurement.
#[derive(Debug, Clone, Copy, PartialEq, Eq, Structural)]
pub struct CalibrationApplyResponse {
    /// The latency that the device reported, in microseconds.
    pub measured_latency_us: i64,
    /// The offset now in force, in microseconds.
    pub applied_offset_us: i64,
    pub was_clamped: bool,
}

/// The settings as the receiver reports them.
#[derive(Debug, Clone, PartialEq, Eq)]
pub struct SettingsResponse {
    pub device_name: String,
    pub output_device: String,
    pub latency_offset_us: i64,
}

/// A change of settings; what is left out stays as it is.
#[derive(Debug, Clone, PartialEq, Eq)]
pub struct SettingsUpdatePayload {
    pub device_name: Option<String>,
    pub output_device: Option<String>,
    pub latency_offset_us: Option<i64>,
}

/// Acts on a measurement.
pub trait CalibrationSink {
    fn apply(&self, submission: &CalibrationSubmission) -> Result<
        CalibrationApplyResponse,
        ServiceError,
    >;
}

/// Plays a calibration burst through the speaker.
pub trait PlaybackSink {
    fn play(&self, chirp: &ChirpConfig) -> Result<(), ServiceError>;
}

/// Holds the settings of the receiver.
pub trait SettingsManager {
    fn current(&self) -> ShairportConfig;

    fn update(&self, update: SettingsUpdatePayload) -> Result<ShairportConfig, ServiceError>;
}

/// A sink that plays nothing and never fails.
#[derive(Debug, Clone, Copy, PartialEq, Eq, Structural)]
pub struct NoopPlaybackSink;

impl PlaybackSink for NoopPlaybackSink {
    fn play(&self, chirp: &ChirpConfig) -> (played: Result<(), ServiceError>)
        ensures
            played is Ok,
    {
        Ok(())
    }
}

/// The measurement that a payload carries.
pub fn submission_of(payload: &CalibrationResultPayload) -> (submission: CalibrationSubmission)
    ensures
        submission == (CalibrationSubmission {
            timestamp: payload.timestamp,
            latency_us: payload.latency_us,
            confidence_milli: payload.confidence_milli,
        }),
{
    CalibrationSubmission {
        timestamp: payload.timestamp,
        latency_us: payload.latency_us,
        confidence_milli: payload.confidence_milli,
    }
}

/// The answer to a measurement that was acted on: the latency as it was
/// reported, with the offset that came of it.
pub fn apply_response(submission: &CalibrationSubmission, outcome: &CalibrationOutcome) -> (response:
    CalibrationApplyResponse)
    ensures
        response == (CalibrationApplyResponse {
            measured_latency_us: submission.latency_us,
            applied_offset_us: outcome.applied_offset_us,
            was_clamped: outcome.was_clamped,
        }),
{
    CalibrationApplyResponse {
        measured_latency_us: submission.latency_us,
        applied_offset_us: outcome.applied_offset_us,
        was_clamped: outcome.was_clamped,
    }
}

/// The settings as they are reported.
pub fn settings_response(config: ShairportConfig) -> (response: SettingsResponse)
    ensures
        response.device_name@ == config.device_name@,
        response.output_device@ == config.output_device@,
        response.latency_offset_us == config.latency_offset_us,
{
    SettingsResponse {
        device_name: config.device_name,
        output_device: config.output_device,
        latency_offset_us: config.latency_offset_us,
    }
}

/// The settings after a change: each part that the change names is
/// replaced, the others stay.
pub open spec fn updated_settings(
    config: ShairportConfigModel,
    update: SettingsUpdatePayload,
) -> ShairportConfigModel {
    ShairportConfigModel {
        device_name: match update.device_name {
            Some(name) => name@,
            None => config.device_name,
        },
        output_device: match update.output_device {
            Some(output) => output@,
            None => config.output_device,
        },
        latency_offset_us: match update.latency_offset_us {
            Some(offset) => offset as int,
            None => config.latency_offset_us,
        },
    }
}

/// Changes the settings as `update` says.
pub fn apply_settings_update(config: &mut ShairportConfig, update: SettingsUpdatePayload)
    ensures
        final(config)@ == updated_settings(old(config)@, update),
{
    let SettingsUpdatePayload { device_name, output_device, latency_offset_us } = update;
    match device_name {
        Some(name) => {
            config.device_name = name;
        },
        None => {},
    }
    match output_device {
        Some(output) => {
            config.output_device = output;
        },
        None => {},
    }
    match latency_offset_us {
        Some(offset) => {
            config.latency_offset_us = offset;
        },
        None => {},
    }
}

/// The texts of `parts` with `separator` between each two.
pub open spec fn joined(parts: Seq<Seq<char>>, separator: Seq<char>) -> Seq<char>
    decreases parts.len(),
{
    if parts.len() == 0 {
        Seq::empty()
    } else if parts.len() == 1 {
        parts[0]
    } else {
        joined(parts.drop_last(), separator) + separator + parts.last()
    }
}

/// The service file up to the first mention of the name.
pub const AVAHI_HEAD: &'static str = "<service-group>\n  <name replace-wildcards=\"yes\">";

/// The service file between the name and the port.
pub const AVAHI_BEFORE_PORT: &'static str =
    "</name>\n  <service>\n    <type>_airsync._tcp</type>\n    <port>";

/// The service file between the port and the second mention of the name.
pub const AVAHI_BEFORE_TXT_NAME: &'static str = "</port>\n    <txt-record>name=";

/// The service file between the name and the capabilities.
pub const AVAHI_BEFORE_CAPS: &'static str =
    "</txt-record>\n    <txt-record>ver=1</txt-record>\n    <txt-record>api=/api</txt-record>\n    <txt-record>caps=";

/// The service file between the capabilities and the receiver's id.
pub const AVAHI_BEFORE_ID: &'static str = "</txt-record>\n    <txt-record>id=";

/// The end of the service file.
pub const AVAHI_TAIL: &'static str = "</txt-record>\n  </service>\n</service-group>\n";

/// The text of the file that announces the receiver on the local network:
/// its name, its port, its capabilities separated by commas, and its id.
pub open spec fn avahi_service_text(
    name: Seq<char>,
    receiver_id: Seq<char>,
    port: u16,
    caps: Seq<Seq<char>>,
) -> Seq<char> {
    AVAHI_HEAD@ + name + AVAHI_BEFORE_PORT@ + decimal_text(port as nat) + AVAHI_BEFORE_TXT_NAME@
        + name + AVAHI_BEFORE_CAPS@ + joined(caps, ","@) + AVAHI_BEFORE_ID@ + receiver_id
        + AVAHI_TAIL@
}

/// Writes the file that announces the receiver on the local network.
pub fn render_avahi_service(name: &str, receiver_id: &str, port: u16, caps: &[&str]) -> (rendered:
    String)
    ensures
        rendered@ == avahi_service_text(
            name@,
            receiver_id@,
            port,
            caps@.map_values(|cap: &str| cap@),
        ),
{
    let ghost cap_texts = caps@.map_values(|cap: &str| cap@);
    let mut caps_text = String::new();
    let mut i: usize = 0;
    while i < caps.len()
        invariant
            i <= caps.len(),
            cap_texts == caps@.map_values(|cap: &str| cap@),
            caps_text@ == joined(cap_texts.take(i as int), ","@),
        decreases caps.len() - i,
    {
        let ghost before = caps_text@;
        if i > 0 {
            caps_text.append(",");
        }
        caps_text.append(caps[i]);
        proof {
            let grown = cap_texts.take(i + 1);
            assert(grown.drop_last() =~= cap_texts.take(i as int));
            assert(grown.last() == caps@[i as int]@);
            if i == 0 {
                assert(caps_text@ =~= grown[0]);
            }
        }
        i += 1;
    }
    assert(cap_texts.take(caps.len() as int) =~= cap_texts);
    let mut rendered = String::from_str(AVAHI_HEAD);
    rendered.append(name);
    rendered.append(AVAHI_BEFORE_PORT);
    push_decimal(&mut rendered, port as u64);
    rendered.append(AVAHI_BEFORE_TXT_NAME);
    rendered.append(name);
    rendered.append(AVAHI_BEFORE_CAPS);
    rendered.append(caps_text.as_str());
    rendered.append(AVAHI_BEFORE_ID);
    rendered.append(receiver_id);
    rendered.append(AVAHI_TAIL);
    rendered
}

/// Changes the settings as `update` says, hands the text of the new
/// configuration to the writer and asks for a restart of the daemon. The
/// settings are changed whether or not that succeeds. Fails where the
/// writer or the controller does.
pub fn update_settings<W: ConfigWriter, C: ShairportController>(
    config: &mut ShairportConfig,
    update: SettingsUpdatePayload,
    writer: &W,
    controller: &C,
) -> (stored: Result<(), ServiceError>)
    ensures
        final(config)@ == updated_settings(old(config)@, update),
{
    apply_settings_update(config, update);
    let rendered = render_config_file(config);
    match writer.write(rendered.as_str()) {
        Ok(_) => controller.restart(),
        Err(failure) => Err(failure),
    }
}

/// The answer to a device that starts pairing.
pub fn pairing_response(info: &ReceiverInfo, config: ShairportConfig) -> (response:
    PairingStartResponse)
    ensures
        response.receiver_id@ == info.receiver_id@,
        response.capabilities@.len() == info.capabilities@.len(),
        forall|i: int|
            0 <= i < info.capabilities@.len() ==> (#[trigger] response.capabilities@[i])@
                == info.capabilities@[i]@,
        response.output_device@ == config.output_device@,
{
    let mut capabilities: Vec<String> = Vec::new();
    let mut i: usize = 0;
    while i < info.capabilities.len()
        invariant
            i <= info.capabilities.len(),
            capabilities@.len() == i,
            forall|j: int| 0 <= j < i ==> (#[trigger] capabilities@[j])@ == info.capabilities@[j]@,
        decreases info.capabilities.len() - i,
    {
        capabilities.push(info.capabilities[i].clone());
        i += 1;
    }
    PairingStartResponse {
        receiver_id: info.receiver_id.clone(),
        capabilities,
        output_device: config.output_device,
    }
}

/// What the player is told: the sound device, unless it is the default
/// one, then to be quiet, then the file to play.
pub open spec fn player_arguments(device: Seq<char>, wav_path: Seq<char>) -> Seq<Seq<char>> {
    if device.len() == 0 {
        seq!["-q"@, wav_path]
    } else {
        seq!["-D"@, device, "-q"@, wav_path]
    }
}

/// Lists what the player is told.
pub fn playback_arguments(device: &str, wav_path: &str) -> (arguments: Vec<String>)
    ensures
        arguments@.map_values(|argument: String| argument@) == player_arguments(
            device@,
            wav_path@,
        ),
{
    let mut arguments: Vec<String> = Vec::new();
    if !device.is_empty() {
        arguments.push(String::from_str("-D"));
        arguments.push(String::from_str(device));
    }
    arguments.push(String::from_str("-q"));
    arguments.push(String::from_str(wav_path));
    assert(arguments@.map_values(|argument: String| argument@) =~= player_arguments(
        device@,
        wav_path@,
    ));
    arguments
}

} // verus!
