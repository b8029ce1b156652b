//! Turning a measured playback latency into a compensation offset, and
//! handing the new configuration to the audio daemon.

pub mod signal;

use crate::airplay::config::{
    config_file_text, render_config_file, ShairportConfig, ShairportConfigModel,
};
use crate::error::ServiceError;
use crate::protocol::calibration::CalibrationSubmission;
use crate::text::chars_of;
use crate::text::search::matches_at;
use vstd::prelude::*;

verus! {

/// Largest latency, in microseconds, that the receiver compensates for.
pub const MAX_LATENCY_US: i64 = 250_000;

/// Stores the text of the daemon's configuration.
pub trait ConfigWriter {
    fn write(&self, contents: &str) -> Result<(), ServiceError>;
}

/// Restarts the audio daemon so that it reads its configuration anew.
pub trait ShairportController {
    fn restart(&self) -> Result<(), ServiceError>;
}

/// What one calibration did.
#[derive(Debug, Clone, Copy, PartialEq, Eq, Structural)]
pub struct CalibrationOutcome {
    /// The latency that was acted on, in microseconds.
    pub measured_latency_us: i64,
    /// The offset now in force, in microseconds.
    pub applied_offset_us: i64,
    /// Whether the latency lay outside the supported range.
    pub was_clamped: bool,
}

/// The latency that is compensated for: the one given, held to the
/// supported range of a quarter of a second either way.
pub open spec fn clamped_latency(latency_us: int) -> int {
    if latency_us < -MAX_LATENCY_US {
        -MAX_LATENCY_US
    } else if latency_us > MAX_LATENCY_US {
        MAX_LATENCY_US as int
    } else {
        latency_us
    }
}

/// The latency that is acted on: the operator's value where one is
/// forced, else the measurement.
pub open spec fn effective_latency(measured_us: i64, forced_us: Option<i64>) -> i64 {
    match forced_us {
        Some(forced) => forced,
        None => measured_us,
    }
}

/// What calibrating for a latency does. Audio that arrives late is pulled
/// earlier by a negative offset, audio that arrives early is delayed by a
/// positive one.
pub open spec fn outcome_for(latency_us: i64) -> CalibrationOutcome {
    CalibrationOutcome {
        measured_latency_us: latency_us,
        applied_offset_us: (-clamped_latency(latency_us as int)) as i64,
        was_clamped: clamped_latency(latency_us as int) != latency_us,
    }
}

/// A latency within the supported range is compensated in full and not
/// reported as clamped. One beyond it is reported as clamped and
/// compensated by a quarter of a second, against its sign.
pub proof fn lemma_outcome_by_range(latency_us: i64)
    ensures
        -250_000 <= latency_us <= 250_000 ==> !outcome_for(latency_us).was_clamped && outcome_for(
            latency_us,
        ).applied_offset_us == -latency_us,
        latency_us > 250_000 ==> outcome_for(latency_us).was_clamped && outcome_for(
            latency_us,
        ).applied_offset_us == -250_000,
        latency_us < -250_000 ==> outcome_for(latency_us).was_clamped && outcome_for(
            latency_us,
        ).applied_offset_us == 250_000,
        outcome_for(latency_us).measured_latency_us == latency_us,
{
}

/// Holds a latency to the supported range.
pub fn clamp_latency(latency_us: i64) -> (clamped: i64)
    ensures
        clamped == clamped_latency(latency_us as int),
{
    if latency_us < -MAX_LATENCY_US {
        -MAX_LATENCY_US
    } else if latency_us > MAX_LATENCY_US {
        MAX_LATENCY_US
    } else {
        latency_us
    }
}

/// Works out what calibrating for `latency_us` does.
pub fn calibration_outcome(latency_us: i64) -> (outcome: CalibrationOutcome)
    ensures
        outcome == outcome_for(latency_us),
        outcome.measured_latency_us == latency_us,
        -250_000 <= latency_us <= 250_000 ==> !outcome.was_clamped && outcome.applied_offset_us
            == -latency_us,
        latency_us > 250_000 ==> outcome.was_clamped && outcome.applied_offset_us == -250_000,
        latency_us < -250_000 ==> outcome.was_clamped && outcome.applied_offset_us == 250_000,
{
    let clamped = clamp_latency(latency_us);
    CalibrationOutcome {
        measured_latency_us: latency_us,
        applied_offset_us: -clamped,
        was_clamped: clamped != latency_us,
    }
}

/// The configuration with another latency offset.
pub fn with_latency_offset(config: ShairportConfig, offset_us: i64) -> (updated: ShairportConfig)
    ensures
        updated@ == (ShairportConfigModel { latency_offset_us: offset_us as int, ..config@ }),
{
    let mut updated = config;
    updated.latency_offset_us = offset_us;
    updated
}

/// A calibration that has been worked out and not been stored yet.
pub struct PreparedCalibration {
    /// The configuration with the new offset.
    pub config: ShairportConfig,
    /// The text of that configuration, for the writer.
    pub rendered: String,
    /// What the calibration does once it is stored.
    pub outcome: CalibrationOutcome,
}

/// Works out a calibration for `latency_us`: the outcome, the
/// configuration with the offset of that outcome, and its text.
pub fn prepare_calibration(config: ShairportConfig, latency_us: i64) -> (prepared:
    PreparedCalibration)
    ensures
        prepared.outcome == outcome_for(latency_us),
        prepared.config@ == (ShairportConfigModel {
            latency_offset_us: outcome_for(latency_us).applied_offset_us as int,
            ..config@
        }),
        prepared.rendered@ == config_file_text(prepared.config@),
{
    let outcome = calibration_outcome(latency_us);
    let config = with_latency_offset(config, outcome.applied_offset_us);
    let rendered = render_config_file(&config);
    PreparedCalibration { config, rendered, outcome }
}

/// What the caller is told once the writer has answered: its failure, or
/// the outcome where the configuration was stored.
pub fn settle_write(written: Result<(), ServiceError>, outcome: CalibrationOutcome) -> (result:
    Result<CalibrationOutcome, ServiceError>)
    ensures
        result == match written {
            Ok(_) => Ok::<CalibrationOutcome, ServiceError>(outcome),
            Err(failure) => Err(failure),
        },
{
    match written {
        Ok(_) => Ok(outcome),
        Err(failure) => Err(failure),
    }
}

/// What the caller is told once the controller has answered: the outcome,
/// whether or not the daemon could be restarted. A daemon that is down for
/// a moment must not stand in the way of a calibration.
pub fn settle_restart(restarted: Result<(), ServiceError>, outcome: CalibrationOutcome) -> (result:
    CalibrationOutcome)
    ensures
        result == outcome,
{
    match restarted {
        Ok(_) => outcome,
        Err(_) => outcome,
    }
}

/// Applies measured latencies to the daemon's configuration.
pub struct CalibrationApplier<W: ConfigWriter, C: ShairportController> {
    writer: W,
    controller: C,
}

impl<W: ConfigWriter, C: ShairportController> CalibrationApplier<W, C> {
    /// The writer that stores the configuration.
    pub closed spec fn writer(&self) -> W {
        self.writer
    }

    /// The controller that restarts the daemon.
    pub closed spec fn controller(&self) -> C {
        self.controller
    }

    /// An applier that stores through `writer` and restarts through
    /// `controller`.
    pub fn new(writer: W, controller: C) -> (applier: Self)
        ensures
            applier.writer() == writer,
            applier.controller() == controller,
    {
        CalibrationApplier { writer, controller }
    }

    /// Calibrates for the measured latency: prepares the calibration,
    /// hands the text of the new configuration to the writer and, once that
    /// is stored, asks the controller for a restart of the daemon, whose
    /// answer does not matter. Fails only where the writer does.
    pub fn apply_latency(&self, config: ShairportConfig, measured_latency_us: i64) -> (result:
        Result<CalibrationOutcome, ServiceError>)
        ensures
            result matches Ok(outcome) ==> outcome == outcome_for(measured_latency_us),
    {
        self.apply_latency_with(config, measured_latency_us, None)
    }

    /// Calibrates as [`Self::apply_latency`] does, for the latency that the
    /// operator forces where there is one.
    pub fn apply_latency_with(
        &self,
        config: ShairportConfig,
        measured_latency_us: i64,
        forced_latency_us: Option<i64>,
    ) -> (result: Result<CalibrationOutcome, ServiceError>)
        ensures
            result matches Ok(outcome) ==> outcome == outcome_for(
                effective_latency(measured_latency_us, forced_latency_us),
            ),
    {
        let effective = match forced_latency_us {
            Some(forced) => forced,
            None => measured_latency_us,
        };
        let prepared = prepare_calibration(config, effective);
        let written = self.writer.write(prepared.rendered.as_str());
        match settle_write(written, prepared.outcome) {
            Ok(outcome) => {
                let restarted = self.controller.restart();
                Ok(settle_restart(restarted, outcome))
            },
            Err(failure) => Err(failure),
        }
    }

    /// Calibrates for the latency that a submission reports.
    pub fn apply_submission(&self, config: ShairportConfig, submission: &CalibrationSubmission) -> (result:
        Result<CalibrationOutcome, ServiceError>)
        ensures
            result matches Ok(outcome) ==> outcome == outcome_for(submission.latency_us),
    {
        self.apply_latency(config, submission.latency_us)
    }
}

/// `c` with a capital letter of the basic alphabet made small.
pub open spec fn ascii_lower(c: char) -> char {
    if 'A' <= c <= 'Z' {
        ((c as u8) + 32) as char
    } else {
        c
    }
}

/// Whether two texts are equal but for the case of the letters of the
/// basic alphabet.
pub open spec fn same_ignoring_ascii_case(a: Seq<char>, b: Seq<char>) -> bool {
    a.len() == b.len() && forall|i: int|
        0 <= i < a.len() ==> ascii_lower(#[trigger] a[i]) == ascii_lower(b[i])
}

/// Whether the operator's switch says that the daemon is to be left
/// running: it is set to `1`, or to `true` in any case.
pub open spec fn restart_switched_off(switch: Option<Seq<char>>) -> bool {
    match switch {
        Some(value) => value == "1"@ || same_ignoring_ascii_case(value, "true"@),
        None => false,
    }
}

/// `c` with a capital letter of the basic alphabet made small.
pub fn to_ascii_lower(c: char) -> (lower: char)
    ensures
        lower == ascii_lower(c),
{
    if 'A' <= c && c <= 'Z' {
        ((c as u8) + 32) as char
    } else {
        c
    }
}

/// Tells from the operator's switch whether the daemon is to be left
/// running.
pub fn restart_is_skipped(switch: Option<&str>) -> (skipped: bool)
    ensures
        skipped == restart_switched_off(
            match switch {
                Some(value) => Some(value@),
                None => None,
            },
        ),
{
    let value = match switch {
        Some(value) => chars_of(value),
        None => {
            return false;
        },
    };
    let one = chars_of("1");
    let yes = chars_of("true");
    if value.len() == one.len() && matches_at(&value, 0, &one) {
        assert(value@.subrange(0, 0 + one@.len() as int) =~= value@);
        return true;
    }
    proof {
        if value.len() == one.len() {
            assert(value@.subrange(0, 0 + one@.len() as int) =~= value@);
        }
    }
    if value.len() != yes.len() {
        return false;
    }
    let mut i: usize = 0;
    while i < value.len()
        invariant
            i <= value.len(),
            value.len() == yes.len(),
            yes@ == "true"@,
            value@ != "1"@,
            switch matches Some(text) && text@ == value@,
            forall|j: int| 0 <= j < i ==> ascii_lower(#[trigger] value@[j]) == ascii_lower(yes@[j]),
        decreases value.len() - i,
    {
        if to_ascii_lower(value[i]) != to_ascii_lower(yes[i]) {
            assert(ascii_lower(value@[i as int]) != ascii_lower("true"@[i as int]));
            return false;
        }
        i += 1;
    }
    true
}

} // verus!
