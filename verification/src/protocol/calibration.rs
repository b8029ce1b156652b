//! Calibration bursts, measurement results and the description of the
//! structured calibration signal.
//!
//! Durations that the wire carries as fractions of a millisecond are held
//! here as whole microseconds, and ratios as thousandths.

use vstd::prelude::*;

verus! {

/// A repeating frequency sweep: `repetitions` sweeps from `start_freq` to
/// `end_freq` hertz, each `duration` milliseconds long and followed by
/// `interval_ms` milliseconds of silence.
#[derive(Debug, Clone, Copy, PartialEq, Eq, Structural)]
pub struct ChirpConfig {
    pub start_freq: u32,
    pub end_freq: u32,
    pub duration: u32,
    pub repetitions: u32,
    pub interval_ms: u32,
}

impl Default for ChirpConfig {
    /// A short sweep that is easy to tell from room noise.
    fn default() -> (config: Self)
        ensures
            config == (ChirpConfig {
                start_freq: 2000,
                end_freq: 8000,
                duration: 50,
                repetitions: 5,
                interval_ms: 500,
            }),
    {
        ChirpConfig { start_freq: 2000, end_freq: 8000, duration: 50, repetitions: 5, interval_ms: 500 }
    }
}

/// One measurement reported by the measuring device.
#[derive(Debug, Clone, Copy, PartialEq, Eq, Structural)]
pub struct CalibrationSubmission {
    /// Milliseconds since the epoch at which the measurement was taken.
    pub timestamp: u64,
    /// Measured delay in microseconds; positive where audio arrived late.
    pub latency_us: i64,
    /// Confidence of the measurement in thousandths, from 0 to 1000.
    pub confidence_milli: u32,
}

/// What kind of sound a marker is.
#[derive(Debug, Clone, Copy, PartialEq, Eq, Structural)]
pub enum MarkerKind {
    /// A short pulse.
    Click,
    /// A tone or, where the two frequencies differ, a sweep.
    Chirp { start_freq: u32, end_freq: u32, duration_ms: u32 },
}

/// A labelled, timed event inside the calibration signal.
#[derive(Debug, Clone, PartialEq, Eq)]
pub struct MarkerSpec {
    pub id: String,
    pub kind: MarkerKind,
    pub start_sample: u32,
    pub duration_samples: u32,
}

/// The mathematical content of a [`MarkerSpec`].
pub struct MarkerModel {
    pub id: Seq<char>,
    pub kind: MarkerKind,
    pub start_sample: int,
    pub duration_samples: int,
}

impl MarkerModel {
    /// The first sample after the marker.
    pub open spec fn end_sample(self) -> int {
        self.start_sample + self.duration_samples
    }
}

impl View for MarkerSpec {
    type V = MarkerModel;

    open spec fn view(&self) -> MarkerModel {
        MarkerModel {
            id: self.id@,
            kind: self.kind,
            start_sample: self.start_sample as int,
            duration_samples: self.duration_samples as int,
        }
    }
}

/// The description of a calibration signal that accompanies its samples.
#[derive(Debug, Clone, PartialEq, Eq)]
pub struct CalibrationSignalSpec {
    pub sample_rate: u32,
    pub length_samples: u32,
    pub markers: Vec<MarkerSpec>,
}

/// The mathematical content of a [`CalibrationSignalSpec`].
pub struct SignalModel {
    pub sample_rate: int,
    pub length_samples: int,
    pub markers: Seq<MarkerModel>,
}

impl SignalModel {
    /// Every marker starts after the one before it.
    pub open spec fn strictly_ordered(self) -> bool {
        forall|i: int, j: int|
            0 <= i < j < self.markers.len() ==> (#[trigger] self.markers[i]).start_sample < (
            #[trigger] self.markers[j]).start_sample
    }

    /// Every marker lies inside the signal.
    pub open spec fn markers_inside(self) -> bool {
        forall|i: int|
            0 <= i < self.markers.len() ==> 0 <= (#[trigger] self.markers[i]).start_sample && (
            self.markers[i]).end_sample() <= self.length_samples
    }

    /// Markers are strictly ordered by their start and none runs past the
    /// end of the signal.
    pub open spec fn well_formed(self) -> bool {
        self.strictly_ordered() && self.markers_inside()
    }
}

impl View for CalibrationSignalSpec {
    type V = SignalModel;

    open spec fn view(&self) -> SignalModel {
        SignalModel {
            sample_rate: self.sample_rate as int,
            length_samples: self.length_samples as int,
            markers: self.markers@.map_values(|m: MarkerSpec| m@),
        }
    }
}

/// The messages of the calibration dialogue.
#[derive(Debug, Clone, PartialEq, Eq)]
pub enum CalibrationMessage {
    CalibrationRequest { timestamp: u64 },
    CalibrationReady { timestamp: u64, countdown: u32, chirp_config: ChirpConfig },
    CalibrationData {
        timestamp: u64,
        recording_start_time: u64,
        chirp_detection_times: Vec<u64>,
        confidence_milli: u32,
    },
    CalibrationResult {
        timestamp: u64,
        measured_latency_us: i64,
        applied_offset_us: i64,
        confidence_milli: u32,
    },
}

} // verus!
