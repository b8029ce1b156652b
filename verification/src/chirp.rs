//! The layout of a calibration burst: sweeps of equal length, each
//! followed by silence.
//!
//! The sample values of one sweep are the caller's to compute. This module
//! decides how long a sweep and its silence are and puts the burst
//! together.

use crate::protocol::calibration::ChirpConfig;
use vstd::prelude::*;

verus! {

/// The number of whole samples in `ms` milliseconds at `sample_rate`
/// samples per second.
pub open spec fn samples_for(ms: int, sample_rate: int) -> int {
    ms * sample_rate / 1000
}

/// How often the sweep of a burst is played: at least once.
pub open spec fn repetitions_of(config: ChirpConfig) -> int {
    if config.repetitions < 1 {
        1
    } else {
        config.repetitions as int
    }
}

/// The lengths that make up a burst.
#[derive(Debug, Clone, Copy, PartialEq, Eq, Structural)]
pub struct ChirpLayout {
    /// Samples in one sweep.
    pub sweep_samples: usize,
    /// Samples of silence after each sweep.
    pub silence_samples: usize,
    /// How often the sweep and its silence are played.
    pub repetitions: u32,
}

impl ChirpLayout {
    /// The length of the whole burst, in samples.
    pub open spec fn total_samples(self) -> int {
        self.repetitions * (self.sweep_samples + self.silence_samples)
    }
}

/// The layout of the burst that `config` describes.
pub open spec fn layout_of(config: ChirpConfig, sample_rate: u32) -> ChirpLayout {
    ChirpLayout {
        sweep_samples: samples_for(config.duration as int, sample_rate as int) as usize,
        silence_samples: samples_for(config.interval_ms as int, sample_rate as int) as usize,
        repetitions: repetitions_of(config) as u32,
    }
}

/// Works out the layout of the burst that `config` describes.
pub fn chirp_layout(config: &ChirpConfig, sample_rate: u32) -> (layout: ChirpLayout)
    requires
        samples_for(config.duration as int, sample_rate as int) <= usize::MAX,
        samples_for(config.interval_ms as int, sample_rate as int) <= usize::MAX,
    ensures
        layout == layout_of(*config, sample_rate),
        layout.sweep_samples == samples_for(config.duration as int, sample_rate as int),
        layout.silence_samples == samples_for(config.interval_ms as int, sample_rate as int),
        layout.repetitions == repetitions_of(*config),
{
    assert(config.duration * sample_rate <= u64::MAX && config.interval_ms * sample_rate
        <= u64::MAX) by (nonlinear_arith)
        requires
            config.duration <= u32::MAX,
            config.interval_ms <= u32::MAX,
            sample_rate <= u32::MAX,
    ;
    let sweep: u64 = (config.duration as u64 * sample_rate as u64) / 1000;
    let silence: u64 = (config.interval_ms as u64 * sample_rate as u64) / 1000;
    ChirpLayout {
        sweep_samples: sweep as usize,
        silence_samples: silence as usize,
        repetitions: if config.repetitions < 1 {
            1
        } else {
            config.repetitions
        },
    }
}

/// `count` samples of silence.
pub open spec fn silence(count: nat) -> Seq<i16> {
    Seq::new(count, |i: int| 0i16)
}

/// `unit` played `times` times over.
pub open spec fn repeated(unit: Seq<i16>, times: nat) -> Seq<i16>
    decreases times,
{
    if times == 0 {
        Seq::empty()
    } else {
        repeated(unit, (times - 1) as nat) + unit
    }
}

/// The samples of a burst: the sweep and its silence, played at least
/// once.
pub open spec fn burst_samples(sweep: Seq<i16>, silence_samples: nat, repetitions: u32) -> Seq<i16> {
    repeated(
        sweep + silence(silence_samples),
        if repetitions < 1 {
            1
        } else {
            repetitions as nat
        },
    )
}

/// A repeated sound is as long as its unit times the number of
/// repetitions.
pub proof fn lemma_repeated_len(unit: Seq<i16>, times: nat)
    ensures
        repeated(unit, times).len() == times * unit.len(),
    decreases times,
{
    if times > 0 {
        lemma_repeated_len(unit, (times - 1) as nat);
        assert(times * unit.len() == (times - 1) * unit.len() + unit.len()) by (nonlinear_arith);
    } else {
        assert(times * unit.len() == 0) by (nonlinear_arith)
            requires
                times == 0,
        ;
    }
}

/// Puts a burst together from the samples of one sweep: the sweep, then
/// silence, as often as asked and at least once.
pub fn assemble_chirp(sweep: &Vec<i16>, silence_samples: usize, repetitions: u32) -> (samples: Vec<
    i16,
>)
    ensures
        samples@ == burst_samples(sweep@, silence_samples as nat, repetitions),
        samples@.len() == (if repetitions < 1 {
            1
        } else {
            repetitions as int
        }) * (sweep@.len() + silence_samples),
{
    let times: u32 = if repetitions < 1 {
        1
    } else {
        repetitions
    };
    let ghost unit = sweep@ + silence(silence_samples as nat);
    let mut samples: Vec<i16> = Vec::new();
    let mut round: u32 = 0;
    while round < times
        invariant
            round <= times,
            unit == sweep@ + silence(silence_samples as nat),
            samples@ == repeated(unit, round as nat),
        decreases times - round,
    {
        let ghost before = samples@;
        let mut i: usize = 0;
        while i < sweep.len()
            invariant
                i <= sweep.len(),
                samples@ == before + sweep@.take(i as int),
            decreases sweep.len() - i,
        {
            samples.push(sweep[i]);
            assert(samples@ =~= before + sweep@.take(i + 1));
            i += 1;
        }
        assert(sweep@.take(sweep.len() as int) =~= sweep@);
        let mut j: usize = 0;
        while j < silence_samples
            invariant
                j <= silence_samples,
                samples@ == before + sweep@ + silence(j as nat),
            decreases silence_samples - j,
        {
            samples.push(0i16);
            assert(samples@ =~= before + sweep@ + silence((j + 1) as nat));
            j += 1;
        }
        assert(samples@ =~= before + unit);
        round += 1;
    }
    proof {
        lemma_repeated_len(unit, times as nat);
    }
    samples
}

} // verus!
