//! The structured calibration signal: where each sound lies, how it is
//! shaped, and the markers that describe it to the measuring device.
//!
//! This module decides the layout in whole samples. Turning a layout into
//! sample values is left to the caller.

use crate::protocol::calibration::{CalibrationSignalSpec, MarkerKind, MarkerModel, MarkerSpec, SignalModel};
use crate::text::decimal::{decimal_text, push_decimal};
use vstd::prelude::*;
use vstd::string::*;

verus! {

/// Samples per second of the calibration signal.
pub const SAMPLE_RATE: u32 = 48_000;

/// Shortest length of the calibration signal, in milliseconds.
pub const TARGET_LENGTH_MS: u32 = 4_700;

/// The number of samples that `ms` milliseconds take.
pub open spec fn samples_in(ms: int) -> int {
    ms * SAMPLE_RATE / 1000
}

/// The number of samples that `ms` milliseconds take.
pub fn ms_to_samples(ms: u32) -> (samples: usize)
    requires
        samples_in(ms as int) <= usize::MAX,
    ensures
        samples == samples_in(ms as int),
{
    ((ms as u64 * SAMPLE_RATE as u64) / 1000) as usize
}

/// Where a sample stands in the envelope of a sound.
#[derive(Debug, Clone, Copy, PartialEq, Eq, Structural)]
pub enum EnvelopePoint {
    /// The sound is at its full amplitude.
    Full,
    /// The sound is `step` samples into a raised-cosine ramp of `fade`
    /// samples, counted from the nearer end of the sound.
    Ramp { step: usize, fade: usize },
}

/// The length of the ramp at either end of a sound of `len` samples for
/// which a ramp of `fade_samples` was asked: at least one sample, at most
/// half the sound.
pub open spec fn fade_length(len: int, fade_samples: int) -> int {
    let asked = if fade_samples < 1 {
        1
    } else {
        fade_samples
    };
    if asked < len / 2 {
        asked
    } else {
        len / 2
    }
}

/// The envelope of a sound of `len` samples at its sample `n`.
pub open spec fn envelope_at(n: int, len: int, fade_samples: int) -> EnvelopePoint {
    let fade = fade_length(len, fade_samples);
    if len <= 1 {
        EnvelopePoint::Full
    } else if n < fade {
        EnvelopePoint::Ramp { step: n as usize, fade: fade as usize }
    } else if n >= len - fade {
        EnvelopePoint::Ramp { step: (len - 1 - n) as usize, fade: fade as usize }
    } else {
        EnvelopePoint::Full
    }
}

/// The envelope of a sound of `len` samples at its sample `n`.
pub fn envelope_point(n: usize, len: usize, fade_samples: usize) -> (point: EnvelopePoint)
    requires
        n < len || len <= 1,
    ensures
        point == envelope_at(n as int, len as int, fade_samples as int),
        point matches EnvelopePoint::Ramp { step, fade } ==> step < fade <= len / 2,
{
    if len <= 1 {
        return EnvelopePoint::Full;
    }
    let asked: usize = if fade_samples < 1 {
        1
    } else {
        fade_samples
    };
    let fade: usize = if asked < len / 2 {
        asked
    } else {
        len / 2
    };
    if n < fade {
        EnvelopePoint::Ramp { step: n, fade }
    } else if n >= len - fade {
        EnvelopePoint::Ramp { step: len - 1 - n, fade }
    } else {
        EnvelopePoint::Full
    }
}

/// A sound rises as it falls: a sample and its mirror image share one
/// point of the envelope.
pub proof fn lemma_envelope_symmetric(n: int, len: int, fade_samples: int)
    requires
        0 <= n < len,
    ensures
        envelope_at(len - 1 - n, len, fade_samples) == envelope_at(n, len, fade_samples),
{
}

/// The shape of a sound before its envelope is applied.
#[derive(Debug, Clone, Copy, PartialEq, Eq, Structural)]
pub enum Waveform {
    /// A constant level: with its envelope, a click.
    Constant,
    /// A tone of one frequency, in hertz.
    Tone { freq_hz: u32 },
    /// A sweep whose frequency moves linearly between two values, in hertz.
    Sweep { start_hz: u32, end_hz: u32 },
}

/// One sound to be mixed into the signal.
#[derive(Debug, Clone, Copy, PartialEq, Eq, Structural)]
pub struct MixEvent {
    /// The first sample of the sound.
    pub start: usize,
    /// Its length in samples; never zero.
    pub duration: usize,
    pub waveform: Waveform,
    /// Its amplitude in thousandths of full scale.
    pub amplitude_milli: u32,
    /// The ramp that was asked for, in samples.
    pub fade_samples: usize,
}

impl MixEvent {
    /// The first sample after the sound.
    pub open spec fn end(self) -> int {
        self.start + self.duration
    }
}

/// Collects the sounds of a signal and keeps the signal long enough to
/// hold them.
pub struct SignalBuilder {
    sample_rate: u32,
    length: usize,
    events: Vec<MixEvent>,
}

impl SignalBuilder {
    /// Samples per second.
    pub closed spec fn spec_sample_rate(&self) -> u32 {
        self.sample_rate
    }

    /// The length of the signal so far, in samples.
    pub closed spec fn spec_len(&self) -> int {
        self.length as int
    }

    /// The sounds mixed so far, in the order in which they were mixed.
    pub closed spec fn events(&self) -> Seq<MixEvent> {
        self.events@
    }

    /// Every sound has a length and lies inside the signal.
    pub open spec fn well_formed(&self) -> bool {
        forall|i: int|
            0 <= i < self.events().len() ==> (#[trigger] self.events()[i]).duration > 0
                && self.events()[i].end() <= self.spec_len()
    }

    /// Whether this builder is `before` with the sound `event` mixed in:
    /// a sound without length changes nothing; any other is recorded after
    /// those already there, and the signal grows to hold it.
    pub open spec fn mixed_from(&self, before: &Self, event: MixEvent) -> bool {
        &&& self.spec_sample_rate() == before.spec_sample_rate()
        &&& self.spec_len() == if event.duration > 0 && before.spec_len() < event.end() {
            event.end()
        } else {
            before.spec_len()
        }
        &&& self.events() == if event.duration > 0 {
            before.events().push(event)
        } else {
            before.events()
        }
    }

    /// An empty signal.
    pub fn new(sample_rate: u32) -> (builder: Self)
        ensures
            builder.spec_sample_rate() == sample_rate,
            builder.spec_len() == 0,
            builder.events() == Seq::<MixEvent>::empty(),
            builder.well_formed(),
    {
        SignalBuilder { sample_rate, length: 0, events: Vec::new() }
    }

    /// Samples per second.
    pub fn sample_rate(&self) -> (rate: u32)
        ensures
            rate == self.spec_sample_rate(),
    {
        self.sample_rate
    }

    /// The length of the signal so far, in samples.
    pub fn len(&self) -> (len: usize)
        ensures
            len == self.spec_len(),
    {
        self.length
    }

    /// Pads the signal with silence to at least `len` samples.
    pub fn ensure_len(&mut self, len: usize)
        ensures
            final(self).spec_len() == if old(self).spec_len() < len {
                len as int
            } else {
                old(self).spec_len()
            },
            final(self).events() == old(self).events(),
            final(self).spec_sample_rate() == old(self).spec_sample_rate(),
            old(self).well_formed() ==> final(self).well_formed(),
    {
        if self.length < len {
            self.length = len;
        }
    }

    /// Mixes one sound into the signal, which grows to hold it. A sound
    /// without length leaves the signal as it was.
    pub fn mix_wave(
        &mut self,
        start: usize,
        duration: usize,
        amplitude_milli: u32,
        fade_samples: usize,
        waveform: Waveform,
    )
        requires
            start + duration <= usize::MAX,
        ensures
            final(self).mixed_from(
                old(self),
                (MixEvent { start, duration, waveform, amplitude_milli, fade_samples }),
            ),
            old(self).well_formed() ==> final(self).well_formed(),
    {
        if duration == 0 {
            return ;
        }
        let end = start + duration;
        self.ensure_len(end);
        self.events.push(MixEvent { start, duration, waveform, amplitude_milli, fade_samples });
    }

    /// Mixes a tone of `freq_hz` hertz into the signal.
    pub fn mix_sine(
        &mut self,
        start: usize,
        duration: usize,
        freq_hz: u32,
        amplitude_milli: u32,
        fade_samples: usize,
    )
        requires
            start + duration <= usize::MAX,
        ensures
            final(self).mixed_from(
                old(self),
                (MixEvent { start, duration, waveform: Waveform::Tone { freq_hz }, amplitude_milli, fade_samples }),
            ),
            old(self).well_formed() ==> final(self).well_formed(),
    {
        self.mix_wave(start, duration, amplitude_milli, fade_samples, Waveform::Tone { freq_hz });
    }

    /// Mixes a constant level into the signal: with its envelope, a click.
    pub fn mix_constant(
        &mut self,
        start: usize,
        duration: usize,
        amplitude_milli: u32,
        fade_samples: usize,
    )
        requires
            start + duration <= usize::MAX,
        ensures
            final(self).mixed_from(
                old(self),
                (MixEvent { start, duration, waveform: Waveform::Constant, amplitude_milli, fade_samples }),
            ),
            old(self).well_formed() ==> final(self).well_formed(),
    {
        self.mix_wave(start, duration, amplitude_milli, fade_samples, Waveform::Constant);
    }

    /// Mixes a sweep from `start_hz` to `end_hz` hertz into the signal.
    pub fn mix_sweep(
        &mut self,
        start: usize,
        duration: usize,
        start_hz: u32,
        end_hz: u32,
        amplitude_milli: u32,
        fade_samples: usize,
    )
        requires
            start + duration <= usize::MAX,
        ensures
            final(self).mixed_from(
                old(self),
                (MixEvent { start, duration, waveform: Waveform::Sweep { start_hz, end_hz }, amplitude_milli, fade_samples }),
            ),
            old(self).well_formed() ==> final(self).well_formed(),
    {
        self.mix_wave(
            start,
            duration,
            amplitude_milli,
            fade_samples,
            Waveform::Sweep { start_hz, end_hz },
        );
    }

    /// Hands out the sounds, in the order in which they were mixed.
    pub fn into_events(self) -> (events: Vec<MixEvent>)
        ensures
            events@ == self.events(),
    {
        self.events
    }
}

/// The frequencies of the seven tone markers, in hertz, in the order in
/// which the tones are played.
pub open spec fn tone_frequencies() -> Seq<u32> {
    seq![800u32, 1_000u32, 3_000u32, 6_000u32, 8_000u32, 10_000u32, 4_000u32]
}

/// The marker of tone `i`, counted from zero: tones of 120 ms follow one
/// another every 380 ms.
pub open spec fn tone_marker(i: int) -> MarkerModel {
    MarkerModel {
        id: "chirp_"@ + decimal_text((i + 1) as nat),
        kind: MarkerKind::Chirp {
            start_freq: tone_frequencies()[i],
            end_freq: tone_frequencies()[i],
            duration_ms: 120,
        },
        start_sample: 33_696 + i * 18_240,
        duration_samples: 5_760,
    }
}

/// The sound of tone `i`, counted from zero.
pub open spec fn tone_event(i: int) -> MixEvent {
    MixEvent {
        start: (33_696 + i * 18_240) as usize,
        duration: 5_760,
        waveform: Waveform::Tone { freq_hz: tone_frequencies()[i] },
        amplitude_milli: 850,
        fade_samples: 480,
    }
}

/// The twelve markers of the structured signal: a quiet hum to warm the
/// speaker up, a loud click, a sweep to anchor detection, seven tones, a
/// soft click and a hum to end on.
pub open spec fn structured_markers() -> Seq<MarkerModel> {
    seq![
        MarkerModel {
            id: "warmup"@,
            kind: MarkerKind::Chirp { start_freq: 120, end_freq: 120, duration_ms: 520 },
            start_sample: 0,
            duration_samples: 24_960,
        },
        MarkerModel {
            id: "click_a"@,
            kind: MarkerKind::Click,
            start_sample: 15_360,
            duration_samples: 576,
        },
        MarkerModel {
            id: "sweep_anchor"@,
            kind: MarkerKind::Chirp { start_freq: 400, end_freq: 9_000, duration_ms: 150 },
            start_sample: 16_896,
            duration_samples: 7_200,
        },
    ] + Seq::new(7, |i: int| tone_marker(i)) + seq![
        MarkerModel {
            id: "click_b"@,
            kind: MarkerKind::Click,
            start_sample: 170_976,
            duration_samples: 672,
        },
        MarkerModel {
            id: "warmdown"@,
            kind: MarkerKind::Chirp { start_freq: 200, end_freq: 200, duration_ms: 220 },
            start_sample: 174_528,
            duration_samples: 10_560,
        },
    ]
}

/// The sounds of the structured signal, one for each marker.
pub open spec fn structured_events() -> Seq<MixEvent> {
    seq![
        MixEvent {
            start: 0,
            duration: 24_960,
            waveform: Waveform::Tone { freq_hz: 120 },
            amplitude_milli: 90,
            fade_samples: 3_120,
        },
        MixEvent {
            start: 15_360,
            duration: 576,
            waveform: Waveform::Constant,
            amplitude_milli: 720,
            fade_samples: 288,
        },
        MixEvent {
            start: 16_896,
            duration: 7_200,
            waveform: Waveform::Sweep { start_hz: 400, end_hz: 9_000 },
            amplitude_milli: 650,
            fade_samples: 720,
        },
    ] + Seq::new(7, |i: int| tone_event(i)) + seq![
        MixEvent {
            start: 170_976,
            duration: 672,
            waveform: Waveform::Constant,
            amplitude_milli: 450,
            fade_samples: 504,
        },
        MixEvent {
            start: 174_528,
            duration: 10_560,
            waveform: Waveform::Tone { freq_hz: 200 },
            amplitude_milli: 35,
            fade_samples: 1_320,
        },
    ]
}

/// The description of the structured signal: 4.7 seconds at 48 kHz.
pub open spec fn structured_signal_model() -> SignalModel {
    SignalModel { sample_rate: 48_000, length_samples: 225_600, markers: structured_markers() }
}

/// The markers of the structured signal start one after the other, and
/// all of them end before the signal does.
pub proof fn lemma_structured_signal_well_formed()
    ensures
        structured_signal_model().well_formed(),
{
    let markers = structured_markers();
    assert(markers.len() == 12);
    assert forall|i: int| 0 <= i < 12 implies (#[trigger] markers[i]).start_sample == (if i == 0 {
        0int
    } else if i == 1 {
        15_360
    } else if i == 2 {
        16_896
    } else if i < 10 {
        33_696 + (i - 3) * 18_240
    } else if i == 10 {
        170_976
    } else {
        174_528
    }) && 0 < markers[i].duration_samples <= 24_960 && markers[i].end_sample() <= 185_088 by {
        if 3 <= i < 10 {
            assert(markers[i] == tone_marker(i - 3));
        }
    }
}

/// The amplitudes, in thousandths of full scale, of those of `events`
/// that sound at sample `n`, added up. No sample of the mixed signal can
/// be further from zero, as neither a waveform nor an envelope exceeds one.
pub open spec fn amplitude_at(events: Seq<MixEvent>, n: int) -> int
    decreases events.len(),
{
    if events.len() == 0 {
        0
    } else {
        amplitude_at(events.drop_last(), n) + (if events.last().start <= n < events.last().end() {
            events.last().amplitude_milli as int
        } else {
            0
        })
    }
}

/// Whether tone `i` of the structured signal sounds at sample `n`.
pub open spec fn tone_sounds_at(i: int, n: int) -> bool {
    33_696 + i * 18_240 <= n < 39_456 + i * 18_240
}

/// The amplitudes of the first `k` sounds of the structured signal that
/// sound at sample `n`, added up: the hum under the click or the sweep,
/// or no more than one sound.
proof fn lemma_structured_amplitudes(k: int, n: int)
    requires
        0 <= k <= 12,
    ensures
        amplitude_at(structured_events().take(k), n) == (if k >= 1 && 0 <= n < 24_960 {
            90int
        } else {
            0
        }) + (if k >= 2 && 15_360 <= n < 15_936 {
            720int
        } else {
            0
        }) + (if k >= 3 && 16_896 <= n < 24_096 {
            650int
        } else {
            0
        }) + (if exists|i: int| 0 <= i < 7 && i + 3 < k && #[trigger] tone_sounds_at(i, n) {
            850int
        } else {
            0
        }) + (if k >= 11 && 170_976 <= n < 171_648 {
            450int
        } else {
            0
        }) + (if k >= 12 && 174_528 <= n < 185_088 {
            35int
        } else {
            0
        }),
    decreases k,
{
    let events = structured_events();
    if k == 0 {
        assert(events.take(0) =~= Seq::<MixEvent>::empty());
    } else {
        lemma_structured_amplitudes(k - 1, n);
        assert(events.take(k).drop_last() =~= events.take(k - 1));
        assert(events.take(k).last() == events[k - 1]);
        if 4 <= k <= 10 {
            let i = k - 4;
            assert(events[k - 1] == tone_event(i));
            assert(tone_event(i).start == 33_696 + i * 18_240);
            assert(tone_event(i).end() == 39_456 + i * 18_240);
            if tone_sounds_at(i, n) {
                assert(0 <= i < 7 && i + 3 < k && tone_sounds_at(i, n));
            }
        }
    }
}

/// The structured signal keeps its headroom: at no sample do the
/// amplitudes of the sounds that are mixed there add up to more than 850
/// thousandths of full scale.
pub proof fn lemma_structured_signal_headroom(n: int)
    ensures
        0 <= amplitude_at(structured_events(), n) <= 850,
{
    lemma_structured_amplitudes(12, n);
    assert(structured_events().take(12) =~= structured_events());
}

/// A layout of sounds together with the description that goes with it.
pub struct SignalPlan {
    /// What the measuring device is told about the signal.
    pub spec: CalibrationSignalSpec,
    /// The sounds to mix, in order.
    pub events: Vec<MixEvent>,
}

/// Lays out the structured calibration signal.
pub fn plan_structured_signal() -> (plan: SignalPlan)
    ensures
        plan.spec@ == structured_signal_model(),
        plan.spec@.well_formed(),
        plan.events@ == structured_events(),
        forall|i: int|
            0 <= i < plan.events@.len() ==> (#[trigger] plan.events@[i]).duration > 0
                && plan.events@[i].end() <= plan.spec.length_samples,
{
    let mut markers: Vec<MarkerSpec> = Vec::new();
    let mut builder = SignalBuilder::new(SAMPLE_RATE);

    // A quiet hum that is already sounding when the first click comes.
    let preroll_ms: u32 = 520;
    let preroll_len = ms_to_samples(preroll_ms);
    builder.mix_sine(0, preroll_len, 120, 90, preroll_len / 8);
    markers.push(
        MarkerSpec {
            id: String::from_str("warmup"),
            kind: MarkerKind::Chirp { start_freq: 120, end_freq: 120, duration_ms: preroll_ms },
            start_sample: 0,
            duration_samples: preroll_len as u32,
        },
    );

    let mut cursor: usize = ms_to_samples(320);

    // The leading click.
    let click_a_len = ms_to_samples(12);
    builder.mix_constant(cursor, click_a_len, 720, click_a_len / 2);
    markers.push(
        MarkerSpec {
            id: String::from_str("click_a"),
            kind: MarkerKind::Click,
            start_sample: cursor as u32,
            duration_samples: click_a_len as u32,
        },
    );
    cursor += click_a_len;
    cursor += ms_to_samples(20);

    // The sweep that anchors detection.
    let sweep_ms: u32 = 150;
    let sweep_len = ms_to_samples(sweep_ms);
    builder.mix_sweep(cursor, sweep_len, 400, 9_000, 650, sweep_len / 10);
    markers.push(
        MarkerSpec {
            id: String::from_str("sweep_anchor"),
            kind: MarkerKind::Chirp { start_freq: 400, end_freq: 9_000, duration_ms: sweep_ms },
            start_sample: cursor as u32,
            duration_samples: sweep_len as u32,
        },
    );
    cursor += sweep_len;
    cursor += ms_to_samples(200);

    // The tones.
    let tone_ms: u32 = 120;
    let tone_len = ms_to_samples(tone_ms);
    let gap_len = ms_to_samples(260);
    let freqs: [u32; 7] = [800, 1_000, 3_000, 6_000, 8_000, 10_000, 4_000];
    let mut idx: usize = 0;
    while idx < 7
        invariant
            idx <= 7,
            tone_len == 5_760,
            gap_len == 12_480,
            tone_ms == 120,
            freqs@ == tone_frequencies(),
            cursor == 33_696 + idx * 18_240,
            markers.len() == 3 + idx,
            forall|j: int| 0 <= j < 3 + idx ==> (#[trigger] markers@[j])@ == structured_markers()[j],
            builder.events().len() == 3 + idx,
            forall|j: int| 0 <= j < 3 + idx ==> #[trigger] builder.events()[j] == structured_events()[j],
            builder.spec_len() == if idx == 0 {
                24_960int
            } else {
                cursor - 12_480
            },
            builder.well_formed(),
        decreases 7 - idx,
    {
        let freq = freqs[idx];
        builder.mix_sine(cursor, tone_len, freq, 850, tone_len / 12);
        let mut id = String::from_str("chirp_");
        push_decimal(&mut id, (idx + 1) as u64);
        markers.push(
            MarkerSpec {
                id,
                kind: MarkerKind::Chirp { start_freq: freq, end_freq: freq, duration_ms: tone_ms },
                start_sample: cursor as u32,
                duration_samples: tone_len as u32,
            },
        );
        proof {
            assert(structured_markers()[3 + idx] == tone_marker(idx as int));
            assert(structured_events()[3 + idx] == tone_event(idx as int));
        }
        cursor += tone_len;
        cursor += gap_len;
        idx += 1;
    }

    // The trailing click and a hum to end on.
    cursor += ms_to_samples(200);
    let click_b_len = ms_to_samples(14);
    builder.mix_constant(cursor, click_b_len, 450, (click_b_len * 3) / 4);
    markers.push(
        MarkerSpec {
            id: String::from_str("click_b"),
            kind: MarkerKind::Click,
            start_sample: cursor as u32,
            duration_samples: click_b_len as u32,
        },
    );
    cursor += click_b_len;
    cursor += ms_to_samples(60);

    let warmdown_ms: u32 = 220;
    let warmdown_len = ms_to_samples(warmdown_ms);
    builder.mix_sine(cursor, warmdown_len, 200, 35, warmdown_len / 8);
    markers.push(
        MarkerSpec {
            id: String::from_str("warmdown"),
            kind: MarkerKind::Chirp { start_freq: 200, end_freq: 200, duration_ms: warmdown_ms },
            start_sample: cursor as u32,
            duration_samples: warmdown_len as u32,
        },
    );
    cursor += warmdown_len;

    let target = ms_to_samples(TARGET_LENGTH_MS);
    let target_len = if target < cursor {
        cursor
    } else {
        target
    };
    builder.ensure_len(target_len);
    let length_samples = builder.len() as u32;
    let events = builder.into_events();
    let spec = CalibrationSignalSpec { sample_rate: SAMPLE_RATE, length_samples, markers };
    proof {
        lemma_structured_signal_well_formed();
        assert(spec@.markers =~= structured_markers());
        assert(events@ =~= structured_events());
    }
    SignalPlan { spec, events }
}

} // verus!
