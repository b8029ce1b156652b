use airsync_receiver_core::calibration::signal::{
    envelope_point, ms_to_samples, plan_structured_signal, EnvelopePoint, MixEvent, SignalBuilder,
    Waveform, SAMPLE_RATE, TARGET_LENGTH_MS,
};
use airsync_receiver_core::protocol::calibration::MarkerKind;

#[test]
fn generates_markers_and_file() {
    let signal = plan_structured_signal();
    assert_eq!(signal.spec.sample_rate, SAMPLE_RATE);
    assert!(signal.spec.length_samples >= ms_to_samples(4_000) as u32);
    assert!(signal.spec.length_samples <= ms_to_samples(5_000) as u32);
    assert!(signal.spec.markers.len() >= 10);
    assert!(signal.spec.markers.windows(2).all(|w| w[0].start_sample < w[1].start_sample));
    let max_start = signal
        .spec
        .markers
        .iter()
        .map(|m| m.start_sample + m.duration_samples)
        .max()
        .unwrap();
    assert!(max_start <= signal.spec.length_samples);
}

#[test]
fn includes_sweep_marker() {
    let signal = plan_structured_signal();
    let sweep = signal
        .spec
        .markers
        .iter()
        .find(|m| m.id == "sweep_anchor")
        .expect("sweep marker present");
    match sweep.kind {
        MarkerKind::Chirp { start_freq, end_freq, .. } => {
            assert!(start_freq < end_freq);
        }
        _ => panic!("sweep marker should be chirp"),
    }
}

#[test]
fn structured_signal_is_laid_out_exactly() {
    let signal = plan_structured_signal();
    assert_eq!(signal.spec.sample_rate, 48_000);
    assert_eq!(signal.spec.length_samples, 225_600);
    assert_eq!(TARGET_LENGTH_MS, 4_700);
    let tone = |freq: u32| MarkerKind::Chirp { start_freq: freq, end_freq: freq, duration_ms: 120 };
    let expected: Vec<(&str, MarkerKind, u32, u32)> = vec![
        ("warmup", MarkerKind::Chirp { start_freq: 120, end_freq: 120, duration_ms: 520 }, 0, 24_960),
        ("click_a", MarkerKind::Click, 15_360, 576),
        ("sweep_anchor", MarkerKind::Chirp { start_freq: 400, end_freq: 9_000, duration_ms: 150 }, 16_896, 7_200),
        ("chirp_1", tone(800), 33_696, 5_760),
        ("chirp_2", tone(1_000), 51_936, 5_760),
        ("chirp_3", tone(3_000), 70_176, 5_760),
        ("chirp_4", tone(6_000), 88_416, 5_760),
        ("chirp_5", tone(8_000), 106_656, 5_760),
        ("chirp_6", tone(10_000), 124_896, 5_760),
        ("chirp_7", tone(4_000), 143_136, 5_760),
        ("click_b", MarkerKind::Click, 170_976, 672),
        ("warmdown", MarkerKind::Chirp { start_freq: 200, end_freq: 200, duration_ms: 220 }, 174_528, 10_560),
    ];
    assert_eq!(signal.spec.markers.len(), expected.len());
    for (marker, (id, kind, start, duration)) in signal.spec.markers.iter().zip(expected) {
        assert_eq!(marker.id, id);
        assert_eq!(marker.kind, kind);
        assert_eq!(marker.start_sample, start);
        assert_eq!(marker.duration_samples, duration);
    }
}

#[test]
fn each_marker_has_its_sound() {
    let signal = plan_structured_signal();
    assert_eq!(signal.events.len(), signal.spec.markers.len());
    for (event, marker) in signal.events.iter().zip(signal.spec.markers.iter()) {
        assert_eq!(event.start as u32, marker.start_sample);
        assert_eq!(event.duration as u32, marker.duration_samples);
        assert!(event.duration > 0);
        assert!(event.start + event.duration <= signal.spec.length_samples as usize);
        match (event.waveform, marker.kind) {
            (Waveform::Constant, MarkerKind::Click) => {}
            (Waveform::Tone { freq_hz }, MarkerKind::Chirp { start_freq, end_freq, .. }) => {
                assert_eq!(freq_hz, start_freq);
                assert_eq!(freq_hz, end_freq);
            }
            (Waveform::Sweep { start_hz, end_hz }, MarkerKind::Chirp { start_freq, end_freq, .. }) => {
                assert_eq!(start_hz, start_freq);
                assert_eq!(end_hz, end_freq);
            }
            (waveform, kind) => panic!("{:?} does not go with {:?}", waveform, kind),
        }
    }
    let amplitudes: Vec<u32> = signal.events.iter().map(|e| e.amplitude_milli).collect();
    assert_eq!(amplitudes, vec![90, 720, 650, 850, 850, 850, 850, 850, 850, 850, 450, 35]);
    let fades: Vec<usize> = signal.events.iter().map(|e| e.fade_samples).collect();
    assert_eq!(fades, vec![3_120, 288, 720, 480, 480, 480, 480, 480, 480, 480, 504, 1_320]);
}

#[test]
fn milliseconds_become_samples() {
    assert_eq!(ms_to_samples(0), 0);
    assert_eq!(ms_to_samples(1), 48);
    assert_eq!(ms_to_samples(12), 576);
    assert_eq!(ms_to_samples(4_700), 225_600);
}

#[test]
fn envelope_rises_and_falls_alike() {
    assert_eq!(envelope_point(0, 10, 3), EnvelopePoint::Ramp { step: 0, fade: 3 });
    assert_eq!(envelope_point(2, 10, 3), EnvelopePoint::Ramp { step: 2, fade: 3 });
    assert_eq!(envelope_point(3, 10, 3), EnvelopePoint::Full);
    assert_eq!(envelope_point(6, 10, 3), EnvelopePoint::Full);
    assert_eq!(envelope_point(7, 10, 3), EnvelopePoint::Ramp { step: 2, fade: 3 });
    assert_eq!(envelope_point(9, 10, 3), EnvelopePoint::Ramp { step: 0, fade: 3 });
    for n in 0..576usize {
        assert_eq!(envelope_point(n, 576, 288), envelope_point(575 - n, 576, 288));
    }
}

#[test]
fn envelope_ramp_is_held_to_half_the_sound() {
    assert_eq!(envelope_point(4, 10, 50), EnvelopePoint::Ramp { step: 4, fade: 5 });
    assert_eq!(envelope_point(5, 10, 50), EnvelopePoint::Ramp { step: 4, fade: 5 });
    assert_eq!(envelope_point(0, 10, 0), EnvelopePoint::Ramp { step: 0, fade: 1 });
    assert_eq!(envelope_point(1, 10, 0), EnvelopePoint::Full);
    assert_eq!(envelope_point(9, 10, 0), EnvelopePoint::Ramp { step: 0, fade: 1 });
    assert_eq!(envelope_point(0, 1, 4), EnvelopePoint::Full);
    assert_eq!(envelope_point(0, 0, 4), EnvelopePoint::Full);
    assert_eq!(envelope_point(7, 1, 4), EnvelopePoint::Full);
    assert_eq!(envelope_point(1, 3, 1), EnvelopePoint::Full);
    assert_eq!(envelope_point(1, 2, 1), EnvelopePoint::Ramp { step: 0, fade: 1 });
}

#[test]
fn builder_grows_to_hold_its_sounds() {
    let mut builder = SignalBuilder::new(44_100);
    assert_eq!(builder.sample_rate(), 44_100);
    assert_eq!(builder.len(), 0);
    builder.mix_sine(100, 50, 440, 500, 5);
    assert_eq!(builder.len(), 150);
    builder.mix_constant(10, 20, 700, 2);
    assert_eq!(builder.len(), 150);
    builder.mix_sweep(140, 0, 100, 200, 300, 1);
    assert_eq!(builder.len(), 150);
    builder.mix_sweep(140, 30, 100, 200, 300, 1);
    assert_eq!(builder.len(), 170);
    builder.ensure_len(160);
    assert_eq!(builder.len(), 170);
    builder.ensure_len(200);
    assert_eq!(builder.len(), 200);
    builder.mix_wave(0, 1, 1, 0, Waveform::Constant);
    let events = builder.into_events();
    assert_eq!(
        events,
        vec![
            MixEvent { start: 100, duration: 50, waveform: Waveform::Tone { freq_hz: 440 }, amplitude_milli: 500, fade_samples: 5 },
            MixEvent { start: 10, duration: 20, waveform: Waveform::Constant, amplitude_milli: 700, fade_samples: 2 },
            MixEvent { start: 140, duration: 30, waveform: Waveform::Sweep { start_hz: 100, end_hz: 200 }, amplitude_milli: 300, fade_samples: 1 },
            MixEvent { start: 0, duration: 1, waveform: Waveform::Constant, amplitude_milli: 1, fade_samples: 0 },
        ]
    );
}

#[test]
fn overlapping_sounds_leave_headroom() {
    let signal = plan_structured_signal();
    let mut edges: Vec<usize> = Vec::new();
    for event in signal.events.iter() {
        edges.push(event.start);
        edges.push(event.start + event.duration - 1);
        edges.push(event.start + event.duration);
    }
    let level = |n: usize| -> u32 {
        signal
            .events
            .iter()
            .filter(|e| e.start <= n && n < e.start + e.duration)
            .map(|e| e.amplitude_milli)
            .sum()
    };
    let loudest = edges.iter().map(|&n| level(n)).max().unwrap();
    assert_eq!(loudest, 850);
    assert_eq!(level(15_360), 810);
    assert_eq!(level(16_896), 740);
    assert_eq!(level(24_959), 90);
    assert_eq!(level(24_960), 0);
    assert!(loudest as f32 / 1000.0 <= 0.95);
}
