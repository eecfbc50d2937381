use wavesynth::SynthError;
use wavesynth::binary64::{clamp_unit, gt_one_bits, le_zero_bits, lt_zero_bits, outside_unit_bits,
    trunc_to_count, trunc_to_pcm};
use wavesynth::orchestrator::{BezierOrchestrator, Note, SineOrchestrator};
use wavesynth::oscillator::BezierOscillator;
use wavesynth::validate_control_points;
use wavesynth::validate_oscillator_params;
use wavesynth::validate_sequence_params;
use wavesynth::wav::to_bytes;

fn note(id: u8, octave: u8, beats: f64, amplitude: f64) -> Note {
    Note { id, octave, beats: beats.to_bits(), amplitude: amplitude.to_bits() }
}

#[test]
fn comparisons_match_ieee() {
    let values = [
        0.0f64,
        -0.0,
        1.0,
        -1.0,
        0.5,
        -0.5,
        1.0000001,
        -1.0000001,
        4.9e-324,
        -4.9e-324,
        1e308,
        -1e308,
        f64::INFINITY,
        f64::NEG_INFINITY,
        f64::NAN,
        -f64::NAN,
    ];
    for v in values {
        let b = v.to_bits();
        assert_eq!(le_zero_bits(b), v <= 0.0, "le_zero on {v}");
        assert_eq!(lt_zero_bits(b), v < 0.0, "lt_zero on {v}");
        assert_eq!(gt_one_bits(b), v > 1.0, "gt_one on {v}");
        assert_eq!(outside_unit_bits(b), v < -1.0 || v > 1.0, "outside_unit on {v}");
    }
}

#[test]
fn clamp_matches_std_clamp() {
    let values = [0.0f64, -0.0, 0.3, -0.99, 1.0, -1.0, 1.5, -1.5, 1e300, -1e300,
        f64::INFINITY, f64::NEG_INFINITY];
    for v in values {
        let clamped = f64::from_bits(clamp_unit(v.to_bits()));
        assert_eq!(clamped, v.clamp(-1.0, 1.0), "clamp on {v}");
    }
    let nan_bits = f64::NAN.to_bits();
    assert_eq!(clamp_unit(nan_bits), nan_bits);
}

#[test]
fn pcm_truncation_matches_cast() {
    let values = [0.0f64, -0.0, 0.5, -0.5, 0.999, 16383.5, -16383.5, 32766.99, -32766.99,
        32767.0, -32767.0, 1.0, -1.0];
    for v in values {
        assert_eq!(trunc_to_pcm(v.to_bits()), v as i16, "pcm trunc on {v}");
    }
}

#[test]
fn pcm_truncation_stays_in_range() {
    let values = [f64::NAN, f64::INFINITY, f64::NEG_INFINITY, 1e300, -1e300, 32768.0,
        -32768.0, 123456.7, -123456.7, 0.25, -0.25];
    for v in values {
        let pcm = trunc_to_pcm(v.to_bits());
        assert!(-32767 <= pcm && pcm <= 32767, "pcm range on {v}");
    }
    assert_eq!(trunc_to_pcm((0.5f64 * 32767.0).to_bits()), 16383);
    assert_eq!(trunc_to_pcm(f64::NAN.to_bits()), 0);
}

#[test]
fn count_truncation_matches_cast() {
    let values = [0.0f64, -0.0, 0.9, -0.9, 1.0, 44100.0, 44100.999, 22050.5, 4294967294.9,
        1e20, -1e20, f64::NAN, f64::INFINITY, f64::NEG_INFINITY];
    for v in values {
        assert_eq!(trunc_to_count(v.to_bits()), v as u32, "count trunc on {v}");
    }
}

#[test]
fn oscillator_params_validation() {
    assert_eq!(validate_oscillator_params(440.0f64.to_bits(), 44100, 1.0f64.to_bits(),
        0.8f64.to_bits()), Ok(()));
    assert_eq!(validate_oscillator_params(0.0f64.to_bits(), 44100, 1.0f64.to_bits(),
        0.8f64.to_bits()),
        Err(SynthError::NonPositiveFrequency { bits: 0.0f64.to_bits() }));
    assert_eq!(validate_oscillator_params((-5.0f64).to_bits(), 44100, 1.0f64.to_bits(),
        0.8f64.to_bits()),
        Err(SynthError::NonPositiveFrequency { bits: (-5.0f64).to_bits() }));
    assert_eq!(validate_oscillator_params(440.0f64.to_bits(), 0, 1.0f64.to_bits(),
        0.8f64.to_bits()), Err(SynthError::ZeroSampleRate));
    assert_eq!(validate_oscillator_params(440.0f64.to_bits(), 44100, 0.0f64.to_bits(),
        0.8f64.to_bits()),
        Err(SynthError::NonPositiveDuration { bits: 0.0f64.to_bits() }));
    assert_eq!(validate_oscillator_params(440.0f64.to_bits(), 44100, 1.0f64.to_bits(),
        1.1f64.to_bits()),
        Err(SynthError::AmplitudeOutOfRange { bits: 1.1f64.to_bits() }));
    assert_eq!(validate_oscillator_params(440.0f64.to_bits(), 44100, 1.0f64.to_bits(),
        (-0.1f64).to_bits()),
        Err(SynthError::AmplitudeOutOfRange { bits: (-0.1f64).to_bits() }));
    // A NaN passes the ordered comparisons, as it does in IEEE arithmetic.
    assert_eq!(validate_oscillator_params(f64::NAN.to_bits(), 44100, 1.0f64.to_bits(),
        0.8f64.to_bits()), Ok(()));
}

#[test]
fn control_points_validation() {
    let ok: Vec<u64> = vec![0.0f64, 1.0, -1.0, 0.5].iter().map(|v| v.to_bits()).collect();
    assert_eq!(validate_control_points(&ok), Ok(()));

    let three: Vec<u64> = vec![0.0f64, 0.1, 0.2].iter().map(|v| v.to_bits()).collect();
    assert_eq!(validate_control_points(&three),
        Err(SynthError::ControlPointCount { count: 3 }));

    let five: Vec<u64> = vec![0.0f64, 0.1, 0.2, 0.3, 0.4].iter().map(|v| v.to_bits()).collect();
    assert_eq!(validate_control_points(&five),
        Err(SynthError::ControlPointCount { count: 5 }));

    let high: Vec<u64> = vec![0.0f64, 0.1, 0.2, 1.0000001].iter().map(|v| v.to_bits()).collect();
    assert_eq!(validate_control_points(&high),
        Err(SynthError::ControlPointOutOfRange { index: 3, bits: 1.0000001f64.to_bits() }));

    let low: Vec<u64> = vec![-1.0000001f64, 0.1, 0.2, 0.3].iter().map(|v| v.to_bits()).collect();
    assert_eq!(validate_control_points(&low),
        Err(SynthError::ControlPointOutOfRange { index: 0, bits: (-1.0000001f64).to_bits() }));
}

#[test]
fn bezier_construction() {
    let points: Vec<u64> = vec![0.0f64, 1.0, -1.0, 0.5].iter().map(|v| v.to_bits()).collect();
    let built = BezierOscillator::new(440.0f64.to_bits(), 0.8f64.to_bits(), 44100,
        points.clone());
    match built {
        Ok(o) => {
            assert_eq!(o.frequency, 440.0f64.to_bits());
            assert_eq!(o.amplitude, 0.8f64.to_bits());
            assert_eq!(o.sample_rate, 44100);
            assert_eq!(o.control_points, points);
        }
        Err(_) => panic!("a valid configuration was rejected"),
    }
    // The coefficient count is checked before the frequency.
    let three: Vec<u64> = vec![0.0f64, 0.1, 0.2].iter().map(|v| v.to_bits()).collect();
    assert_eq!(BezierOscillator::new(0.0f64.to_bits(), 0.8f64.to_bits(), 44100, three).err(),
        Some(SynthError::ControlPointCount { count: 3 }));
    let points2: Vec<u64> = vec![0.0f64, 0.1, 0.2, 0.3].iter().map(|v| v.to_bits()).collect();
    assert_eq!(BezierOscillator::new(0.0f64.to_bits(), 0.8f64.to_bits(), 44100, points2).err(),
        Some(SynthError::NonPositiveFrequency { bits: 0.0f64.to_bits() }));
}

#[test]
fn note_frequencies() {
    // A at octave four is the 440 Hz reference itself.
    let a4 = note(9, 4, 1.0, 0.8);
    let k = a4.semitone_offset().unwrap();
    assert_eq!(k, 0);
    assert_eq!(440.0 * 2f64.powf(k as f64 / 12.0), 440.0);

    let a5 = note(9, 5, 1.0, 0.8);
    let k = a5.semitone_offset().unwrap();
    assert_eq!(k, 12);
    assert_eq!(440.0 * 2f64.powf(k as f64 / 12.0), 880.0);

    let c4 = note(0, 4, 1.0, 0.8);
    let k = c4.semitone_offset().unwrap();
    assert_eq!(k, -9);
    let hz = 440.0 * 2f64.powf(k as f64 / 12.0);
    assert!((hz - 261.63).abs() < 0.01, "middle C came out as {hz}");

    let bad = note(12, 4, 1.0, 0.8);
    assert_eq!(bad.semitone_offset(), Err(SynthError::NoteIdOutOfRange { id: 12 }));
}

#[test]
fn note_validation() {
    assert_eq!(note(0, 4, 1.0, 0.8).validate(), Ok(()));
    assert_eq!(note(12, 4, 1.0, 0.8).validate(),
        Err(SynthError::NoteIdOutOfRange { id: 12 }));
    assert_eq!(note(3, 4, 1.0, 1.5).validate(),
        Err(SynthError::NoteAmplitudeOutOfRange { bits: 1.5f64.to_bits() }));
    assert_eq!(note(3, 4, 0.0, 0.8).validate(),
        Err(SynthError::NonPositiveBeats { bits: 0.0f64.to_bits() }));
    assert_eq!(note(3, 4, -2.0, 0.8).validate(),
        Err(SynthError::NonPositiveBeats { bits: (-2.0f64).to_bits() }));
    // The id is checked before the amplitude.
    assert_eq!(note(12, 4, 1.0, 1.5).validate(),
        Err(SynthError::NoteIdOutOfRange { id: 12 }));
    // A NaN amplitude or duration passes, as it does through IEEE
    // comparisons.
    assert_eq!(note(3, 4, f64::NAN, f64::NAN).validate(), Ok(()));
}

#[test]
fn sequence_params_validation() {
    assert_eq!(validate_sequence_params(120, 3), Ok(()));
    assert_eq!(validate_sequence_params(0, 3), Err(SynthError::ZeroBpm));
    assert_eq!(validate_sequence_params(120, 0), Err(SynthError::EmptyNotes));
}

#[test]
fn orchestration_aborts_on_invalid_note() {
    // An out-of-range pitch class anywhere in the sequence aborts it.
    let seq = SineOrchestrator {
        bpm: 60,
        notes: vec![note(0, 4, 1.0, 0.8), note(7, 4, 0.5, 0.5), note(12, 4, 1.0, 0.8)],
    };
    assert_eq!(seq.validate_notes(), Err(SynthError::NoteIdOutOfRange { id: 12 }));

    // Whether the notes before it are valid does not matter; the first
    // offending note decides the error.
    let seq = SineOrchestrator {
        bpm: 60,
        notes: vec![note(0, 4, 1.0, 2.0), note(7, 4, 0.5, 0.5), note(12, 4, 1.0, 0.8)],
    };
    assert_eq!(seq.validate_notes(),
        Err(SynthError::NoteAmplitudeOutOfRange { bits: 2.0f64.to_bits() }));

    let curve = BezierOrchestrator {
        bpm: 60,
        notes: vec![note(0, 4, 1.0, 0.8), note(12, 4, 1.0, 0.8)],
        control_points: vec![0.0f64.to_bits(); 4],
    };
    assert_eq!(curve.validate_notes(), Err(SynthError::NoteIdOutOfRange { id: 12 }));

    let all_valid = SineOrchestrator {
        bpm: 60,
        notes: vec![note(0, 4, 1.0, 0.8), note(7, 4, 0.5, 0.5)],
    };
    assert_eq!(all_valid.validate_notes(), Ok(()));
}

#[test]
fn one_beat_at_sixty_bpm_is_one_second() {
    // bpm 60 makes one beat one second, so one note of one beat at
    // 44100 Hz runs to exactly 44100 samples.
    let seconds_per_beat = 60.0 / 60.0f64;
    let duration = 1.0 * seconds_per_beat;
    let count = trunc_to_count((duration * 44100.0f64).to_bits());
    assert_eq!(count, 44100);
    let runs = vec![vec![0i16; count as usize]];
    let buffer = wavesynth::orchestrator::concat_samples(&runs);
    assert_eq!(buffer.len(), 44100);
}

#[test]
fn concatenation_keeps_order() {
    let runs = vec![vec![1i16, 2], vec![], vec![3, 4, 5], vec![-6]];
    let buffer = wavesynth::orchestrator::concat_samples(&runs);
    assert_eq!(buffer, vec![1, 2, 3, 4, 5, -6]);
}

#[test]
fn container_round_trip_known_buffer() {
    let samples: Vec<i16> = vec![0, 16383, -16384, -1];
    let bytes = to_bytes(&samples, 8000);
    let mut expected: Vec<u8> = Vec::new();
    expected.extend_from_slice(b"RIFF");
    expected.extend_from_slice(&44u32.to_le_bytes());
    expected.extend_from_slice(b"WAVE");
    expected.extend_from_slice(b"fmt ");
    expected.extend_from_slice(&16u32.to_le_bytes());
    expected.extend_from_slice(&1u16.to_le_bytes());
    expected.extend_from_slice(&1u16.to_le_bytes());
    expected.extend_from_slice(&8000u32.to_le_bytes());
    expected.extend_from_slice(&16000u32.to_le_bytes());
    expected.extend_from_slice(&2u16.to_le_bytes());
    expected.extend_from_slice(&16u16.to_le_bytes());
    expected.extend_from_slice(b"data");
    expected.extend_from_slice(&8u32.to_le_bytes());
    for s in &samples {
        expected.extend_from_slice(&s.to_le_bytes());
    }
    assert_eq!(bytes, expected);
}

#[test]
fn container_size_fields() {
    // The sine path's buffer for half a second at 44100 Hz.
    let count = trunc_to_count((0.5f64 * 44100.0).to_bits());
    assert_eq!(count, 22050);
    let samples = vec![0i16; count as usize];
    let bytes = to_bytes(&samples, 44100);
    let data_size = 2 * count;
    assert_eq!(bytes.len() as u32, 44 + data_size);
    assert_eq!(&bytes[40..44], &data_size.to_le_bytes());
    assert_eq!(&bytes[4..8], &(36 + data_size).to_le_bytes());
}

#[test]
fn container_of_empty_buffer() {
    let bytes = to_bytes(&Vec::new(), 44100);
    assert_eq!(bytes.len(), 44);
    assert_eq!(&bytes[40..44], &0u32.to_le_bytes());
}
