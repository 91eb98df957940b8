use polysynth::mixer::mix_voice_signs;
use polysynth::state::AppState;

#[test]
fn mix_of_no_voices_is_zero() {
    assert_eq!(mix_voice_signs(&[]), 0);
}

#[test]
fn mix_two_voices_takes_only_three_values() {
    let cases: [(bool, bool, i64); 4] = [
        (true, true, 2),
        (true, false, 0),
        (false, true, 0),
        (false, false, -2),
    ];
    for (a, b, expected) in cases {
        let signal = mix_voice_signs(&[a, b]);
        assert_eq!(signal, expected);
        assert!(signal == -2 || signal == 0 || signal == 2);
    }
}

#[test]
fn mix_counts_positive_minus_negative() {
    assert_eq!(mix_voice_signs(&[true, true, false]), 1);
    assert_eq!(mix_voice_signs(&[false, false, false, true]), -2);
    assert_eq!(mix_voice_signs(&[true; 7]), 7);
}

#[test]
fn two_voices_at_notes_60_and_64_mix_to_plus_minus_two_or_zero() {
    // The mixed signal of two voices, with the envelope at one, over many
    // samples of the sign-of-sine oscillator: always one of -2, 0, +2.
    let mut s = AppState::new();
    s.note_on(60);
    s.note_on(64);
    let amp = 1.0f64;
    let sample_rate = 44_100.0f64;
    let mut seen = [false; 3];
    for k in 0..4410 {
        let t = k as f64 / sample_rate;
        let mut up: Vec<bool> = Vec::new();
        for v in &s.voices {
            let f = 440.0 * 2f64.powf(v.pitch_cents as f64 / 1200.0);
            let raw = (t * f * std::f64::consts::PI * 2.0).sin();
            up.push(raw * amp > 0.0);
        }
        let signal = mix_voice_signs(&up);
        assert!(
            signal == -2 || signal == 0 || signal == 2,
            "sample {}: signal {}",
            k,
            signal
        );
        seen[(signal / 2 + 1) as usize] = true;
    }
    assert!(seen[0] && seen[1] && seen[2], "all three values occur");
}

#[test]
fn zero_envelope_forces_negative_units() {
    // When the envelope is exactly zero the sign test fails for every voice,
    // so each voice contributes minus one rather than silence.
    let amp = 0.0f64;
    let raw = 0.97f64; // a positive oscillator value
    let up = [raw * amp > 0.0, raw * amp > 0.0];
    assert_eq!(mix_voice_signs(&up), -2);
}
