use polysynth::envelope::envelope_fraction;

#[test]
fn envelope_fraction_exact_small_values() {
    assert_eq!(envelope_fraction(0), (0, 1));
    assert_eq!(envelope_fraction(1), (1, 64));
    assert_eq!(envelope_fraction(2), (127, 4096));
    assert_eq!(envelope_fraction(3), (12_097, 262_144));
}

#[test]
fn envelope_fraction_matches_closed_form() {
    // num == 64^k - 63^k and den == 64^k, i.e. the value is 1 - (63/64)^k.
    let mut p64: u128 = 1;
    let mut p63: u128 = 1;
    for k in 0..=21 {
        let (num, den) = envelope_fraction(k);
        assert_eq!(den, p64, "k = {}", k);
        assert_eq!(num, p64 - p63, "k = {}", k);
        if k < 21 {
            p64 *= 64;
            p63 *= 63;
        }
    }
}

#[test]
fn envelope_grows_monotonically_below_one() {
    let mut previous = -1.0f64;
    for k in 0..=21 {
        let (num, den) = envelope_fraction(k);
        assert!(num < den, "the envelope never reaches the target");
        let value = num as f64 / den as f64;
        assert!(value > previous, "strictly increasing at step {}", k);
        previous = value;
    }
}

#[test]
fn envelope_float_recursion_matches_fraction() {
    // The render path's f32 recursion amp += (gate - amp) / 64 stays within
    // floating-point tolerance of the exact fraction.
    let gate = 1.0f32;
    let mut amp = 0.0f32;
    for k in 0..=21 {
        let (num, den) = envelope_fraction(k);
        let exact = num as f64 / den as f64;
        assert!(
            (amp as f64 - exact).abs() < 1e-5,
            "step {}: {} vs {}",
            k,
            amp,
            exact
        );
        amp = amp + (gate - amp) / 64.0;
    }
}

#[test]
fn envelope_closed_form_float_tolerance() {
    // amp(k) == 1 - (63/64)^k, checked in floating point for larger k than
    // the exact fraction can reach.
    let mut amp = 0.0f64;
    for k in 0..=2000u32 {
        let exact = 1.0 - (63.0f64 / 64.0).powi(k as i32);
        assert!((amp - exact).abs() < 1e-9, "step {}", k);
        amp = amp + (1.0 - amp) / 64.0;
    }
    assert!(amp > 0.999, "after many steps the envelope is close to one");
}
