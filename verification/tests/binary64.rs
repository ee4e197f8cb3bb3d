use plotting::binary64::{
    clamp_to_unit, is_nan_bits, num_eq_bits, INFINITY_BITS, ONE_BITS, SIGN_BIT, ZERO_BITS,
};

fn samples() -> Vec<u64> {
    let mut all = vec![
        0u64,
        1,
        SIGN_BIT,
        SIGN_BIT + 1,
        ONE_BITS - 1,
        ONE_BITS,
        ONE_BITS + 1,
        SIGN_BIT + ONE_BITS,
        INFINITY_BITS - 1,
        INFINITY_BITS,
        INFINITY_BITS + 1,
        SIGN_BIT + INFINITY_BITS,
        SIGN_BIT + INFINITY_BITS + 1,
        0x7FF8_0000_0000_0000,
        0xFFF8_0000_0000_0000,
        u64::MAX,
        SIGN_BIT - 1,
    ];
    for value in [0.1f64, 0.5, 0.999_999, 1.000_001, 2.0, 1e300, 1e-300, 5e-324, 3.25] {
        all.push(value.to_bits());
        all.push((-value).to_bits());
    }
    let mut state: u64 = 0x9E37_79B9_7F4A_7C15;
    for _ in 0..2000 {
        state = state.wrapping_mul(6364136223846793005).wrapping_add(1442695040888963407);
        all.push(state);
    }
    all
}

#[test]
fn the_constants_are_the_patterns_they_name() {
    assert_eq!(ZERO_BITS, 0.0f64.to_bits());
    assert_eq!(SIGN_BIT, (-0.0f64).to_bits());
    assert_eq!(ONE_BITS, 1.0f64.to_bits());
    assert_eq!(INFINITY_BITS, f64::INFINITY.to_bits());
}

#[test]
fn is_nan_bits_agrees_with_the_hardware() {
    for bits in samples() {
        assert_eq!(is_nan_bits(bits), f64::from_bits(bits).is_nan(), "{:#x}", bits);
    }
}

#[test]
fn num_eq_bits_agrees_with_the_hardware() {
    let all = samples();
    for (i, &a) in all.iter().enumerate() {
        for &b in all.iter().skip(i % 7).step_by(7).chain([a, a ^ SIGN_BIT].iter()) {
            assert_eq!(
                num_eq_bits(a, b),
                f64::from_bits(a) == f64::from_bits(b),
                "{:#x} {:#x}",
                a,
                b
            );
        }
    }
}

#[test]
fn clamp_to_unit_agrees_with_the_hardware() {
    for bits in samples() {
        let value = f64::from_bits(bits);
        let clamped = clamp_to_unit(bits);
        if value.is_nan() {
            assert_eq!(clamped, ONE_BITS);
        } else {
            assert_eq!(clamped, value.clamp(0.0, 1.0).to_bits(), "{:#x}", bits);
        }
    }
}

#[test]
fn clamp_to_unit_on_chosen_values() {
    assert_eq!(clamp_to_unit((-0.1f64).to_bits()), 0.0f64.to_bits());
    assert_eq!(clamp_to_unit(1.1f64.to_bits()), 1.0f64.to_bits());
    assert_eq!(clamp_to_unit(0.5f64.to_bits()), 0.5f64.to_bits());
    assert_eq!(clamp_to_unit(f64::INFINITY.to_bits()), 1.0f64.to_bits());
    assert_eq!(clamp_to_unit(f64::NEG_INFINITY.to_bits()), 0.0f64.to_bits());
    assert_eq!(clamp_to_unit((-0.0f64).to_bits()), (-0.0f64).to_bits());
    assert_eq!(clamp_to_unit(0x7FF8_0000_0000_0001), 1.0f64.to_bits());
    assert_eq!(clamp_to_unit(f64::NAN.to_bits()), 1.0f64.to_bits());
    assert_eq!(clamp_to_unit(0xFFF0_0000_0000_0001), 1.0f64.to_bits());
}

#[test]
fn clamping_twice_is_clamping_once() {
    for bits in samples() {
        let once = clamp_to_unit(bits);
        assert_eq!(clamp_to_unit(once), once);
    }
}

#[test]
fn what_is_clamped_is_a_number_in_the_unit_interval() {
    for bits in samples() {
        let clamped = f64::from_bits(clamp_to_unit(bits));
        assert!((0.0..=1.0).contains(&clamped), "{:#x}", bits);
        assert!(num_eq_bits(clamp_to_unit(bits), clamp_to_unit(bits)));
    }
}
