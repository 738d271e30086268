use dao::{Float32, Float64};

fn widened(bits: u32) -> u64 {
    Float32::from_bits(bits).widen().to_bits()
}

fn check_against_cast(bits: u32) {
    let x = f32::from_bits(bits);
    let wide = widened(bits);
    if x.is_nan() {
        assert!(f64::from_bits(wide).is_nan(), "{:#x}", bits);
        assert!(Float64::from_bits(wide).is_nan(), "{:#x}", bits);
    } else {
        assert_eq!(wide, (x as f64).to_bits(), "{:#x}", bits);
    }
}

#[test]
fn widen_one() {
    assert_eq!(widened(0x3f80_0000), 0x3ff0_0000_0000_0000);
    assert_eq!(widened(1.0f32.to_bits()), 1.0f64.to_bits());
}

#[test]
fn widen_zeros_and_infinities() {
    assert_eq!(widened(0), 0);
    assert_eq!(widened(0x8000_0000), 0x8000_0000_0000_0000);
    assert_eq!(widened(0x7f80_0000), 0x7ff0_0000_0000_0000);
    assert_eq!(widened(0xff80_0000), 0xfff0_0000_0000_0000);
    assert_eq!(widened(f32::INFINITY.to_bits()), f64::INFINITY.to_bits());
    assert_eq!(widened(f32::NEG_INFINITY.to_bits()), f64::NEG_INFINITY.to_bits());
}

#[test]
fn widen_subnormals() {
    // the smallest positive subnormal is 2^-149
    assert_eq!(widened(1), 0x36a0_0000_0000_0000);
    // the largest subnormal
    assert_eq!(widened(0x007f_ffff), 0x380f_ffff_c000_0000);
    // the smallest normal is 2^-126
    assert_eq!(widened(0x0080_0000), 0x3810_0000_0000_0000);
    let mut bits: u32 = 1;
    while bits < 0x0080_0000 {
        check_against_cast(bits);
        check_against_cast(bits | 0x8000_0000);
        check_against_cast(bits | (bits >> 1));
        check_against_cast(bits | 1);
        bits <<= 1;
    }
}

#[test]
fn widen_extremes() {
    assert_eq!(widened(f32::MAX.to_bits()), (f32::MAX as f64).to_bits());
    assert_eq!(widened(f32::MIN.to_bits()), (f32::MIN as f64).to_bits());
    assert_eq!(widened(f32::MIN_POSITIVE.to_bits()), (f32::MIN_POSITIVE as f64).to_bits());
    assert_eq!(widened(f32::EPSILON.to_bits()), (f32::EPSILON as f64).to_bits());
    assert_eq!(widened(0x7f7f_ffff), 0x47ef_ffff_e000_0000);
}

#[test]
fn widen_nan_stays_nan() {
    for bits in [0x7fc0_0000u32, 0x7f80_0001, 0xffc0_0000, 0x7fff_ffff, 0xff80_0001, 0x7fa0_0000] {
        let wide = Float32::from_bits(bits).widen();
        assert!(wide.is_nan());
        assert!(f64::from_bits(wide.to_bits()).is_nan());
        // the quiet bit is set and the sign is kept
        assert_ne!(wide.to_bits() & 0x0008_0000_0000_0000, 0);
        assert_eq!(wide.to_bits() >> 63, (bits >> 31) as u64);
    }
    assert_eq!(widened(0x7fc0_0000), 0x7ff8_0000_0000_0000);
    assert_eq!(widened(0x7f80_0001), 0x7ff8_0000_2000_0000);
}

#[test]
fn widen_agrees_with_the_cast_on_many_patterns() {
    let mut state: u32 = 0x2545_f491;
    for _ in 0..200_000 {
        state ^= state << 13;
        state ^= state >> 17;
        state ^= state << 5;
        check_against_cast(state);
    }
    for exponent in 0..=255u32 {
        for fraction in [0u32, 1, 2, 0x40_0000, 0x3f_ffff, 0x7f_ffff, 0x55_5555] {
            check_against_cast((exponent << 23) | fraction);
            check_against_cast(0x8000_0000 | (exponent << 23) | fraction);
        }
    }
}

#[test]
fn widen_some_decimal_values() {
    for x in [0.1f32, -0.1, 3.1415927, 1.0e-40, -1.0e-45, 1.0e38, 123456.79, -2.5] {
        assert_eq!(widened(x.to_bits()), (x as f64).to_bits());
        assert_eq!(f64::from_bits(widened(x.to_bits())), x as f64);
    }
}

#[test]
fn is_nan_agrees_with_std() {
    for bits in [0u32, 1, 0x7f80_0000, 0x7f80_0001, 0x7fc0_0000, 0xff80_0000, 0xffff_ffff, 0x3f80_0000] {
        assert_eq!(Float32::from_bits(bits).is_nan(), f32::from_bits(bits).is_nan());
    }
    for bits in [
        0u64,
        1,
        0x7ff0_0000_0000_0000,
        0x7ff0_0000_0000_0001,
        0x7ff8_0000_0000_0000,
        0xfff0_0000_0000_0000,
        0xffff_ffff_ffff_ffff,
        0x3ff0_0000_0000_0000,
    ] {
        assert_eq!(Float64::from_bits(bits).is_nan(), f64::from_bits(bits).is_nan());
    }
}

#[test]
fn equality_is_the_ieee_one() {
    let singles = [0u32, 0x8000_0000, 1, 0x8000_0001, 0x3f80_0000, 0xbf80_0000, 0x7f80_0000,
        0xff80_0000, 0x7fc0_0000, 0x7f80_0001, 0xffc0_0000];
    for a in singles {
        for b in singles {
            assert_eq!(
                Float32::from_bits(a) == Float32::from_bits(b),
                f32::from_bits(a) == f32::from_bits(b),
                "{:#x} {:#x}", a, b
            );
        }
    }
    let doubles = [0u64, 0x8000_0000_0000_0000, 1, 0x3ff0_0000_0000_0000, 0xbff0_0000_0000_0000,
        0x7ff0_0000_0000_0000, 0xfff0_0000_0000_0000, 0x7ff8_0000_0000_0000,
        0x7ff0_0000_0000_0001];
    for a in doubles {
        for b in doubles {
            assert_eq!(
                Float64::from_bits(a) == Float64::from_bits(b),
                f64::from_bits(a) == f64::from_bits(b),
                "{:#x} {:#x}", a, b
            );
        }
    }
}

#[test]
fn bits_round_trip() {
    assert_eq!(Float32::from_bits(0x1234_5678).to_bits(), 0x1234_5678);
    assert_eq!(Float64::from_bits(0x1234_5678_9abc_def0).to_bits(), 0x1234_5678_9abc_def0);
    assert_eq!(f32::from_bits(Float32::from_bits(2.75f32.to_bits()).to_bits()), 2.75f32);
}
