use forecast::binary64::{maximum, minimum, Binary64, INFINITY, NEG_INFINITY, SIGN};

fn bits(values: &[f64]) -> Vec<Binary64> {
    values.iter().map(|v| Binary64::from_bits(v.to_bits())).collect()
}

fn low(values: &[f64]) -> f64 {
    f64::from_bits(minimum(&bits(values)).to_bits())
}

fn high(values: &[f64]) -> f64 {
    f64::from_bits(maximum(&bits(values)).to_bits())
}

fn samples() -> Vec<f64> {
    vec![
        0.0,
        -0.0,
        1.0,
        -1.0,
        0.5,
        -0.5,
        12.25,
        -40.0,
        56.7,
        1e-310,
        -1e-310,
        f64::MIN_POSITIVE,
        f64::MAX,
        f64::MIN,
        f64::EPSILON,
        f64::INFINITY,
        f64::NEG_INFINITY,
        f64::NAN,
        -f64::NAN,
        f64::from_bits(0x7ff0_0000_0000_0001),
        f64::from_bits(0xffff_ffff_ffff_ffff),
    ]
}

#[test]
fn constants_are_the_patterns_of_the_infinities() {
    assert_eq!(INFINITY, f64::INFINITY.to_bits());
    assert_eq!(NEG_INFINITY, f64::NEG_INFINITY.to_bits());
    assert_eq!(SIGN, (-0.0f64).to_bits());
}

#[test]
fn bits_pass_through_unchanged() {
    for v in samples() {
        assert_eq!(Binary64::from_bits(v.to_bits()).to_bits(), v.to_bits());
        assert_eq!(Binary64::from_bits(v.to_bits()).bits, v.to_bits());
    }
}

#[test]
fn is_nan_agrees_with_the_hardware() {
    for v in samples() {
        assert_eq!(Binary64::from_bits(v.to_bits()).is_nan(), v.is_nan(), "{v:?}");
    }
}

#[test]
fn lt_agrees_with_the_hardware() {
    for a in samples() {
        for b in samples() {
            let x = Binary64::from_bits(a.to_bits());
            let y = Binary64::from_bits(b.to_bits());
            assert_eq!(x.lt(&y), a < b, "{a:?} < {b:?}");
        }
    }
}

#[test]
fn minimum_and_maximum_of_a_day() {
    let day = [7.5, 7.1, 6.8, 6.2, 5.9, 6.4, 8.0, 10.3, 12.6, 13.1, 12.9, 11.0];
    assert_eq!(low(&day), 5.9);
    assert_eq!(high(&day), 13.1);
}

#[test]
fn minimum_and_maximum_below_zero() {
    let night = [-3.25, -12.5, -0.5, -7.0];
    assert_eq!(low(&night), -12.5);
    assert_eq!(high(&night), -0.5);
    let mixed = [12.5, -3.25, 7.0];
    assert_eq!(low(&mixed), -3.25);
    assert_eq!(high(&mixed), 12.5);
}

#[test]
fn single_reading_is_both_extremes() {
    assert_eq!(low(&[4.75]), 4.75);
    assert_eq!(high(&[4.75]), 4.75);
    assert_eq!(low(&[f64::INFINITY]), f64::INFINITY);
    assert_eq!(high(&[f64::NEG_INFINITY]), f64::NEG_INFINITY);
}

#[test]
fn no_reading_gives_the_infinities() {
    assert_eq!(minimum(&Vec::new()).to_bits(), INFINITY);
    assert_eq!(maximum(&Vec::new()).to_bits(), NEG_INFINITY);
    assert_eq!(low(&[]), f64::INFINITY);
    assert_eq!(high(&[]), f64::NEG_INFINITY);
}

#[test]
fn readings_that_are_no_numbers_are_passed_over() {
    assert_eq!(low(&[f64::NAN, 3.0, f64::NAN, 1.0]), 1.0);
    assert_eq!(high(&[f64::NAN, 3.0, f64::NAN, 1.0]), 3.0);
    assert_eq!(low(&[f64::NAN, f64::NAN]), f64::INFINITY);
    assert_eq!(high(&[f64::NAN, -f64::NAN]), f64::NEG_INFINITY);
}

#[test]
fn first_of_equal_readings_is_kept() {
    assert_eq!(minimum(&bits(&[0.0, -0.0, 1.0])).to_bits(), 0.0f64.to_bits());
    assert_eq!(minimum(&bits(&[-0.0, 0.0, 1.0])).to_bits(), (-0.0f64).to_bits());
    assert_eq!(maximum(&bits(&[-1.0, -0.0, 0.0])).to_bits(), (-0.0f64).to_bits());
    assert_eq!(maximum(&bits(&[-1.0, 0.0, -0.0])).to_bits(), 0.0f64.to_bits());
}

#[test]
fn extremes_agree_with_a_fold_over_the_numbers() {
    let rows: Vec<Vec<f64>> = vec![
        vec![1.0, 2.0, 3.0],
        vec![3.0, 2.0, 1.0],
        vec![-1.5, 1e300, -1e300, 2.5],
        vec![f64::MIN_POSITIVE, 1e-310, 0.25],
        vec![f64::NAN, -8.0, f64::INFINITY, 8.0],
        vec![f64::NEG_INFINITY, f64::NAN, 0.125],
        vec![21.4, 21.4, 21.4],
    ];
    for row in rows {
        let want_low = row.iter().fold(f64::INFINITY, |a, &b| a.min(b));
        let want_high = row.iter().fold(f64::NEG_INFINITY, |a, &b| a.max(b));
        assert_eq!(low(&row), want_low, "{row:?}");
        assert_eq!(high(&row), want_high, "{row:?}");
    }
}

#[test]
fn minimum_never_exceeds_maximum() {
    let all = samples();
    for start in 0..all.len() {
        for end in start + 1..all.len() {
            let row = &all[start..end];
            if row.iter().any(|v| !v.is_nan()) {
                assert!(low(row) <= high(row), "{row:?}");
                assert!(row.iter().all(|v| v.is_nan() || (low(row) <= *v && *v <= high(row))));
            }
        }
    }
}

#[test]
fn lt_agrees_with_the_hardware_on_scattered_patterns() {
    let mut state: u64 = 0x2545_f491_4f6c_dd1d;
    let mut patterns = Vec::new();
    for _ in 0..400 {
        state ^= state << 13;
        state ^= state >> 7;
        state ^= state << 17;
        patterns.push(state);
        // the same fraction with every exponent bit set, and with none
        patterns.push(state | 0x7ff0_0000_0000_0000);
        patterns.push(state & 0x800f_ffff_ffff_ffff);
    }
    for &a in &patterns {
        for &b in &patterns {
            let x = Binary64::from_bits(a);
            let y = Binary64::from_bits(b);
            assert_eq!(x.lt(&y), f64::from_bits(a) < f64::from_bits(b), "{a:#x} < {b:#x}");
        }
        assert_eq!(Binary64::from_bits(a).is_nan(), f64::from_bits(a).is_nan(), "{a:#x}");
    }
}

#[test]
fn extremes_agree_with_a_fold_on_scattered_readings() {
    let mut state: u64 = 0x9e37_79b9_7f4a_7c15;
    for length in 0..60usize {
        let mut row = Vec::new();
        for _ in 0..length {
            state ^= state << 13;
            state ^= state >> 7;
            state ^= state << 17;
            // temperatures between -90 and 60 degrees, in hundredths
            row.push(((state % 15_001) as f64 - 9_000.0) / 100.0);
        }
        let want_low = row.iter().fold(f64::INFINITY, |a, &b| a.min(b));
        let want_high = row.iter().fold(f64::NEG_INFINITY, |a, &b| a.max(b));
        assert_eq!(low(&row), want_low, "{row:?}");
        assert_eq!(high(&row), want_high, "{row:?}");
    }
}
