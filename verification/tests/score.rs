use sales_forecast::score::{Score, CEILING_BITS, INFINITY_BITS, SIGN_BIT};

fn score(value: f32) -> Score {
    Score::from_bits(value.to_bits())
}

#[test]
fn order_of_scores_is_the_order_of_their_values() {
    let samples: [f32; 16] = [
        0.0,
        -0.0,
        1.0,
        -1.0,
        1.5,
        1.0e-40,
        -1.0e-40,
        f32::MIN_POSITIVE,
        f32::MAX,
        f32::MIN,
        f32::INFINITY,
        f32::NEG_INFINITY,
        f32::NAN,
        -f32::NAN,
        123.456,
        123.45601,
    ];
    for a in samples {
        assert_eq!(score(a).is_finite(), a.is_finite());
        assert_eq!(score(a).is_nan(), a.is_nan());
        for b in samples {
            assert_eq!(score(a).lt(&score(b)), a < b);
        }
    }
}

#[test]
fn order_of_scores_agrees_on_scattered_bit_patterns() {
    let mut state: u64 = 0x2545_F491_4F6C_DD1D;
    let mut previous: u32 = 0;
    for _ in 0..20_000 {
        state = state.wrapping_mul(6364136223846793005).wrapping_add(1442695040888963407);
        let bits = (state >> 32) as u32;
        let a = f32::from_bits(bits);
        let b = f32::from_bits(previous);
        assert_eq!(Score::from_bits(bits).is_finite(), a.is_finite());
        assert_eq!(Score::from_bits(bits).is_nan(), a.is_nan());
        assert_eq!(Score::from_bits(bits).lt(&Score::from_bits(previous)), a < b);
        assert_eq!(Score::from_bits(previous).lt(&Score::from_bits(bits)), b < a);
        previous = bits;
    }
}

#[test]
fn ceiling_is_the_largest_finite_value() {
    assert_eq!(Score::ceiling().to_bits(), f32::MAX.to_bits());
    assert_eq!(CEILING_BITS, 0x7F7F_FFFF);
    assert!(Score::ceiling().is_finite());
    assert!(!score(f32::MAX).lt(&Score::ceiling()));
    assert!(score(3.0e38).lt(&Score::ceiling()));
    assert!(!score(f32::INFINITY).lt(&Score::ceiling()));
}

#[test]
fn encoding_constants_are_those_of_binary32() {
    assert_eq!(SIGN_BIT, (-0.0_f32).to_bits());
    assert_eq!(INFINITY_BITS, f32::INFINITY.to_bits());
    assert_eq!(Score::from_bits(0x4000_0000).to_bits(), 2.0_f32.to_bits());
}

#[test]
fn both_zeros_are_equal_in_order() {
    assert!(!score(0.0).lt(&score(-0.0)));
    assert!(!score(-0.0).lt(&score(0.0)));
    assert!(score(-0.0).lt(&score(f32::MIN_POSITIVE)));
}

#[test]
fn nothing_is_below_or_above_a_value_that_is_no_number() {
    for other in [0.0_f32, f32::MAX, f32::INFINITY, f32::NEG_INFINITY, f32::NAN] {
        assert!(!score(f32::NAN).lt(&score(other)));
        assert!(!score(other).lt(&score(f32::NAN)));
    }
}
