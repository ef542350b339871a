use ordered_float::NotNan;
use std::cmp::Ordering;
use warren_cmp::codec::Outcome;
use warren_cmp::{ApiError, NumericValue};

fn number(x: f64) -> NumericValue {
    NumericValue::new(x.to_bits()).unwrap()
}

fn samples() -> Vec<f64> {
    vec![
        f64::NEG_INFINITY,
        f64::MIN,
        -1.0e300,
        -100.0,
        -7.0,
        -3.5,
        -2.0,
        -1.0000000000000002,
        -1.0,
        -0.5,
        -f64::MIN_POSITIVE,
        -f64::from_bits(0x000F_FFFF_FFFF_FFFF),
        -f64::from_bits(1),
        -0.0,
        0.0,
        f64::from_bits(1),
        f64::from_bits(2),
        f64::from_bits(0x000F_FFFF_FFFF_FFFF),
        f64::MIN_POSITIVE,
        f64::from_bits(0x0010_0000_0000_0001),
        f64::from_bits(0x001F_FFFF_FFFF_FFFF),
        f64::from_bits(0x0020_0000_0000_0000),
        0.1,
        0.5,
        1.0,
        1.0000000000000002,
        2.0,
        3.5,
        7.0,
        9.0,
        100.0,
        1.0e300,
        f64::MAX,
        f64::INFINITY,
    ]
}

#[test]
fn nan_is_rejected() {
    assert_eq!(NumericValue::new(f64::NAN.to_bits()).map(|v| v.to_bits()), Err(ApiError::InvalidNumber));
    assert_eq!(
        NumericValue::new((-f64::NAN).to_bits()).map(|v| v.to_bits()),
        Err(ApiError::InvalidNumber)
    );
}

#[test]
fn every_nan_encoding_is_rejected() {
    let patterns: [u64; 8] = [
        0x7FF0_0000_0000_0001,
        0x7FF8_0000_0000_0000,
        0x7FF4_0000_0000_0000,
        0x7FFF_FFFF_FFFF_FFFF,
        0xFFF0_0000_0000_0001,
        0xFFF8_0000_0000_0000,
        0xFFF4_0000_0000_0000,
        0xFFFF_FFFF_FFFF_FFFF,
    ];
    for bits in patterns {
        assert!(f64::from_bits(bits).is_nan());
        assert!(NumericValue::new(bits).is_err(), "{:#x}", bits);
    }
}

#[test]
fn finite_numbers_and_infinities_are_accepted() {
    for x in samples() {
        let value = NumericValue::new(x.to_bits()).unwrap();
        assert_eq!(value.to_bits(), x.to_bits());
    }
}

#[test]
fn the_encodings_next_to_the_nans_are_accepted() {
    assert!(NumericValue::new(0x7FF0_0000_0000_0000).is_ok());
    assert!(NumericValue::new(0xFFF0_0000_0000_0000).is_ok());
    assert!(NumericValue::new(0x7FEF_FFFF_FFFF_FFFF).is_ok());
    assert!(NumericValue::new(0xFFEF_FFFF_FFFF_FFFF).is_ok());
    assert!(NumericValue::new(0).is_ok());
    assert!(NumericValue::new(0x8000_0000_0000_0000).is_ok());
}

#[test]
fn construction_accepts_what_the_float_crate_accepts() {
    let mut bits: u64 = 0x9E37_79B9_7F4A_7C15;
    for _ in 0..20_000 {
        bits ^= bits << 13;
        bits ^= bits >> 7;
        bits ^= bits << 17;
        let x = f64::from_bits(bits);
        assert_eq!(NumericValue::new(bits).is_ok(), NotNan::new(x).is_ok(), "{:#x}", bits);
    }
}

#[test]
fn comparison_is_the_order_of_the_numbers() {
    for a in samples() {
        for b in samples() {
            let expected = Outcome::from_ordering(a.partial_cmp(&b).unwrap());
            assert_eq!(number(a).compare(&number(b)), expected, "{:e} and {:e}", a, b);
        }
    }
}

#[test]
fn comparison_agrees_with_the_float_crate() {
    for a in samples() {
        for b in samples() {
            let expected = NotNan::new(a).unwrap().cmp(&NotNan::new(b).unwrap());
            assert_eq!(number(a).compare(&number(b)).to_ordering(), expected);
        }
    }
}

#[test]
fn comparison_agrees_with_the_float_crate_on_scattered_encodings() {
    let mut bits: u64 = 0x2545_F491_4F6C_DD1D;
    let mut previous = 1.0f64;
    let mut compared = 0;
    for _ in 0..50_000 {
        bits ^= bits << 13;
        bits ^= bits >> 7;
        bits ^= bits << 17;
        let x = f64::from_bits(bits);
        if x.is_nan() {
            continue;
        }
        let expected = NotNan::new(previous).unwrap().cmp(&NotNan::new(x).unwrap());
        assert_eq!(number(previous).compare(&number(x)).to_ordering(), expected);
        previous = x;
        compared += 1;
    }
    assert!(compared > 40_000);
}

#[test]
fn comparing_the_other_way_round_reverses_the_outcome() {
    for a in samples() {
        for b in samples() {
            let forth = number(a).compare(&number(b));
            let back = number(b).compare(&number(a));
            let reversed = match back {
                Outcome::Less => Outcome::Greater,
                Outcome::Equal => Outcome::Equal,
                Outcome::Greater => Outcome::Less,
            };
            assert_eq!(forth, reversed);
        }
    }
}

#[test]
fn given_pairs_compare_as_expected() {
    assert_eq!(number(3.5).compare(&number(7.0)), Outcome::Less);
    assert_eq!(number(2.0).compare(&number(2.0)), Outcome::Equal);
    assert_eq!(number(9.0).compare(&number(1.0)), Outcome::Greater);
    assert_eq!(number(-1.0).compare(&number(1.0)), Outcome::Less);
    assert_eq!(number(-1.0).compare(&number(-2.0)), Outcome::Greater);
    assert_eq!(number(f64::INFINITY).compare(&number(f64::MAX)), Outcome::Greater);
    assert_eq!(number(f64::NEG_INFINITY).compare(&number(f64::MIN)), Outcome::Less);
    assert_eq!(number(f64::INFINITY).compare(&number(f64::INFINITY)), Outcome::Equal);
    assert_eq!(number(f64::NEG_INFINITY).compare(&number(f64::INFINITY)), Outcome::Less);
}

#[test]
fn there_is_no_tolerance() {
    let one = 1.0f64;
    let next = f64::from_bits(one.to_bits() + 1);
    assert_eq!(number(one).compare(&number(next)), Outcome::Less);
    assert_eq!(number(next).compare(&number(one)), Outcome::Greater);
    assert_eq!(number(0.1 + 0.2).compare(&number(0.3)), Outcome::Greater);
}

#[test]
fn the_two_zeros_are_equal() {
    assert_eq!(number(0.0).compare(&number(-0.0)), Outcome::Equal);
    assert_eq!(number(-0.0).compare(&number(0.0)), Outcome::Equal);
    assert!(number(0.0) == number(-0.0));
    assert_ne!(number(0.0).to_bits(), number(-0.0).to_bits());
}

#[test]
fn equality_is_equality_of_the_numbers() {
    for a in samples() {
        for b in samples() {
            assert_eq!(number(a) == number(b), a == b);
            assert_eq!(number(a) == number(b), number(a).compare(&number(b)) == Outcome::Equal);
        }
    }
}

#[test]
fn comparison_matches_the_standard_ordering_of_a_sorted_list() {
    let sorted = samples();
    for i in 0..sorted.len() {
        for j in 0..sorted.len() {
            let expected = if sorted[i] == sorted[j] { Ordering::Equal } else { i.cmp(&j) };
            assert_eq!(number(sorted[i]).compare(&number(sorted[j])).to_ordering(), expected);
        }
    }
}
