use status_line::decimal::{digit_str, one_decimal, pad_left, round_nearest_even, to_digits};
use status_line::single::Single;

#[test]
fn digits_of_whole_numbers() {
    assert_eq!(to_digits(0), "0");
    assert_eq!(to_digits(7), "7");
    assert_eq!(to_digits(10), "10");
    assert_eq!(to_digits(1_234_567_890), "1234567890");
    assert_eq!(to_digits(u128::MAX), u128::MAX.to_string());
    assert_eq!(digit_str(0), "0");
    assert_eq!(digit_str(9), "9");
}

#[test]
fn rounding_goes_to_the_nearest_and_ties_to_even() {
    assert_eq!(round_nearest_even(0, 7), 0);
    assert_eq!(round_nearest_even(7, 2), 4);
    assert_eq!(round_nearest_even(5, 2), 2);
    assert_eq!(round_nearest_even(3, 2), 2);
    assert_eq!(round_nearest_even(1, 2), 0);
    assert_eq!(round_nearest_even(10, 3), 3);
    assert_eq!(round_nearest_even(11, 3), 4);
    assert_eq!(round_nearest_even(u128::MAX, 1), u128::MAX);
    assert_eq!(round_nearest_even(u128::MAX, u128::MAX), 1);
    assert_eq!(round_nearest_even(u128::MAX - 1, u128::MAX), 1);
    assert_eq!(round_nearest_even(u128::MAX / 2, u128::MAX), 0);
    assert_eq!(round_nearest_even(u128::MAX / 2 + 1, u128::MAX), 1);
}

#[test]
fn one_decimal_place() {
    assert_eq!(one_decimal(0), "0.0");
    assert_eq!(one_decimal(5), "0.5");
    assert_eq!(one_decimal(853), "85.3");
    assert_eq!(one_decimal(1000), "100.0");
}

#[test]
fn padding_on_the_left() {
    assert_eq!(pad_left("5.0", 4), " 5.0");
    assert_eq!(pad_left("85.3", 4), "85.3");
    assert_eq!(pad_left("100.0", 4), "100.0");
    assert_eq!(pad_left("", 3), "   ");
    assert_eq!(pad_left("é", 2), " é");
    assert_eq!(pad_left("x", 0), "x");
}

#[test]
fn single_precision_readings() {
    let of = |x: f32| Single::from_bits(x.to_bits());
    assert_eq!(of(85.3).to_text(), "85.3");
    assert_eq!(of(0.25).to_text(), "0.2");
    assert_eq!(of(0.75).to_text(), "0.8");
    assert_eq!(of(-0.0).to_text(), "-0.0");
    assert_eq!(of(f32::NAN).to_text(), "NaN");
    assert_eq!(of(f32::INFINITY).to_text(), "inf");
    assert_eq!(of(f32::NEG_INFINITY).to_text(), "-inf");
    assert_eq!(of(f32::MAX).to_text(), format!("{:.1}", f32::MAX));
    assert_eq!(of(f32::MIN_POSITIVE).to_text(), "0.0");
    assert!(of(80.00001).is_above(80));
    assert!(!of(80.0).is_above(80));
    assert!(!of(-90.0).is_above(80));
    assert!(!of(f32::NAN).is_above(0));
    assert!(of(f32::INFINITY).is_above(u32::MAX));
    assert!(!of(f32::NEG_INFINITY).is_above(0));
    assert!(of(1.0e-45).is_above(0));
    assert!(!of(0.0).is_above(0));
    assert!(of(4294967296.0).is_above(u32::MAX));
    assert!(!of(4294967296.0 - 256.0).is_above(u32::MAX));
    assert!(of(3.0e38).is_above(u32::MAX));
}

#[test]
fn single_precision_comparison_matches_the_hardware() {
    let mut bits: u32 = 0;
    loop {
        let x = f32::from_bits(bits);
        for n in [0u32, 1, 50, 80, 100, 16_777_216, 16_777_217, u32::MAX] {
            let want = (x as f64) > (n as f64);
            assert_eq!(Single::from_bits(bits).is_above(n), want, "{} > {}", x, n);
        }
        match bits.checked_add(0x0007_F3C1) {
            Some(next) => bits = next,
            None => break,
        }
    }
}
