use mental_calc::decimal::{push_decimal, push_digits, to_decimal};
use mental_calc::number::{sample, to_text, zero};
use mental_calc::Number;

#[test]
fn decimal_notation_is_that_of_the_standard_library() {
    let values = [
        0i128,
        1,
        -1,
        9,
        10,
        11,
        -10,
        99,
        100,
        101,
        -12345,
        1_000_000,
        i128::from(i64::MAX),
        i128::from(i64::MIN),
        i128::from(u64::MAX),
        i128::MAX,
        i128::MIN,
    ];
    for value in values {
        assert_eq!(to_decimal(value), value.to_string());
    }
}

#[test]
fn decimal_notation_has_no_leading_zeros() {
    assert_eq!(to_decimal(0), "0");
    assert_eq!(to_decimal(7), "7");
    assert_eq!(to_decimal(1000), "1000");
    assert_eq!(to_decimal(-1000), "-1000");
}

#[test]
fn digits_are_appended_to_what_is_there() {
    let mut text = String::from("n = ");
    push_digits(&mut text, 340_282_366_920_938_463_463_374_607_431_768_211_455);
    assert_eq!(text, "n = 340282366920938463463374607431768211455");
    let mut text = String::from("x");
    push_decimal(&mut text, -40);
    push_decimal(&mut text, 2);
    assert_eq!(text, "x-402");
}

#[test]
fn numbers_widen_to_their_value() {
    assert_eq!((-128i8).widen(), -128);
    assert_eq!(i16::MAX.widen(), 32767);
    assert_eq!(i32::MIN.widen(), -2_147_483_648);
    assert_eq!(i64::MAX.widen(), 9_223_372_036_854_775_807);
    assert_eq!(isize::MIN.widen(), isize::MIN as i128);
    assert_eq!(255u8.widen(), 255);
    assert_eq!(u16::MAX.widen(), 65535);
    assert_eq!(u32::MAX.widen(), 4_294_967_295);
    assert_eq!(u64::MAX.widen(), 18_446_744_073_709_551_615);
    assert_eq!(usize::MAX.widen(), usize::MAX as i128);
}

#[test]
fn numbers_narrow_within_their_limits_only() {
    assert_eq!(i8::narrow(-128), Some(-128i8));
    assert_eq!(i8::narrow(127), Some(127i8));
    assert_eq!(i8::narrow(128), None);
    assert_eq!(i8::narrow(-129), None);
    assert_eq!(i16::narrow(32767), Some(32767i16));
    assert_eq!(i16::narrow(32768), None);
    assert_eq!(i32::narrow(-2_147_483_648), Some(i32::MIN));
    assert_eq!(i32::narrow(-2_147_483_649), None);
    assert_eq!(i64::narrow(9_223_372_036_854_775_807), Some(i64::MAX));
    assert_eq!(i64::narrow(9_223_372_036_854_775_808), None);
    assert_eq!(isize::narrow(isize::MAX as i128), Some(isize::MAX));
    assert_eq!(isize::narrow(isize::MAX as i128 + 1), None);
    assert_eq!(u8::narrow(255), Some(255u8));
    assert_eq!(u8::narrow(256), None);
    assert_eq!(u8::narrow(-1), None);
    assert_eq!(u16::narrow(65536), None);
    assert_eq!(u32::narrow(4_294_967_295), Some(u32::MAX));
    assert_eq!(u32::narrow(-1), None);
    assert_eq!(u64::narrow(18_446_744_073_709_551_615), Some(u64::MAX));
    assert_eq!(u64::narrow(18_446_744_073_709_551_616), None);
    assert_eq!(usize::narrow(usize::MAX as i128), Some(usize::MAX));
    assert_eq!(usize::narrow(-1), None);
    assert_eq!(i128::MAX, 170_141_183_460_469_231_731_687_303_715_884_105_727);
}

#[test]
fn zero_is_zero_in_every_type() {
    assert_eq!(zero::<i8>(), 0);
    assert_eq!(zero::<i64>(), 0);
    assert_eq!(zero::<u16>(), 0);
    assert_eq!(zero::<usize>(), 0);
}

#[test]
fn numbers_read_in_decimal() {
    assert_eq!(to_text(-128i8), "-128");
    assert_eq!(to_text(u64::MAX), "18446744073709551615");
    assert_eq!(to_text(0u32), "0");
}

#[test]
fn samples_lie_in_the_range_and_vary() {
    let mut rng = rand::thread_rng();
    let mut least = i64::MAX;
    let mut greatest = i64::MIN;
    for _ in 0..2000 {
        let drawn = sample(&mut rng, -3i64, 12i64);
        assert!((-3..=12).contains(&drawn));
        least = least.min(drawn);
        greatest = greatest.max(drawn);
    }
    assert_eq!(least, -3);
    assert_eq!(greatest, 12);
}

#[test]
fn samples_of_a_single_value_are_that_value() {
    let mut rng = rand::thread_rng();
    for _ in 0..100 {
        assert_eq!(sample(&mut rng, 200u8, 200u8), 200);
        assert_eq!(sample(&mut rng, i64::MIN, i64::MIN), i64::MIN);
    }
}

#[test]
fn samples_reach_both_ends_of_a_whole_type() {
    let mut rng = rand::thread_rng();
    let mut low = false;
    let mut high = false;
    for _ in 0..10000 {
        let drawn = sample(&mut rng, u8::MIN, u8::MAX);
        low = low || drawn == 0;
        high = high || drawn == 255;
    }
    assert!(low && high);
}
