use jvm::numeric::{
    compare_doubles, compare_floats, div_i32, div_i64, double_to_int, double_to_long, float_to_int,
    float_to_long, make_bounds_message, make_divide_by_zero_message, push_decimal, rem_i32, rem_i64,
};

#[test]
fn division_truncates_toward_zero() {
    assert_eq!(div_i32(7, 2), 3);
    assert_eq!(div_i32(-7, 2), -3);
    assert_eq!(div_i32(7, -2), -3);
    assert_eq!(div_i32(-7, -2), 3);
    assert_eq!(div_i64(-9_000_000_000, 4), -2_250_000_000);
}

#[test]
fn remainder_follows_the_dividend() {
    assert_eq!(rem_i32(7, 2), 1);
    assert_eq!(rem_i32(-7, 2), -1);
    assert_eq!(rem_i32(7, -2), 1);
    assert_eq!(rem_i32(-7, -2), -1);
    assert_eq!(rem_i64(-9_000_000_001, 4), -1);
}

#[test]
fn min_by_minus_one_wraps() {
    assert_eq!(div_i32(i32::MIN, -1), i32::MIN);
    assert_eq!(rem_i32(i32::MIN, -1), 0);
    assert_eq!(div_i64(i64::MIN, -1), i64::MIN);
    assert_eq!(rem_i64(i64::MIN, -1), 0);
}

#[test]
fn float_narrowing_edges() {
    assert_eq!(float_to_int(f32::NAN.to_bits()), 0);
    assert_eq!(float_to_int(f32::INFINITY.to_bits()), i32::MAX);
    assert_eq!(float_to_int(f32::NEG_INFINITY.to_bits()), i32::MIN);
    assert_eq!(float_to_long(f32::NAN.to_bits()), 0);
    assert_eq!(float_to_long(f32::INFINITY.to_bits()), i64::MAX);
    assert_eq!(float_to_long(f32::NEG_INFINITY.to_bits()), i64::MIN);
}

#[test]
fn double_narrowing_edges() {
    assert_eq!(double_to_int(f64::NAN.to_bits()), 0);
    assert_eq!(double_to_int(f64::INFINITY.to_bits()), i32::MAX);
    assert_eq!(double_to_int(f64::NEG_INFINITY.to_bits()), i32::MIN);
    assert_eq!(double_to_long(f64::NAN.to_bits()), 0);
    assert_eq!(double_to_long(f64::INFINITY.to_bits()), i64::MAX);
    assert_eq!(double_to_long(f64::NEG_INFINITY.to_bits()), i64::MIN);
}

#[test]
fn narrowing_truncates_and_saturates() {
    assert_eq!(float_to_int(3.9f32.to_bits()), 3);
    assert_eq!(float_to_int((-3.9f32).to_bits()), -3);
    assert_eq!(float_to_int(0.5f32.to_bits()), 0);
    assert_eq!(float_to_int((-0.0f32).to_bits()), 0);
    assert_eq!(float_to_int(1e20f32.to_bits()), i32::MAX);
    assert_eq!(float_to_int((-1e20f32).to_bits()), i32::MIN);
    assert_eq!(float_to_long(1e20f32.to_bits()), i64::MAX);
    assert_eq!(float_to_long(16777216.0f32.to_bits()), 16777216);
    assert_eq!(double_to_int(2147483647.9f64.to_bits()), i32::MAX);
    assert_eq!(double_to_int((-2147483648.7f64).to_bits()), i32::MIN);
    assert_eq!(double_to_int(123456.789f64.to_bits()), 123456);
    assert_eq!(double_to_long((-9.5e15f64).to_bits()), -9_500_000_000_000_000);
    assert_eq!(double_to_long(1e300f64.to_bits()), i64::MAX);
    assert_eq!(double_to_long(f64::MIN_POSITIVE.to_bits()), 0);
}

#[test]
fn nan_comparisons_follow_the_instruction() {
    let nan = f32::NAN.to_bits();
    for x in [nan, 1.0f32.to_bits(), (-3.0f32).to_bits(), f32::INFINITY.to_bits()] {
        assert_eq!(compare_floats(nan, x, -1), -1);
        assert_eq!(compare_floats(nan, x, 1), 1);
        assert_eq!(compare_floats(x, nan, -1), -1);
        assert_eq!(compare_floats(x, nan, 1), 1);
    }
    let dnan = f64::NAN.to_bits();
    assert_eq!(compare_doubles(dnan, 2.0f64.to_bits(), -1), -1);
    assert_eq!(compare_doubles(2.0f64.to_bits(), dnan, 1), 1);
    assert_eq!(compare_doubles(dnan, dnan, 1), 1);
}

#[test]
fn ordered_comparisons() {
    assert_eq!(compare_floats(1.0f32.to_bits(), 2.0f32.to_bits(), 1), -1);
    assert_eq!(compare_floats(2.0f32.to_bits(), 1.0f32.to_bits(), -1), 1);
    assert_eq!(compare_floats((-2.0f32).to_bits(), (-1.0f32).to_bits(), -1), -1);
    assert_eq!(compare_floats(0.0f32.to_bits(), (-0.0f32).to_bits(), -1), 0);
    assert_eq!(compare_floats(f32::NEG_INFINITY.to_bits(), f32::MIN.to_bits(), -1), -1);
    assert_eq!(compare_doubles((-1.5f64).to_bits(), 1.5f64.to_bits(), 1), -1);
    assert_eq!(compare_doubles(1e300f64.to_bits(), f64::INFINITY.to_bits(), 1), -1);
    assert_eq!(compare_doubles(7.0f64.to_bits(), 7.0f64.to_bits(), 1), 0);
}

#[test]
fn messages() {
    assert_eq!(make_bounds_message(3, 3), b"length is 3, but index is 3".to_vec());
    assert_eq!(make_bounds_message(0, -1), b"length is 0, but index is -1".to_vec());
    assert_eq!(make_bounds_message(120, i32::MIN), b"length is 120, but index is -2147483648".to_vec());
    assert_eq!(make_divide_by_zero_message(), b"divide by zero".to_vec());
}

#[test]
fn decimal_rendering() {
    let mut out = b"x=".to_vec();
    push_decimal(&mut out, i64::MIN);
    assert_eq!(out, b"x=-9223372036854775808".to_vec());
    let mut out = Vec::new();
    push_decimal(&mut out, 0);
    push_decimal(&mut out, 905);
    assert_eq!(out, b"0905".to_vec());
}
