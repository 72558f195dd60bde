use max7219::{base_10_bytes, hex_bytes, pad_left};

#[test]
fn decimal_zero_is_single_zero() {
    assert_eq!(base_10_bytes(0), b"0".to_vec());
}

#[test]
fn decimal_negative_five() {
    assert_eq!(base_10_bytes(-5), b"-5".to_vec());
}

#[test]
fn decimal_largest_displayable_is_not_err() {
    assert_eq!(base_10_bytes(99_999_999), b"99999999".to_vec());
}

#[test]
fn decimal_above_range_is_err() {
    assert_eq!(base_10_bytes(100_000_000), b"Err".to_vec());
    assert_eq!(base_10_bytes(i32::MAX), b"Err".to_vec());
}

#[test]
fn decimal_below_range_is_err() {
    assert_eq!(base_10_bytes(-10_000_000), b"Err".to_vec());
    assert_eq!(base_10_bytes(i32::MIN), b"Err".to_vec());
}

#[test]
fn decimal_smallest_displayable_is_not_err() {
    assert_eq!(base_10_bytes(-9_999_999), b"-9999999".to_vec());
}

#[test]
fn decimal_plain_value() {
    assert_eq!(base_10_bytes(42), b"42".to_vec());
    assert_eq!(base_10_bytes(-107), b"-107".to_vec());
}

#[test]
fn hex_zero_is_single_zero() {
    assert_eq!(hex_bytes(0), b"0".to_vec());
}

#[test]
fn hex_byte_value() {
    assert_eq!(hex_bytes(255), b"ff".to_vec());
}

#[test]
fn hex_largest_value_fills_display() {
    assert_eq!(hex_bytes(4_294_967_295), b"ffffffff".to_vec());
}

#[test]
fn hex_mixed_digits_lowercase() {
    assert_eq!(hex_bytes(0x1A2B3C), b"1a2b3c".to_vec());
}

#[test]
fn pad_left_is_exactly_eight_bytes_spaces_then_input() {
    assert_eq!(pad_left(b"123"), *b"     123");
    assert_eq!(pad_left(b""), *b"        ");
    assert_eq!(pad_left(b"x"), *b"       x");
    assert_eq!(pad_left(b"abcdefgh"), *b"abcdefgh");
}
