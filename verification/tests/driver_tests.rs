use max7219::{
    bcd_byte, ssb_byte, BusFault, DecodeMode, Max7219, RecordingBus,
};

fn fresh() -> Max7219<RecordingBus> {
    Max7219::new(RecordingBus::new())
}

fn seg(b: u8) -> u8 {
    ssb_byte(b, false)
}

#[test]
fn power_on_and_off_write_power_register() {
    let mut d = fresh();
    d.power_on().unwrap();
    d.power_off().unwrap();
    assert_eq!(d.spi.writes, vec![(0x0C, 0x01), (0x0C, 0x00)]);
}

#[test]
fn set_test_writes_display_test_register() {
    let mut d = fresh();
    d.set_test(true).unwrap();
    d.set_test(false).unwrap();
    assert_eq!(d.spi.writes, vec![(0x0F, 0x01), (0x0F, 0x00)]);
}

#[test]
fn set_intensity_forwards_byte() {
    let mut d = fresh();
    d.set_intensity(0x07).unwrap();
    assert_eq!(d.spi.writes, vec![(0x0A, 0x07)]);
}

#[test]
fn set_scan_limit_writes_zero_indexed_count() {
    let mut d = fresh();
    d.set_scan_limit(1).unwrap();
    d.set_scan_limit(8).unwrap();
    assert_eq!(d.spi.writes, vec![(0x0B, 0x00), (0x0B, 0x07)]);
}

#[test]
fn set_decode_mode_writes_mode_codes() {
    let mut d = fresh();
    d.set_decode_mode(DecodeMode::NoDecode).unwrap();
    d.set_decode_mode(DecodeMode::CodeBDigit0).unwrap();
    d.set_decode_mode(DecodeMode::CodeBDigits3_0).unwrap();
    d.set_decode_mode(DecodeMode::CodeBDigits7_0).unwrap();
    assert_eq!(
        d.spi.writes,
        vec![(0x09, 0x00), (0x09, 0x01), (0x09, 0x0F), (0x09, 0xFF)]
    );
}

#[test]
fn write_digit_bytes_addresses_digit_register() {
    let mut d = fresh();
    d.write_digit_bytes(0, 0x55).unwrap();
    d.write_digit_bytes(7, 0xAA).unwrap();
    assert_eq!(d.spi.writes, vec![(0x01, 0x55), (0x08, 0xAA)]);
}

#[test]
fn write_str_targets_registers_in_descending_order() {
    let mut d = fresh();
    d.write_str(&[b'1', b'2', b'3', b'4', b'5', b'6', b'7', b'8'], 0)
        .unwrap();
    assert_eq!(
        d.spi.writes,
        vec![
            (8, seg(b'1')),
            (7, seg(b'2')),
            (6, seg(b'3')),
            (5, seg(b'4')),
            (4, seg(b'5')),
            (3, seg(b'6')),
            (2, seg(b'7')),
            (1, seg(b'8')),
        ]
    );
}

#[test]
fn write_str_dot_mask_sets_dot_per_index() {
    let mut d = fresh();
    d.write_str(&[b'1', b'2', b'3', b'4', b'5', b'6', b'7', b'8'], 0b1000_0001)
        .unwrap();
    assert_eq!(d.spi.writes[0], (8, seg(b'1') | 0x80));
    assert_eq!(d.spi.writes[1], (7, seg(b'2')));
    assert_eq!(d.spi.writes[7], (1, seg(b'8') | 0x80));
}

#[test]
fn write_raw_targets_registers_in_ascending_order() {
    let mut d = fresh();
    d.write_raw(&[10, 20, 30, 40, 50, 60, 70, 80]).unwrap();
    assert_eq!(
        d.spi.writes,
        vec![
            (1, 10),
            (2, 20),
            (3, 30),
            (4, 40),
            (5, 50),
            (6, 60),
            (7, 70),
            (8, 80),
        ]
    );
}

#[test]
fn clear_display_zeroes_every_digit() {
    let mut d = fresh();
    d.clear_display().unwrap();
    let expected: Vec<(u8, u8)> = (1..=8).map(|r| (r, 0)).collect();
    assert_eq!(d.spi.writes, expected);
}

#[test]
fn init_issues_exact_ordered_sequence() {
    let mut d = fresh();
    d.init().unwrap();
    assert_eq!(
        d.spi.writes,
        vec![
            (0x0F, 0x00),
            (0x0B, 0x07),
            (0x09, 0x00),
            (0x01, 0x00),
            (0x02, 0x00),
            (0x03, 0x00),
            (0x04, 0x00),
            (0x05, 0x00),
            (0x06, 0x00),
            (0x07, 0x00),
            (0x08, 0x00),
            (0x0C, 0x00),
        ]
    );
}

#[test]
fn write_integer_shows_right_justified_text() {
    let mut d = fresh();
    d.write_integer(-42).unwrap();
    let text = *b"     -42";
    let expected: Vec<(u8, u8)> = (0..8).map(|i| (8 - i as u8, seg(text[i]))).collect();
    assert_eq!(d.spi.writes, expected);
}

#[test]
fn write_integer_overflow_shows_err_sentinel() {
    let mut d = fresh();
    d.write_integer(100_000_000).unwrap();
    let text = *b"     Err";
    let expected: Vec<(u8, u8)> = (0..8).map(|i| (8 - i as u8, seg(text[i]))).collect();
    assert_eq!(d.spi.writes, expected);
}

#[test]
fn write_hex_shows_right_justified_lowercase_text() {
    let mut d = fresh();
    d.write_hex(0xABC).unwrap();
    let text = *b"     abc";
    let expected: Vec<(u8, u8)> = (0..8).map(|i| (8 - i as u8, seg(text[i]))).collect();
    assert_eq!(d.spi.writes, expected);
}

#[test]
fn write_str_skips_mode_bracket_when_already_no_decode() {
    let mut d = fresh();
    d.write_str(b"        ", 0).unwrap();
    assert_eq!(d.spi.writes.len(), 8);
    assert!(d.spi.writes.iter().all(|w| w.0 != 0x09));
}

#[test]
fn write_str_brackets_with_no_decode_and_restores_saved_mode() {
    let mut d = fresh();
    d.set_decode_mode(DecodeMode::CodeBDigits7_0).unwrap();
    d.write_str(&[b'1', b'2', b'3', b'4', b'5', b'6', b'7', b'8'], 0)
        .unwrap();
    assert_eq!(d.spi.writes.len(), 1 + 10);
    assert_eq!(d.spi.writes[0], (0x09, 0xFF));
    assert_eq!(d.spi.writes[1], (0x09, 0x00));
    assert_eq!(d.spi.writes[2], (8, seg(b'1')));
    assert_eq!(d.spi.writes[9], (1, seg(b'8')));
    assert_eq!(d.spi.writes[10], (0x09, 0xFF));
}

#[test]
fn write_bcd_brackets_with_code_b_and_restores_saved_mode() {
    let mut d = fresh();
    d.write_bcd(&[b'1', b'2', b'3', b'4', b'-', b'E', b'h', b' ']).unwrap();
    assert_eq!(d.spi.writes.len(), 10);
    assert_eq!(d.spi.writes[0], (0x09, 0xFF));
    assert_eq!(d.spi.writes[1], (8, bcd_byte(b'1')));
    assert_eq!(d.spi.writes[5], (4, bcd_byte(b'-')));
    assert_eq!(d.spi.writes[6], (3, bcd_byte(b'E')));
    assert_eq!(d.spi.writes[8], (1, bcd_byte(b' ')));
    assert_eq!(d.spi.writes[9], (0x09, 0x00));
}

#[test]
fn construction_issues_no_writes() {
    let d = fresh();
    assert_eq!(d.spi.writes, vec![]);
}

#[test]
fn write_raw_brackets_and_restores_a_partial_decode_mode() {
    let mut d = fresh();
    d.set_decode_mode(DecodeMode::CodeBDigit0).unwrap();
    d.write_raw(&[1, 2, 3, 4, 5, 6, 7, 8]).unwrap();
    assert_eq!(d.spi.writes[0], (0x09, 0x01));
    assert_eq!(d.spi.writes[1], (0x09, 0x00));
    assert_eq!(d.spi.writes[2], (1, 1));
    assert_eq!(d.spi.writes[9], (8, 8));
    assert_eq!(d.spi.writes[10], (0x09, 0x01));
    assert_eq!(d.spi.writes.len(), 11);
}

#[test]
fn failing_write_aborts_remaining_steps_and_returns_error_unchanged() {
    // The write attempt with index 3 fails: three digit writes land, the
    // rest of the eight are never issued.
    let mut d = Max7219::new(RecordingBus::failing_at(3, 0x5A));
    let r = d.write_str(&[b'1', b'2', b'3', b'4', b'5', b'6', b'7', b'8'], 0);
    assert_eq!(r, Err(BusFault { code: 0x5A }));
    assert_eq!(
        d.spi.writes,
        vec![(8, seg(b'1')), (7, seg(b'2')), (6, seg(b'3'))]
    );
}

#[test]
fn failing_first_write_leaves_bus_untouched() {
    let mut d = Max7219::new(RecordingBus::failing_at(0, 0x11));
    let r = d.power_on();
    assert_eq!(r, Err(BusFault { code: 0x11 }));
    assert_eq!(d.spi.writes, vec![]);
}

#[test]
fn mode_restore_still_runs_when_a_digit_write_fails() {
    // Attempt 0 is the caller's mode write, attempt 1 the forced
    // no-decode, attempt 2 the first digit; attempt 3 (second digit)
    // fails, and the restore write follows anyway.
    let mut d = Max7219::new(RecordingBus::failing_at(3, 0x77));
    d.set_decode_mode(DecodeMode::CodeBDigits7_0).unwrap();
    let r = d.write_str(&[b'1', b'2', b'3', b'4', b'5', b'6', b'7', b'8'], 0);
    assert_eq!(r, Err(BusFault { code: 0x77 }));
    assert_eq!(
        d.spi.writes,
        vec![(0x09, 0xFF), (0x09, 0x00), (8, seg(b'1')), (0x09, 0xFF)]
    );
}

#[test]
fn init_aborts_at_first_failing_step() {
    let mut d = Max7219::new(RecordingBus::failing_at(5, 0x42));
    let r = d.init();
    assert_eq!(r, Err(BusFault { code: 0x42 }));
    assert_eq!(
        d.spi.writes,
        vec![(0x0F, 0x00), (0x0B, 0x07), (0x09, 0x00), (0x01, 0x00), (0x02, 0x00)]
    );
}
