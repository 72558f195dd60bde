//! Encoders from ASCII bytes to the chip's digit-register data bytes:
//! seven-segment patterns for no-decode mode, and Code B values for
//! BCD decode mode.
//!
//! Segment byte layout: bit 7 is the decimal point, bits 6 down to 0 are
//! segments A through G.

use vstd::prelude::*;

verus! {

/// The bytes with a dedicated seven-segment rendering. Every other byte is
/// encoded as the fallback glyph.
pub open spec fn segment_supported(b: u8) -> bool {
    ||| b == 0x20  // ' '
    ||| b == 0x2E  // '.'
    ||| b == 0x2D  // '-'
    ||| b == 0x5F  // '_'
    ||| 0x30 <= b && b <= 0x39  // '0' through '9'
    ||| b == 0x61 || b == 0x41  // 'a' 'A'
    ||| b == 0x62 || b == 0x42  // 'b' 'B'
    ||| b == 0x63 || b == 0x43  // 'c' 'C'
    ||| b == 0x64 || b == 0x44  // 'd' 'D'
    ||| b == 0x65 || b == 0x45  // 'e' 'E'
    ||| b == 0x66 || b == 0x46  // 'f' 'F'
    ||| b == 0x67 || b == 0x47  // 'g' 'G'
    ||| b == 0x68 || b == 0x48  // 'h' 'H'
    ||| b == 0x69 || b == 0x49  // 'i' 'I'
    ||| b == 0x6A || b == 0x4A  // 'j' 'J'
    ||| b == 0x6C || b == 0x4C  // 'l' 'L'
    ||| b == 0x6E || b == 0x4E  // 'n' 'N'
    ||| b == 0x6F || b == 0x4F  // 'o' 'O'
    ||| b == 0x70 || b == 0x50  // 'p' 'P'
    ||| b == 0x71 || b == 0x51  // 'q' 'Q'
    ||| b == 0x72 || b == 0x52  // 'r' 'R'
    ||| b == 0x73 || b == 0x53  // 's' 'S'
    ||| b == 0x75 || b == 0x55  // 'u' 'U'
}

/// The fallback pattern for bytes with no seven-segment rendering:
/// a stylised question mark.
pub open spec fn fallback_pattern() -> u8 {
    0b1110_0101
}

/// The seven-segment pattern of an ASCII byte, decimal point off.
pub open spec fn segment_pattern_base(b: u8) -> u8 {
    if b == 0x20 {  // ' '
        0b0000_0000
    } else if b == 0x2E {  // '.'
        0b1000_0000
    } else if b == 0x2D {  // '-'
        0b0000_0001
    } else if b == 0x5F {  // '_'
        0b0000_1000
    } else if b == 0x30 {  // '0'
        0b0111_1110
    } else if b == 0x31 {  // '1'
        0b0011_0000
    } else if b == 0x32 {  // '2'
        0b0110_1101
    } else if b == 0x33 {  // '3'
        0b0111_1001
    } else if b == 0x34 {  // '4'
        0b0011_0011
    } else if b == 0x35 {  // '5'
        0b0101_1011
    } else if b == 0x36 {  // '6'
        0b0101_1111
    } else if b == 0x37 {  // '7'
        0b0111_0000
    } else if b == 0x38 {  // '8'
        0b0111_1111
    } else if b == 0x39 {  // '9'
        0b0111_1011
    } else if b == 0x61 || b == 0x41 {  // 'a' 'A'
        0b0111_0111
    } else if b == 0x62 || b == 0x42 {  // 'b' 'B'
        0b0001_1111
    } else if b == 0x63 || b == 0x43 {  // 'c' 'C'
        0b0100_1110
    } else if b == 0x64 || b == 0x44 {  // 'd' 'D'
        0b0011_1101
    } else if b == 0x65 || b == 0x45 {  // 'e' 'E'
        0b0100_1111
    } else if b == 0x66 || b == 0x46 {  // 'f' 'F'
        0b0100_0111
    } else if b == 0x67 || b == 0x47 {  // 'g' 'G'
        0b0101_1110
    } else if b == 0x68 || b == 0x48 {  // 'h' 'H'
        0b0011_0111
    } else if b == 0x69 || b == 0x49 {  // 'i' 'I'
        0b0011_0000
    } else if b == 0x6A || b == 0x4A {  // 'j' 'J'
        0b0011_1100
    } else if b == 0x6C || b == 0x4C {  // 'l' 'L'
        0b0000_1110
    } else if b == 0x6E || b == 0x4E {  // 'n' 'N'
        0b0001_0101
    } else if b == 0x6F || b == 0x4F {  // 'o' 'O'
        0b0111_1110
    } else if b == 0x70 || b == 0x50 {  // 'p' 'P'
        0b0110_0111
    } else if b == 0x71 || b == 0x51 {  // 'q' 'Q'
        0b0111_0011
    } else if b == 0x72 || b == 0x52 {  // 'r' 'R'
        0b0000_0101
    } else if b == 0x73 || b == 0x53 {  // 's' 'S'
        0b0101_1011
    } else if b == 0x75 || b == 0x55 {  // 'u' 'U'
        0b0011_1110
    } else {
        fallback_pattern()
    }
}

/// The seven-segment pattern of an ASCII byte: the base pattern, with the
/// decimal-point bit (bit 7) additionally set when `dot` is true.
pub open spec fn segment_pattern(b: u8, dot: bool) -> u8 {
    if dot {
        segment_pattern_base(b) | 0b1000_0000
    } else {
        segment_pattern_base(b)
    }
}

/// Translate an alphanumeric ASCII byte into a segment set byte.
///
/// Total over all byte values: unknown bytes become the fallback glyph.
/// The decimal-point bit is set exactly when `dot` is true.
pub fn ssb_byte(b: u8, dot: bool) -> (r: u8)
    ensures
        r == segment_pattern(b, dot),
{
    let mut result: u8 = match b {
        0x20 => 0b0000_0000,  // ' '
        0x2E => 0b1000_0000,  // '.'
        0x2D => 0b0000_0001,  // '-'
        0x5F => 0b0000_1000,  // '_'
        0x30 => 0b0111_1110,  // '0'
        0x31 => 0b0011_0000,  // '1'
        0x32 => 0b0110_1101,  // '2'
        0x33 => 0b0111_1001,  // '3'
        0x34 => 0b0011_0011,  // '4'
        0x35 => 0b0101_1011,  // '5'
        0x36 => 0b0101_1111,  // '6'
        0x37 => 0b0111_0000,  // '7'
        0x38 => 0b0111_1111,  // '8'
        0x39 => 0b0111_1011,  // '9'
        0x61 | 0x41 => 0b0111_0111,  // 'a' 'A'
        0x62 | 0x42 => 0b0001_1111,  // 'b' 'B'
        0x63 | 0x43 => 0b0100_1110,  // 'c' 'C'
        0x64 | 0x44 => 0b0011_1101,  // 'd' 'D'
        0x65 | 0x45 => 0b0100_1111,  // 'e' 'E'
        0x66 | 0x46 => 0b0100_0111,  // 'f' 'F'
        0x67 | 0x47 => 0b0101_1110,  // 'g' 'G'
        0x68 | 0x48 => 0b0011_0111,  // 'h' 'H'
        0x69 | 0x49 => 0b0011_0000,  // 'i' 'I'
        0x6A | 0x4A => 0b0011_1100,  // 'j' 'J'
        0x6C | 0x4C => 0b0000_1110,  // 'l' 'L'
        0x6E | 0x4E => 0b0001_0101,  // 'n' 'N'
        0x6F | 0x4F => 0b0111_1110,  // 'o' 'O'
        0x70 | 0x50 => 0b0110_0111,  // 'p' 'P'
        0x71 | 0x51 => 0b0111_0011,  // 'q' 'Q'
        0x72 | 0x52 => 0b0000_0101,  // 'r' 'R'
        0x73 | 0x53 => 0b0101_1011,  // 's' 'S'
        0x75 | 0x55 => 0b0011_1110,  // 'u' 'U'
        _ => 0b1110_0101,
    };

    if dot {
        result = result | 0b1000_0000;
    }

    result
}

/// The decimal-point bit can be factored out of every encoding: encoding
/// with the dot on is the dot-less encoding with bit 7 set, whatever the
/// input byte.
pub proof fn lemma_segment_dot(b: u8)
    ensures
        segment_pattern(b, true) == segment_pattern(b, false) | 0b1000_0000u8,
{
}

/// Every byte outside the supported table encodes to the fallback glyph.
pub proof fn lemma_segment_fallback(b: u8)
    requires
        !segment_supported(b),
    ensures
        segment_pattern(b, false) == fallback_pattern(),
{
}

/// The Code B value of an ASCII byte for BCD decode mode. The chip's own
/// decode silicon interprets raw digit codes, so only the non-numeric
/// glyphs are special-cased; anything unrecognised passes through
/// unchanged. Uppercase letters carry the decimal-point bit (bit 7).
pub open spec fn bcd_code(b: u8) -> u8 {
    if b == 0x20 {  // ' '
        0x0F
    } else if b == 0x2D {  // '-'
        0x0A
    } else if b == 0x65 {  // 'e'
        0x0B
    } else if b == 0x68 {  // 'h'
        0x0C
    } else if b == 0x6C {  // 'l'
        0x0D
    } else if b == 0x70 {  // 'p'
        0x0E
    } else if b == 0x45 {  // 'E'
        0x8B
    } else if b == 0x48 {  // 'H'
        0x8C
    } else if b == 0x4C {  // 'L'
        0x8D
    } else if b == 0x50 {  // 'P'
        0x8E
    } else {
        b
    }
}

/// Translate an ASCII byte into the chip's Code B value for BCD decode
/// mode. Total over all byte values.
pub fn bcd_byte(b: u8) -> (r: u8)
    ensures
        r == bcd_code(b),
{
    match b {
        0x20 => 0x0F,  // ' '
        0x2D => 0x0A,  // '-'
        0x65 => 0x0B,  // 'e'
        0x68 => 0x0C,  // 'h'
        0x6C => 0x0D,  // 'l'
        0x70 => 0x0E,  // 'p'
        0x45 => 0x8B,  // 'E'
        0x48 => 0x8C,  // 'H'
        0x4C => 0x8D,  // 'L'
        0x50 => 0x8E,  // 'P'
        _ => b,
    }
}

} // verus!
