//! Formatting of signed and unsigned integers into the byte sequences the
//! display shows: minimal decimal or lowercase hexadecimal text, an `Err`
//! sentinel for decimal values the eight digits cannot hold, and
//! right-justified space padding to the display width.

use vstd::prelude::*;
use crate::NUM_DIGITS;

verus! {

broadcast use vstd::array::group_array_axioms;

/// Largest decimal value the eight digits can show.
pub const MAX_DECIMAL: i32 = 99_999_999;

/// Smallest decimal value the eight digits can show; one digit is reserved
/// for the sign, so the range is asymmetric.
pub const MIN_DECIMAL: i32 = -9_999_999;

/// The decimal digits of `n`, most significant first, as ASCII bytes.
pub open spec fn decimal_digits(n: nat) -> Seq<u8>
    decreases n,
{
    if n < 10 {
        seq![(0x30 + n) as u8]
    } else {
        decimal_digits(n / 10).push((0x30 + n % 10) as u8)
    }
}

/// The bytes shown for a signed value: `0` for zero, the `Err` sentinel for
/// values outside the displayable range, else the minimal decimal text with
/// a leading minus sign for negative values.
pub open spec fn decimal_text(n: int) -> Seq<u8> {
    if n == 0 {
        seq![0x30u8]
    } else if n < MIN_DECIMAL || n > MAX_DECIMAL {
        seq![0x45u8, 0x72u8, 0x72u8]
    } else if n < 0 {
        seq![0x2Du8] + decimal_digits((-n) as nat)
    } else {
        decimal_digits(n as nat)
    }
}

/// The ASCII byte of one hexadecimal digit, lowercase.
pub open spec fn hex_digit_byte(d: nat) -> u8 {
    if d < 10 {
        (0x30 + d) as u8
    } else {
        (0x57 + d) as u8
    }
}

/// The hexadecimal digits of `n`, most significant first, as ASCII bytes.
pub open spec fn hex_digits(n: nat) -> Seq<u8>
    decreases n,
{
    if n < 16 {
        seq![hex_digit_byte(n)]
    } else {
        hex_digits(n / 16).push(hex_digit_byte(n % 16))
    }
}

/// The bytes shown for an unsigned value: `0` for zero, else the minimal
/// lowercase hexadecimal text. A 32-bit value always fits in eight digits,
/// so there is no overflow sentinel.
pub open spec fn hex_text(n: u32) -> Seq<u8> {
    if n == 0 {
        seq![0x30u8]
    } else {
        hex_digits(n as nat)
    }
}

/// Reversing after a push puts the pushed element in front.
proof fn lemma_reverse_push(s: Seq<u8>, d: u8)
    ensures
        s.push(d).reverse() =~= seq![d] + s.reverse(),
{
    assert forall|i: int| 0 <= i < s.len() + 1 implies s.push(d).reverse()[i] == (seq![d]
        + s.reverse())[i] by {
        if i == 0 {
        } else {
            assert(s.push(d).reverse()[i] == s.push(d)[s.len() - i]);
        }
    }
}

/// Convert a signed integer into its decimal ASCII byte sequence.
///
/// Zero becomes `0`; a value outside `[MIN_DECIMAL, MAX_DECIMAL]` becomes
/// the `Err` sentinel; anything else becomes its minimal decimal text,
/// most significant digit first, with a leading minus for negative values.
pub fn base_10_bytes(n: i32) -> (r: Vec<u8>)
    ensures
        r@ == decimal_text(n as int),
{
    let mut out: Vec<u8> = Vec::new();
    if n == 0 {
        out.push(0x30);
        return out;
    }
    if n < MIN_DECIMAL || n > MAX_DECIMAL {
        out.push(0x45);
        out.push(0x72);
        out.push(0x72);
        assert(out@ =~= decimal_text(n as int));
        return out;
    }
    let sign: bool = n < 0;
    let mut m: i32 = if n < 0 {
        -n
    } else {
        n
    };
    let ghost v = m as nat;
    let mut rev: Vec<u8> = Vec::new();
    while m > 0
        invariant
            0 <= m <= v,
            m > 0 ==> decimal_digits(v) =~= decimal_digits(m as nat) + rev@.reverse(),
            m == 0 ==> decimal_digits(v) =~= rev@.reverse(),
        decreases m,
    {
        let d: u8 = (m % 10) as u8 + 0x30;
        proof {
            lemma_reverse_push(rev@, d);
            if m >= 10 {
                assert(decimal_digits(m as nat) == decimal_digits(m as nat / 10).push((0x30 + m
                    as nat % 10) as u8));
            }
        }
        rev.push(d);
        m = m / 10;
    }
    if sign {
        proof {
            lemma_reverse_push(rev@, 0x2D);
        }
        rev.push(0x2D);
    }
    let mut i: usize = 0;
    let len: usize = rev.len();
    while i < len
        invariant
            len == rev@.len(),
            0 <= i <= len,
            out@ =~= rev@.reverse().subrange(0, i as int),
        decreases len - i,
    {
        out.push(rev[len - 1 - i]);
        i = i + 1;
    }
    assert(out@ =~= rev@.reverse());
    assert(out@ =~= decimal_text(n as int));
    out
}

/// Convert an unsigned integer into its lowercase hexadecimal ASCII byte
/// sequence, most significant digit first; zero becomes `0`.
pub fn hex_bytes(n: u32) -> (r: Vec<u8>)
    ensures
        r@ == hex_text(n),
{
    let mut out: Vec<u8> = Vec::new();
    if n == 0 {
        out.push(0x30);
        return out;
    }
    let mut m: u32 = n;
    let ghost v = m as nat;
    let mut rev: Vec<u8> = Vec::new();
    while m > 0
        invariant
            0 <= m <= v,
            m > 0 ==> hex_digits(v) =~= hex_digits(m as nat) + rev@.reverse(),
            m == 0 ==> hex_digits(v) =~= rev@.reverse(),
        decreases m,
    {
        let digit: u8 = (m % 16) as u8;
        let d: u8 = if digit < 10 {
            0x30 + digit
        } else {
            0x57 + digit
        };
        proof {
            lemma_reverse_push(rev@, d);
            if m >= 16 {
                assert(hex_digits(m as nat) == hex_digits(m as nat / 16).push(hex_digit_byte(m
                    as nat % 16)));
            }
        }
        rev.push(d);
        m = m / 16;
    }
    let mut i: usize = 0;
    let len: usize = rev.len();
    while i < len
        invariant
            len == rev@.len(),
            0 <= i <= len,
            out@ =~= rev@.reverse().subrange(0, i as int),
        decreases len - i,
    {
        out.push(rev[len - 1 - i]);
        i = i + 1;
    }
    assert(out@ =~= rev@.reverse());
    assert(out@ =~= hex_text(n));
    out
}

/// Ten to the power `k`.
pub open spec fn pow10(k: nat) -> nat
    decreases k,
{
    if k == 0 {
        1
    } else {
        10 * pow10((k - 1) as nat)
    }
}

/// Sixteen to the power `k`.
pub open spec fn pow16(k: nat) -> nat
    decreases k,
{
    if k == 0 {
        1
    } else {
        16 * pow16((k - 1) as nat)
    }
}

/// A value below ten-to-the-`k` has at most `k` decimal digits.
proof fn lemma_decimal_digits_len(n: nat, k: nat)
    requires
        1 <= k,
        n < pow10(k),
    ensures
        decimal_digits(n).len() <= k,
    decreases n,
{
    reveal_with_fuel(pow10, 2);
    if n < 10 {
    } else {
        if k == 1 {
            assert(pow10(1) == 10);
            assert(false);
        }
        assert(pow10(k) == 10 * pow10((k - 1) as nat));
        vstd::arithmetic::div_mod::lemma_multiply_divide_lt(
            n as int,
            10,
            pow10((k - 1) as nat) as int,
        );
        lemma_decimal_digits_len(n / 10, (k - 1) as nat);
    }
}

/// A value below sixteen-to-the-`k` has at most `k` hexadecimal digits.
proof fn lemma_hex_digits_len(n: nat, k: nat)
    requires
        1 <= k,
        n < pow16(k),
    ensures
        hex_digits(n).len() <= k,
    decreases n,
{
    reveal_with_fuel(pow16, 2);
    if n < 16 {
    } else {
        if k == 1 {
            assert(pow16(1) == 16);
            assert(false);
        }
        assert(pow16(k) == 16 * pow16((k - 1) as nat));
        vstd::arithmetic::div_mod::lemma_multiply_divide_lt(
            n as int,
            16,
            pow16((k - 1) as nat) as int,
        );
        lemma_hex_digits_len(n / 16, (k - 1) as nat);
    }
}

/// The decimal text of any signed value fits on the eight-digit display:
/// the overflow sentinel guards the range, and one digit is reserved for
/// the sign of a negative value.
pub proof fn lemma_decimal_text_len(n: int)
    ensures
        1 <= decimal_text(n).len() <= NUM_DIGITS,
{
    reveal_with_fuel(pow10, 9);
    if n == 0 {
    } else if n < MIN_DECIMAL || n > MAX_DECIMAL {
    } else if n < 0 {
        lemma_decimal_digits_len((-n) as nat, 7);
    } else {
        lemma_decimal_digits_len(n as nat, 8);
    }
}

/// The hexadecimal text of any 32-bit value fits on the eight-digit
/// display.
pub proof fn lemma_hex_text_len(n: u32)
    ensures
        1 <= hex_text(n).len() <= NUM_DIGITS,
{
    reveal_with_fuel(pow16, 9);
    if n != 0 {
        lemma_hex_digits_len(n as nat, 8);
    }
}

/// The display text right-justified to the display width: leading ASCII
/// spaces, then the input bytes in order.
pub open spec fn padded(s: Seq<u8>) -> Seq<u8>
    recommends
        s.len() <= NUM_DIGITS,
{
    Seq::new((NUM_DIGITS - s.len()) as nat, |i: int| 0x20u8) + s
}

/// Take a byte slice of at most the display width and pad its left-hand
/// side with ASCII spaces to exactly the display width.
pub fn pad_left(val: &[u8]) -> (out: [u8; 8])
    requires
        val@.len() <= 8,
    ensures
        out@ == padded(val@),
{
    let size: usize = 8;
    let pos: usize = val.len();
    let mut cur: usize = 1;
    let mut out: [u8; 8] = [0x20u8; 8];
    while cur <= pos
        invariant
            size == 8,
            val@.len() == pos,
            pos <= 8,
            1 <= cur <= pos + 1,
            forall|i: int| 0 <= i < 8 - (cur - 1) ==> out@[i] == 0x20u8,
            forall|i: int| 8 - (cur - 1) <= i < 8 ==> out@[i] == val@[i - (8 - pos)],
        decreases pos + 1 - cur,
    {
        out[size - cur] = val[pos - cur];
        cur = cur + 1;
    }
    assert(out@ =~= padded(val@));
    out
}

/// The padded text is always exactly the display width: for input of
/// length `k`, the first `NUM_DIGITS - k` bytes are ASCII space and the
/// last `k` bytes are the input, in order.
pub proof fn lemma_padded_shape(s: Seq<u8>)
    requires
        s.len() <= NUM_DIGITS,
    ensures
        padded(s).len() == NUM_DIGITS,
        forall|i: int| 0 <= i < NUM_DIGITS - s.len() ==> padded(s)[i] == 0x20u8,
        forall|i: int| 0 <= i < s.len() ==> padded(s)[NUM_DIGITS - s.len() + i] == s[i],
{
}

} // verus!
