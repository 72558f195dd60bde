//! The display controller: owns the bus handle and the last decode mode it
//! set, and sequences the register writes of every operation.
//!
//! Canonical policy of this driver: the controller is created idle and
//! `init` must be called explicitly; `init` leaves the chip powered off, so
//! power state stays caller-controlled; and digit writes that need a
//! particular decode mode (`write_raw`, `write_str`, `write_bcd`) save the
//! current mode, force the mode they need, and restore the saved mode
//! afterwards — also when a digit write in between fails.

use vstd::prelude::*;
use crate::NUM_DIGITS;
use crate::bus::SegmentBus;
use crate::encode::{segment_pattern, bcd_code, ssb_byte, bcd_byte};
use crate::format::{
    base_10_bytes, hex_bytes, pad_left, padded, decimal_text, hex_text, lemma_decimal_text_len,
    lemma_hex_text_len,
};
use crate::registers::{Register, DecodeMode, register_address, mode_code};

verus! {

/// One register write on the wire: the register's address byte and the
/// data byte.
pub type Frame = (u8, u8);

/// The frame that selects a decode mode.
pub open spec fn mode_frame(m: DecodeMode) -> Frame {
    (register_address(Register::DecodeMode), mode_code(m))
}

/// The digit frames of a raw write: byte `i` goes to the digit-`i`
/// register, in ascending register order.
pub open spec fn raw_frames(data: Seq<u8>) -> Seq<Frame> {
    Seq::new(data.len(), |i: int| ((i + 1) as u8, data[i]))
}

/// Whether bit `i` of the dot mask is set.
pub open spec fn dot_set(dots: u8, i: int) -> bool {
    dots & (1u8 << (i as u8)) != 0
}

/// The digit frames of a string write: byte `i`, segment-encoded with its
/// dot bit, goes to the digit register `NUM_DIGITS - i` — index 0 lands on
/// the highest digit register, the reverse of a raw write.
pub open spec fn str_frames(s: Seq<u8>, dots: u8) -> Seq<Frame> {
    Seq::new(s.len(), |i: int| ((NUM_DIGITS - i) as u8, segment_pattern(s[i], dot_set(dots, i))))
}

/// The digit frames of a BCD write: byte `i`, Code-B-encoded, goes to the
/// digit register `NUM_DIGITS - i`, the same reversed mapping as a string
/// write.
pub open spec fn bcd_frames(s: Seq<u8>) -> Seq<Frame> {
    Seq::new(s.len(), |i: int| ((NUM_DIGITS - i) as u8, bcd_code(s[i])))
}

/// The frames a mode-overriding digit write puts on the wire when every
/// write succeeds: the digit frames alone if the forced mode is already
/// set, else the digit frames bracketed by forcing the needed mode and
/// restoring the saved one.
pub open spec fn override_frames(saved: DecodeMode, forced: DecodeMode, body: Seq<Frame>) -> Seq<
    Frame,
> {
    if saved == forced {
        body
    } else {
        seq![mode_frame(forced)] + body + seq![mode_frame(saved)]
    }
}

/// What holds of a mode-overriding digit write that failed: the digit
/// frames were issued in order up to the failing write and no further, a
/// needed mode force comes first, and the restore of the saved mode was
/// attempted — the cached mode names the mode most recently written.
pub open spec fn override_aborted(
    old_log: Seq<Frame>,
    saved: DecodeMode,
    forced: DecodeMode,
    body: Seq<Frame>,
    new_log: Seq<Frame>,
    new_mode: DecodeMode,
) -> bool {
    if saved == forced {
        new_mode == saved && exists|k: int|
            0 <= k < body.len() && new_log == old_log + body.take(k)
    } else {
        ||| (new_log == old_log && new_mode == saved)
        ||| (exists|k: int|
            0 <= k < body.len() && new_log == old_log + seq![mode_frame(forced)] + body.take(k)
                + seq![mode_frame(saved)] && new_mode == saved)
        ||| (exists|k: int|
            0 <= k < body.len() && new_log == old_log + seq![mode_frame(forced)] + body.take(k)
                && new_mode == forced)
        ||| (new_log == old_log + seq![mode_frame(forced)] + body && new_mode == forced)
    }
}

/// A MAX7219-style display controller.
///
/// It owns the bus handle exclusively, and caches the decode mode it last
/// wrote so that mode-overriding digit writes can restore it. The cache is
/// never a stale guess: every operation's contract states that the cache
/// equals the mode most recently written to the chip.
pub struct Max7219<SPI> {
    /// The bus transport the controller writes through.
    pub spi: SPI,
    decode_mode: DecodeMode,
}

impl<SPI: SegmentBus> Max7219<SPI> {
    /// The decode mode the controller last wrote to the chip; `NoDecode`
    /// before any mode write.
    pub closed spec fn cached_mode(&self) -> DecodeMode {
        self.decode_mode
    }

    /// The register writes the controller's bus has carried so far, in
    /// order.
    pub closed spec fn log(&self) -> Seq<Frame> {
        self.spi.log()
    }

    /// Create a new instance of the driver.
    ///
    /// After creating a new instance, call [`Max7219::init`] to initialize
    /// the display.
    pub fn new(spi: SPI) -> (r: Self)
        ensures
            r.log() == spi.log(),
            r.cached_mode() == DecodeMode::NoDecode,
    {
        Self { spi, decode_mode: DecodeMode::NoDecode }
    }

    /// Write a byte to a register on the display chip.
    fn write_reg(&mut self, register: Register, data: u8) -> (r: Result<(), SPI::Error>)
        ensures
            final (self).cached_mode() == old(self).cached_mode(),
            r is Ok ==> final (self).log() == old(self).log().push(
                (register_address(register), data),
            ),
            r is Err ==> final (self).log() == old(self).log(),
    {
        self.spi.write(register.addr(), data)
    }

    /// Power on the display: write 0x01 to the power register.
    pub fn power_on(&mut self) -> (r: Result<(), SPI::Error>)
        ensures
            final (self).cached_mode() == old(self).cached_mode(),
            r is Ok ==> final (self).log() == old(self).log().push(
                (register_address(Register::Power), 0x01),
            ),
            r is Err ==> final (self).log() == old(self).log(),
    {
        self.write_reg(Register::Power, 0x01)
    }

    /// Power off the display: write 0x00 to the power register.
    pub fn power_off(&mut self) -> (r: Result<(), SPI::Error>)
        ensures
            final (self).cached_mode() == old(self).cached_mode(),
            r is Ok ==> final (self).log() == old(self).log().push(
                (register_address(Register::Power), 0x00),
            ),
            r is Err ==> final (self).log() == old(self).log(),
    {
        self.write_reg(Register::Power, 0x00)
    }

    /// Set the intensity level of the display, from 0x00 (dimmest) to 0x0F
    /// (brightest). The byte is forwarded as-is; the chip's behaviour for
    /// values above 0x0F is not defined by this driver.
    pub fn set_intensity(&mut self, intensity: u8) -> (r: Result<(), SPI::Error>)
        ensures
            final (self).cached_mode() == old(self).cached_mode(),
            r is Ok ==> final (self).log() == old(self).log().push(
                (register_address(Register::Intensity), intensity),
            ),
            r is Err ==> final (self).log() == old(self).log(),
    {
        self.write_reg(Register::Intensity, intensity)
    }

    /// Set the decode mode used on input sent to the display chip, and
    /// cache it as the mode to restore after temporary overrides.
    ///
    /// See [`DecodeMode`] for more information.
    pub fn set_decode_mode(&mut self, mode: DecodeMode) -> (r: Result<(), SPI::Error>)
        ensures
            r is Ok ==> final (self).log() == old(self).log().push(mode_frame(mode))
                && final (self).cached_mode() == mode,
            r is Err ==> final (self).log() == old(self).log() && final (self).cached_mode()
                == old(self).cached_mode(),
    {
        match self.write_reg(Register::DecodeMode, mode.code()) {
            Ok(()) => {
                self.decode_mode = mode;
                Ok(())
            },
            Err(e) => Err(e),
        }
    }

    /// Enable or disable the display test mode: write 0x01 or 0x00 to the
    /// display-test register.
    pub fn set_test(&mut self, enable: bool) -> (r: Result<(), SPI::Error>)
        ensures
            final (self).cached_mode() == old(self).cached_mode(),
            r is Ok ==> final (self).log() == old(self).log().push(
                (register_address(Register::DisplayTest), if enable { 0x01u8 } else { 0x00u8 }),
            ),
            r is Err ==> final (self).log() == old(self).log(),
    {
        self.write_reg(
            Register::DisplayTest,
            if enable {
                0x01
            } else {
                0x00
            },
        )
    }

    /// Set the number of digits to scan (display). The chip register holds
    /// a zero-indexed digit count, so `limit` must be between 1 and 8.
    pub fn set_scan_limit(&mut self, limit: u8) -> (r: Result<(), SPI::Error>)
        requires
            1 <= limit <= 8,
        ensures
            final (self).cached_mode() == old(self).cached_mode(),
            r is Ok ==> final (self).log() == old(self).log().push(
                (register_address(Register::ScanLimit), (limit - 1) as u8),
            ),
            r is Err ==> final (self).log() == old(self).log(),
    {
        self.write_reg(Register::ScanLimit, limit - 1)
    }

    /// Write a data byte to one digit of the display. `digit` selects a
    /// digit position, 0 to 7.
    pub fn write_digit_bytes(&mut self, digit: u8, value: u8) -> (r: Result<(), SPI::Error>)
        requires
            digit < 8,
        ensures
            final (self).cached_mode() == old(self).cached_mode(),
            r is Ok ==> final (self).log() == old(self).log().push(
                ((digit + 1) as u8, value),
            ),
            r is Err ==> final (self).log() == old(self).log(),
    {
        self.spi.write(digit + 1, value)
    }

    /// Issue the given frames over the bus, in order, stopping at the
    /// first failing write and returning its error unchanged.
    fn issue_frames(&mut self, frames: &Vec<Frame>) -> (r: Result<(), SPI::Error>)
        ensures
            final (self).cached_mode() == old(self).cached_mode(),
            r is Ok ==> final (self).log() == old(self).log() + frames@,
            r is Err ==> exists|k: int|
                0 <= k < frames@.len() && final (self).log() == old(self).log() + frames@.take(k),
    {
        proof {
            assert(old(self).log() + frames@.take(0) =~= old(self).log());
        }
        let mut i: usize = 0;
        while i < frames.len()
            invariant
                0 <= i <= frames@.len(),
                self.cached_mode() == old(self).cached_mode(),
                self.log() == old(self).log() + frames@.take(i as int),
            decreases frames@.len() - i,
        {
            let (a, d) = frames[i];
            match self.spi.write(a, d) {
                Ok(()) => {},
                Err(e) => {
                    proof {
                        assert(self.log() == old(self).log() + frames@.take(i as int));
                    }
                    return Err(e);
                },
            }
            proof {
                lemma_take_push(frames@, i as int);
                assert(old(self).log() + frames@.take(i + 1) =~= (old(self).log() + frames@.take(
                    i as int,
                )).push(frames@[i as int]));
            }
            i = i + 1;
        }
        proof {
            assert(frames@.take(frames@.len() as int) =~= frames@);
        }
        Ok(())
    }

    /// Issue digit frames under a forced decode mode: save the current
    /// mode, force `forced` (skipped when it is already set), issue the
    /// frames, and restore the saved mode — also when a digit write fails.
    /// The first failing write's error is returned unchanged.
    fn write_digits_with_mode(&mut self, frames: &Vec<Frame>, forced: DecodeMode) -> (r: Result<
        (),
        SPI::Error,
    >)
        ensures
            r is Ok ==> final (self).log() == old(self).log() + override_frames(
                old(self).cached_mode(),
                forced,
                frames@,
            ) && final (self).cached_mode() == old(self).cached_mode(),
            r is Err ==> override_aborted(
                old(self).log(),
                old(self).cached_mode(),
                forced,
                frames@,
                final (self).log(),
                final (self).cached_mode(),
            ),
    {
        if self.decode_mode == forced {
            self.issue_frames(frames)
        } else {
            let saved = self.decode_mode;
            match self.set_decode_mode(forced) {
                Err(e) => Err(e),
                Ok(()) => {
                    let ghost forced_log = self.log();
                    proof {
                        assert(forced_log =~= old(self).log() + seq![mode_frame(forced)]);
                    }
                    match self.issue_frames(frames) {
                        Ok(()) => {
                            match self.set_decode_mode(saved) {
                                Ok(()) => {
                                    proof {
                                        assert(self.log() =~= old(self).log() + override_frames(
                                            saved,
                                            forced,
                                            frames@,
                                        ));
                                    }
                                    Ok(())
                                },
                                Err(e) => {
                                    proof {
                                        assert(self.log() =~= old(self).log() + seq![
                                            mode_frame(forced),
                                        ] + frames@);
                                    }
                                    Err(e)
                                },
                            }
                        },
                        Err(e) => {
                            let ghost k = choose|k: int|
                                0 <= k < frames@.len() && self.log() == forced_log + frames@.take(
                                    k,
                                );
                            proof {
                                assert(self.log() =~= old(self).log() + seq![mode_frame(forced)]
                                    + frames@.take(k));
                            }
                            let ghost aborted_log = self.log();
                            match self.set_decode_mode(saved) {
                                Ok(()) => {
                                    proof {
                                        assert(self.log() =~= old(self).log() + seq![
                                            mode_frame(forced),
                                        ] + frames@.take(k) + seq![mode_frame(saved)]);
                                    }
                                    Err(e)
                                },
                                Err(_) => {
                                    proof {
                                        assert(self.log() == aborted_log);
                                    }
                                    Err(e)
                                },
                            }
                        },
                    }
                },
            }
        }
    }
}

impl<SPI: SegmentBus> Max7219<SPI> {
    /// Write raw segment bytes to the display: byte `i` goes to digit
    /// register `i`, in ascending order — the opposite index-to-register
    /// mapping from [`Max7219::write_str`]. No-decode mode is forced
    /// around the digit writes so the bytes are taken literally, and the
    /// saved mode is restored afterwards.
    pub fn write_raw(&mut self, raw: &[u8; 8]) -> (r: Result<(), SPI::Error>)
        ensures
            r is Ok ==> final (self).log() == old(self).log() + override_frames(
                old(self).cached_mode(),
                DecodeMode::NoDecode,
                raw_frames(raw@),
            ) && final (self).cached_mode() == old(self).cached_mode(),
            r is Err ==> override_aborted(
                old(self).log(),
                old(self).cached_mode(),
                DecodeMode::NoDecode,
                raw_frames(raw@),
                final (self).log(),
                final (self).cached_mode(),
            ),
    {
        let mut frames: Vec<Frame> = Vec::new();
        let mut i: usize = 0;
        while i < 8
            invariant
                0 <= i <= 8,
                raw@.len() == 8,
                frames@ =~= raw_frames(raw@).take(i as int),
            decreases 8 - i,
        {
            frames.push((i as u8 + 1, raw[i]));
            proof {
                lemma_take_push(raw_frames(raw@), i as int);
            }
            i = i + 1;
        }
        proof {
            assert(frames@ =~= raw_frames(raw@));
        }
        self.write_digits_with_mode(&frames, DecodeMode::NoDecode)
    }

    /// Write a byte string to the display: byte `i`, segment-encoded, goes
    /// to digit register `NUM_DIGITS - i`, so index 0 lands on the highest
    /// digit register. Unknown characters come out as the fallback glyph.
    /// No-decode mode is forced around the digit writes and the saved mode
    /// is restored afterwards.
    ///
    /// `dots` is a bit mask: bit `i` puts the decimal point on the digit
    /// showing byte `i`.
    pub fn write_str(&mut self, string: &[u8; 8], dots: u8) -> (r: Result<(), SPI::Error>)
        ensures
            r is Ok ==> final (self).log() == old(self).log() + override_frames(
                old(self).cached_mode(),
                DecodeMode::NoDecode,
                str_frames(string@, dots),
            ) && final (self).cached_mode() == old(self).cached_mode(),
            r is Err ==> override_aborted(
                old(self).log(),
                old(self).cached_mode(),
                DecodeMode::NoDecode,
                str_frames(string@, dots),
                final (self).log(),
                final (self).cached_mode(),
            ),
    {
        let mut frames: Vec<Frame> = Vec::new();
        let mut i: usize = 0;
        while i < 8
            invariant
                0 <= i <= 8,
                string@.len() == 8,
                frames@ =~= str_frames(string@, dots).take(i as int),
            decreases 8 - i,
        {
            let dot: bool = dots & (1u8 << (i as u8)) != 0;
            let reg: u8 = (NUM_DIGITS as u8) - (i as u8);
            frames.push((reg, ssb_byte(string[i], dot)));
            proof {
                lemma_take_push(str_frames(string@, dots), i as int);
            }
            i = i + 1;
        }
        proof {
            assert(frames@ =~= str_frames(string@, dots));
        }
        self.write_digits_with_mode(&frames, DecodeMode::NoDecode)
    }

    /// Write BCD-coded bytes to the display, with the same reversed
    /// index-to-register mapping as [`Max7219::write_str`]. Code B decode
    /// on all digits is forced around the digit writes and the saved mode
    /// is restored afterwards.
    pub fn write_bcd(&mut self, bcd: &[u8; 8]) -> (r: Result<(), SPI::Error>)
        ensures
            r is Ok ==> final (self).log() == old(self).log() + override_frames(
                old(self).cached_mode(),
                DecodeMode::CodeBDigits7_0,
                bcd_frames(bcd@),
            ) && final (self).cached_mode() == old(self).cached_mode(),
            r is Err ==> override_aborted(
                old(self).log(),
                old(self).cached_mode(),
                DecodeMode::CodeBDigits7_0,
                bcd_frames(bcd@),
                final (self).log(),
                final (self).cached_mode(),
            ),
    {
        let mut frames: Vec<Frame> = Vec::new();
        let mut i: usize = 0;
        while i < 8
            invariant
                0 <= i <= 8,
                bcd@.len() == 8,
                frames@ =~= bcd_frames(bcd@).take(i as int),
            decreases 8 - i,
        {
            let reg: u8 = (NUM_DIGITS as u8) - (i as u8);
            frames.push((reg, bcd_byte(bcd[i])));
            proof {
                lemma_take_push(bcd_frames(bcd@), i as int);
            }
            i = i + 1;
        }
        proof {
            assert(frames@ =~= bcd_frames(bcd@));
        }
        self.write_digits_with_mode(&frames, DecodeMode::CodeBDigits7_0)
    }

    /// Clear the display by setting every digit to empty: a raw write of
    /// eight zero bytes.
    pub fn clear_display(&mut self) -> (r: Result<(), SPI::Error>)
        ensures
            r is Ok ==> final (self).log() == old(self).log() + override_frames(
                old(self).cached_mode(),
                DecodeMode::NoDecode,
                blank_frames(),
            ) && final (self).cached_mode() == old(self).cached_mode(),
            r is Err ==> override_aborted(
                old(self).log(),
                old(self).cached_mode(),
                DecodeMode::NoDecode,
                blank_frames(),
                final (self).log(),
                final (self).cached_mode(),
            ),
    {
        let zeros: [u8; 8] = [0u8; 8];
        proof {
            assert(raw_frames(zeros@) =~= blank_frames());
        }
        self.write_raw(&zeros)
    }
}

impl<SPI: SegmentBus> Max7219<SPI> {
    /// Write a right-justified decimal integer with sign: the formatted
    /// text, space-padded to the display width, as a string write with no
    /// dots. Values outside the displayable range show the `Err` sentinel.
    pub fn write_integer(&mut self, value: i32) -> (r: Result<(), SPI::Error>)
        ensures
            r is Ok ==> final (self).log() == old(self).log() + override_frames(
                old(self).cached_mode(),
                DecodeMode::NoDecode,
                integer_frames(value),
            ) && final (self).cached_mode() == old(self).cached_mode(),
            r is Err ==> override_aborted(
                old(self).log(),
                old(self).cached_mode(),
                DecodeMode::NoDecode,
                integer_frames(value),
                final (self).log(),
                final (self).cached_mode(),
            ),
    {
        proof {
            lemma_decimal_text_len(value as int);
        }
        let text = base_10_bytes(value);
        let buf: [u8; 8] = pad_left(text.as_slice());
        self.write_str(&buf, 0b0000_0000)
    }

    /// Write a right-justified lowercase hexadecimal integer: the
    /// formatted text, space-padded to the display width, as a string
    /// write with no dots.
    pub fn write_hex(&mut self, value: u32) -> (r: Result<(), SPI::Error>)
        ensures
            r is Ok ==> final (self).log() == old(self).log() + override_frames(
                old(self).cached_mode(),
                DecodeMode::NoDecode,
                hex_frames(value),
            ) && final (self).cached_mode() == old(self).cached_mode(),
            r is Err ==> override_aborted(
                old(self).log(),
                old(self).cached_mode(),
                DecodeMode::NoDecode,
                hex_frames(value),
                final (self).log(),
                final (self).cached_mode(),
            ),
    {
        proof {
            lemma_hex_text_len(value);
        }
        let text = hex_bytes(value);
        let buf: [u8; 8] = pad_left(text.as_slice());
        self.write_str(&buf, 0b0000_0000)
    }

    /// Initialize the display with the default settings, in the order the
    /// chip needs: test mode off first, then scan limit to all eight
    /// digits, decode mode to no-decode, every digit cleared, and finally
    /// power off. Power is left off: powering on stays an explicit,
    /// caller-controlled step.
    pub fn init(&mut self) -> (r: Result<(), SPI::Error>)
        ensures
            r is Ok ==> final (self).log() == old(self).log() + init_frames()
                && final (self).cached_mode() == DecodeMode::NoDecode,
            r is Err ==> exists|k: int|
                0 <= k < init_frames().len() && final (self).log() == old(self).log()
                    + init_frames().take(k) && final (self).cached_mode() == (if k >= 3 {
                    DecodeMode::NoDecode
                } else {
                    old(self).cached_mode()
                }),
    {
        match self.set_test(false) {
            Err(e) => {
                proof {
                    assert(self.log() =~= old(self).log() + init_frames().take(0));
                }
                return Err(e);
            },
            Ok(()) => {},
        }
        proof {
            assert(self.log() =~= old(self).log() + init_frames().take(1));
        }
        match self.set_scan_limit(NUM_DIGITS as u8) {
            Err(e) => {
                return Err(e);
            },
            Ok(()) => {},
        }
        proof {
            assert(self.log() =~= old(self).log() + init_frames().take(2));
        }
        match self.set_decode_mode(DecodeMode::NoDecode) {
            Err(e) => {
                return Err(e);
            },
            Ok(()) => {},
        }
        proof {
            assert(self.log() =~= old(self).log() + init_frames().take(3));
        }
        let ghost before_clear = self.log();
        match self.clear_display() {
            Err(e) => {
                proof {
                    let j = choose|j: int|
                        0 <= j < blank_frames().len() && self.log() == before_clear
                            + blank_frames().take(j);
                    assert(self.log() =~= old(self).log() + init_frames().take(3 + j));
                }
                return Err(e);
            },
            Ok(()) => {},
        }
        proof {
            assert(self.log() =~= old(self).log() + init_frames().take(11));
        }
        match self.power_off() {
            Err(e) => {
                return Err(e);
            },
            Ok(()) => {},
        }
        proof {
            assert(self.log() =~= old(self).log() + init_frames());
        }
        Ok(())
    }
}

/// The digit frames that blank the whole display: a zero byte to every
/// digit register, ascending.
pub open spec fn blank_frames() -> Seq<Frame> {
    raw_frames(Seq::new(NUM_DIGITS as nat, |i: int| 0u8))
}

/// The frames a decimal integer write puts on the wire when every write
/// succeeds and no mode bracket is needed: the formatted, padded text as
/// string frames with no dots.
pub open spec fn integer_frames(value: i32) -> Seq<Frame> {
    str_frames(padded(decimal_text(value as int)), 0)
}

/// The frames a hexadecimal integer write puts on the wire when every
/// write succeeds and no mode bracket is needed: the formatted, padded
/// text as string frames with no dots.
pub open spec fn hex_frames(value: u32) -> Seq<Frame> {
    str_frames(padded(hex_text(value)), 0)
}

/// The exact ordered frame sequence of initialization: test off, scan
/// limit seven (all eight digits, zero-indexed), no-decode, eight zero
/// writes to clear, power off.
pub open spec fn init_frames() -> Seq<Frame> {
    seq![
        (register_address(Register::DisplayTest), 0x00u8),
        (register_address(Register::ScanLimit), 0x07u8),
        mode_frame(DecodeMode::NoDecode),
    ] + blank_frames() + seq![(register_address(Register::Power), 0x00u8)]
}

/// Taking one more element appends exactly the next element.
proof fn lemma_take_push(s: Seq<Frame>, k: int)
    requires
        0 <= k < s.len(),
    ensures
        s.take(k + 1) =~= s.take(k).push(s[k]),
{
}

} // verus!
