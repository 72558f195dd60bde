//! The chip's addressable registers and its decode modes, with their
//! one-byte wire encodings.

use vstd::prelude::*;

verus! {

/// Possible command register values on the display chip.
#[derive(Clone, Copy, PartialEq, Eq, Structural, Debug)]
pub enum Register {
    Noop,
    Digit0,
    Digit1,
    Digit2,
    Digit3,
    Digit4,
    Digit5,
    Digit6,
    Digit7,
    DecodeMode,
    Intensity,
    ScanLimit,
    Power,
    DisplayTest,
}

/// The one-byte address of each register on the wire.
pub open spec fn register_address(r: Register) -> u8 {
    match r {
        Register::Noop => 0x00,
        Register::Digit0 => 0x01,
        Register::Digit1 => 0x02,
        Register::Digit2 => 0x03,
        Register::Digit3 => 0x04,
        Register::Digit4 => 0x05,
        Register::Digit5 => 0x06,
        Register::Digit6 => 0x07,
        Register::Digit7 => 0x08,
        Register::DecodeMode => 0x09,
        Register::Intensity => 0x0A,
        Register::ScanLimit => 0x0B,
        Register::Power => 0x0C,
        Register::DisplayTest => 0x0F,
    }
}

impl Register {
    /// The register's one-byte address, sent as the first protocol byte.
    pub fn addr(&self) -> (a: u8)
        ensures
            a == register_address(*self),
    {
        match self {
            Register::Noop => 0x00,
            Register::Digit0 => 0x01,
            Register::Digit1 => 0x02,
            Register::Digit2 => 0x03,
            Register::Digit3 => 0x04,
            Register::Digit4 => 0x05,
            Register::Digit5 => 0x06,
            Register::Digit6 => 0x07,
            Register::Digit7 => 0x08,
            Register::DecodeMode => 0x09,
            Register::Intensity => 0x0A,
            Register::ScanLimit => 0x0B,
            Register::Power => 0x0C,
            Register::DisplayTest => 0x0F,
        }
    }
}

/// Decode modes for BCD encoded input.
#[derive(Clone, Copy, PartialEq, Eq, Structural, Debug)]
pub enum DecodeMode {
    /// No decode for BCD encoded input: digit bytes are raw segment patterns.
    NoDecode,
    /// Code B decode on digit 0 only.
    CodeBDigit0,
    /// Code B decode on digits 3 through 0.
    CodeBDigits3_0,
    /// Code B decode on all eight digits.
    CodeBDigits7_0,
}

/// The one-byte code written to the decode-mode register for each mode.
pub open spec fn mode_code(m: DecodeMode) -> u8 {
    match m {
        DecodeMode::NoDecode => 0x00,
        DecodeMode::CodeBDigit0 => 0x01,
        DecodeMode::CodeBDigits3_0 => 0x0F,
        DecodeMode::CodeBDigits7_0 => 0xFF,
    }
}

impl DecodeMode {
    /// The mode's one-byte code, sent as the data byte of a decode-mode write.
    pub fn code(&self) -> (c: u8)
        ensures
            c == mode_code(*self),
    {
        match self {
            DecodeMode::NoDecode => 0x00,
            DecodeMode::CodeBDigit0 => 0x01,
            DecodeMode::CodeBDigits3_0 => 0x0F,
            DecodeMode::CodeBDigits7_0 => 0xFF,
        }
    }
}

} // verus!
