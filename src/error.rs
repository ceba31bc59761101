//! Error types reported by command constructors and response parsers.
//!
//! None of them carries an I/O error: writing the encoded bytes is the
//! caller's concern.
use vstd::prelude::*;

verus! {

/// Validation error for command parameters.
#[derive(Debug, Clone, Copy, PartialEq, Eq)]
pub enum ValidationError {
    /// Line spacing value out of range.
    InvalidLineSpacing(u8),
    /// Tab position out of range.
    InvalidTabPosition(u8),
    /// Invalid code page value.
    InvalidCodePage(u8),
    /// Generic parameter out of range.
    OutOfRange {
        /// The name of the parameter.
        name: &'static str,
        /// The value that was out of range.
        value: u16,
        /// The minimum allowed value.
        min: u16,
        /// The maximum allowed value.
        max: u16,
    },
}

/// A region of a byte string: `length` bytes starting at `offset`.
#[derive(Debug, Clone, Copy, PartialEq, Eq, Structural)]
pub struct Span {
    /// Index of the first byte.
    pub offset: usize,
    /// Number of bytes.
    pub length: usize,
}

/// Barcode-specific errors.
#[derive(Debug, Clone, PartialEq, Eq)]
pub enum BarcodeError {
    /// Invalid barcode data length.
    InvalidLength {
        /// The barcode system name.
        system: &'static str,
        /// The actual data length.
        actual: usize,
        /// The minimum allowed length.
        min: usize,
        /// The maximum allowed length.
        max: usize,
    },
    /// ITF barcode requires even number of digits.
    ItfRequiresEvenLength(usize),
    /// Invalid character in barcode data.
    InvalidCharacter {
        /// The barcode data, decoded as text.
        data: String,
        /// Span pointing to the invalid character.
        span: Span,
        /// The barcode system name.
        system: &'static str,
    },
}

/// Printer status errors.
#[derive(Debug, Clone, Copy, PartialEq, Eq, Structural)]
pub enum StatusError {
    /// Printer is offline.
    Offline,
    /// Paper end detected.
    PaperEnd,
    /// Paper near end.
    PaperNearEnd,
    /// Cover is open.
    CoverOpen,
    /// Cutter error.
    CutterError,
    /// Mechanical error.
    MechanicalError,
    /// Unrecoverable error.
    UnrecoverableError,
}

/// Parse error when reading printer response.
#[derive(Debug, Clone, PartialEq, Eq)]
pub enum ParseError {
    /// Unexpected response length.
    UnexpectedLength {
        /// The expected response length.
        expected: usize,
        /// The actual response length.
        actual: usize,
    },
    /// Invalid response format.
    InvalidFormat(String),
    /// Unknown status byte.
    UnknownStatus(u8),
}

/// Status parse error.
#[derive(Debug, Clone, Copy, PartialEq, Eq, Structural)]
pub enum StatusParseError {
    /// Empty response from printer.
    EmptyResponse,
    /// Invalid status byte.
    InvalidStatus(u8),
}

/// QR Code errors.
#[derive(Debug, Clone, Copy, PartialEq, Eq, Structural)]
pub enum QrCodeError {
    /// Data is empty.
    EmptyData,
    /// Data exceeds the maximum length of 7089 bytes.
    DataTooLong(usize),
}

/// PDF417 errors.
#[derive(Debug, Clone, Copy, PartialEq, Eq, Structural)]
pub enum Pdf417Error {
    /// Invalid column count (must be 1-30).
    InvalidColumnCount(u8),
    /// Invalid row count (must be 3-90).
    InvalidRowCount(u8),
}

} // verus!
