//! ESC/POS command definitions.
//!
//! Every command implements [`Command`]: `encoding` states its exact byte
//! sequence, and `encode` produces it.
use vstd::prelude::*;

pub mod barcode;
pub mod basic;
pub mod character;
pub mod codepage;
pub mod image;
pub mod macro_cmd;
pub mod page_mode;
pub mod printer_control;
pub mod spacing;
pub mod status;
pub mod symbol;

verus! {

/// Escape character - starts most ESC/POS commands.
pub const ESC: u8 = 0x1B;

/// Group Separator - starts GS commands.
pub const GS: u8 = 0x1D;

/// File Separator - starts FS commands.
pub const FS: u8 = 0x1C;

/// Data Link Escape - starts real-time commands.
pub const DLE: u8 = 0x10;

/// End of Transmission - used in real-time status commands.
pub const EOT: u8 = 0x04;

/// Line Feed.
pub const LF: u8 = 0x0A;

/// Form Feed.
pub const FF: u8 = 0x0C;

/// Carriage Return.
pub const CR: u8 = 0x0D;

/// Horizontal Tab.
pub const HT: u8 = 0x09;

/// Cancel.
pub const CAN: u8 = 0x18;

/// The parameter byte of an on/off switch: 1 for on, 0 for off.
pub open spec fn flag_byte(on: bool) -> u8 {
    if on { 1 } else { 0 }
}

/// Executable form of [`flag_byte`].
pub fn flag_to_byte(on: bool) -> (r: u8)
    ensures
        r == flag_byte(on),
{
    if on { 1 } else { 0 }
}

/// Low byte of a 16-bit little-endian parameter.
pub open spec fn lo_byte(v: u16) -> u8 {
    (v % 256) as u8
}

/// High byte of a 16-bit little-endian parameter.
pub open spec fn hi_byte(v: u16) -> u8 {
    (v / 256) as u8
}

/// Splits a 16-bit parameter into its little-endian bytes `(low, high)`.
pub fn le_bytes(v: u16) -> (r: (u8, u8))
    ensures
        r.0 == lo_byte(v),
        r.1 == hi_byte(v),
        r.0 as int + 256 * (r.1 as int) == v as int,
{
    ((v % 256) as u8, (v / 256) as u8)
}

/// A command that can be sent to the printer.
///
/// Commands serialize to byte sequences in ESC/POS format.
pub trait Command {
    /// The exact bytes of this command.
    spec fn encoding(&self) -> Seq<u8>;

    /// Encode this command to bytes.
    fn encode(&self) -> (r: Vec<u8>)
        ensures
            r@ == self.encoding(),
    ;
}

/// A command that expects a response from the printer.
pub trait QueryCommand: Command {
    /// The type of response expected.
    type Response;

    /// Parse the response bytes into the expected type.
    ///
    /// Returns a [`StatusParseError`](crate::error::StatusParseError) if the
    /// response is malformed.
    fn parse_response(&self, bytes: &[u8]) -> Result<Self::Response, crate::error::StatusParseError>;
}

} // verus!
