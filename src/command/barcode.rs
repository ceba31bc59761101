//! Barcode commands.
//!
//! All barcode types supported by the printer, with validation of the data
//! against each symbology.
use vstd::prelude::*;

use super::{Command, GS};
use crate::error::{BarcodeError, Span};

verus! {

/// Set barcode height in dots.
///
/// ESC/POS: `GS h n` (0x1D 0x68 n). A height of 0 is sent as 1.
/// Default: 162 dots.
#[derive(Debug, Clone, Copy, PartialEq, Eq, Structural)]
pub struct SetBarcodeHeight(pub u8);

impl Default for SetBarcodeHeight {
    /// The printer's default height, 162 dots.
    fn default() -> (r: Self)
        ensures
            r == SetBarcodeHeight(162),
    {
        Self(162)
    }
}

impl Command for SetBarcodeHeight {
    open spec fn encoding(&self) -> Seq<u8> {
        seq![GS, 0x68u8, if self.0 == 0 { 1u8 } else { self.0 }]
    }

    fn encode(&self) -> (r: Vec<u8>) {
        let n = if self.0 == 0 {
            1
        } else {
            self.0
        };
        vec![GS, 0x68, n]
    }
}

/// Barcode module width.
#[derive(Debug, Clone, Copy, PartialEq, Eq, Structural, Default)]
pub enum BarcodeWidth {
    /// Thinnest module (0.282mm).
    Thin,
    /// Default width (0.423mm).
    #[default]
    Normal,
    /// Medium width (0.564mm).
    Medium,
    /// Wide width (0.706mm).
    Wide,
    /// Widest module (0.847mm).
    ExtraWide,
}

impl BarcodeWidth {
    /// The command parameter byte of this width.
    pub open spec fn byte(self) -> u8 {
        match self {
            BarcodeWidth::Thin => 2,
            BarcodeWidth::Normal => 3,
            BarcodeWidth::Medium => 4,
            BarcodeWidth::Wide => 5,
            BarcodeWidth::ExtraWide => 6,
        }
    }

    /// The command parameter byte of this width.
    pub fn as_byte(self) -> (r: u8)
        ensures
            r == self.byte(),
    {
        match self {
            BarcodeWidth::Thin => 2,
            BarcodeWidth::Normal => 3,
            BarcodeWidth::Medium => 4,
            BarcodeWidth::Wide => 5,
            BarcodeWidth::ExtraWide => 6,
        }
    }
}

/// Set barcode module width.
///
/// ESC/POS: `GS w n` (0x1D 0x77 n)
#[derive(Debug, Clone, Copy, PartialEq, Eq, Default)]
pub struct SetBarcodeWidth(pub BarcodeWidth);

impl Command for SetBarcodeWidth {
    open spec fn encoding(&self) -> Seq<u8> {
        seq![GS, 0x77u8, self.0.byte()]
    }

    fn encode(&self) -> (r: Vec<u8>) {
        vec![GS, 0x77, self.0.as_byte()]
    }
}

/// HRI (Human Readable Interpretation) character position.
#[derive(Debug, Clone, Copy, PartialEq, Eq, Structural, Default)]
pub enum HriPosition {
    /// HRI not printed.
    #[default]
    NotPrinted,
    /// HRI printed above barcode.
    Above,
    /// HRI printed below barcode.
    Below,
    /// HRI printed both above and below.
    Both,
}

impl HriPosition {
    /// The command parameter byte of this position.
    pub open spec fn byte(self) -> u8 {
        match self {
            HriPosition::NotPrinted => 0,
            HriPosition::Above => 1,
            HriPosition::Below => 2,
            HriPosition::Both => 3,
        }
    }

    /// The command parameter byte of this position.
    pub fn as_byte(self) -> (r: u8)
        ensures
            r == self.byte(),
    {
        match self {
            HriPosition::NotPrinted => 0,
            HriPosition::Above => 1,
            HriPosition::Below => 2,
            HriPosition::Both => 3,
        }
    }
}

/// Set HRI character position.
///
/// ESC/POS: `GS H n` (0x1D 0x48 n)
#[derive(Debug, Clone, Copy, PartialEq, Eq, Default)]
pub struct SetHriPosition(pub HriPosition);

impl Command for SetHriPosition {
    open spec fn encoding(&self) -> Seq<u8> {
        seq![GS, 0x48u8, self.0.byte()]
    }

    fn encode(&self) -> (r: Vec<u8>) {
        vec![GS, 0x48, self.0.as_byte()]
    }
}

/// HRI character font.
#[derive(Debug, Clone, Copy, PartialEq, Eq, Structural, Default)]
pub enum HriFont {
    /// Font A (12×24).
    #[default]
    A,
    /// Font B (9×17).
    B,
}

impl HriFont {
    /// The command parameter byte of this font.
    pub open spec fn byte(self) -> u8 {
        match self {
            HriFont::A => 0,
            HriFont::B => 1,
        }
    }

    /// The command parameter byte of this font.
    pub fn as_byte(self) -> (r: u8)
        ensures
            r == self.byte(),
    {
        match self {
            HriFont::A => 0,
            HriFont::B => 1,
        }
    }
}

/// Set HRI character font.
///
/// ESC/POS: `GS f n` (0x1D 0x66 n)
#[derive(Debug, Clone, Copy, PartialEq, Eq, Default)]
pub struct SetHriFont(pub HriFont);

impl Command for SetHriFont {
    open spec fn encoding(&self) -> Seq<u8> {
        seq![GS, 0x66u8, self.0.byte()]
    }

    fn encode(&self) -> (r: Vec<u8>) {
        vec![GS, 0x66, self.0.as_byte()]
    }
}

/// Barcode symbology.
#[derive(Debug, Clone, Copy, PartialEq, Eq, Structural)]
pub enum BarcodeSystem {
    /// UPC-A - 11-12 digits, North American retail.
    UpcA,
    /// UPC-E - 11-12 digits, compressed UPC-A.
    UpcE,
    /// JAN-13/EAN-13 - 12-13 digits, international retail.
    Jan13,
    /// JAN-8/EAN-8 - 7-8 digits, small packages.
    Jan8,
    /// CODE39 - alphanumeric, variable length.
    Code39,
    /// ITF (Interleaved 2 of 5) - digits only, even length required.
    Itf,
    /// CODABAR - digits and symbols, medical/library use.
    Codabar,
    /// CODE93 - full ASCII, high density.
    Code93,
    /// CODE128 - full ASCII, very high density.
    Code128,
}

/// An ASCII decimal digit.
pub open spec fn is_digit(b: u8) -> bool {
    0x30 <= b <= 0x39
}

impl BarcodeSystem {
    /// The command parameter byte of this symbology.
    pub open spec fn byte(self) -> u8 {
        match self {
            BarcodeSystem::UpcA => 65,
            BarcodeSystem::UpcE => 66,
            BarcodeSystem::Jan13 => 67,
            BarcodeSystem::Jan8 => 68,
            BarcodeSystem::Code39 => 69,
            BarcodeSystem::Itf => 70,
            BarcodeSystem::Codabar => 71,
            BarcodeSystem::Code93 => 72,
            BarcodeSystem::Code128 => 73,
        }
    }

    /// The command parameter byte of this symbology.
    pub fn as_byte(self) -> (r: u8)
        ensures
            r == self.byte(),
    {
        match self {
            BarcodeSystem::UpcA => 65,
            BarcodeSystem::UpcE => 66,
            BarcodeSystem::Jan13 => 67,
            BarcodeSystem::Jan8 => 68,
            BarcodeSystem::Code39 => 69,
            BarcodeSystem::Itf => 70,
            BarcodeSystem::Codabar => 71,
            BarcodeSystem::Code93 => 72,
            BarcodeSystem::Code128 => 73,
        }
    }

    /// The fewest data bytes this symbology takes.
    pub open spec fn min_len(self) -> usize {
        match self {
            BarcodeSystem::UpcA | BarcodeSystem::UpcE => 11,
            BarcodeSystem::Jan13 => 12,
            BarcodeSystem::Jan8 => 7,
            BarcodeSystem::Code39 | BarcodeSystem::Codabar | BarcodeSystem::Code93 => 1,
            BarcodeSystem::Itf | BarcodeSystem::Code128 => 2,
        }
    }

    /// The most data bytes this symbology takes.
    pub open spec fn max_len(self) -> usize {
        match self {
            BarcodeSystem::UpcA | BarcodeSystem::UpcE => 12,
            BarcodeSystem::Jan13 => 13,
            BarcodeSystem::Jan8 => 8,
            _ => 255,
        }
    }

    /// The name of this symbology, as reported in errors.
    pub open spec fn label(self) -> Seq<char> {
        match self {
            BarcodeSystem::UpcA => "UPC-A"@,
            BarcodeSystem::UpcE => "UPC-E"@,
            BarcodeSystem::Jan13 => "JAN-13"@,
            BarcodeSystem::Jan8 => "JAN-8"@,
            BarcodeSystem::Code39 => "CODE39"@,
            BarcodeSystem::Itf => "ITF"@,
            BarcodeSystem::Codabar => "CODABAR"@,
            BarcodeSystem::Code93 => "CODE93"@,
            BarcodeSystem::Code128 => "CODE128"@,
        }
    }

    /// Whether this symbology can encode data byte `b`.
    pub open spec fn accepts(self, b: u8) -> bool {
        match self {
            BarcodeSystem::UpcA
            | BarcodeSystem::UpcE
            | BarcodeSystem::Jan13
            | BarcodeSystem::Jan8
            | BarcodeSystem::Itf => is_digit(b),
            BarcodeSystem::Code39 => is_digit(b) || (0x41 <= b <= 0x5A) || b == 0x20 || b == 0x24
                || b == 0x25 || b == 0x2A || b == 0x2B || b == 0x2D || b == 0x2E || b == 0x2F,
            BarcodeSystem::Codabar => is_digit(b) || (0x41 <= b <= 0x44) || b == 0x24 || b == 0x2B
                || b == 0x2D || b == 0x2E || b == 0x2F || b == 0x3A,
            BarcodeSystem::Code93 | BarcodeSystem::Code128 => b <= 127,
        }
    }

    /// The name of this symbology, as reported in errors.
    pub fn name(self) -> (r: &'static str)
        ensures
            r@ == self.label(),
    {
        match self {
            BarcodeSystem::UpcA => "UPC-A",
            BarcodeSystem::UpcE => "UPC-E",
            BarcodeSystem::Jan13 => "JAN-13",
            BarcodeSystem::Jan8 => "JAN-8",
            BarcodeSystem::Code39 => "CODE39",
            BarcodeSystem::Itf => "ITF",
            BarcodeSystem::Codabar => "CODABAR",
            BarcodeSystem::Code93 => "CODE93",
            BarcodeSystem::Code128 => "CODE128",
        }
    }

    /// The length bounds of this symbology: `(min, max)`.
    fn length_bounds(self) -> (r: (usize, usize))
        ensures
            r == (self.min_len(), self.max_len()),
    {
        match self {
            BarcodeSystem::UpcA | BarcodeSystem::UpcE => (11, 12),
            BarcodeSystem::Jan13 => (12, 13),
            BarcodeSystem::Jan8 => (7, 8),
            BarcodeSystem::Code39 | BarcodeSystem::Codabar | BarcodeSystem::Code93 => (1, 255),
            BarcodeSystem::Itf | BarcodeSystem::Code128 => (2, 255),
        }
    }

    /// Whether this symbology can encode data byte `b`.
    pub fn accepts_byte(self, b: u8) -> (r: bool)
        ensures
            r == self.accepts(b),
    {
        let digit = 0x30 <= b && b <= 0x39;
        match self {
            BarcodeSystem::UpcA
            | BarcodeSystem::UpcE
            | BarcodeSystem::Jan13
            | BarcodeSystem::Jan8
            | BarcodeSystem::Itf => digit,
            BarcodeSystem::Code39 => digit || (0x41 <= b && b <= 0x5A) || b == 0x20 || b == 0x24
                || b == 0x25 || b == 0x2A || b == 0x2B || b == 0x2D || b == 0x2E || b == 0x2F,
            BarcodeSystem::Codabar => digit || (0x41 <= b && b <= 0x44) || b == 0x24 || b == 0x2B
                || b == 0x2D || b == 0x2E || b == 0x2F || b == 0x3A,
            BarcodeSystem::Code93 | BarcodeSystem::Code128 => b <= 127,
        }
    }
}

/// The text that a lossy UTF-8 decoding makes of `bytes`.
pub uninterp spec fn lossy_text(bytes: Seq<u8>) -> Seq<char>;

/// Relies on `String::from_utf8_lossy`: decodes bytes as UTF-8, with each
/// invalid sequence replaced by U+FFFD; the text depends on the bytes alone.
#[verifier::external_body]
fn lossy_string(bytes: &[u8]) -> (r: String)
    ensures
        r@ == lossy_text(bytes@),
{
    String::from_utf8_lossy(bytes).into_owned()
}

/// Index `i` holds the first byte of `data` that `system` cannot encode.
pub open spec fn first_rejected(system: BarcodeSystem, data: Seq<u8>, i: int) -> bool {
    0 <= i < data.len() && !system.accepts(data[i]) && forall|j: int| 0 <= j < i ==> system.accepts(#[trigger] data[j])
}

/// Whether `system` can encode `data`: its length is within bounds, even
/// for ITF, and every byte is accepted.
pub open spec fn barcode_valid(system: BarcodeSystem, data: Seq<u8>) -> bool {
    &&& system.min_len() <= data.len() <= system.max_len()
    &&& !(system == BarcodeSystem::Itf && data.len() % 2 == 1)
    &&& forall|i: int| 0 <= i < data.len() ==> system.accepts(#[trigger] data[i])
}

/// The error that validating `data` for `system` reports, if any: the
/// length first, then the ITF parity, then the first rejected byte.
pub open spec fn barcode_error_matches(system: BarcodeSystem, data: Seq<u8>, e: BarcodeError) -> bool {
    if data.len() < system.min_len() || data.len() > system.max_len() {
        match e {
            BarcodeError::InvalidLength { system: name, actual, min, max } => name@ == system.label()
                && actual == data.len() && min == system.min_len() && max == system.max_len(),
            _ => false,
        }
    } else if system == BarcodeSystem::Itf && data.len() % 2 == 1 {
        e == BarcodeError::ItfRequiresEvenLength(data.len() as usize)
    } else {
        match e {
            BarcodeError::InvalidCharacter { data: text, span, system: name } => name@ == system.label()
                && text@ == lossy_text(data) && span.length == 1 && first_rejected(
                system,
                data,
                span.offset as int,
            ),
            _ => false,
        }
    }
}

/// Print a barcode.
///
/// ESC/POS: `GS k m n d1...dn` (0x1D 0x6B m n d1...dn)
///
/// **Note:** Barcode configuration commands (height, width, HRI) must be
/// sent BEFORE this command.
#[derive(Debug, Clone, PartialEq, Eq)]
pub struct PrintBarcode {
    /// Barcode symbology.
    pub system: BarcodeSystem,
    /// Barcode data.
    pub data: Vec<u8>,
}

impl PrintBarcode {
    /// Create a new barcode with validation.
    ///
    /// Returns a [`BarcodeError`] if the data is invalid for the barcode
    /// system.
    pub fn new(system: BarcodeSystem, data: Vec<u8>) -> (r: Result<Self, BarcodeError>)
        ensures
            barcode_valid(system, data@) <==> r is Ok,
            r is Ok ==> r->Ok_0.system == system && r->Ok_0.data@ == data@,
            r is Err ==> barcode_error_matches(system, data@, r->Err_0),
    {
        match Self::validate(system, &data) {
            Ok(()) => Ok(Self { system, data }),
            Err(e) => Err(e),
        }
    }

    fn validate(system: BarcodeSystem, data: &Vec<u8>) -> (r: Result<(), BarcodeError>)
        ensures
            barcode_valid(system, data@) <==> r is Ok,
            r is Err ==> barcode_error_matches(system, data@, r->Err_0),
    {
        let (min_len, max_len) = system.length_bounds();
        let name = system.name();
        if data.len() < min_len || data.len() > max_len {
            return Err(
                BarcodeError::InvalidLength { system: name, actual: data.len(), min: min_len, max: max_len },
            );
        }
        if matches!(system, BarcodeSystem::Itf) && data.len() % 2 == 1 {
            return Err(BarcodeError::ItfRequiresEvenLength(data.len()));
        }
        let mut i: usize = 0;
        while i < data.len()
            invariant
                i <= data@.len(),
                system.min_len() <= data@.len() <= system.max_len(),
                !(system == BarcodeSystem::Itf && data@.len() % 2 == 1),
                name@ == system.label(),
                forall|j: int| 0 <= j < i ==> system.accepts(#[trigger] data@[j]),
            decreases data@.len() - i,
        {
            if !system.accepts_byte(data[i]) {
                let text = lossy_string(data.as_slice());
                return Err(
                    BarcodeError::InvalidCharacter { data: text, span: Span { offset: i, length: 1 }, system: name },
                );
            }
            i = i + 1;
        }
        Ok(())
    }
}

impl Command for PrintBarcode {
    /// The data length byte is the length modulo 256; the constructor keeps
    /// it within 255.
    open spec fn encoding(&self) -> Seq<u8> {
        seq![GS, 0x6Bu8, self.system.byte(), (self.data@.len() % 256) as u8] + self.data@
    }

    fn encode(&self) -> (r: Vec<u8>) {
        let n = (self.data.len() % 256) as u8;
        let mut bytes = vec![GS, 0x6B, self.system.as_byte(), n];
        bytes.extend_from_slice(self.data.as_slice());
        assert(bytes@ =~= self.encoding());
        bytes
    }
}

} // verus!
