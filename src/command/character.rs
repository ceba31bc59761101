//! Character formatting commands.
//!
//! Commands for text styling: emphasis, underline, size, font, rotation, etc.
use vstd::prelude::*;

use super::{flag_byte, flag_to_byte, Command, ESC, GS};

verus! {

/// Turn emphasized (bold) mode on or off.
///
/// When enabled, characters are printed with increased weight.
/// Must be sent BEFORE the text it affects.
///
/// ESC/POS: `ESC E n` (0x1B 0x45 n)
#[derive(Debug, Clone, Copy, PartialEq, Eq, Default)]
pub struct SetEmphasized(pub bool);

impl Command for SetEmphasized {
    open spec fn encoding(&self) -> Seq<u8> {
        seq![ESC, 0x45u8, flag_byte(self.0)]
    }

    fn encode(&self) -> (r: Vec<u8>) {
        vec![ESC, 0x45, flag_to_byte(self.0)]
    }
}

/// Underline thickness options.
#[derive(Debug, Clone, Copy, PartialEq, Eq, Structural, Default)]
pub enum UnderlineThickness {
    /// Underline disabled.
    #[default]
    Off,
    /// 1-dot thick underline.
    OneDot,
    /// 2-dot thick underline.
    TwoDot,
}

impl UnderlineThickness {
    /// The command parameter byte of this thickness.
    pub open spec fn byte(self) -> u8 {
        match self {
            UnderlineThickness::Off => 0,
            UnderlineThickness::OneDot => 1,
            UnderlineThickness::TwoDot => 2,
        }
    }

    /// The command parameter byte of this thickness.
    pub fn as_byte(self) -> (r: u8)
        ensures
            r == self.byte(),
    {
        match self {
            UnderlineThickness::Off => 0,
            UnderlineThickness::OneDot => 1,
            UnderlineThickness::TwoDot => 2,
        }
    }
}

/// Turn underline mode on or off.
///
/// When enabled, characters are printed with an underline.
/// Must be sent BEFORE the text it affects.
///
/// ESC/POS: `ESC - n` (0x1B 0x2D n)
#[derive(Debug, Clone, Copy, PartialEq, Eq, Default)]
pub struct SetUnderline(pub UnderlineThickness);

impl Command for SetUnderline {
    open spec fn encoding(&self) -> Seq<u8> {
        seq![ESC, 0x2Du8, self.0.byte()]
    }

    fn encode(&self) -> (r: Vec<u8>) {
        vec![ESC, 0x2D, self.0.as_byte()]
    }
}

/// Turn double-strike mode on or off.
///
/// When enabled, characters are printed twice for darker output.
/// Must be sent BEFORE the text it affects.
///
/// ESC/POS: `ESC G n` (0x1B 0x47 n)
#[derive(Debug, Clone, Copy, PartialEq, Eq, Default)]
pub struct SetDoubleStrike(pub bool);

impl Command for SetDoubleStrike {
    open spec fn encoding(&self) -> Seq<u8> {
        seq![ESC, 0x47u8, flag_byte(self.0)]
    }

    fn encode(&self) -> (r: Vec<u8>) {
        vec![ESC, 0x47, flag_to_byte(self.0)]
    }
}

/// Character font selection.
#[derive(Debug, Clone, Copy, PartialEq, Eq, Structural, Default)]
pub enum Font {
    /// Font A: 12×24 dots.
    #[default]
    A,
    /// Font B: 9×17 dots.
    B,
}

impl Font {
    /// The command parameter byte of this font.
    pub open spec fn byte(self) -> u8 {
        match self {
            Font::A => 0,
            Font::B => 1,
        }
    }

    /// The command parameter byte of this font.
    pub fn as_byte(self) -> (r: u8)
        ensures
            r == self.byte(),
    {
        match self {
            Font::A => 0,
            Font::B => 1,
        }
    }
}

/// Select character font.
///
/// ESC/POS: `ESC M n` (0x1B 0x4D n)
#[derive(Debug, Clone, Copy, PartialEq, Eq, Default)]
pub struct SelectFont(pub Font);

impl Command for SelectFont {
    open spec fn encoding(&self) -> Seq<u8> {
        seq![ESC, 0x4Du8, self.0.byte()]
    }

    fn encode(&self) -> (r: Vec<u8>) {
        vec![ESC, 0x4D, self.0.as_byte()]
    }
}

/// Scale factor for character width or height.
///
/// Valid values are 1-8x, encoded as 0-7 in the command byte.
#[derive(Debug, Clone, Copy, PartialEq, Eq, Structural, Default)]
pub enum ScaleFactor {
    /// 1x (normal size).
    #[default]
    X1,
    /// 2x (double size).
    X2,
    /// 3x size.
    X3,
    /// 4x size.
    X4,
    /// 5x size.
    X5,
    /// 6x size.
    X6,
    /// 7x size.
    X7,
    /// 8x size (maximum).
    X8,
}

impl ScaleFactor {
    /// The encoded value of this factor: the factor minus one.
    pub open spec fn byte(self) -> u8 {
        match self {
            ScaleFactor::X1 => 0,
            ScaleFactor::X2 => 1,
            ScaleFactor::X3 => 2,
            ScaleFactor::X4 => 3,
            ScaleFactor::X5 => 4,
            ScaleFactor::X6 => 5,
            ScaleFactor::X7 => 6,
            ScaleFactor::X8 => 7,
        }
    }

    /// The encoded value of this factor: the factor minus one.
    pub fn as_byte(self) -> (r: u8)
        ensures
            r == self.byte(),
            r < 8,
    {
        match self {
            ScaleFactor::X1 => 0,
            ScaleFactor::X2 => 1,
            ScaleFactor::X3 => 2,
            ScaleFactor::X4 => 3,
            ScaleFactor::X5 => 4,
            ScaleFactor::X6 => 5,
            ScaleFactor::X7 => 6,
            ScaleFactor::X8 => 7,
        }
    }
}

/// Character size with independent width and height scaling.
#[derive(Debug, Clone, Copy, PartialEq, Eq, Structural, Default)]
pub struct CharacterSize {
    /// Horizontal scaling factor.
    pub width: ScaleFactor,
    /// Vertical scaling factor.
    pub height: ScaleFactor,
}

impl CharacterSize {
    /// Create with specified scale factors.
    pub fn new(width: ScaleFactor, height: ScaleFactor) -> (r: Self)
        ensures
            r == (CharacterSize { width, height }),
    {
        Self { width, height }
    }

    /// Standard size (1×1).
    pub fn standard() -> (r: Self)
        ensures
            r == (CharacterSize { width: ScaleFactor::X1, height: ScaleFactor::X1 }),
    {
        Self { width: ScaleFactor::X1, height: ScaleFactor::X1 }
    }

    /// Double width and height (2×2).
    pub fn double() -> (r: Self)
        ensures
            r == (CharacterSize { width: ScaleFactor::X2, height: ScaleFactor::X2 }),
    {
        Self { width: ScaleFactor::X2, height: ScaleFactor::X2 }
    }

    /// Double width only (2×1).
    pub fn double_width() -> (r: Self)
        ensures
            r == (CharacterSize { width: ScaleFactor::X2, height: ScaleFactor::X1 }),
    {
        Self { width: ScaleFactor::X2, height: ScaleFactor::X1 }
    }

    /// Double height only (1×2).
    pub fn double_height() -> (r: Self)
        ensures
            r == (CharacterSize { width: ScaleFactor::X1, height: ScaleFactor::X2 }),
    {
        Self { width: ScaleFactor::X1, height: ScaleFactor::X2 }
    }

    /// The size parameter byte: the width code in bits 4-6 and the height
    /// code in bits 0-2.
    pub open spec fn byte(self) -> u8 {
        (16 * self.width.byte() + self.height.byte()) as u8
    }
}

/// Set character size with independent width and height scaling.
///
/// Both width and height can be scaled 1-8 times.
/// Must be sent BEFORE the text it affects.
///
/// ESC/POS: `GS ! n` (0x1D 0x21 n)
///
/// The parameter byte encodes both scales:
/// - Bits 0-2: height scale (0=1x, 1=2x, ..., 7=8x)
/// - Bits 4-6: width scale (0=1x, 1=2x, ..., 7=8x)
#[derive(Debug, Clone, Copy, PartialEq, Eq, Default)]
pub struct SetCharacterSize(pub CharacterSize);

impl Command for SetCharacterSize {
    open spec fn encoding(&self) -> Seq<u8> {
        seq![GS, 0x21u8, self.0.byte()]
    }

    fn encode(&self) -> (r: Vec<u8>) {
        let w = self.0.width.as_byte();
        let h = self.0.height.as_byte();
        let n = w * 16 + h;
        vec![GS, 0x21, n]
    }
}

/// Text justification options.
#[derive(Debug, Clone, Copy, PartialEq, Eq, Structural, Default)]
pub enum Justification {
    /// Left justification (default).
    #[default]
    Left,
    /// Center justification.
    Center,
    /// Right justification.
    Right,
}

impl Justification {
    /// The command parameter byte of this justification.
    pub open spec fn byte(self) -> u8 {
        match self {
            Justification::Left => 0,
            Justification::Center => 1,
            Justification::Right => 2,
        }
    }

    /// The command parameter byte of this justification.
    pub fn as_byte(self) -> (r: u8)
        ensures
            r == self.byte(),
    {
        match self {
            Justification::Left => 0,
            Justification::Center => 1,
            Justification::Right => 2,
        }
    }
}

/// Set text justification.
///
/// Affects all following text until changed. Only effective at the
/// beginning of a line.
///
/// ESC/POS: `ESC a n` (0x1B 0x61 n)
#[derive(Debug, Clone, Copy, PartialEq, Eq, Default)]
pub struct SetJustification(pub Justification);

impl Command for SetJustification {
    open spec fn encoding(&self) -> Seq<u8> {
        seq![ESC, 0x61u8, self.0.byte()]
    }

    fn encode(&self) -> (r: Vec<u8>) {
        vec![ESC, 0x61, self.0.as_byte()]
    }
}

/// Turn upside-down printing mode on or off.
///
/// When enabled, characters are rotated 180 degrees.
/// Must be sent BEFORE the text it affects, at the beginning of a line.
///
/// ESC/POS: `ESC { n` (0x1B 0x7B n)
#[derive(Debug, Clone, Copy, PartialEq, Eq, Default)]
pub struct SetUpsideDown(pub bool);

impl Command for SetUpsideDown {
    open spec fn encoding(&self) -> Seq<u8> {
        seq![ESC, 0x7Bu8, flag_byte(self.0)]
    }

    fn encode(&self) -> (r: Vec<u8>) {
        vec![ESC, 0x7B, flag_to_byte(self.0)]
    }
}

/// Rotation mode options.
#[derive(Debug, Clone, Copy, PartialEq, Eq, Structural, Default)]
pub enum RotationMode {
    /// No rotation (default).
    #[default]
    Off,
    /// 90° clockwise rotation.
    Clockwise90,
}

impl RotationMode {
    /// The command parameter byte of this mode.
    pub open spec fn byte(self) -> u8 {
        match self {
            RotationMode::Off => 0,
            RotationMode::Clockwise90 => 1,
        }
    }

    /// The command parameter byte of this mode.
    pub fn as_byte(self) -> (r: u8)
        ensures
            r == self.byte(),
    {
        match self {
            RotationMode::Off => 0,
            RotationMode::Clockwise90 => 1,
        }
    }
}

/// Turn 90° clockwise rotation mode on or off.
///
/// When enabled, characters are rotated 90° clockwise.
/// Must be sent BEFORE the text it affects.
///
/// ESC/POS: `ESC V n` (0x1B 0x56 n)
#[derive(Debug, Clone, Copy, PartialEq, Eq, Default)]
pub struct SetRotation(pub RotationMode);

impl Command for SetRotation {
    open spec fn encoding(&self) -> Seq<u8> {
        seq![ESC, 0x56u8, self.0.byte()]
    }

    fn encode(&self) -> (r: Vec<u8>) {
        vec![ESC, 0x56, self.0.as_byte()]
    }
}

/// Turn white/black reverse printing mode on or off.
///
/// When enabled, characters are printed white on black background.
/// Must be sent BEFORE the text it affects.
///
/// ESC/POS: `GS B n` (0x1D 0x42 n)
#[derive(Debug, Clone, Copy, PartialEq, Eq, Default)]
pub struct SetReverse(pub bool);

impl Command for SetReverse {
    open spec fn encoding(&self) -> Seq<u8> {
        seq![GS, 0x42u8, flag_byte(self.0)]
    }

    fn encode(&self) -> (r: Vec<u8>) {
        vec![GS, 0x42, flag_to_byte(self.0)]
    }
}

/// Turn smoothing mode on or off.
///
/// When enabled, character edges are smoothed when enlarged.
/// Must be sent BEFORE the text it affects.
///
/// ESC/POS: `GS b n` (0x1D 0x62 n)
#[derive(Debug, Clone, Copy, PartialEq, Eq, Default)]
pub struct SetSmoothing(pub bool);

impl Command for SetSmoothing {
    open spec fn encoding(&self) -> Seq<u8> {
        seq![GS, 0x62u8, flag_byte(self.0)]
    }

    fn encode(&self) -> (r: Vec<u8>) {
        vec![GS, 0x62, flag_to_byte(self.0)]
    }
}

} // verus!
