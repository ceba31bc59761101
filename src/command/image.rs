//! Image commands.
use vstd::prelude::*;

use super::{hi_byte, le_bytes, lo_byte, Command, ESC, GS};

verus! {

/// Bit image density mode.
#[derive(Debug, Clone, Copy, PartialEq, Eq, Structural, Default)]
pub enum BitImageMode {
    /// 8-dot single density.
    SingleDensity8,
    /// 8-dot double density.
    DoubleDensity8,
    /// 24-dot single density.
    SingleDensity24,
    /// 24-dot double density (default).
    #[default]
    DoubleDensity24,
}

impl BitImageMode {
    /// The command parameter byte of this mode.
    pub open spec fn byte(self) -> u8 {
        match self {
            BitImageMode::SingleDensity8 => 0,
            BitImageMode::DoubleDensity8 => 1,
            BitImageMode::SingleDensity24 => 32,
            BitImageMode::DoubleDensity24 => 33,
        }
    }

    /// The command parameter byte of this mode.
    pub fn as_byte(self) -> (r: u8)
        ensures
            r == self.byte(),
    {
        match self {
            BitImageMode::SingleDensity8 => 0,
            BitImageMode::DoubleDensity8 => 1,
            BitImageMode::SingleDensity24 => 32,
            BitImageMode::DoubleDensity24 => 33,
        }
    }
}

/// Print a bit image.
///
/// ESC/POS: `ESC * m nL nH d1...dk`
#[derive(Debug, Clone, PartialEq, Eq)]
pub struct SelectBitImageMode {
    /// Density mode.
    pub mode: BitImageMode,
    /// Width in dots.
    pub width: u16,
    /// Image data.
    pub data: Vec<u8>,
}

impl Command for SelectBitImageMode {
    open spec fn encoding(&self) -> Seq<u8> {
        seq![ESC, 0x2Au8, self.mode.byte(), lo_byte(self.width), hi_byte(self.width)] + self.data@
    }

    fn encode(&self) -> (r: Vec<u8>) {
        let (nl, nh) = le_bytes(self.width);
        let mut bytes = vec![ESC, 0x2A, self.mode.as_byte(), nl, nh];
        bytes.extend_from_slice(self.data.as_slice());
        assert(bytes@ =~= self.encoding());
        bytes
    }
}

/// Raster image scaling mode.
#[derive(Debug, Clone, Copy, PartialEq, Eq, Structural, Default)]
pub enum RasterImageMode {
    /// Normal size (default).
    #[default]
    Normal,
    /// Double width.
    DoubleWidth,
    /// Double height.
    DoubleHeight,
    /// Double width and height.
    Quadruple,
}

impl RasterImageMode {
    /// The command parameter byte of this mode.
    pub open spec fn byte(self) -> u8 {
        match self {
            RasterImageMode::Normal => 0,
            RasterImageMode::DoubleWidth => 1,
            RasterImageMode::DoubleHeight => 2,
            RasterImageMode::Quadruple => 3,
        }
    }

    /// The command parameter byte of this mode.
    pub fn as_byte(self) -> (r: u8)
        ensures
            r == self.byte(),
    {
        match self {
            RasterImageMode::Normal => 0,
            RasterImageMode::DoubleWidth => 1,
            RasterImageMode::DoubleHeight => 2,
            RasterImageMode::Quadruple => 3,
        }
    }
}

/// Print a raster bit image.
///
/// ESC/POS: `GS v 0 m xL xH yL yH d1...dk`
#[derive(Debug, Clone, PartialEq, Eq)]
pub struct PrintRasterImage {
    /// Scaling mode.
    pub mode: RasterImageMode,
    /// Width in bytes (8 dots per byte).
    pub width_bytes: u16,
    /// Height in dots.
    pub height_dots: u16,
    /// Image data, row by row.
    pub data: Vec<u8>,
}

impl PrintRasterImage {
    /// Create a raster image at normal size.
    pub fn new(width_bytes: u16, height_dots: u16, data: Vec<u8>) -> (r: Self)
        ensures
            r.mode == RasterImageMode::Normal,
            r.width_bytes == width_bytes,
            r.height_dots == height_dots,
            r.data@ == data@,
    {
        Self { mode: RasterImageMode::Normal, width_bytes, height_dots, data }
    }

    /// Set the scaling mode.
    pub fn with_mode(self, mode: RasterImageMode) -> (r: Self)
        ensures
            r.mode == mode,
            r.width_bytes == self.width_bytes,
            r.height_dots == self.height_dots,
            r.data@ == self.data@,
    {
        PrintRasterImage { mode, ..self }
    }
}

impl Command for PrintRasterImage {
    open spec fn encoding(&self) -> Seq<u8> {
        seq![
            GS,
            0x76u8,
            0x30u8,
            self.mode.byte(),
            lo_byte(self.width_bytes),
            hi_byte(self.width_bytes),
            lo_byte(self.height_dots),
            hi_byte(self.height_dots),
        ] + self.data@
    }

    fn encode(&self) -> (r: Vec<u8>) {
        let (wl, wh) = le_bytes(self.width_bytes);
        let (hl, hh) = le_bytes(self.height_dots);
        let mut bytes = vec![GS, 0x76, 0x30, self.mode.as_byte(), wl, wh, hl, hh];
        bytes.extend_from_slice(self.data.as_slice());
        assert(bytes@ =~= self.encoding());
        bytes
    }
}

/// Define a downloaded bit image.
///
/// ESC/POS: `GS * x y d1...dk`
#[derive(Debug, Clone, PartialEq, Eq)]
pub struct DefineDownloadedImage {
    /// Width in bytes (8 dots per byte).
    pub width_bytes: u8,
    /// Height in bytes (8 dots per byte).
    pub height_bytes: u8,
    /// Image data.
    pub data: Vec<u8>,
}

impl Command for DefineDownloadedImage {
    open spec fn encoding(&self) -> Seq<u8> {
        seq![GS, 0x2Au8, self.width_bytes, self.height_bytes] + self.data@
    }

    fn encode(&self) -> (r: Vec<u8>) {
        let mut bytes = vec![GS, 0x2A, self.width_bytes, self.height_bytes];
        bytes.extend_from_slice(self.data.as_slice());
        assert(bytes@ =~= self.encoding());
        bytes
    }
}

/// Downloaded image scaling mode.
#[derive(Debug, Clone, Copy, PartialEq, Eq, Structural, Default)]
pub enum DownloadedImageMode {
    /// Normal size (default).
    #[default]
    Normal,
    /// Double width.
    DoubleWidth,
    /// Double height.
    DoubleHeight,
    /// Double width and height.
    Quadruple,
}

impl DownloadedImageMode {
    /// The command parameter byte of this mode.
    pub open spec fn byte(self) -> u8 {
        match self {
            DownloadedImageMode::Normal => 0,
            DownloadedImageMode::DoubleWidth => 1,
            DownloadedImageMode::DoubleHeight => 2,
            DownloadedImageMode::Quadruple => 3,
        }
    }

    /// The command parameter byte of this mode.
    pub fn as_byte(self) -> (r: u8)
        ensures
            r == self.byte(),
    {
        match self {
            DownloadedImageMode::Normal => 0,
            DownloadedImageMode::DoubleWidth => 1,
            DownloadedImageMode::DoubleHeight => 2,
            DownloadedImageMode::Quadruple => 3,
        }
    }
}

/// Print the downloaded bit image.
///
/// ESC/POS: `GS / m` (0x1D 0x2F m)
#[derive(Debug, Clone, Copy, PartialEq, Eq, Default)]
pub struct PrintDownloadedImage(pub DownloadedImageMode);

impl Command for PrintDownloadedImage {
    open spec fn encoding(&self) -> Seq<u8> {
        seq![GS, 0x2Fu8, self.0.byte()]
    }

    fn encode(&self) -> (r: Vec<u8>) {
        vec![GS, 0x2F, self.0.as_byte()]
    }
}

} // verus!
