//! Page mode commands.
//!
//! Page mode buffers all output and prints when FormFeed is sent.
use vstd::prelude::*;

use super::{hi_byte, le_bytes, lo_byte, Command, ESC, GS};

verus! {

/// Enter page mode.
///
/// ESC/POS: `ESC L` (0x1B 0x4C)
#[derive(Debug, Clone, Copy, PartialEq, Eq, Default)]
pub struct EnterPageMode;

impl Command for EnterPageMode {
    open spec fn encoding(&self) -> Seq<u8> {
        seq![ESC, 0x4Cu8]
    }

    fn encode(&self) -> (r: Vec<u8>) {
        vec![ESC, 0x4C]
    }
}

/// Return to standard mode, discarding the page buffer.
///
/// ESC/POS: `ESC S` (0x1B 0x53)
#[derive(Debug, Clone, Copy, PartialEq, Eq, Default)]
pub struct ExitPageMode;

impl Command for ExitPageMode {
    open spec fn encoding(&self) -> Seq<u8> {
        seq![ESC, 0x53u8]
    }

    fn encode(&self) -> (r: Vec<u8>) {
        vec![ESC, 0x53]
    }
}

/// Print direction in page mode.
#[derive(Debug, Clone, Copy, PartialEq, Eq, Structural, Default)]
pub enum PrintDirection {
    /// Left to right, starting upper left (default).
    #[default]
    LeftToRight,
    /// Bottom to top, starting lower left.
    BottomToTop,
    /// Right to left, starting lower right.
    RightToLeft,
    /// Top to bottom, starting upper right.
    TopToBottom,
}

impl PrintDirection {
    /// The command parameter byte of this direction.
    pub open spec fn byte(self) -> u8 {
        match self {
            PrintDirection::LeftToRight => 0,
            PrintDirection::BottomToTop => 1,
            PrintDirection::RightToLeft => 2,
            PrintDirection::TopToBottom => 3,
        }
    }

    /// The command parameter byte of this direction.
    pub fn as_byte(self) -> (r: u8)
        ensures
            r == self.byte(),
    {
        match self {
            PrintDirection::LeftToRight => 0,
            PrintDirection::BottomToTop => 1,
            PrintDirection::RightToLeft => 2,
            PrintDirection::TopToBottom => 3,
        }
    }
}

/// Select print direction in page mode.
///
/// ESC/POS: `ESC T n` (0x1B 0x54 n)
#[derive(Debug, Clone, Copy, PartialEq, Eq, Default)]
pub struct SetPrintDirection(pub PrintDirection);

impl Command for SetPrintDirection {
    open spec fn encoding(&self) -> Seq<u8> {
        seq![ESC, 0x54u8, self.0.byte()]
    }

    fn encode(&self) -> (r: Vec<u8>) {
        vec![ESC, 0x54, self.0.as_byte()]
    }
}

/// Print area in page mode, in dots.
#[derive(Debug, Clone, Copy, PartialEq, Eq, Structural)]
pub struct PrintArea {
    /// Horizontal origin.
    pub x: u16,
    /// Vertical origin.
    pub y: u16,
    /// Width.
    pub width: u16,
    /// Height.
    pub height: u16,
}

impl PrintArea {
    /// The full printable area of 80 mm paper.
    pub fn default_80mm() -> (r: Self)
        ensures
            r == (PrintArea { x: 0, y: 0, width: 512, height: 1662 }),
    {
        Self { x: 0, y: 0, width: 512, height: 1662 }
    }

    /// The full printable area of 58 mm paper.
    pub fn default_58mm() -> (r: Self)
        ensures
            r == (PrintArea { x: 0, y: 0, width: 360, height: 1662 }),
    {
        Self { x: 0, y: 0, width: 360, height: 1662 }
    }
}

/// Set the print area in page mode.
///
/// ESC/POS: `ESC W xL xH yL yH dxL dxH dyL dyH`
#[derive(Debug, Clone, Copy, PartialEq, Eq)]
pub struct SetPrintArea(pub PrintArea);

impl Command for SetPrintArea {
    open spec fn encoding(&self) -> Seq<u8> {
        let a = self.0;
        seq![
            ESC,
            0x57u8,
            lo_byte(a.x),
            hi_byte(a.x),
            lo_byte(a.y),
            hi_byte(a.y),
            lo_byte(a.width),
            hi_byte(a.width),
            lo_byte(a.height),
            hi_byte(a.height),
        ]
    }

    fn encode(&self) -> (r: Vec<u8>) {
        let area = &self.0;
        let (xl, xh) = le_bytes(area.x);
        let (yl, yh) = le_bytes(area.y);
        let (wl, wh) = le_bytes(area.width);
        let (hl, hh) = le_bytes(area.height);
        vec![ESC, 0x57, xl, xh, yl, yh, wl, wh, hl, hh]
    }
}

/// Set the absolute horizontal print position in page mode.
///
/// ESC/POS: `ESC $ nL nH` (0x1B 0x24 nL nH)
#[derive(Debug, Clone, Copy, PartialEq, Eq)]
pub struct SetHorizontalPosition(pub u16);

impl Command for SetHorizontalPosition {
    open spec fn encoding(&self) -> Seq<u8> {
        seq![ESC, 0x24u8, lo_byte(self.0), hi_byte(self.0)]
    }

    fn encode(&self) -> (r: Vec<u8>) {
        let (nl, nh) = le_bytes(self.0);
        vec![ESC, 0x24, nl, nh]
    }
}

/// Set the absolute vertical print position in page mode.
///
/// ESC/POS: `GS $ nL nH` (0x1D 0x24 nL nH)
#[derive(Debug, Clone, Copy, PartialEq, Eq)]
pub struct SetVerticalPosition(pub u16);

impl Command for SetVerticalPosition {
    open spec fn encoding(&self) -> Seq<u8> {
        seq![GS, 0x24u8, lo_byte(self.0), hi_byte(self.0)]
    }

    fn encode(&self) -> (r: Vec<u8>) {
        let (nl, nh) = le_bytes(self.0);
        vec![GS, 0x24, nl, nh]
    }
}

} // verus!
