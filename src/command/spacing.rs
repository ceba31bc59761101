//! Spacing and positioning commands.
use vstd::prelude::*;

use super::{hi_byte, le_bytes, lo_byte, Command, ESC, GS};

verus! {

/// Select the default line spacing (about 4.23 mm).
///
/// ESC/POS: `ESC 2` (0x1B 0x32)
#[derive(Debug, Clone, Copy, PartialEq, Eq, Default)]
pub struct SetDefaultLineSpacing;

impl Command for SetDefaultLineSpacing {
    open spec fn encoding(&self) -> Seq<u8> {
        seq![ESC, 0x32u8]
    }

    fn encode(&self) -> (r: Vec<u8>) {
        vec![ESC, 0x32]
    }
}

/// Set line spacing in motion units.
///
/// ESC/POS: `ESC 3 n` (0x1B 0x33 n)
#[derive(Debug, Clone, Copy, PartialEq, Eq)]
pub struct SetLineSpacing(pub u8);

impl Command for SetLineSpacing {
    open spec fn encoding(&self) -> Seq<u8> {
        seq![ESC, 0x33u8, self.0]
    }

    fn encode(&self) -> (r: Vec<u8>) {
        vec![ESC, 0x33, self.0]
    }
}

/// Set right-side character spacing.
///
/// ESC/POS: `ESC SP n` (0x1B 0x20 n)
#[derive(Debug, Clone, Copy, PartialEq, Eq)]
pub struct SetRightSpacing(pub u8);

impl Command for SetRightSpacing {
    open spec fn encoding(&self) -> Seq<u8> {
        seq![ESC, 0x20u8, self.0]
    }

    fn encode(&self) -> (r: Vec<u8>) {
        vec![ESC, 0x20, self.0]
    }
}

/// Set horizontal tab positions, in columns, ascending.
///
/// ESC/POS: `ESC D n1 ... nk NUL` (0x1B 0x44 ... 0x00)
#[derive(Debug, Clone, PartialEq, Eq)]
pub struct SetHorizontalTabs {
    /// Tab positions (column numbers).
    pub positions: Vec<u8>,
}

impl SetHorizontalTabs {
    /// Clear all tab positions.
    pub fn clear() -> (r: Self)
        ensures
            r.positions@.len() == 0,
    {
        Self { positions: Vec::new() }
    }
}

impl Command for SetHorizontalTabs {
    open spec fn encoding(&self) -> Seq<u8> {
        seq![ESC, 0x44u8] + self.positions@ + seq![0u8]
    }

    fn encode(&self) -> (r: Vec<u8>) {
        let mut bytes = vec![ESC, 0x44];
        bytes.extend_from_slice(self.positions.as_slice());
        bytes.push(0x00);
        assert(bytes@ =~= self.encoding());
        bytes
    }
}

/// Set the absolute print position from the start of the line.
///
/// ESC/POS: `ESC $ nL nH` (0x1B 0x24 nL nH)
#[derive(Debug, Clone, Copy, PartialEq, Eq)]
pub struct SetAbsolutePosition(pub u16);

impl Command for SetAbsolutePosition {
    open spec fn encoding(&self) -> Seq<u8> {
        seq![ESC, 0x24u8, lo_byte(self.0), hi_byte(self.0)]
    }

    fn encode(&self) -> (r: Vec<u8>) {
        let (nl, nh) = le_bytes(self.0);
        vec![ESC, 0x24, nl, nh]
    }
}

/// The 16-bit two's-complement form of a signed offset.
pub open spec fn twos_complement(v: i16) -> u16 {
    if v < 0 {
        (v + 65536) as u16
    } else {
        v as u16
    }
}

/// Set the print position relative to the current one.
///
/// Negative values move left. The offset is sent in two's complement.
///
/// ESC/POS: `ESC \ nL nH` (0x1B 0x5C nL nH)
#[derive(Debug, Clone, Copy, PartialEq, Eq)]
pub struct SetRelativePosition(pub i16);

impl Command for SetRelativePosition {
    open spec fn encoding(&self) -> Seq<u8> {
        let v = twos_complement(self.0);
        seq![ESC, 0x5Cu8, lo_byte(v), hi_byte(v)]
    }

    fn encode(&self) -> (r: Vec<u8>) {
        let value: u16 = if self.0 < 0 {
            (self.0 as i32 + 65536) as u16
        } else {
            self.0 as u16
        };
        let (nl, nh) = le_bytes(value);
        vec![ESC, 0x5C, nl, nh]
    }
}

/// Set the left margin in motion units.
///
/// ESC/POS: `GS L nL nH` (0x1D 0x4C nL nH)
#[derive(Debug, Clone, Copy, PartialEq, Eq, Default)]
pub struct SetLeftMargin(pub u16);

impl Command for SetLeftMargin {
    open spec fn encoding(&self) -> Seq<u8> {
        seq![GS, 0x4Cu8, lo_byte(self.0), hi_byte(self.0)]
    }

    fn encode(&self) -> (r: Vec<u8>) {
        let (nl, nh) = le_bytes(self.0);
        vec![GS, 0x4C, nl, nh]
    }
}

/// Set the printing area width in motion units.
///
/// ESC/POS: `GS W nL nH` (0x1D 0x57 nL nH)
#[derive(Debug, Clone, Copy, PartialEq, Eq)]
pub struct SetPrintingWidth(pub u16);

impl Command for SetPrintingWidth {
    open spec fn encoding(&self) -> Seq<u8> {
        seq![GS, 0x57u8, lo_byte(self.0), hi_byte(self.0)]
    }

    fn encode(&self) -> (r: Vec<u8>) {
        let (nl, nh) = le_bytes(self.0);
        vec![GS, 0x57, nl, nh]
    }
}

} // verus!
