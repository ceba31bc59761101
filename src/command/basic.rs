//! Basic single-byte control commands.
use vstd::prelude::*;

use super::{Command, FF, HT, LF};

verus! {

/// Print the buffer and feed one line.
///
/// ESC/POS: `LF` (0x0A)
#[derive(Debug, Clone, Copy, PartialEq, Eq, Default)]
pub struct LineFeed;

impl Command for LineFeed {
    open spec fn encoding(&self) -> Seq<u8> {
        seq![LF]
    }

    fn encode(&self) -> (r: Vec<u8>) {
        vec![LF]
    }
}

/// Print and eject the page in page mode.
///
/// ESC/POS: `FF` (0x0C)
#[derive(Debug, Clone, Copy, PartialEq, Eq, Default)]
pub struct FormFeed;

impl Command for FormFeed {
    open spec fn encoding(&self) -> Seq<u8> {
        seq![FF]
    }

    fn encode(&self) -> (r: Vec<u8>) {
        vec![FF]
    }
}

/// Move to the next horizontal tab position.
///
/// ESC/POS: `HT` (0x09)
#[derive(Debug, Clone, Copy, PartialEq, Eq, Default)]
pub struct HorizontalTab;

impl Command for HorizontalTab {
    open spec fn encoding(&self) -> Seq<u8> {
        seq![HT]
    }

    fn encode(&self) -> (r: Vec<u8>) {
        vec![HT]
    }
}

} // verus!
