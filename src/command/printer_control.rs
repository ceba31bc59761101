//! Printer control commands.
use vstd::prelude::*;

use super::{Command, ESC};

verus! {

/// Initialize the printer: clear the buffer and reset every mode to its
/// power-on value.
///
/// ESC/POS: `ESC @` (0x1B 0x40)
#[derive(Debug, Clone, Copy, PartialEq, Eq, Default)]
pub struct Initialize;

impl Command for Initialize {
    open spec fn encoding(&self) -> Seq<u8> {
        seq![ESC, 0x40u8]
    }

    fn encode(&self) -> (r: Vec<u8>) {
        vec![ESC, 0x40]
    }
}

} // verus!
