//! Macro definition and execution commands.
//!
//! Macros allow storing a sequence of commands and replaying them.
//! Maximum macro size is 2048 bytes.
use vstd::prelude::*;

use super::{Command, GS};

verus! {

/// Start or end macro definition.
///
/// The first call starts recording, the second call ends it.
///
/// ESC/POS: `GS :` (0x1D 0x3A)
#[derive(Debug, Clone, Copy, PartialEq, Eq, Default)]
pub struct ToggleMacroDefinition;

impl Command for ToggleMacroDefinition {
    open spec fn encoding(&self) -> Seq<u8> {
        seq![GS, 0x3Au8]
    }

    fn encode(&self) -> (r: Vec<u8>) {
        vec![GS, 0x3A]
    }
}

/// Macro execution mode.
#[derive(Debug, Clone, Copy, PartialEq, Eq, Structural, Default)]
pub enum MacroExecutionMode {
    /// Execute continuously.
    #[default]
    Continuous,
    /// Wait for the feed button between executions.
    WaitForButton,
}

impl MacroExecutionMode {
    /// The command parameter byte of this mode.
    pub open spec fn byte(self) -> u8 {
        match self {
            MacroExecutionMode::Continuous => 0,
            MacroExecutionMode::WaitForButton => 1,
        }
    }

    /// The command parameter byte of this mode.
    pub fn as_byte(self) -> (r: u8)
        ensures
            r == self.byte(),
    {
        match self {
            MacroExecutionMode::Continuous => 0,
            MacroExecutionMode::WaitForButton => 1,
        }
    }
}

/// Execute the defined macro.
///
/// ESC/POS: `GS ^ r t m` (0x1D 0x5E r t m)
#[derive(Debug, Clone, Copy, PartialEq, Eq, Structural)]
pub struct ExecuteMacro {
    /// Number of executions (1-255; 0 is sent as 1).
    pub times: u8,
    /// Wait between executions, in units of 100 ms.
    pub wait_100ms: u8,
    /// Execution mode.
    pub mode: MacroExecutionMode,
}

impl ExecuteMacro {
    /// Execute once with no wait.
    pub fn once() -> (r: Self)
        ensures
            r == (ExecuteMacro { times: 1, wait_100ms: 0, mode: MacroExecutionMode::Continuous }),
    {
        Self { times: 1, wait_100ms: 0, mode: MacroExecutionMode::Continuous }
    }

    /// Execute `times` times with a wait between executions.
    pub fn repeat(times: u8, wait_100ms: u8) -> (r: Self)
        ensures
            r == (ExecuteMacro { times, wait_100ms, mode: MacroExecutionMode::Continuous }),
    {
        Self { times, wait_100ms, mode: MacroExecutionMode::Continuous }
    }

    /// Set the execution mode.
    pub fn with_mode(self, mode: MacroExecutionMode) -> (r: Self)
        ensures
            r == (ExecuteMacro { mode, ..self }),
    {
        ExecuteMacro { mode, ..self }
    }
}

impl Default for ExecuteMacro {
    /// Execute once with no wait.
    fn default() -> (r: Self)
        ensures
            r == (ExecuteMacro { times: 1, wait_100ms: 0, mode: MacroExecutionMode::Continuous }),
    {
        Self::once()
    }
}

impl Command for ExecuteMacro {
    open spec fn encoding(&self) -> Seq<u8> {
        seq![GS, 0x5Eu8, if self.times == 0 { 1u8 } else { self.times }, self.wait_100ms, self.mode.byte()]
    }

    fn encode(&self) -> (r: Vec<u8>) {
        let times = if self.times == 0 {
            1
        } else {
            self.times
        };
        vec![GS, 0x5E, times, self.wait_100ms, self.mode.as_byte()]
    }
}

} // verus!
