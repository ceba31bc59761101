//! Status and query commands.
//!
//! These commands query printer state and require reading a response.
use vstd::prelude::*;

use super::{Command, QueryCommand, DLE, GS};
use crate::error::StatusParseError;

verus! {

/// Status type for real-time status transmission.
#[derive(Debug, Clone, Copy, PartialEq, Eq, Structural)]
pub enum StatusType {
    /// Printer status.
    Printer,
    /// Offline cause status.
    Offline,
    /// Error cause status.
    Error,
    /// Paper roll sensor status.
    PaperRoll,
}

impl StatusType {
    /// The command parameter byte of this status type.
    pub open spec fn byte(self) -> u8 {
        match self {
            StatusType::Printer => 1,
            StatusType::Offline => 2,
            StatusType::Error => 3,
            StatusType::PaperRoll => 4,
        }
    }

    /// The command parameter byte of this status type.
    pub fn as_byte(self) -> (r: u8)
        ensures
            r == self.byte(),
    {
        match self {
            StatusType::Printer => 1,
            StatusType::Offline => 2,
            StatusType::Error => 3,
            StatusType::PaperRoll => 4,
        }
    }
}

/// Transmit real-time status.
///
/// ESC/POS: `DLE EOT n` (0x10 0x04 n)
#[derive(Debug, Clone, Copy, PartialEq, Eq, Structural)]
pub struct TransmitStatus(pub StatusType);

impl Command for TransmitStatus {
    open spec fn encoding(&self) -> Seq<u8> {
        seq![DLE, 0x04u8, self.0.byte()]
    }

    fn encode(&self) -> (r: Vec<u8>) {
        vec![DLE, 0x04, self.0.as_byte()]
    }
}

/// Printer status (status type 1).
#[derive(Debug, Clone, Copy, PartialEq, Eq, Structural)]
pub struct PrinterStatus {
    /// Cash drawer kick-out connector pin 3 is high.
    pub drawer_open: bool,
    /// Printer is online.
    pub online: bool,
    /// Paper feed button is pressed.
    pub feed_button_pressed: bool,
    /// Paper is present.
    pub paper_present: bool,
}

impl PrinterStatus {
    /// Parse a printer status byte.
    pub fn parse(byte: u8) -> (r: Self)
        ensures
            r == (PrinterStatus {
                drawer_open: byte & 0x04 != 0,
                online: byte & 0x08 == 0,
                feed_button_pressed: byte & 0x20 != 0,
                paper_present: byte & 0x60 != 0x60,
            }),
    {
        Self {
            drawer_open: byte & 0x04 != 0,
            online: byte & 0x08 == 0,
            feed_button_pressed: byte & 0x20 != 0,
            paper_present: byte & 0x60 != 0x60,
        }
    }
}

/// Offline cause status (status type 2).
#[derive(Debug, Clone, Copy, PartialEq, Eq, Structural)]
pub struct OfflineStatus {
    /// Cover is open.
    pub cover_open: bool,
    /// Paper is being fed by the feed button.
    pub paper_feeding: bool,
    /// A recoverable error occurred.
    pub recoverable_error: bool,
    /// An auto-cutter error occurred.
    pub cutter_error: bool,
}

impl OfflineStatus {
    /// Parse an offline cause status byte.
    pub fn parse(byte: u8) -> (r: Self)
        ensures
            r == (OfflineStatus {
                cover_open: byte & 0x04 != 0,
                paper_feeding: byte & 0x08 != 0,
                recoverable_error: byte & 0x20 != 0,
                cutter_error: byte & 0x40 != 0,
            }),
    {
        Self {
            cover_open: byte & 0x04 != 0,
            paper_feeding: byte & 0x08 != 0,
            recoverable_error: byte & 0x20 != 0,
            cutter_error: byte & 0x40 != 0,
        }
    }
}

/// Error cause status (status type 3).
#[derive(Debug, Clone, Copy, PartialEq, Eq, Structural)]
pub struct ErrorStatus {
    /// A recoverable error occurred.
    pub recoverable_error: bool,
    /// An auto-cutter error occurred.
    pub cutter_error: bool,
    /// An unrecoverable error occurred.
    pub unrecoverable_error: bool,
}

impl ErrorStatus {
    /// Parse an error cause status byte.
    pub fn parse(byte: u8) -> (r: Self)
        ensures
            r == (ErrorStatus {
                recoverable_error: byte & 0x04 != 0,
                cutter_error: byte & 0x08 != 0,
                unrecoverable_error: byte & 0x20 != 0,
            }),
    {
        Self {
            recoverable_error: byte & 0x04 != 0,
            cutter_error: byte & 0x08 != 0,
            unrecoverable_error: byte & 0x20 != 0,
        }
    }
}

/// Paper roll sensor status (status type 4).
#[derive(Debug, Clone, Copy, PartialEq, Eq, Structural)]
pub struct PaperRollStatus {
    /// Paper roll near-end sensor: paper near end.
    pub paper_near_end: bool,
    /// Paper roll end sensor: paper end.
    pub paper_end: bool,
}

impl PaperRollStatus {
    /// Parse a paper roll sensor status byte.
    pub fn parse(byte: u8) -> (r: Self)
        ensures
            r == (PaperRollStatus {
                paper_near_end: byte & 0x0C != 0,
                paper_end: byte & 0x60 != 0,
            }),
    {
        Self { paper_near_end: byte & 0x0C != 0, paper_end: byte & 0x60 != 0 }
    }
}

/// Parsed status response.
#[derive(Debug, Clone, Copy, PartialEq, Eq, Structural)]
pub enum StatusResponse {
    /// Printer status.
    Printer(PrinterStatus),
    /// Offline cause status.
    Offline(OfflineStatus),
    /// Error cause status.
    Error(ErrorStatus),
    /// Paper roll sensor status.
    PaperRoll(PaperRollStatus),
}

impl TransmitStatus {
    /// The response of this query to a first status byte.
    pub open spec fn response_to(self, byte: u8) -> StatusResponse {
        match self.0 {
            StatusType::Printer => StatusResponse::Printer(PrinterStatus {
                drawer_open: byte & 0x04 != 0,
                online: byte & 0x08 == 0,
                feed_button_pressed: byte & 0x20 != 0,
                paper_present: byte & 0x60 != 0x60,
            }),
            StatusType::Offline => StatusResponse::Offline(OfflineStatus {
                cover_open: byte & 0x04 != 0,
                paper_feeding: byte & 0x08 != 0,
                recoverable_error: byte & 0x20 != 0,
                cutter_error: byte & 0x40 != 0,
            }),
            StatusType::Error => StatusResponse::Error(ErrorStatus {
                recoverable_error: byte & 0x04 != 0,
                cutter_error: byte & 0x08 != 0,
                unrecoverable_error: byte & 0x20 != 0,
            }),
            StatusType::PaperRoll => StatusResponse::PaperRoll(PaperRollStatus {
                paper_near_end: byte & 0x0C != 0,
                paper_end: byte & 0x60 != 0,
            }),
        }
    }
}

impl QueryCommand for TransmitStatus {
    type Response = StatusResponse;

    /// Parses the first byte of the response; an empty response is an
    /// error.
    fn parse_response(&self, bytes: &[u8]) -> (r: Result<StatusResponse, StatusParseError>)
        ensures
            bytes@.len() == 0 ==> r == Err::<StatusResponse, StatusParseError>(StatusParseError::EmptyResponse),
            bytes@.len() > 0 ==> r == Ok::<StatusResponse, StatusParseError>(self.response_to(bytes@[0])),
    {
        if bytes.len() == 0 {
            return Err(StatusParseError::EmptyResponse);
        }
        let byte = bytes[0];
        Ok(
            match self.0 {
                StatusType::Printer => StatusResponse::Printer(PrinterStatus::parse(byte)),
                StatusType::Offline => StatusResponse::Offline(OfflineStatus::parse(byte)),
                StatusType::Error => StatusResponse::Error(ErrorStatus::parse(byte)),
                StatusType::PaperRoll => StatusResponse::PaperRoll(PaperRollStatus::parse(byte)),
            },
        )
    }
}

/// Automatic Status Back (ASB) flags.
#[derive(Debug, Clone, Copy, PartialEq, Eq, Structural, Default)]
pub struct AsbFlags {
    /// Report drawer kick-out connector changes.
    pub drawer: bool,
    /// Report online/offline changes.
    pub online_offline: bool,
    /// Report error changes.
    pub error: bool,
    /// Report paper roll sensor changes.
    pub paper_roll: bool,
}

impl AsbFlags {
    /// Every status change reported.
    pub fn all() -> (r: Self)
        ensures
            r == (AsbFlags { drawer: true, online_offline: true, error: true, paper_roll: true }),
    {
        Self { drawer: true, online_offline: true, error: true, paper_roll: true }
    }

    /// No status change reported.
    pub fn none() -> (r: Self)
        ensures
            r == (AsbFlags { drawer: false, online_offline: false, error: false, paper_roll: false }),
    {
        Self { drawer: false, online_offline: false, error: false, paper_roll: false }
    }

    /// The flag byte: bit 0 drawer, bit 1 online/offline, bit 2 error,
    /// bit 3 paper roll.
    pub open spec fn byte(self) -> u8 {
        ((if self.drawer { 1u8 } else { 0u8 }) + (if self.online_offline { 2u8 } else { 0u8 }) + (
        if self.error { 4u8 } else { 0u8 }) + (if self.paper_roll { 8u8 } else { 0u8 })) as u8
    }

    /// The flag byte: bit 0 drawer, bit 1 online/offline, bit 2 error,
    /// bit 3 paper roll.
    pub fn to_byte(self) -> (r: u8)
        ensures
            r == self.byte(),
    {
        let mut n: u8 = 0;
        if self.drawer {
            n = n + 1;
        }
        if self.online_offline {
            n = n + 2;
        }
        if self.error {
            n = n + 4;
        }
        if self.paper_roll {
            n = n + 8;
        }
        n
    }
}

/// Enable or disable Automatic Status Back.
///
/// ESC/POS: `GS a n` (0x1D 0x61 n)
#[derive(Debug, Clone, Copy, PartialEq, Eq, Default)]
pub struct EnableAsb(pub AsbFlags);

impl Command for EnableAsb {
    open spec fn encoding(&self) -> Seq<u8> {
        seq![GS, 0x61u8, self.0.byte()]
    }

    fn encode(&self) -> (r: Vec<u8>) {
        vec![GS, 0x61, self.0.to_byte()]
    }
}

} // verus!
