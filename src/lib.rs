//! Command encoding and styled-text rendering for ESC/POS thermal receipt
//! printers of the Bixolon SRP-350plus family.
//!
//! The library is transport-agnostic: every command encodes to a byte
//! sequence, and a tree of styled text renders to one byte buffer that the
//! caller writes to the device.
//!
//! - `command`: the ESC/POS commands, each with its exact byte encoding.
//! - `style`: attribute sets, the rule that combines nested scopes into one
//!   effective style, and the minimal transition between two styles.
//! - `style::text`: the styled text tree and its renderer.
//! - `error`: the errors that command constructors and parsers report.
use vstd::prelude::*;

pub mod command;
pub mod error;
pub mod style;
pub mod transport;

pub use command::Command;
pub use error::{BarcodeError, QrCodeError};

pub use style::StyleSet;
pub use style::text::StyledNode;

verus! {

} // verus!
