//! 2D symbol commands (QR Code, PDF417).
use vstd::prelude::*;

use super::{Command, GS};
use crate::error::{Pdf417Error, QrCodeError};

verus! {

/// The largest QR Code payload, in bytes.
pub const QR_MAX_DATA: usize = 7089;

/// QR Code model.
#[derive(Debug, Clone, Copy, PartialEq, Eq, Structural, Default)]
pub enum QrModel {
    /// Model 1.
    Model1,
    /// Model 2 (default).
    #[default]
    Model2,
}

impl QrModel {
    /// The command parameter byte of this model.
    pub open spec fn byte(self) -> u8 {
        match self {
            QrModel::Model1 => 49,
            QrModel::Model2 => 50,
        }
    }

    /// The command parameter byte of this model.
    pub fn as_byte(self) -> (r: u8)
        ensures
            r == self.byte(),
    {
        match self {
            QrModel::Model1 => 49,
            QrModel::Model2 => 50,
        }
    }
}

/// QR Code error correction level.
#[derive(Debug, Clone, Copy, PartialEq, Eq, Structural, Default)]
pub enum QrErrorCorrection {
    /// Level L: about 7% recovery (default).
    #[default]
    L,
    /// Level M: about 15% recovery.
    M,
    /// Level Q: about 25% recovery.
    Q,
    /// Level H: about 30% recovery.
    H,
}

impl QrErrorCorrection {
    /// The command parameter byte of this level.
    pub open spec fn byte(self) -> u8 {
        match self {
            QrErrorCorrection::L => 48,
            QrErrorCorrection::M => 49,
            QrErrorCorrection::Q => 50,
            QrErrorCorrection::H => 51,
        }
    }

    /// The command parameter byte of this level.
    pub fn as_byte(self) -> (r: u8)
        ensures
            r == self.byte(),
    {
        match self {
            QrErrorCorrection::L => 48,
            QrErrorCorrection::M => 49,
            QrErrorCorrection::Q => 50,
            QrErrorCorrection::H => 51,
        }
    }
}

/// QR Code module size in dots.
#[derive(Debug, Clone, Copy, PartialEq, Eq, Structural, Default)]
pub enum QrModuleSize {
    /// 1 dot.
    Size1,
    /// 2 dots.
    Size2,
    /// 3 dots (default).
    #[default]
    Size3,
    /// 4 dots.
    Size4,
    /// 5 dots.
    Size5,
    /// 6 dots.
    Size6,
    /// 7 dots.
    Size7,
    /// 8 dots.
    Size8,
}

impl QrModuleSize {
    /// The module size in dots.
    pub open spec fn byte(self) -> u8 {
        match self {
            QrModuleSize::Size1 => 1,
            QrModuleSize::Size2 => 2,
            QrModuleSize::Size3 => 3,
            QrModuleSize::Size4 => 4,
            QrModuleSize::Size5 => 5,
            QrModuleSize::Size6 => 6,
            QrModuleSize::Size7 => 7,
            QrModuleSize::Size8 => 8,
        }
    }

    /// The module size in dots.
    pub fn as_byte(self) -> (r: u8)
        ensures
            r == self.byte(),
    {
        match self {
            QrModuleSize::Size1 => 1,
            QrModuleSize::Size2 => 2,
            QrModuleSize::Size3 => 3,
            QrModuleSize::Size4 => 4,
            QrModuleSize::Size5 => 5,
            QrModuleSize::Size6 => 6,
            QrModuleSize::Size7 => 7,
            QrModuleSize::Size8 => 8,
        }
    }
}

/// The low byte of the store-data parameter length (payload plus 3).
pub open spec fn store_len_lo(n: nat) -> u8 {
    ((n + 3) % 256) as u8
}

/// The high byte of the store-data parameter length (payload plus 3).
pub open spec fn store_len_hi(n: nat) -> u8 {
    (((n + 3) / 256) % 256) as u8
}

/// The two length bytes of a store-data function for `n` payload bytes.
fn store_len(n: usize) -> (r: (u8, u8))
    ensures
        r.0 == store_len_lo(n as nat),
        r.1 == store_len_hi(n as nat),
{
    let lo = n % 256;
    let hi = n / 256;
    proof {
        assert((n + 3) % 256 == (lo + 3) % 256 && (n + 3) / 256 == hi + (lo + 3) / 256) by (nonlinear_arith)
            requires
                lo == n % 256,
                hi == n / 256,
        ;
    }
    (((lo + 3) % 256) as u8, ((hi + (lo + 3) / 256) % 256) as u8)
}

/// The bytes of one `GS ( k` function with a 3-byte header.
pub open spec fn symbol_fn(cn: u8, f: u8, m: u8) -> Seq<u8> {
    seq![GS, 0x28u8, 0x6Bu8, 3u8, 0u8, cn, f, m]
}

/// Print a QR Code.
///
/// Sends the select-model, module-size, error-correction, store-data and
/// print functions of `GS ( k`, in that order.
#[derive(Debug, Clone, PartialEq, Eq)]
pub struct PrintQrCode {
    /// QR Code model.
    pub model: QrModel,
    /// Module size.
    pub module_size: QrModuleSize,
    /// Error correction level.
    pub error_correction: QrErrorCorrection,
    /// Data to encode.
    pub data: Vec<u8>,
}

impl PrintQrCode {
    /// Create a QR Code with the default model, module size and error
    /// correction.
    ///
    /// Empty data is refused, and so is data over 7089 bytes.
    pub fn new(data: Vec<u8>) -> (r: Result<Self, QrCodeError>)
        ensures
            data@.len() == 0 ==> r is Err && r->Err_0 == QrCodeError::EmptyData,
            data@.len() > QR_MAX_DATA ==> r is Err && r->Err_0 == QrCodeError::DataTooLong(data@.len() as usize),
            0 < data@.len() <= QR_MAX_DATA ==> r is Ok && r->Ok_0.model == QrModel::Model2
                && r->Ok_0.module_size == QrModuleSize::Size3 && r->Ok_0.error_correction
                == QrErrorCorrection::L && r->Ok_0.data@ == data@,
    {
        if data.len() == 0 {
            return Err(QrCodeError::EmptyData);
        }
        if data.len() > QR_MAX_DATA {
            return Err(QrCodeError::DataTooLong(data.len()));
        }
        Ok(
            Self {
                model: QrModel::Model2,
                module_size: QrModuleSize::Size3,
                error_correction: QrErrorCorrection::L,
                data,
            },
        )
    }

    /// Set the model.
    pub fn with_model(self, model: QrModel) -> (r: Self)
        ensures
            r.model == model,
            r.module_size == self.module_size,
            r.error_correction == self.error_correction,
            r.data@ == self.data@,
    {
        PrintQrCode { model, ..self }
    }

    /// Set the module size.
    pub fn with_module_size(self, size: QrModuleSize) -> (r: Self)
        ensures
            r.model == self.model,
            r.module_size == size,
            r.error_correction == self.error_correction,
            r.data@ == self.data@,
    {
        PrintQrCode { module_size: size, ..self }
    }

    /// Set the error correction level.
    pub fn with_error_correction(self, level: QrErrorCorrection) -> (r: Self)
        ensures
            r.model == self.model,
            r.module_size == self.module_size,
            r.error_correction == level,
            r.data@ == self.data@,
    {
        PrintQrCode { error_correction: level, ..self }
    }
}

impl Command for PrintQrCode {
    open spec fn encoding(&self) -> Seq<u8> {
        let n = self.data@.len();
        seq![GS, 0x28u8, 0x6Bu8, 4u8, 0u8, 49u8, 65u8, self.model.byte(), 0u8]
            + symbol_fn(49, 67, self.module_size.byte())
            + symbol_fn(49, 69, self.error_correction.byte())
            + seq![GS, 0x28u8, 0x6Bu8, store_len_lo(n), store_len_hi(n), 49u8, 80u8, 48u8]
            + self.data@
            + symbol_fn(49, 81, 48)
    }

    fn encode(&self) -> (r: Vec<u8>) {
        let (pl, ph) = store_len(self.data.len());
        let mut bytes = vec![GS, 0x28, 0x6B, 4, 0, 49, 65, self.model.as_byte(), 0];
        bytes.extend_from_slice(&[GS, 0x28, 0x6B, 3, 0, 49, 67, self.module_size.as_byte()]);
        bytes.extend_from_slice(&[GS, 0x28, 0x6B, 3, 0, 49, 69, self.error_correction.as_byte()]);
        bytes.extend_from_slice(&[GS, 0x28, 0x6B, pl, ph, 49, 80, 48]);
        bytes.extend_from_slice(self.data.as_slice());
        bytes.extend_from_slice(&[GS, 0x28, 0x6B, 3, 0, 49, 81, 48]);
        assert(bytes@ =~= self.encoding());
        bytes
    }
}

/// PDF417 module size in dots.
#[derive(Debug, Clone, Copy, PartialEq, Eq, Structural, Default)]
pub enum Pdf417ModuleSize {
    /// 2 dots.
    Size2,
    /// 3 dots (default).
    #[default]
    Size3,
    /// 4 dots.
    Size4,
    /// 5 dots.
    Size5,
    /// 6 dots.
    Size6,
    /// 7 dots.
    Size7,
    /// 8 dots.
    Size8,
}

impl Pdf417ModuleSize {
    /// The module size in dots.
    pub open spec fn byte(self) -> u8 {
        match self {
            Pdf417ModuleSize::Size2 => 2,
            Pdf417ModuleSize::Size3 => 3,
            Pdf417ModuleSize::Size4 => 4,
            Pdf417ModuleSize::Size5 => 5,
            Pdf417ModuleSize::Size6 => 6,
            Pdf417ModuleSize::Size7 => 7,
            Pdf417ModuleSize::Size8 => 8,
        }
    }

    /// The module size in dots.
    pub fn as_byte(self) -> (r: u8)
        ensures
            r == self.byte(),
    {
        match self {
            Pdf417ModuleSize::Size2 => 2,
            Pdf417ModuleSize::Size3 => 3,
            Pdf417ModuleSize::Size4 => 4,
            Pdf417ModuleSize::Size5 => 5,
            Pdf417ModuleSize::Size6 => 6,
            Pdf417ModuleSize::Size7 => 7,
            Pdf417ModuleSize::Size8 => 8,
        }
    }
}

/// PDF417 number of data columns.
#[derive(Debug, Clone, Copy, PartialEq, Eq, Structural, Default)]
pub enum Pdf417Columns {
    /// Chosen by the printer (default).
    #[default]
    Auto,
    /// A fixed number of columns (1-30).
    Manual(u8),
}

impl Pdf417Columns {
    /// A fixed number of columns; `n` must be in 1-30.
    pub fn manual(n: u8) -> (r: Result<Self, Pdf417Error>)
        ensures
            1 <= n <= 30 ==> r == Ok::<Pdf417Columns, Pdf417Error>(Pdf417Columns::Manual(n)),
            !(1 <= n <= 30) ==> r == Err::<Pdf417Columns, Pdf417Error>(Pdf417Error::InvalidColumnCount(n)),
    {
        if n < 1 || n > 30 {
            return Err(Pdf417Error::InvalidColumnCount(n));
        }
        Ok(Pdf417Columns::Manual(n))
    }

    /// The command parameter byte: 0 for automatic, else the count.
    pub open spec fn byte(self) -> u8 {
        match self {
            Pdf417Columns::Auto => 0,
            Pdf417Columns::Manual(n) => n,
        }
    }

    /// The command parameter byte: 0 for automatic, else the count.
    pub fn as_byte(self) -> (r: u8)
        ensures
            r == self.byte(),
    {
        match self {
            Pdf417Columns::Auto => 0,
            Pdf417Columns::Manual(n) => n,
        }
    }
}

/// PDF417 number of rows.
#[derive(Debug, Clone, Copy, PartialEq, Eq, Structural, Default)]
pub enum Pdf417Rows {
    /// Chosen by the printer (default).
    #[default]
    Auto,
    /// A fixed number of rows (3-90).
    Manual(u8),
}

impl Pdf417Rows {
    /// A fixed number of rows; `n` must be in 3-90.
    pub fn manual(n: u8) -> (r: Result<Self, Pdf417Error>)
        ensures
            3 <= n <= 90 ==> r == Ok::<Pdf417Rows, Pdf417Error>(Pdf417Rows::Manual(n)),
            !(3 <= n <= 90) ==> r == Err::<Pdf417Rows, Pdf417Error>(Pdf417Error::InvalidRowCount(n)),
    {
        if n < 3 || n > 90 {
            return Err(Pdf417Error::InvalidRowCount(n));
        }
        Ok(Pdf417Rows::Manual(n))
    }

    /// The command parameter byte: 0 for automatic, else the count.
    pub open spec fn byte(self) -> u8 {
        match self {
            Pdf417Rows::Auto => 0,
            Pdf417Rows::Manual(n) => n,
        }
    }

    /// The command parameter byte: 0 for automatic, else the count.
    pub fn as_byte(self) -> (r: u8)
        ensures
            r == self.byte(),
    {
        match self {
            Pdf417Rows::Auto => 0,
            Pdf417Rows::Manual(n) => n,
        }
    }
}

/// PDF417 error correction level.
#[derive(Debug, Clone, Copy, PartialEq, Eq, Structural, Default)]
pub enum Pdf417ErrorCorrection {
    /// Level 0.
    Level0,
    /// Level 1 (default).
    #[default]
    Level1,
    /// Level 2.
    Level2,
    /// Level 3.
    Level3,
    /// Level 4.
    Level4,
    /// Level 5.
    Level5,
    /// Level 6.
    Level6,
    /// Level 7.
    Level7,
    /// Level 8.
    Level8,
}

impl Pdf417ErrorCorrection {
    /// The command parameter byte of this level: `'0'` plus the level.
    pub open spec fn byte(self) -> u8 {
        match self {
            Pdf417ErrorCorrection::Level0 => 48,
            Pdf417ErrorCorrection::Level1 => 49,
            Pdf417ErrorCorrection::Level2 => 50,
            Pdf417ErrorCorrection::Level3 => 51,
            Pdf417ErrorCorrection::Level4 => 52,
            Pdf417ErrorCorrection::Level5 => 53,
            Pdf417ErrorCorrection::Level6 => 54,
            Pdf417ErrorCorrection::Level7 => 55,
            Pdf417ErrorCorrection::Level8 => 56,
        }
    }

    /// The command parameter byte of this level: `'0'` plus the level.
    pub fn as_byte(self) -> (r: u8)
        ensures
            r == self.byte(),
    {
        match self {
            Pdf417ErrorCorrection::Level0 => 48,
            Pdf417ErrorCorrection::Level1 => 49,
            Pdf417ErrorCorrection::Level2 => 50,
            Pdf417ErrorCorrection::Level3 => 51,
            Pdf417ErrorCorrection::Level4 => 52,
            Pdf417ErrorCorrection::Level5 => 53,
            Pdf417ErrorCorrection::Level6 => 54,
            Pdf417ErrorCorrection::Level7 => 55,
            Pdf417ErrorCorrection::Level8 => 56,
        }
    }
}

/// Print a PDF417 symbol.
///
/// Sends the columns, rows, module width, module height, error correction,
/// store-data and print functions of `GS ( k`, in that order.
#[derive(Debug, Clone, PartialEq, Eq)]
pub struct PrintPdf417 {
    /// Number of columns.
    pub columns: Pdf417Columns,
    /// Number of rows.
    pub rows: Pdf417Rows,
    /// Module width.
    pub module_width: Pdf417ModuleSize,
    /// Module height.
    pub module_height: Pdf417ModuleSize,
    /// Error correction level.
    pub error_correction: Pdf417ErrorCorrection,
    /// Data to encode.
    pub data: Vec<u8>,
}

impl PrintPdf417 {
    /// Create a PDF417 symbol with default settings.
    pub fn new(data: Vec<u8>) -> (r: Self)
        ensures
            r.columns == Pdf417Columns::Auto,
            r.rows == Pdf417Rows::Auto,
            r.module_width == Pdf417ModuleSize::Size3,
            r.module_height == Pdf417ModuleSize::Size3,
            r.error_correction == Pdf417ErrorCorrection::Level1,
            r.data@ == data@,
    {
        Self {
            columns: Pdf417Columns::Auto,
            rows: Pdf417Rows::Auto,
            module_width: Pdf417ModuleSize::Size3,
            module_height: Pdf417ModuleSize::Size3,
            error_correction: Pdf417ErrorCorrection::Level1,
            data,
        }
    }

    /// Set the number of columns.
    pub fn with_columns(self, columns: Pdf417Columns) -> (r: Self)
        ensures
            r == (PrintPdf417 { columns, ..self }),
    {
        PrintPdf417 { columns, ..self }
    }

    /// Set the number of rows.
    pub fn with_rows(self, rows: Pdf417Rows) -> (r: Self)
        ensures
            r == (PrintPdf417 { rows, ..self }),
    {
        PrintPdf417 { rows, ..self }
    }

    /// Set the module width.
    pub fn with_module_width(self, width: Pdf417ModuleSize) -> (r: Self)
        ensures
            r == (PrintPdf417 { module_width: width, ..self }),
    {
        PrintPdf417 { module_width: width, ..self }
    }

    /// Set the module height.
    pub fn with_module_height(self, height: Pdf417ModuleSize) -> (r: Self)
        ensures
            r == (PrintPdf417 { module_height: height, ..self }),
    {
        PrintPdf417 { module_height: height, ..self }
    }

    /// Set the error correction level.
    pub fn with_error_correction(self, level: Pdf417ErrorCorrection) -> (r: Self)
        ensures
            r == (PrintPdf417 { error_correction: level, ..self }),
    {
        PrintPdf417 { error_correction: level, ..self }
    }
}

impl Command for PrintPdf417 {
    open spec fn encoding(&self) -> Seq<u8> {
        let n = self.data@.len();
        symbol_fn(48, 65, self.columns.byte())
            + symbol_fn(48, 66, self.rows.byte())
            + symbol_fn(48, 67, self.module_width.byte())
            + symbol_fn(48, 68, self.module_height.byte())
            + seq![GS, 0x28u8, 0x6Bu8, 4u8, 0u8, 48u8, 69u8, 48u8, self.error_correction.byte()]
            + seq![GS, 0x28u8, 0x6Bu8, store_len_lo(n), store_len_hi(n), 48u8, 80u8, 48u8]
            + self.data@
            + symbol_fn(48, 81, 48)
    }

    fn encode(&self) -> (r: Vec<u8>) {
        let (pl, ph) = store_len(self.data.len());
        let mut bytes = vec![GS, 0x28, 0x6B, 3, 0, 48, 65, self.columns.as_byte()];
        bytes.extend_from_slice(&[GS, 0x28, 0x6B, 3, 0, 48, 66, self.rows.as_byte()]);
        bytes.extend_from_slice(&[GS, 0x28, 0x6B, 3, 0, 48, 67, self.module_width.as_byte()]);
        bytes.extend_from_slice(&[GS, 0x28, 0x6B, 3, 0, 48, 68, self.module_height.as_byte()]);
        bytes.extend_from_slice(&[GS, 0x28, 0x6B, 4, 0, 48, 69, 48, self.error_correction.as_byte()]);
        bytes.extend_from_slice(&[GS, 0x28, 0x6B, pl, ph, 48, 80, 48]);
        bytes.extend_from_slice(self.data.as_slice());
        bytes.extend_from_slice(&[GS, 0x28, 0x6B, 3, 0, 48, 81, 48]);
        assert(bytes@ =~= self.encoding());
        bytes
    }
}

} // verus!
