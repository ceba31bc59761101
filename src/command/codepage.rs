//! Code page and international character set commands.
//!
//! The printer supports 40+ code pages for international character support.
use vstd::prelude::*;

use super::{Command, ESC};

verus! {

/// Character code table (code page) selection.
#[derive(Debug, Clone, Copy, PartialEq, Eq, Structural, Default)]
pub enum CodePage {
    /// PC437: USA, Standard Europe (default).
    #[default]
    Cp437UsaStandardEurope,
    /// Katakana.
    Katakana,
    /// PC850: Multilingual.
    Cp850Multilingual,
    /// PC860: Portuguese.
    Cp860Portuguese,
    /// PC863: Canadian-French.
    Cp863CanadianFrench,
    /// PC865: Nordic.
    Cp865Nordic,
    /// Windows-1252: Latin I.
    Windows1252LatinI,
    /// PC866: Cyrillic #2.
    Cp866Cyrillic2,
    /// PC852: Latin 2.
    Cp852Latin2,
    /// PC858: Euro.
    Cp858Euro,
    /// PC862: Hebrew DOS code.
    Cp862HebrewDos,
    /// PC864: Arabic.
    Cp864Arabic,
    /// Thai42.
    Thai42,
    /// Windows-1253: Greek.
    Windows1253Greek,
    /// Windows-1254: Turkish.
    Windows1254Turkish,
    /// Windows-1257: Baltic.
    Windows1257Baltic,
    /// Farsi.
    Farsi,
    /// Windows-1251: Cyrillic.
    Windows1251Cyrillic,
    /// PC737: Greek.
    Cp737Greek,
    /// PC775: Baltic.
    Cp775Baltic,
    /// Thai14.
    Thai14,
    /// Hebrew old code.
    HebrewOld,
    /// Windows-1255: Hebrew new code.
    Windows1255HebrewNew,
    /// Thai11.
    Thai11,
    /// Thai18.
    Thai18,
    /// PC855: Cyrillic.
    Cp855Cyrillic,
    /// PC857: Turkish.
    Cp857Turkish,
    /// PC928: Greek.
    Cp928Greek,
    /// Thai16.
    Thai16,
    /// Windows-1256: Arabic.
    Windows1256Arabic,
}

impl CodePage {
    /// The table number that selects this code page.
    pub open spec fn byte(self) -> u8 {
        match self {
            CodePage::Cp437UsaStandardEurope => 0,
            CodePage::Katakana => 1,
            CodePage::Cp850Multilingual => 2,
            CodePage::Cp860Portuguese => 3,
            CodePage::Cp863CanadianFrench => 4,
            CodePage::Cp865Nordic => 5,
            CodePage::Windows1252LatinI => 16,
            CodePage::Cp866Cyrillic2 => 17,
            CodePage::Cp852Latin2 => 18,
            CodePage::Cp858Euro => 19,
            CodePage::Cp862HebrewDos => 21,
            CodePage::Cp864Arabic => 22,
            CodePage::Thai42 => 23,
            CodePage::Windows1253Greek => 24,
            CodePage::Windows1254Turkish => 25,
            CodePage::Windows1257Baltic => 26,
            CodePage::Farsi => 27,
            CodePage::Windows1251Cyrillic => 28,
            CodePage::Cp737Greek => 29,
            CodePage::Cp775Baltic => 30,
            CodePage::Thai14 => 31,
            CodePage::HebrewOld => 32,
            CodePage::Windows1255HebrewNew => 33,
            CodePage::Thai11 => 34,
            CodePage::Thai18 => 35,
            CodePage::Cp855Cyrillic => 36,
            CodePage::Cp857Turkish => 37,
            CodePage::Cp928Greek => 38,
            CodePage::Thai16 => 39,
            CodePage::Windows1256Arabic => 40,
        }
    }

    /// Get the byte value for this code page.
    pub fn as_byte(self) -> (r: u8)
        ensures
            r == self.byte(),
    {
        match self {
            CodePage::Cp437UsaStandardEurope => 0,
            CodePage::Katakana => 1,
            CodePage::Cp850Multilingual => 2,
            CodePage::Cp860Portuguese => 3,
            CodePage::Cp863CanadianFrench => 4,
            CodePage::Cp865Nordic => 5,
            CodePage::Windows1252LatinI => 16,
            CodePage::Cp866Cyrillic2 => 17,
            CodePage::Cp852Latin2 => 18,
            CodePage::Cp858Euro => 19,
            CodePage::Cp862HebrewDos => 21,
            CodePage::Cp864Arabic => 22,
            CodePage::Thai42 => 23,
            CodePage::Windows1253Greek => 24,
            CodePage::Windows1254Turkish => 25,
            CodePage::Windows1257Baltic => 26,
            CodePage::Farsi => 27,
            CodePage::Windows1251Cyrillic => 28,
            CodePage::Cp737Greek => 29,
            CodePage::Cp775Baltic => 30,
            CodePage::Thai14 => 31,
            CodePage::HebrewOld => 32,
            CodePage::Windows1255HebrewNew => 33,
            CodePage::Thai11 => 34,
            CodePage::Thai18 => 35,
            CodePage::Cp855Cyrillic => 36,
            CodePage::Cp857Turkish => 37,
            CodePage::Cp928Greek => 38,
            CodePage::Thai16 => 39,
            CodePage::Windows1256Arabic => 40,
        }
    }
}

/// Select character code table.
///
/// ESC/POS: `ESC t n` (0x1B 0x74 n)
#[derive(Debug, Clone, Copy, PartialEq, Eq, Default)]
pub struct SelectCodePage(pub CodePage);

impl Command for SelectCodePage {
    open spec fn encoding(&self) -> Seq<u8> {
        seq![ESC, 0x74u8, self.0.byte()]
    }

    fn encode(&self) -> (r: Vec<u8>) {
        vec![ESC, 0x74, self.0.as_byte()]
    }
}

/// International character set selection.
#[derive(Debug, Clone, Copy, PartialEq, Eq, Structural, Default)]
pub enum InternationalCharacterSet {
    /// U.S.A. (default).
    #[default]
    Usa,
    /// France.
    France,
    /// Germany.
    Germany,
    /// U.K.
    Uk,
    /// Denmark I.
    DenmarkI,
    /// Sweden.
    Sweden,
    /// Italy.
    Italy,
    /// Spain I.
    SpainI,
    /// Japan.
    Japan,
    /// Norway.
    Norway,
    /// Denmark II.
    DenmarkII,
    /// Spain II.
    SpainII,
    /// Latin America.
    LatinAmerica,
    /// Korea.
    Korea,
}

impl InternationalCharacterSet {
    /// The number that selects this character set.
    pub open spec fn byte(self) -> u8 {
        match self {
            InternationalCharacterSet::Usa => 0,
            InternationalCharacterSet::France => 1,
            InternationalCharacterSet::Germany => 2,
            InternationalCharacterSet::Uk => 3,
            InternationalCharacterSet::DenmarkI => 4,
            InternationalCharacterSet::Sweden => 5,
            InternationalCharacterSet::Italy => 6,
            InternationalCharacterSet::SpainI => 7,
            InternationalCharacterSet::Japan => 8,
            InternationalCharacterSet::Norway => 9,
            InternationalCharacterSet::DenmarkII => 10,
            InternationalCharacterSet::SpainII => 11,
            InternationalCharacterSet::LatinAmerica => 12,
            InternationalCharacterSet::Korea => 13,
        }
    }

    /// Get the byte value for this character set.
    pub fn as_byte(self) -> (r: u8)
        ensures
            r == self.byte(),
    {
        match self {
            InternationalCharacterSet::Usa => 0,
            InternationalCharacterSet::France => 1,
            InternationalCharacterSet::Germany => 2,
            InternationalCharacterSet::Uk => 3,
            InternationalCharacterSet::DenmarkI => 4,
            InternationalCharacterSet::Sweden => 5,
            InternationalCharacterSet::Italy => 6,
            InternationalCharacterSet::SpainI => 7,
            InternationalCharacterSet::Japan => 8,
            InternationalCharacterSet::Norway => 9,
            InternationalCharacterSet::DenmarkII => 10,
            InternationalCharacterSet::SpainII => 11,
            InternationalCharacterSet::LatinAmerica => 12,
            InternationalCharacterSet::Korea => 13,
        }
    }
}

/// Select international character set.
///
/// ESC/POS: `ESC R n` (0x1B 0x52 n)
#[derive(Debug, Clone, Copy, PartialEq, Eq, Default)]
pub struct SelectCharacterSet(pub InternationalCharacterSet);

impl Command for SelectCharacterSet {
    open spec fn encoding(&self) -> Seq<u8> {
        seq![ESC, 0x52u8, self.0.byte()]
    }

    fn encode(&self) -> (r: Vec<u8>) {
        vec![ESC, 0x52, self.0.as_byte()]
    }
}

} // verus!
