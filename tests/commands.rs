use bixolon::command::barcode::{
    BarcodeSystem, BarcodeWidth, HriPosition, PrintBarcode, SetBarcodeHeight, SetBarcodeWidth,
    SetHriFont, HriFont, SetHriPosition,
};
use bixolon::command::basic::{FormFeed, HorizontalTab, LineFeed};
use bixolon::command::character::{
    CharacterSize, Font, Justification, RotationMode, ScaleFactor, SelectFont, SetCharacterSize,
    SetDoubleStrike, SetEmphasized, SetJustification, SetReverse, SetRotation, SetSmoothing,
    SetUnderline, SetUpsideDown, UnderlineThickness,
};
use bixolon::command::codepage::{
    CodePage, InternationalCharacterSet, SelectCharacterSet, SelectCodePage,
};
use bixolon::command::image::{
    BitImageMode, DefineDownloadedImage, DownloadedImageMode, PrintDownloadedImage,
    PrintRasterImage, RasterImageMode, SelectBitImageMode,
};
use bixolon::command::macro_cmd::{ExecuteMacro, MacroExecutionMode, ToggleMacroDefinition};
use bixolon::command::page_mode::{
    EnterPageMode, ExitPageMode, PrintArea, PrintDirection, SetHorizontalPosition,
    SetPrintArea, SetPrintDirection, SetVerticalPosition,
};
use bixolon::command::printer_control::Initialize;
use bixolon::command::spacing::{
    SetAbsolutePosition, SetDefaultLineSpacing, SetHorizontalTabs, SetLeftMargin,
    SetLineSpacing, SetPrintingWidth, SetRelativePosition, SetRightSpacing,
};
use bixolon::command::status::{
    AsbFlags, EnableAsb, ErrorStatus, OfflineStatus, PaperRollStatus, PrinterStatus,
    StatusResponse, StatusType, TransmitStatus,
};
use bixolon::command::symbol::{
    Pdf417Columns, Pdf417ErrorCorrection, Pdf417ModuleSize, Pdf417Rows, PrintPdf417,
    PrintQrCode, QrErrorCorrection, QrModel, QrModuleSize,
};
use bixolon::command::{Command, QueryCommand, GS};
use bixolon::error::{BarcodeError, Pdf417Error, QrCodeError, Span, StatusParseError};

// ---------------------------------------------------------------- barcode

#[test]
fn barcode_height_default() {
    assert_eq!(SetBarcodeHeight::default().0, 162);
}

#[test]
fn barcode_height_encodes() {
    let cmd = SetBarcodeHeight(100);
    assert_eq!(cmd.encode(), vec![0x1D, b'h', 100]);
}

#[test]
fn barcode_height_zero_is_sent_as_one() {
    assert_eq!(SetBarcodeHeight(0).encode(), vec![0x1D, b'h', 1]);
}

#[test]
fn barcode_width_values() {
    assert_eq!(BarcodeWidth::Thin.as_byte(), 2);
    assert_eq!(BarcodeWidth::Normal.as_byte(), 3);
    assert_eq!(BarcodeWidth::ExtraWide.as_byte(), 6);
}

#[test]
fn hri_position_values() {
    assert_eq!(HriPosition::NotPrinted.as_byte(), 0);
    assert_eq!(HriPosition::Below.as_byte(), 2);
}

#[test]
fn barcode_system_values() {
    assert_eq!(BarcodeSystem::UpcA.as_byte(), 65);
    assert_eq!(BarcodeSystem::Code128.as_byte(), 73);
}

#[test]
fn print_barcode_upc_a_valid() {
    let result = PrintBarcode::new(BarcodeSystem::UpcA, b"12345678901".to_vec());
    assert!(result.is_ok());
}

#[test]
fn print_barcode_upc_a_invalid_chars() {
    let result = PrintBarcode::new(BarcodeSystem::UpcA, b"1234567890A".to_vec());
    assert!(matches!(result, Err(BarcodeError::InvalidCharacter { .. })));
}

#[test]
fn print_barcode_invalid_character_reports_text_and_span() {
    let result = PrintBarcode::new(BarcodeSystem::UpcA, b"1234567890A".to_vec());
    match result {
        Err(BarcodeError::InvalidCharacter { data, span, system }) => {
            assert_eq!(data, "1234567890A");
            assert_eq!(span, Span { offset: 10, length: 1 });
            assert_eq!(system, "UPC-A");
        }
        _ => panic!("expected an invalid character"),
    }
}

#[test]
fn print_barcode_invalid_utf8_is_replaced() {
    let result = PrintBarcode::new(BarcodeSystem::Code128, vec![b'A', 0xFF, b'B']);
    match result {
        Err(BarcodeError::InvalidCharacter { data, span, system }) => {
            assert_eq!(data, "A\u{FFFD}B");
            assert_eq!(span.offset, 1);
            assert_eq!(system, "CODE128");
        }
        _ => panic!("expected an invalid character"),
    }
}

#[test]
fn print_barcode_itf_odd_length_rejected() {
    let result = PrintBarcode::new(BarcodeSystem::Itf, b"123".to_vec());
    assert!(matches!(result, Err(BarcodeError::ItfRequiresEvenLength(_))));
}

#[test]
fn print_barcode_length_out_of_range() {
    let result = PrintBarcode::new(BarcodeSystem::Jan8, b"123456".to_vec());
    match result {
        Err(BarcodeError::InvalidLength { system, actual, min, max }) => {
            assert_eq!(system, "JAN-8");
            assert_eq!((actual, min, max), (6, 7, 8));
        }
        _ => panic!("expected an invalid length"),
    }
    assert!(matches!(
        PrintBarcode::new(BarcodeSystem::Code39, Vec::new()),
        Err(BarcodeError::InvalidLength { .. })
    ));
}

#[test]
fn print_barcode_code39_and_codabar_alphabets() {
    assert!(PrintBarcode::new(BarcodeSystem::Code39, b"AB-12 $%*+./".to_vec()).is_ok());
    assert!(PrintBarcode::new(BarcodeSystem::Code39, b"ab".to_vec()).is_err());
    assert!(PrintBarcode::new(BarcodeSystem::Codabar, b"A123:D".to_vec()).is_ok());
    assert!(PrintBarcode::new(BarcodeSystem::Codabar, b"E1".to_vec()).is_err());
}

#[test]
fn print_barcode_encodes() {
    let cmd = PrintBarcode::new(BarcodeSystem::Code128, b"{A123".to_vec()).unwrap();
    let encoded = cmd.encode();
    assert_eq!(encoded[0..4], [0x1D, b'k', 73, 5]);
    assert_eq!(&encoded[4..], b"{A123");
}

#[test]
fn test_barcode_width() {
    assert_eq!(SetBarcodeWidth(BarcodeWidth::Wide).encode(), vec![0x1D, b'w', 5]);
}

#[test]
fn test_barcode_height() {
    assert_eq!(SetBarcodeHeight(100).encode(), vec![0x1D, b'h', 100]);
}

#[test]
fn test_print_barcode_code128() {
    let barcode = PrintBarcode::new(BarcodeSystem::Code128, b"{A123".to_vec()).unwrap();
    let expected = vec![0x1D, b'k', 73, 5, b'{', b'A', b'1', b'2', b'3'];
    assert_eq!(barcode.encode(), expected);
}

#[test]
fn test_hri_position_below() {
    assert_eq!(SetHriPosition(HriPosition::Below).encode(), vec![0x1D, b'H', 2]);
}

#[test]
fn hri_font_b_encodes() {
    assert_eq!(SetHriFont(HriFont::B).encode(), vec![0x1D, b'f', 1]);
}

// ---------------------------------------------------------------- basic

#[test]
fn test_initialize() {
    assert_eq!(Initialize.encode(), vec![0x1B, b'@']);
}

#[test]
fn test_line_feed() {
    assert_eq!(LineFeed.encode(), vec![0x0A]);
}

#[test]
fn test_form_feed() {
    assert_eq!(FormFeed.encode(), vec![0x0C]);
}

#[test]
fn test_horizontal_tab() {
    assert_eq!(HorizontalTab.encode(), vec![0x09]);
}

// ---------------------------------------------------------------- character

#[test]
fn set_emphasized_on() {
    let cmd = SetEmphasized(true);
    assert_eq!(cmd.encode(), vec![0x1B, b'E', 1]);
}

#[test]
fn set_emphasized_off() {
    let cmd = SetEmphasized(false);
    assert_eq!(cmd.encode(), vec![0x1B, b'E', 0]);
}

#[test]
fn underline_off() {
    let cmd = SetUnderline(UnderlineThickness::Off);
    assert_eq!(cmd.encode(), vec![0x1B, b'-', 0]);
}

#[test]
fn underline_one_dot() {
    let cmd = SetUnderline(UnderlineThickness::OneDot);
    assert_eq!(cmd.encode(), vec![0x1B, b'-', 1]);
}

#[test]
fn underline_two_dot() {
    let cmd = SetUnderline(UnderlineThickness::TwoDot);
    assert_eq!(cmd.encode(), vec![0x1B, b'-', 2]);
}

#[test]
fn double_strike_on() {
    let cmd = SetDoubleStrike(true);
    assert_eq!(cmd.encode(), vec![0x1B, b'G', 1]);
}

#[test]
fn select_font_a() {
    let cmd = SelectFont(Font::A);
    assert_eq!(cmd.encode(), vec![0x1B, b'M', 0]);
}

#[test]
fn select_font_b() {
    let cmd = SelectFont(Font::B);
    assert_eq!(cmd.encode(), vec![0x1B, b'M', 1]);
}

#[test]
fn character_size_standard() {
    let cmd = SetCharacterSize(CharacterSize::standard());
    assert_eq!(cmd.encode(), vec![0x1D, b'!', 0x00]);
}

#[test]
fn character_size_double() {
    let cmd = SetCharacterSize(CharacterSize::double());
    assert_eq!(cmd.encode(), vec![0x1D, b'!', 0x11]);
}

#[test]
fn character_size_max() {
    let cmd = SetCharacterSize(CharacterSize {
        width: ScaleFactor::X8,
        height: ScaleFactor::X8,
    });
    assert_eq!(cmd.encode(), vec![0x1D, b'!', 0x77]);
}

#[test]
fn character_size_width_and_height_apart() {
    assert_eq!(SetCharacterSize(CharacterSize::double_width()).encode(), vec![0x1D, b'!', 0x10]);
    assert_eq!(SetCharacterSize(CharacterSize::double_height()).encode(), vec![0x1D, b'!', 0x01]);
    let size = CharacterSize::new(ScaleFactor::X3, ScaleFactor::X5);
    assert_eq!(SetCharacterSize(size).encode(), vec![0x1D, b'!', 0x24]);
}

#[test]
fn justification_left() {
    let cmd = SetJustification(Justification::Left);
    assert_eq!(cmd.encode(), vec![0x1B, b'a', 0]);
}

#[test]
fn justification_center() {
    let cmd = SetJustification(Justification::Center);
    assert_eq!(cmd.encode(), vec![0x1B, b'a', 1]);
}

#[test]
fn justification_right() {
    let cmd = SetJustification(Justification::Right);
    assert_eq!(cmd.encode(), vec![0x1B, b'a', 2]);
}

#[test]
fn upside_down_on() {
    let cmd = SetUpsideDown(true);
    assert_eq!(cmd.encode(), vec![0x1B, b'{', 1]);
}

#[test]
fn rotation_clockwise() {
    let cmd = SetRotation(RotationMode::Clockwise90);
    assert_eq!(cmd.encode(), vec![0x1B, b'V', 1]);
}

#[test]
fn reverse_on() {
    let cmd = SetReverse(true);
    assert_eq!(cmd.encode(), vec![0x1D, b'B', 1]);
}

#[test]
fn smoothing_on() {
    let cmd = SetSmoothing(true);
    assert_eq!(cmd.encode(), vec![0x1D, b'b', 1]);
}

#[test]
fn test_set_emphasized_on() {
    assert_eq!(SetEmphasized(true).encode(), vec![0x1B, b'E', 1]);
}

#[test]
fn test_set_emphasized_off() {
    assert_eq!(SetEmphasized(false).encode(), vec![0x1B, b'E', 0]);
}

#[test]
fn test_underline_single() {
    assert_eq!(SetUnderline(UnderlineThickness::OneDot).encode(), vec![0x1B, b'-', 1]);
}

#[test]
fn test_underline_double() {
    assert_eq!(SetUnderline(UnderlineThickness::TwoDot).encode(), vec![0x1B, b'-', 2]);
}

#[test]
fn test_justification_center() {
    assert_eq!(SetJustification(Justification::Center).encode(), vec![0x1B, b'a', 1]);
}

// ---------------------------------------------------------------- code pages

#[test]
fn codepage_cp437_value() {
    assert_eq!(CodePage::Cp437UsaStandardEurope.as_byte(), 0);
}

#[test]
fn codepage_katakana_value() {
    assert_eq!(CodePage::Katakana.as_byte(), 1);
}

#[test]
fn codepage_windows1252_value() {
    assert_eq!(CodePage::Windows1252LatinI.as_byte(), 16);
}

#[test]
fn codepage_windows1251_value() {
    assert_eq!(CodePage::Windows1251Cyrillic.as_byte(), 28);
}

#[test]
fn codepage_windows1256_value() {
    assert_eq!(CodePage::Windows1256Arabic.as_byte(), 40);
}

#[test]
fn select_codepage_cp437() {
    let cmd = SelectCodePage(CodePage::Cp437UsaStandardEurope);
    assert_eq!(cmd.encode(), vec![0x1B, b't', 0]);
}

#[test]
fn select_codepage_windows1252() {
    let cmd = SelectCodePage(CodePage::Windows1252LatinI);
    assert_eq!(cmd.encode(), vec![0x1B, b't', 16]);
}

#[test]
fn select_codepage_cyrillic() {
    let cmd = SelectCodePage(CodePage::Windows1251Cyrillic);
    assert_eq!(cmd.encode(), vec![0x1B, b't', 28]);
}

#[test]
fn international_charset_usa_value() {
    assert_eq!(InternationalCharacterSet::Usa.as_byte(), 0);
}

#[test]
fn international_charset_france_value() {
    assert_eq!(InternationalCharacterSet::France.as_byte(), 1);
}

#[test]
fn international_charset_korea_value() {
    assert_eq!(InternationalCharacterSet::Korea.as_byte(), 13);
}

#[test]
fn select_charset_usa() {
    let cmd = SelectCharacterSet(InternationalCharacterSet::Usa);
    assert_eq!(cmd.encode(), vec![0x1B, b'R', 0]);
}

#[test]
fn select_charset_germany() {
    let cmd = SelectCharacterSet(InternationalCharacterSet::Germany);
    assert_eq!(cmd.encode(), vec![0x1B, b'R', 2]);
}

#[test]
fn select_charset_japan() {
    let cmd = SelectCharacterSet(InternationalCharacterSet::Japan);
    assert_eq!(cmd.encode(), vec![0x1B, b'R', 8]);
}

#[test]
fn default_codepage_is_cp437() {
    assert_eq!(CodePage::default(), CodePage::Cp437UsaStandardEurope);
}

#[test]
fn default_charset_is_usa() {
    assert_eq!(InternationalCharacterSet::default(), InternationalCharacterSet::Usa);
}

// ---------------------------------------------------------------- images

#[test]
fn bit_image_mode_values() {
    assert_eq!(BitImageMode::SingleDensity8.as_byte(), 0);
    assert_eq!(BitImageMode::DoubleDensity24.as_byte(), 33);
}

#[test]
fn select_bit_image_mode_encodes() {
    let cmd = SelectBitImageMode {
        mode: BitImageMode::DoubleDensity24,
        width: 100,
        data: vec![0xFF; 100],
    };
    let encoded = cmd.encode();
    assert_eq!(&encoded[0..5], &[0x1B, b'*', 33, 100, 0]);
}

#[test]
fn raster_image_mode_values() {
    assert_eq!(RasterImageMode::Normal.as_byte(), 0);
    assert_eq!(RasterImageMode::Quadruple.as_byte(), 3);
}

#[test]
fn print_raster_image_encodes() {
    let cmd = PrintRasterImage {
        mode: RasterImageMode::Normal,
        width_bytes: 64,
        height_dots: 100,
        data: vec![0xFF; 6400],
    };
    let encoded = cmd.encode();
    assert_eq!(&encoded[0..8], &[0x1D, b'v', b'0', 0, 64, 0, 100, 0]);
}

#[test]
fn print_raster_image_builder_and_wide_sizes() {
    let cmd = PrintRasterImage::new(300, 513, vec![1, 2]).with_mode(RasterImageMode::DoubleHeight);
    assert_eq!(cmd.encode(), vec![0x1D, b'v', b'0', 2, 0x2C, 0x01, 0x01, 0x02, 1, 2]);
}

#[test]
fn define_downloaded_image_encodes() {
    let cmd = DefineDownloadedImage {
        width_bytes: 10,
        height_bytes: 20,
        data: vec![0xFF; 200],
    };
    let encoded = cmd.encode();
    assert_eq!(&encoded[0..4], &[0x1D, b'*', 10, 20]);
}

#[test]
fn print_downloaded_image_encodes() {
    let cmd = PrintDownloadedImage(DownloadedImageMode::DoubleWidth);
    assert_eq!(cmd.encode(), vec![0x1D, b'/', 1]);
}

// ---------------------------------------------------------------- macros

#[test]
fn toggle_macro_definition_encodes() {
    let cmd = ToggleMacroDefinition;
    assert_eq!(cmd.encode(), vec![0x1D, b':']);
}

#[test]
fn macro_execution_mode_values() {
    assert_eq!(MacroExecutionMode::Continuous.as_byte(), 0);
    assert_eq!(MacroExecutionMode::WaitForButton.as_byte(), 1);
}

#[test]
fn execute_macro_once_encodes() {
    let cmd = ExecuteMacro::once();
    assert_eq!(cmd.encode(), vec![0x1D, b'^', 1, 0, 0]);
}

#[test]
fn execute_macro_repeat_encodes() {
    let cmd = ExecuteMacro::repeat(5, 10);
    assert_eq!(cmd.encode(), vec![0x1D, b'^', 5, 10, 0]);
}

#[test]
fn execute_macro_with_button_wait() {
    let cmd = ExecuteMacro::once().with_mode(MacroExecutionMode::WaitForButton);
    assert_eq!(cmd.encode(), vec![0x1D, b'^', 1, 0, 1]);
}

#[test]
fn execute_macro_enforces_min_times() {
    let cmd = ExecuteMacro {
        times: 0,
        wait_100ms: 0,
        mode: MacroExecutionMode::Continuous,
    };
    let encoded = cmd.encode();
    assert_eq!(encoded[2], 1);
}

#[test]
fn execute_macro_default_is_once() {
    assert_eq!(ExecuteMacro::default(), ExecuteMacro::once());
}

// ---------------------------------------------------------------- page mode

#[test]
fn enter_page_mode_encodes() {
    assert_eq!(EnterPageMode.encode(), vec![0x1B, b'L']);
}

#[test]
fn exit_page_mode_encodes() {
    assert_eq!(ExitPageMode.encode(), vec![0x1B, b'S']);
}

#[test]
fn print_direction_values() {
    assert_eq!(PrintDirection::LeftToRight.as_byte(), 0);
    assert_eq!(PrintDirection::BottomToTop.as_byte(), 1);
    assert_eq!(PrintDirection::RightToLeft.as_byte(), 2);
    assert_eq!(PrintDirection::TopToBottom.as_byte(), 3);
}

#[test]
fn set_print_direction_encodes() {
    let cmd = SetPrintDirection(PrintDirection::BottomToTop);
    assert_eq!(cmd.encode(), vec![0x1B, b'T', 1]);
}

#[test]
fn set_print_area_encodes() {
    let area = PrintArea {
        x: 0,
        y: 0,
        width: 512,
        height: 400,
    };
    let cmd = SetPrintArea(area);
    let encoded = cmd.encode();
    assert_eq!(encoded.len(), 10);
    assert_eq!(encoded[0..2], [0x1B, b'W']);
}

#[test]
fn set_print_area_default_80mm_bytes() {
    let encoded = SetPrintArea(PrintArea::default_80mm()).encode();
    assert_eq!(encoded, vec![0x1B, b'W', 0, 0, 0, 0, 0x00, 0x02, 0x7E, 0x06]);
    assert_eq!(PrintArea::default_58mm().width, 360);
}

#[test]
fn set_vertical_position_encodes() {
    let cmd = SetVerticalPosition(256);
    assert_eq!(cmd.encode(), vec![0x1D, b'$', 0, 1]);
}

#[test]
fn set_horizontal_position_encodes() {
    let cmd = SetHorizontalPosition(256);
    assert_eq!(cmd.encode(), vec![0x1B, b'$', 0, 1]);
}

// ---------------------------------------------------------------- spacing

#[test]
fn set_default_line_spacing_encodes() {
    let cmd = SetDefaultLineSpacing;
    assert_eq!(cmd.encode(), vec![0x1B, b'2']);
}

#[test]
fn set_line_spacing_encodes() {
    let cmd = SetLineSpacing(60);
    assert_eq!(cmd.encode(), vec![0x1B, b'3', 60]);
}

#[test]
fn set_right_spacing_encodes() {
    let cmd = SetRightSpacing(5);
    assert_eq!(cmd.encode(), vec![0x1B, b' ', 5]);
}

#[test]
fn set_horizontal_tabs_encodes() {
    let cmd = SetHorizontalTabs {
        positions: vec![8, 16, 24],
    };
    assert_eq!(cmd.encode(), vec![0x1B, b'D', 8, 16, 24, 0]);
}

#[test]
fn set_horizontal_tabs_clear() {
    let cmd = SetHorizontalTabs::clear();
    assert_eq!(cmd.encode(), vec![0x1B, b'D', 0]);
}

#[test]
fn set_absolute_position_encodes() {
    let cmd = SetAbsolutePosition(256);
    assert_eq!(cmd.encode(), vec![0x1B, b'$', 0, 1]);
}

#[test]
fn set_relative_position_positive() {
    let cmd = SetRelativePosition(100);
    assert_eq!(cmd.encode(), vec![0x1B, b'\\', 100, 0]);
}

#[test]
fn set_relative_position_negative() {
    let cmd = SetRelativePosition(-100);
    assert_eq!(cmd.encode(), vec![0x1B, b'\\', 0x9C, 0xFF]);
}

#[test]
fn set_relative_position_extremes() {
    assert_eq!(SetRelativePosition(i16::MIN).encode(), vec![0x1B, b'\\', 0x00, 0x80]);
    assert_eq!(SetRelativePosition(-1).encode(), vec![0x1B, b'\\', 0xFF, 0xFF]);
    assert_eq!(SetRelativePosition(i16::MAX).encode(), vec![0x1B, b'\\', 0xFF, 0x7F]);
}

#[test]
fn set_left_margin_encodes() {
    let cmd = SetLeftMargin(50);
    assert_eq!(cmd.encode(), vec![0x1D, b'L', 50, 0]);
}

#[test]
fn set_printing_width_encodes() {
    let cmd = SetPrintingWidth(512);
    assert_eq!(cmd.encode(), vec![0x1D, b'W', 0, 2]);
}

// ---------------------------------------------------------------- status

#[test]
fn status_type_values() {
    assert_eq!(StatusType::Printer.as_byte(), 1);
    assert_eq!(StatusType::Offline.as_byte(), 2);
    assert_eq!(StatusType::Error.as_byte(), 3);
    assert_eq!(StatusType::PaperRoll.as_byte(), 4);
}

#[test]
fn transmit_status_encodes() {
    let cmd = TransmitStatus(StatusType::Printer);
    assert_eq!(cmd.encode(), vec![0x10, 0x04, 1]);
}

#[test]
fn printer_status_parses() {
    let status = PrinterStatus::parse(0x00);
    assert!(!status.drawer_open);
    assert!(status.online);

    let status = PrinterStatus::parse(0x0C);
    assert!(status.drawer_open);
    assert!(!status.online);
}

#[test]
fn other_status_bytes_parse() {
    let offline = OfflineStatus::parse(0x6C);
    assert!(offline.cover_open && offline.paper_feeding && offline.recoverable_error && offline.cutter_error);
    let error = ErrorStatus::parse(0x28);
    assert!(!error.recoverable_error && error.cutter_error && error.unrecoverable_error);
    let paper = PaperRollStatus::parse(0x0C);
    assert!(paper.paper_near_end && !paper.paper_end);
    assert!(!PrinterStatus::parse(0x60).paper_present);
    assert!(PrinterStatus::parse(0x20).paper_present);
}

#[test]
fn asb_flags_to_byte() {
    assert_eq!(AsbFlags::none().to_byte(), 0);
    assert_eq!(AsbFlags::all().to_byte(), 0x0F);

    let flags = AsbFlags {
        drawer: true,
        online_offline: false,
        error: true,
        paper_roll: false,
    };
    assert_eq!(flags.to_byte(), 0x05);
}

#[test]
fn enable_asb_encodes() {
    let cmd = EnableAsb(AsbFlags::all());
    assert_eq!(cmd.encode(), vec![0x1D, b'a', 0x0F]);
}

#[test]
fn transmit_status_parses_response() {
    let cmd = TransmitStatus(StatusType::Printer);
    let response = cmd.parse_response(&[0x00]).unwrap();
    assert!(matches!(response, StatusResponse::Printer(_)));
}

#[test]
fn transmit_status_empty_response_is_error() {
    let cmd = TransmitStatus(StatusType::PaperRoll);
    assert_eq!(cmd.parse_response(&[]), Err(StatusParseError::EmptyResponse));
    assert_eq!(
        cmd.parse_response(&[0x60, 0x00]),
        Ok(StatusResponse::PaperRoll(PaperRollStatus { paper_near_end: false, paper_end: true }))
    );
}

// ---------------------------------------------------------------- symbols

#[test]
fn qr_model_values() {
    assert_eq!(QrModel::Model1.as_byte(), 49);
    assert_eq!(QrModel::Model2.as_byte(), 50);
}

#[test]
fn qr_error_correction_values() {
    assert_eq!(QrErrorCorrection::L.as_byte(), 48);
    assert_eq!(QrErrorCorrection::H.as_byte(), 51);
}

#[test]
fn qr_code_creates_with_defaults() {
    let qr = PrintQrCode::new(b"test".to_vec()).unwrap();
    assert_eq!(qr.model, QrModel::Model2);
    assert_eq!(qr.module_size, QrModuleSize::Size3);
    assert_eq!(qr.error_correction, QrErrorCorrection::L);
}

#[test]
fn qr_module_size_values() {
    assert_eq!(QrModuleSize::Size1.as_byte(), 1);
    assert_eq!(QrModuleSize::Size8.as_byte(), 8);
}

#[test]
fn qr_code_rejects_empty() {
    let result = PrintQrCode::new(vec![]);
    assert!(matches!(result, Err(QrCodeError::EmptyData)));
}

#[test]
fn qr_code_length_limit() {
    assert!(PrintQrCode::new(vec![b'x'; 7089]).is_ok());
    assert!(matches!(PrintQrCode::new(vec![b'x'; 7090]), Err(QrCodeError::DataTooLong(7090))));
}

#[test]
fn qr_code_encodes_commands() {
    let qr = PrintQrCode::new(b"Hello".to_vec()).unwrap();
    let encoded = qr.encode();
    assert!(encoded.windows(3).any(|w| w == [GS, b'(', b'k']));
    assert!(encoded.windows(5).any(|w| w == *b"Hello"));
}

#[test]
fn test_qr_code_hello() {
    let qr = PrintQrCode::new(b"Hello".to_vec()).unwrap();
    let expected = vec![
        0x1D, b'(', b'k', 0x04, 0x00, b'1', b'A', b'2', 0x00,
        0x1D, b'(', b'k', 0x03, 0x00, b'1', b'C', 0x03,
        0x1D, b'(', b'k', 0x03, 0x00, b'1', b'E', b'0',
        0x1D, b'(', b'k', 0x08, 0x00, b'1', b'P', b'0', b'H', b'e', b'l', b'l', b'o',
        0x1D, b'(', b'k', 0x03, 0x00, b'1', b'Q', b'0',
    ];
    assert_eq!(qr.encode(), expected);
}

#[test]
fn qr_code_builders_encode_exactly() {
    let qr = PrintQrCode::new(b"Hello".to_vec())
        .unwrap()
        .with_model(QrModel::Model2)
        .with_module_size(QrModuleSize::Size4)
        .with_error_correction(QrErrorCorrection::M);
    let mut expected = vec![
        0x1D, b'(', b'k', 4, 0, 49, 65, 50, 0,
        0x1D, b'(', b'k', 3, 0, 49, 67, 4,
        0x1D, b'(', b'k', 3, 0, 49, 69, 49,
        0x1D, b'(', b'k', 8, 0, 49, 80, 48,
    ];
    expected.extend_from_slice(b"Hello");
    expected.extend_from_slice(&[0x1D, b'(', b'k', 3, 0, 49, 81, 48]);
    assert_eq!(qr.encode(), expected);
}

#[test]
fn qr_code_long_data_length_bytes() {
    let qr = PrintQrCode::new(vec![0; 300]).unwrap();
    let encoded = qr.encode();
    assert_eq!(&encoded[25..33], &[0x1D, b'(', b'k', 0x2F, 0x01, 49, 80, 48]);
}

#[test]
fn pdf417_module_size_values() {
    assert_eq!(Pdf417ModuleSize::Size2.as_byte(), 2);
    assert_eq!(Pdf417ModuleSize::Size8.as_byte(), 8);
}

#[test]
fn pdf417_columns_valid() {
    assert_eq!(Pdf417Columns::Auto.as_byte(), 0);
    assert_eq!(Pdf417Columns::manual(1).unwrap().as_byte(), 1);
    assert_eq!(Pdf417Columns::manual(15).unwrap().as_byte(), 15);
    assert_eq!(Pdf417Columns::manual(30).unwrap().as_byte(), 30);
}

#[test]
fn pdf417_columns_invalid() {
    assert!(matches!(Pdf417Columns::manual(0), Err(Pdf417Error::InvalidColumnCount(0))));
    assert!(matches!(Pdf417Columns::manual(31), Err(Pdf417Error::InvalidColumnCount(31))));
}

#[test]
fn pdf417_rows_valid() {
    assert_eq!(Pdf417Rows::Auto.as_byte(), 0);
    assert_eq!(Pdf417Rows::manual(3).unwrap().as_byte(), 3);
    assert_eq!(Pdf417Rows::manual(45).unwrap().as_byte(), 45);
    assert_eq!(Pdf417Rows::manual(90).unwrap().as_byte(), 90);
}

#[test]
fn pdf417_rows_invalid() {
    assert!(matches!(Pdf417Rows::manual(2), Err(Pdf417Error::InvalidRowCount(2))));
    assert!(matches!(Pdf417Rows::manual(91), Err(Pdf417Error::InvalidRowCount(91))));
}

#[test]
fn pdf417_creates_with_defaults() {
    let pdf = PrintPdf417::new(b"test".to_vec());
    assert_eq!(pdf.columns, Pdf417Columns::Auto);
    assert_eq!(pdf.rows, Pdf417Rows::Auto);
    assert_eq!(pdf.module_width, Pdf417ModuleSize::Size3);
    assert_eq!(pdf.module_height, Pdf417ModuleSize::Size3);
}

#[test]
fn pdf417_encodes_commands() {
    let pdf = PrintPdf417::new(b"Hello".to_vec());
    let encoded = pdf.encode();
    assert!(encoded.windows(3).any(|w| w == [GS, b'(', b'k']));
    assert!(encoded.windows(5).any(|w| w == *b"Hello"));
}

#[test]
fn pdf417_builders_encode_exactly() {
    let pdf = PrintPdf417::new(b"AB".to_vec())
        .with_columns(Pdf417Columns::manual(4).unwrap())
        .with_rows(Pdf417Rows::manual(10).unwrap())
        .with_module_width(Pdf417ModuleSize::Size2)
        .with_module_height(Pdf417ModuleSize::Size5)
        .with_error_correction(Pdf417ErrorCorrection::Level8);
    let mut expected = vec![
        0x1D, b'(', b'k', 3, 0, 48, 65, 4,
        0x1D, b'(', b'k', 3, 0, 48, 66, 10,
        0x1D, b'(', b'k', 3, 0, 48, 67, 2,
        0x1D, b'(', b'k', 3, 0, 48, 68, 5,
        0x1D, b'(', b'k', 4, 0, 48, 69, 48, 56,
        0x1D, b'(', b'k', 5, 0, 48, 80, 48,
    ];
    expected.extend_from_slice(b"AB");
    expected.extend_from_slice(&[0x1D, b'(', b'k', 3, 0, 48, 81, 48]);
    assert_eq!(pdf.encode(), expected);
}
