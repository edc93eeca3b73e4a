use posify::barcode::{BarcodeType, Font, TextPosition};
use posify::printer::{
    check_transfer, paper_loaded, printer_from_ids, printer_from_manufacturer, Commands, Error,
    StatusError, SupportedPrinters,
};
use posify::status::{
    epic_poll_command, epic_status, snbc_status, unchecked_status, PollReply, StatusQuery,
};

fn cmds(printer: SupportedPrinters) -> Commands {
    Commands::new(printer)
}

fn ok_reply(byte: u8) -> PollReply {
    PollReply { written: true, transferred: Some(1), byte }
}

#[test]
fn snbc_code128_odd_length_uses_code_set_b() {
    let r = cmds(SupportedPrinters::SNBC)
        .barcode("0123456", BarcodeType::Code128, TextPosition::Below, Font::FontA, 2, 0x40)
        .unwrap();
    let mut expected = vec![
        0x1d, 0x77, 0x02, 0x1d, 0x68, 0x40, 0x1d, 0x48, 0x02, 0x1d, 0x66, 0x00, 0x1d, 0x6b, 0x49,
    ];
    expected.extend_from_slice(&[9, 0x7b, 0x42]);
    expected.extend_from_slice(b"0123456");
    assert_eq!(r, expected);
}

#[test]
fn snbc_code128_even_digits_use_code_set_c() {
    let r = cmds(SupportedPrinters::SNBC)
        .barcode("1234", BarcodeType::Code128, TextPosition::Off, Font::Standard, 9, 0xa2)
        .unwrap();
    let expected = vec![
        0x1d, 0x77, 0x02, 0x1d, 0x68, 0xa2, 0x1d, 0x48, 0x00, 0x1d, 0x66, 0x00, 0x1d, 0x6b, 0x49,
        4, 0x7b, 0x43, 12, 34,
    ];
    assert_eq!(r, expected);
}

#[test]
fn epic_barcode_has_fixed_header_and_nul() {
    let r = cmds(SupportedPrinters::Epic)
        .barcode("AB12", BarcodeType::EAN13, TextPosition::Above, Font::FontB, 5, 10)
        .unwrap();
    let expected = vec![
        0x1d, 0x48, 0x02, 0x1d, 0x77, 0x02, 0x1d, 0x6b, 0x49, 4, b'A', b'B', b'1', b'2', 0x00,
    ];
    assert_eq!(r, expected);
}

#[test]
fn barcode_unsupported_combinations() {
    let p3 = cmds(SupportedPrinters::P3);
    assert_eq!(
        p3.barcode("12", BarcodeType::Code128, TextPosition::Off, Font::FontA, 2, 2),
        Err(Error::Unsupported)
    );
    let snbc = cmds(SupportedPrinters::SNBC);
    assert_eq!(
        snbc.barcode("12", BarcodeType::EAN13, TextPosition::Off, Font::FontA, 2, 2),
        Err(Error::Unsupported)
    );
}

#[test]
fn snbc_status_offline_and_door_open() {
    let mut buf = [0u8; 16];
    buf[0] = 0b0010_1000;
    assert_eq!(
        snbc_status(Some(buf)),
        Err(vec![StatusError::Offline, StatusError::DoorOpen])
    );
}

#[test]
fn snbc_status_other_bits() {
    let buf = [0u8; 16];
    assert_eq!(snbc_status(Some(buf)), Err(vec![StatusError::Online]));
    let mut buf = [0u8; 16];
    buf[0] = 0b0100_0000;
    buf[1] = 0b0110_1000;
    buf[2] = 0b0000_1111;
    assert_eq!(
        snbc_status(Some(buf)),
        Err(vec![
            StatusError::Online,
            StatusError::PaperFeed,
            StatusError::AutoCutter,
            StatusError::Recoverable,
            StatusError::AutomaticallyRecoverable,
            StatusError::PaperNearEnd,
            StatusError::PaperEnd,
        ])
    );
    // One bit of a two bit field is not enough.
    let mut buf = [0u8; 16];
    buf[0] = 0b0000_1000;
    buf[2] = 0b0000_0101;
    buf[3] = 0xff;
    assert_eq!(snbc_status(Some(buf)), Err(vec![StatusError::Offline]));
}

#[test]
fn snbc_status_failed_read() {
    assert_eq!(snbc_status(None), Err(vec![StatusError::Communication]));
}

#[test]
fn epic_status_from_poll_bytes() {
    let replies = [ok_reply(0x08), ok_reply(0x24), ok_reply(0x08), ok_reply(0x00)];
    assert_eq!(
        epic_status(&replies),
        Err(vec![
            StatusError::Offline,
            StatusError::DoorOpen,
            StatusError::PaperEnd,
            StatusError::AutoCutter,
        ])
    );
}

#[test]
fn epic_status_all_clear() {
    let replies = [ok_reply(0), ok_reply(0), ok_reply(0), ok_reply(0xff)];
    assert_eq!(epic_status(&replies), Ok(()));
}

#[test]
fn epic_status_keeps_polling_after_failures() {
    let replies = [
        PollReply { written: false, transferred: None, byte: 0 },
        ok_reply(0),
        PollReply { written: true, transferred: Some(2), byte: 0 },
        ok_reply(0),
    ];
    assert_eq!(
        epic_status(&replies),
        Err(vec![
            StatusError::Communication,
            StatusError::Communication,
            StatusError::Communication,
        ])
    );
    let replies = [ok_reply(0x08), PollReply { written: true, transferred: Some(0), byte: 0 }, ok_reply(0), ok_reply(0)];
    assert_eq!(
        epic_status(&replies),
        Err(vec![StatusError::Communication, StatusError::Offline])
    );
}

#[test]
fn epic_poll_commands() {
    assert_eq!(epic_poll_command(1), [0x1b, 0x40, 0x10, 0x04, 1]);
    assert_eq!(epic_poll_command(4), [0x1b, 0x40, 0x10, 0x04, 4]);
}

#[test]
fn status_query_per_dialect() {
    assert_eq!(cmds(SupportedPrinters::SNBC).status_query(), StatusQuery::Read);
    assert_eq!(cmds(SupportedPrinters::Epic).status_query(), StatusQuery::Poll);
    assert_eq!(cmds(SupportedPrinters::P3).status_query(), StatusQuery::Unchecked);
    assert_eq!(cmds(SupportedPrinters::Unknown).status_query(), StatusQuery::Unchecked);
}

#[test]
fn style_tokens() {
    let c = cmds(SupportedPrinters::SNBC);
    assert_eq!(c.style("BU"), vec![0x1b, 0x45, 0x01, 0x1b, 0x2d, 0x01]);
    assert_eq!(c.style("bu"), vec![0x1b, 0x45, 0x01, 0x1b, 0x2d, 0x01]);
    assert_eq!(c.style("b"), vec![0x1b, 0x2d, 0x00, 0x1b, 0x45, 0x01]);
    assert_eq!(c.style("U"), vec![0x1b, 0x45, 0x00, 0x1b, 0x2d, 0x01]);
    assert_eq!(c.style("u2"), vec![0x1b, 0x45, 0x00, 0x1b, 0x2d, 0x02]);
    assert_eq!(c.style("BU2"), vec![0x1b, 0x45, 0x01, 0x1b, 0x2d, 0x02]);
    assert_eq!(c.style("normal"), vec![0x1b, 0x45, 0x00, 0x1b, 0x2d, 0x00]);
    assert_eq!(c.style("sparkly"), vec![0x1b, 0x45, 0x00, 0x1b, 0x2d, 0x00]);
    assert_eq!(c.style(""), vec![0x1b, 0x45, 0x00, 0x1b, 0x2d, 0x00]);
}

#[test]
fn underline_tokens() {
    let c = cmds(SupportedPrinters::P3);
    assert_eq!(c.underline_mode(None), vec![0x1b, 0x2d, 0x00]);
    assert_eq!(c.underline_mode(Some("off")), vec![0x1b, 0x2d, 0x00]);
    assert_eq!(c.underline_mode(Some("on")), vec![0x1b, 0x2d, 0x01]);
    assert_eq!(c.underline_mode(Some("thick")), vec![0x1b, 0x2d, 0x02]);
    assert_eq!(c.underline_mode(Some("wavy")), vec![0x1b, 0x2d, 0x00]);
}

#[test]
fn align_font_and_control_tokens() {
    let c = cmds(SupportedPrinters::SNBC);
    assert_eq!(c.align("ct"), Ok(vec![0x1b, 0x61, 0x01]));
    assert_eq!(c.align("LT"), Ok(vec![0x1b, 0x61, 0x00]));
    assert_eq!(c.align("rt"), Ok(vec![0x1b, 0x61, 0x02]));
    assert_eq!(c.align("middle"), Err(Error::InvalidArgument));
    assert_eq!(c.font("a"), Ok(vec![0x1b, 0x4d, 0x00]));
    assert_eq!(c.font("B"), Ok(vec![0x1b, 0x4d, 0x01]));
    assert_eq!(c.font("c"), Ok(vec![0x1b, 0x4d, 0x02]));
    assert_eq!(c.font("d"), Err(Error::InvalidArgument));
    assert_eq!(c.control("lf"), Ok(vec![0x0a]));
    assert_eq!(c.control("FF"), Ok(vec![0x0c]));
    assert_eq!(c.control("cr"), Ok(vec![0x0d]));
    assert_eq!(c.control("ht"), Ok(vec![0x09]));
    assert_eq!(c.control("vt"), Ok(vec![0x0b]));
    assert_eq!(c.control("bel"), Err(Error::Unsupported));
}

#[test]
fn simple_commands() {
    let c = cmds(SupportedPrinters::SNBC);
    assert_eq!(c.hwinit(), vec![0x1b, 0x40]);
    assert_eq!(c.char_size(0x11), vec![0x1d, 0x21, 0x11]);
    assert_eq!(c.line_space(10), vec![0x1b, 0x33, 10]);
    assert_eq!(c.line_space(255), vec![0x1b, 0x33, 255]);
    assert_eq!(c.line_space(256), vec![0x1b, 0x32]);
    assert_eq!(c.line_space(-1), vec![0x1b, 0x32]);
    assert_eq!(c.feed(0), vec![0x0a]);
    assert_eq!(c.feed(3), vec![0x0a, 0x0a, 0x0a]);
    assert_eq!(c.hr(0), vec![0xc4, 0x0a]);
    assert_eq!(c.hr(3), vec![0xc4, 0xc4, 0xc4, 0x0a]);
    assert_eq!(c.size(1, 1), vec![0x1b, 0x21, 0x00]);
    assert_eq!(c.size(2, 2), vec![0x1b, 0x21, 0x00, 0x1b, 0x21, 0x20, 0x1b, 0x21, 0x10]);
    assert_eq!(c.size(1, 2), vec![0x1b, 0x21, 0x00, 0x1b, 0x21, 0x10]);
    assert_eq!(c.cashdraw(5), vec![0x1b, 0x70, 0x01]);
    assert_eq!(c.cashdraw(2), vec![0x1b, 0x70, 0x00]);
    assert_eq!(c.cashdraw(7), vec![0x1b, 0x70, 0x00]);
    assert_eq!(c.automatic_status_back(), vec![0x1d, 0x61, 0x01]);
    assert_eq!(c.set_paper_end_limit(), vec![0x1d, 0xe6, 0x00, 0x00]);
    assert!(c.has_asb_capability());
    assert!(!cmds(SupportedPrinters::P3).has_asb_capability());
}

#[test]
fn enable_disable_per_dialect() {
    assert_eq!(cmds(SupportedPrinters::SNBC).enable(), Ok(vec![0x1b, 0x3d, 0x01]));
    assert_eq!(cmds(SupportedPrinters::P3).enable(), Ok(vec![0x1b, 0x3d, 0x01]));
    assert_eq!(cmds(SupportedPrinters::Epic).enable(), Err(Error::Unsupported));
    assert_eq!(cmds(SupportedPrinters::SNBC).disable(), Ok(vec![0x1b, 0x3d, 0x00]));
    assert_eq!(cmds(SupportedPrinters::P3).disable(), Ok(vec![0x1b, 0x3d, 0x02]));
    assert_eq!(cmds(SupportedPrinters::Unknown).disable(), Err(Error::Unsupported));
}

#[test]
fn cuts_per_dialect() {
    let full = vec![0x0a, 0x0a, 0x0a, 0x1d, 0x56, 0x00];
    let partial = vec![0x0a, 0x0a, 0x0a, 0x1d, 0x56, 0x01];
    assert_eq!(cmds(SupportedPrinters::SNBC).full_cut(), Ok(full.clone()));
    assert_eq!(cmds(SupportedPrinters::Epic).full_cut(), Ok(full));
    assert_eq!(cmds(SupportedPrinters::P3).full_cut(), Err(Error::Unsupported));
    assert_eq!(cmds(SupportedPrinters::SNBC).partial_cut(), Ok(partial.clone()));
    assert_eq!(cmds(SupportedPrinters::Epic).partial_cut(), Ok(partial));
    assert_eq!(
        cmds(SupportedPrinters::P3).partial_cut(),
        Ok(vec![0x0a, 0x0a, 0x0a, 0x1b, 0x6d])
    );
    assert_eq!(cmds(SupportedPrinters::Unknown).partial_cut(), Err(Error::Unsupported));
    assert_eq!(cmds(SupportedPrinters::Epic).cut_settle_seconds(), 3);
    assert_eq!(cmds(SupportedPrinters::SNBC).cut_settle_seconds(), 0);
}

#[test]
fn query_commands() {
    let p3 = cmds(SupportedPrinters::P3);
    assert_eq!(p3.serial_request(), Ok(vec![0x1c, 0xea, 0x52]));
    assert_eq!(cmds(SupportedPrinters::SNBC).serial_request(), Err(Error::Unsupported));
    assert_eq!(p3.cut_count_request(), vec![0x1d, 0xe2]);
    assert_eq!(p3.rom_version_request(), vec![0x1d, 0x49, 0x03]);
    assert_eq!(p3.power_count_request(), vec![0x1d, 0xe5]);
    assert_eq!(p3.printed_length_request(), vec![0x1d, 0xe3]);
    assert_eq!(p3.remaining_paper_request(), vec![0x1d, 0xe1]);
    assert_eq!(p3.paper_loaded_request(), vec![0x1d, 0x72, 0x01]);
    assert!(paper_loaded(0x00));
    assert!(!paper_loaded(0x01));
}

#[test]
fn dialect_from_device_strings() {
    assert_eq!(printer_from_manufacturer("SNBC Ltd"), Some(SupportedPrinters::SNBC));
    assert_eq!(printer_from_manufacturer("Custom SpA"), Some(SupportedPrinters::P3));
    assert_eq!(printer_from_manufacturer("TransAct Technologies"), Some(SupportedPrinters::Epic));
    assert_eq!(printer_from_manufacturer("Custom"), None);
    assert_eq!(printer_from_manufacturer("snbc"), None);
    assert_eq!(printer_from_manufacturer(""), None);
    assert_eq!(printer_from_ids(0x154f, 0x154f), Some(SupportedPrinters::SNBC));
    assert_eq!(printer_from_ids(0x154f, 0x0517), None);
}

#[test]
fn short_transfer_is_timeout() {
    assert_eq!(check_transfer(5, 5), Ok(5));
    assert_eq!(check_transfer(5, 3), Err(Error::Timeout));
    assert_eq!(check_transfer(0, 0), Ok(0));
}

#[test]
fn unchecked_status_is_fine() {
    assert_eq!(unchecked_status(), Ok(()));
}

#[test]
fn snbc_barcode_height_zero_is_sent_as_one() {
    let r = cmds(SupportedPrinters::SNBC)
        .barcode("12", BarcodeType::Code128, TextPosition::Off, Font::FontA, 2, 0)
        .unwrap();
    assert_eq!(r[3..6].to_vec(), vec![0x1d, 0x68, 0x01]);
}
