//! Printer dialects and the command encoder.
use vstd::prelude::*;
use vstd::string::StringSliceAdditionalSpecFns;

use crate::img::{band, row_bytes, Image};
use crate::status::StatusQuery;
use crate::tokens::{
    align_byte, align_for, band_depth, bitmap_header, bitmap_mode_for, control_byte, control_for,
    font_family_byte, font_for, has_prefix, raster_header_for, raster_mode, starts_with,
    style_bytes, style_for, to_upper, underline_bytes, underline_for, uppercase_of,
};
use crate::barcode::{
    all_ascii_digits, all_digits, codeset_c, digit_pairs, selectors, Barcode, BarcodeType, Font,
    TextPosition,
};

verus! {

/// The printer dialects that this library knows.
#[derive(Clone, Copy, Debug, PartialEq, Eq, Structural)]
pub enum SupportedPrinters {
    /// SNBC class printers (tested on the BTP-R880NPV).
    SNBC,
    /// Custom P3 class printers.
    P3,
    /// TransAct Epic class printers.
    Epic,
    /// A printer whose dialect is not known.
    Unknown,
}

/// Errors that the command encoder decides. Transport failures are reported
/// by the code that owns the transport.
#[derive(Clone, Copy, Debug, PartialEq, Eq, Structural)]
pub enum Error {
    InvalidIndex,
    InvalidArgument,
    NoLanguages,
    InvalidEndpoints,
    Timeout,
    NotFound,
    Unsupported,
}

/// A condition that a status reply reports.
#[derive(Clone, Copy, Debug, PartialEq, Eq, Structural, Hash)]
pub enum StatusError {
    Communication,
    Online,
    Offline,
    DoorOpen,
    PaperFeed,
    AutoCutter,
    Recoverable,
    AutomaticallyRecoverable,
    PaperNearEnd,
    PaperEnd,
}

/// What a USB device tells of itself.
#[derive(Clone, Debug)]
pub struct UsbInfo {
    pub vendor_id: u16,
    pub product_id: u16,
    pub manufacturer: String,
    pub product: String,
}

/// Appends `bytes` to `out`.
pub fn push_all(out: &mut Vec<u8>, bytes: &[u8])
    ensures
        final(out)@ == old(out)@ + bytes@,
{
    let n = bytes.len();
    let mut i: usize = 0;
    while i < n
        invariant
            n == bytes@.len(),
            i <= n,
            out@ == old(out)@ + bytes@.take(i as int),
        decreases n - i,
    {
        out.push(bytes[i]);
        i = i + 1;
        assert(bytes@.take(i as int) =~= bytes@.take(i - 1) + seq![bytes@[i - 1]]);
    }
    assert(bytes@.take(n as int) =~= bytes@);
}

/// The Code128 payload of the SNBC dialect: Code Set C where the text is an
/// even number of digits, Code Set B (the text unchanged) otherwise.
pub open spec fn code128_payload(text: Seq<u8>) -> Seq<u8> {
    if text.len() % 2 == 0 && all_digits(text) {
        seq![0x7bu8, 0x43u8] + codeset_c(text)
    } else {
        seq![0x7bu8, 0x42u8] + text
    }
}

/// The payload block: a one byte length, then the payload.
pub open spec fn code128_block(text: Seq<u8>) -> Seq<u8> {
    seq![code128_payload(text).len() as u8] + code128_payload(text)
}

/// The bytes of a barcode command, or `None` where the dialect cannot print
/// that barcode.
pub open spec fn barcode_bytes(
    printer: SupportedPrinters,
    text: Seq<u8>,
    kind: BarcodeType,
    position: TextPosition,
    font: Font,
    width: u8,
    height: u8,
) -> Option<Seq<u8>> {
    if kind == BarcodeType::Code128 && printer == SupportedPrinters::SNBC {
        Some(
            selectors(Barcode { printer, width, height, font, kind, position })->Some_0
                + code128_block(text),
        )
    } else if printer == SupportedPrinters::Epic {
        Some(
            seq![0x1du8, 0x48u8, 0x02u8, 0x1du8, 0x77u8, 0x02u8, 0x1du8, 0x6bu8, 0x49u8, text.len() as u8]
                + text + seq![0x00u8],
        )
    } else {
        None
    }
}

/// `n` in little endian order.
pub open spec fn le16(n: u16) -> Seq<u8> {
    seq![(n & 0xff) as u8, (n >> 8) as u8]
}

/// Relies on byteorder's `LittleEndian::write_u16`, which stores the low
/// byte of `n`, then the high byte.
#[verifier::external_body]
fn u16_le(n: u16) -> (r: [u8; 2])
    ensures
        r@ == le16(n),
{
    let mut buf = [0u8; 2];
    <byteorder::LittleEndian as byteorder::ByteOrder>::write_u16(&mut buf, n);
    buf
}

/// One band of a bit image: the header, the column count, the band, and a
/// line feed.
pub open spec fn band_command(header: Seq<u8>, k: nat, b: Seq<u8>) -> Seq<u8> {
    header + le16((b.len() / k) as u16) + b + seq![0x0au8]
}

/// The bands of `8 * k` rows from row `top` to the bottom of the image.
pub open spec fn bands_from(img: &Image, header: Seq<u8>, k: nat, top: int) -> Seq<u8>
    decreases (if top < img.spec_height() {
        img.spec_height() - top
    } else {
        0
    }),
{
    if top >= img.spec_height() || k == 0 {
        seq![]
    } else {
        band_command(header, k, band(img, top, k)) + bands_from(img, header, k, top + 8 * k)
    }
}

/// Line spacing zero, so that the bands abut, then every band of `8 * k`
/// rows, each under `header`.
pub open spec fn bit_image_bytes(img: &Image, header: Seq<u8>, k: nat) -> Seq<u8> {
    seq![0x1bu8, 0x33u8, 0x00u8] + bands_from(img, header, k, 0)
}

/// An image more than one band tall and at most two bands tall is sent as
/// exactly two band commands, each followed by one line feed: the first
/// `8 * k` rows, then the rows left (the rows of the second band below the
/// image print no dots, see `pixel`).
pub proof fn lemma_two_bands(img: &Image, header: Seq<u8>, k: nat)
    requires
        1 <= k,
        8 * k < img.spec_height() <= 16 * k,
    ensures
        bands_from(img, header, k, 0) == band_command(header, k, band(img, 0, k)) + band_command(
            header,
            k,
            band(img, (8 * k) as int, k),
        ),
{
    assert(bands_from(img, header, k, (16 * k) as int) == Seq::<u8>::empty());
    assert(bands_from(img, header, k, (8 * k) as int) =~= band_command(header, k, band(img, (8 * k) as int, k)));
    assert(bands_from(img, header, k, 0) == band_command(header, k, band(img, 0, k)) + bands_from(
        img,
        header,
        k,
        (8 * k) as int,
    ));
}

/// A raster image with scale byte `mode`.
pub open spec fn raster_bytes(img: &Image, mode: u8) -> Seq<u8> {
    seq![0x1du8, 0x76u8, 0x30u8, mode] + le16(
        row_bytes(img.spec_width()) as u16,
    ) + le16(img.spec_height() as u16) + img.spec_raster()
}

pub open spec fn repeat(b: u8, n: nat) -> Seq<u8> {
    Seq::new(n, |i: int| b)
}

fn repeated(b: u8, n: usize) -> (r: Vec<u8>)
    ensures
        r@ == repeat(b, n as nat),
{
    let mut out: Vec<u8> = Vec::new();
    let mut i: usize = 0;
    while i < n
        invariant
            i <= n,
            out@ == repeat(b, i as nat),
        decreases n - i,
    {
        out.push(b);
        i = i + 1;
        assert(out@ =~= repeat(b, i as nat));
    }
    out
}

pub open spec fn at_least_one(n: usize) -> nat {
    if n < 1 {
        1
    } else {
        n as nat
    }
}

pub open spec fn size_bytes(width: usize, height: usize) -> Seq<u8> {
    seq![0x1bu8, 0x21u8, 0x00u8] + (if width == 2 {
        seq![0x1bu8, 0x21u8, 0x20u8]
    } else {
        seq![]
    }) + (if height == 2 {
        seq![0x1bu8, 0x21u8, 0x10u8]
    } else {
        seq![]
    })
}

/// The dialect that a USB manufacturer string names.
pub open spec fn manufacturer_printer(m: Seq<char>) -> Option<SupportedPrinters> {
    if starts_with(m, "SNBC"@) {
        Some(SupportedPrinters::SNBC)
    } else if starts_with(m, "Custom SpA"@) {
        Some(SupportedPrinters::P3)
    } else if starts_with(m, "TransAct"@) {
        Some(SupportedPrinters::Epic)
    } else {
        None
    }
}

/// The dialect of a printer by its manufacturer string.
pub fn printer_from_manufacturer(m: &str) -> (r: Option<SupportedPrinters>)
    ensures
        r == manufacturer_printer(m@),
{
    if has_prefix(m, "SNBC") {
        Some(SupportedPrinters::SNBC)
    } else if has_prefix(m, "Custom SpA") {
        Some(SupportedPrinters::P3)
    } else if has_prefix(m, "TransAct") {
        Some(SupportedPrinters::Epic)
    } else {
        None
    }
}

/// The dialect of a printer known by its USB ids alone: SNBC printers in API
/// mode have no manufacturer string.
pub fn printer_from_ids(vendor_id: u16, product_id: u16) -> (r: Option<SupportedPrinters>)
    ensures
        r == (if vendor_id == 0x154f && product_id == 0x154f {
            Some(SupportedPrinters::SNBC)
        } else {
            None
        }),
{
    if vendor_id == 0x154f && product_id == 0x154f {
        Some(SupportedPrinters::SNBC)
    } else {
        None
    }
}

/// Whether the one byte reply to a paper query says that paper is loaded.
pub fn paper_loaded(reply: u8) -> (r: bool)
    ensures
        r == (reply == 0),
{
    reply == 0
}

/// A transfer of `transferred` bytes out of `requested`: a short one is a
/// timeout.
pub fn check_transfer(requested: usize, transferred: usize) -> (r: Result<usize, Error>)
    ensures
        r == (if transferred == requested {
            Ok::<usize, Error>(requested)
        } else {
            Err(Error::Timeout)
        }),
{
    if transferred != requested {
        Err(Error::Timeout)
    } else {
        Ok(transferred)
    }
}

/// The command encoder of one printer dialect. Each method gives the bytes
/// that one operation sends to the printer.
#[derive(Clone, Copy, Debug, PartialEq, Eq, Structural)]
pub struct Commands {
    pub printer: SupportedPrinters,
}

impl Commands {
    pub fn new(printer: SupportedPrinters) -> (r: Commands)
        ensures
            r.printer == printer,
    {
        Commands { printer }
    }

    /// Reset to the power-on defaults; the receive buffer is kept.
    pub fn hwinit(&self) -> (r: Vec<u8>)
        ensures
            r@ == seq![0x1bu8, 0x40u8],
    {
        vec![0x1b, 0x40]
    }

    /// Enable the printer.
    pub fn enable(&self) -> (r: Result<Vec<u8>, Error>)
        ensures
            match self.printer {
                SupportedPrinters::SNBC | SupportedPrinters::P3 => r is Ok && r->Ok_0@ == seq![
                    0x1bu8,
                    0x3du8,
                    0x01u8,
                ],
                _ => r == Err::<Vec<u8>, Error>(Error::Unsupported),
            },
    {
        match self.printer {
            SupportedPrinters::SNBC => Ok(vec![0x1b, 0x3d, 0x01]),
            SupportedPrinters::P3 => Ok(vec![0x1b, 0x3d, 0x01]),
            _ => Err(Error::Unsupported),
        }
    }

    /// Disable the printer: it then ignores all but real time commands.
    pub fn disable(&self) -> (r: Result<Vec<u8>, Error>)
        ensures
            match self.printer {
                SupportedPrinters::SNBC => r is Ok && r->Ok_0@ == seq![0x1bu8, 0x3du8, 0x00u8],
                SupportedPrinters::P3 => r is Ok && r->Ok_0@ == seq![0x1bu8, 0x3du8, 0x02u8],
                _ => r == Err::<Vec<u8>, Error>(Error::Unsupported),
            },
    {
        match self.printer {
            SupportedPrinters::SNBC => Ok(vec![0x1b, 0x3d, 0x00]),
            SupportedPrinters::P3 => Ok(vec![0x1b, 0x3d, 0x02]),
            _ => Err(Error::Unsupported),
        }
    }

    /// Underline mode by token (`off`, `on`, `thick`, any case); off where
    /// no token is given.
    pub fn underline_mode(&self, mode: Option<&str>) -> (r: Vec<u8>)
        ensures
            r@ == match mode {
                Some(m) => underline_bytes(uppercase_of(m@)),
                None => seq![0x1bu8, 0x2du8, 0x00u8],
            },
    {
        match mode {
            Some(m) => {
                let up = to_upper(m);
                underline_for(up.as_str())
            },
            None => vec![0x1b, 0x2d, 0x00],
        }
    }

    /// A horizontal rule of `width` line characters (at least one), then a
    /// new line.
    pub fn hr(&self, width: usize) -> (r: Vec<u8>)
        ensures
            r@ == repeat(0xc4, at_least_one(width)) + seq![0x0au8],
    {
        let w = if width < 1 {
            1
        } else {
            width
        };
        let mut out = repeated(0xc4, w);
        out.push(0x0a);
        out
    }

    /// Character size, `height` packing the width and height factors.
    pub fn char_size(&self, height: u8) -> (r: Vec<u8>)
        ensures
            r@ == seq![0x1du8, 0x21u8, height],
    {
        vec![0x1d, 0x21, height]
    }

    /// Line spacing of `n` motion units where `0 <= n <= 255`; the default
    /// spacing otherwise.
    pub fn line_space(&self, n: i32) -> (r: Vec<u8>)
        ensures
            r@ == (if 0 <= n <= 255 {
                seq![0x1bu8, 0x33u8, n as u8]
            } else {
                seq![0x1bu8, 0x32u8]
            }),
    {
        if 0 <= n && n <= 255 {
            vec![0x1b, 0x33, n as u8]
        } else {
            vec![0x1b, 0x32]
        }
    }

    /// `n` line feeds, at least one.
    pub fn feed(&self, n: usize) -> (r: Vec<u8>)
        ensures
            r@ == repeat(0x0a, at_least_one(n)),
    {
        let n = if n < 1 {
            1
        } else {
            n
        };
        repeated(0x0a, n)
    }

    /// A control character by token (`LF`, `FF`, `CR`, `HT`, `VT`, any case).
    pub fn control(&self, ctrl: &str) -> (r: Result<Vec<u8>, Error>)
        ensures
            match control_byte(uppercase_of(ctrl@)) {
                Some(b) => r is Ok && r->Ok_0@ == seq![b],
                None => r == Err::<Vec<u8>, Error>(Error::Unsupported),
            },
    {
        let up = to_upper(ctrl);
        control_for(up.as_str())
    }

    /// Text alignment by token (`lt`, `ct`, `rt`, any case).
    pub fn align(&self, alignment: &str) -> (r: Result<Vec<u8>, Error>)
        ensures
            match align_byte(uppercase_of(alignment@)) {
                Some(b) => r is Ok && r->Ok_0@ == seq![0x1bu8, 0x61u8, b],
                None => r == Err::<Vec<u8>, Error>(Error::InvalidArgument),
            },
    {
        let up = to_upper(alignment);
        align_for(up.as_str())
    }

    /// Font family by token (`a`, `b`, `c`, any case).
    pub fn font(&self, family: &str) -> (r: Result<Vec<u8>, Error>)
        ensures
            match font_family_byte(uppercase_of(family@)) {
                Some(b) => r is Ok && r->Ok_0@ == seq![0x1bu8, 0x4du8, b],
                None => r == Err::<Vec<u8>, Error>(Error::InvalidArgument),
            },
    {
        let up = to_upper(family);
        font_for(up.as_str())
    }

    /// Bold and underline by token (`b`, `u`, `u2`, `bu`, `bu2`, any case);
    /// both off for any other token.
    pub fn style(&self, kind: &str) -> (r: Vec<u8>)
        ensures
            r@ == style_bytes(uppercase_of(kind@)),
    {
        let up = to_upper(kind);
        style_for(up.as_str())
    }

    /// Normal size, then double width where `width == 2` and double height
    /// where `height == 2`.
    pub fn size(&self, width: usize, height: usize) -> (r: Vec<u8>)
        ensures
            r@ == size_bytes(width, height),
    {
        let mut out: Vec<u8> = vec![0x1b, 0x21, 0x00];
        if width == 2 {
            out.push(0x1b);
            out.push(0x21);
            out.push(0x20);
        }
        if height == 2 {
            out.push(0x1b);
            out.push(0x21);
            out.push(0x10);
        }
        assert(out@ =~= size_bytes(width, height));
        out
    }

    /// A pulse to the cash drawer kick pin 5, or to pin 2 for any other pin.
    pub fn cashdraw(&self, pin: i32) -> (r: Vec<u8>)
        ensures
            r@ == seq![0x1bu8, 0x70u8, if pin == 5 { 0x01u8 } else { 0x00u8 }],
    {
        if pin == 5 {
            vec![0x1b, 0x70, 0x01]
        } else {
            vec![0x1b, 0x70, 0x00]
        }
    }

    /// Feed three lines and cut the paper through.
    pub fn full_cut(&self) -> (r: Result<Vec<u8>, Error>)
        ensures
            match self.printer {
                SupportedPrinters::SNBC | SupportedPrinters::Epic => r is Ok && r->Ok_0@ == seq![
                    0x0au8,
                    0x0au8,
                    0x0au8,
                    0x1du8,
                    0x56u8,
                    0x00u8,
                ],
                _ => r == Err::<Vec<u8>, Error>(Error::Unsupported),
            },
    {
        match self.printer {
            SupportedPrinters::SNBC | SupportedPrinters::Epic => Ok(
                vec![0x0a, 0x0a, 0x0a, 0x1d, 0x56, 0x00],
            ),
            _ => Err(Error::Unsupported),
        }
    }

    /// Feed three lines and cut the paper leaving a tab.
    pub fn partial_cut(&self) -> (r: Result<Vec<u8>, Error>)
        ensures
            match self.printer {
                SupportedPrinters::SNBC | SupportedPrinters::Epic => r is Ok && r->Ok_0@ == seq![
                    0x0au8,
                    0x0au8,
                    0x0au8,
                    0x1du8,
                    0x56u8,
                    0x01u8,
                ],
                SupportedPrinters::P3 => r is Ok && r->Ok_0@ == seq![
                    0x0au8,
                    0x0au8,
                    0x0au8,
                    0x1bu8,
                    0x6du8,
                ],
                SupportedPrinters::Unknown => r == Err::<Vec<u8>, Error>(Error::Unsupported),
            },
    {
        match self.printer {
            SupportedPrinters::SNBC | SupportedPrinters::Epic => Ok(
                vec![0x0a, 0x0a, 0x0a, 0x1d, 0x56, 0x01],
            ),
            SupportedPrinters::P3 => Ok(vec![0x0a, 0x0a, 0x0a, 0x1b, 0x6d]),
            SupportedPrinters::Unknown => Err(Error::Unsupported),
        }
    }

    /// Seconds that the stream must wait after a partial cut for the cutter
    /// to settle.
    pub fn cut_settle_seconds(&self) -> (r: u64)
        ensures
            r == (if self.printer == SupportedPrinters::Epic {
                3u64
            } else {
                0u64
            }),
    {
        if self.printer == SupportedPrinters::Epic {
            3
        } else {
            0
        }
    }

    /// A bit image in bands of 8 or 24 rows by density token (`s8`, `d8`,
    /// `s24`, `d24`, any case; `d24`, bands of 24 rows, where none is given).
    pub fn bit_image(&self, image: &Image, density: Option<&str>) -> (r: Vec<u8>)
        ensures
            r@ == match density {
                Some(d) => bit_image_bytes(
                    image,
                    bitmap_header(uppercase_of(d@)),
                    band_depth(uppercase_of(d@)) as nat,
                ),
                None => bit_image_bytes(image, seq![0x1bu8, 0x2au8, 0x21u8], 3),
            },
    {
        let (header, k) = match density {
            Some(d) => {
                let up = to_upper(d);
                bitmap_mode_for(up.as_str())
            },
            None => ([0x1b, 0x2a, 0x21], 3),
        };
        let ghost whole = bit_image_bytes(image, header@, k as nat);
        let mut out: Vec<u8> = vec![0x1b, 0x33, 0x00];
        let h: u64 = image.height() as u64;
        let mut top: u64 = 0;
        while top < h
            invariant
                h == image.spec_height(),
                k == 1 || k == 3,
                top <= h + 24,
                whole == bit_image_bytes(image, header@, k as nat),
                out@ + bands_from(image, header@, k as nat, top as int) == whole,
            decreases h + 24 - top,
        {
            let line = image.bitimage_line(top, k);
            let ghost before = out@;
            push_all(&mut out, &header);
            let cols: usize = line.len() / k as usize;
            let count = u16_le(#[verifier::truncate] (cols as u16));
            push_all(&mut out, &count);
            push_all(&mut out, line.as_slice());
            out.push(0x0a);
            assert(out@ =~= before + band_command(header@, k as nat, line@));
            top = top + 8 * k as u64;
        }
        out
    }

    /// A raster image by scale token (`normal`, `dw`, `dh`, `qd`, any case;
    /// normal scale where none is given): header, bytes per row, rows, bitmap.
    pub fn raster(&self, image: &Image, mode: Option<&str>) -> (r: Vec<u8>)
        ensures
            r@ == raster_bytes(
                image,
                match mode {
                    Some(m) => raster_mode(uppercase_of(m@)),
                    None => 0,
                },
            ),
    {
        let header: [u8; 4] = match mode {
            Some(m) => {
                let up = to_upper(m);
                raster_header_for(up.as_str())
            },
            None => [0x1d, 0x76, 0x30, 0x00],
        };
        let mut out: Vec<u8> = Vec::new();
        push_all(&mut out, &header);
        let rb: u64 = (image.width() as u64 + 7) / 8;
        let wb = u16_le(#[verifier::truncate] (rb as u16));
        push_all(&mut out, &wb);
        let hb = u16_le(#[verifier::truncate] (image.height() as u16));
        push_all(&mut out, &hb);
        push_all(&mut out, image.get_raster());
        out
    }

    /// Ask a P3 printer for its serial number (a 16 byte reply).
    pub fn serial_request(&self) -> (r: Result<Vec<u8>, Error>)
        ensures
            match self.printer {
                SupportedPrinters::P3 => r is Ok && r->Ok_0@ == seq![0x1cu8, 0xeau8, 0x52u8],
                _ => r == Err::<Vec<u8>, Error>(Error::Unsupported),
            },
    {
        match self.printer {
            SupportedPrinters::P3 => Ok(vec![0x1c, 0xea, 0x52]),
            _ => Err(Error::Unsupported),
        }
    }

    /// Ask for the number of cuts made (a 16 byte reply).
    pub fn cut_count_request(&self) -> (r: Vec<u8>)
        ensures
            r@ == seq![0x1du8, 0xe2u8],
    {
        vec![0x1d, 0xe2]
    }

    /// Ask for the firmware version (a 4 byte reply).
    pub fn rom_version_request(&self) -> (r: Vec<u8>)
        ensures
            r@ == seq![0x1du8, 0x49u8, 0x03u8],
    {
        vec![0x1d, 0x49, 0x03]
    }

    /// Ask for the number of power cycles (an 8 byte reply).
    pub fn power_count_request(&self) -> (r: Vec<u8>)
        ensures
            r@ == seq![0x1du8, 0xe5u8],
    {
        vec![0x1d, 0xe5]
    }

    /// Ask for the length of paper printed (an 8 byte reply).
    pub fn printed_length_request(&self) -> (r: Vec<u8>)
        ensures
            r@ == seq![0x1du8, 0xe3u8],
    {
        vec![0x1d, 0xe3]
    }

    /// Ask for the length of paper left (an 8 byte reply).
    pub fn remaining_paper_request(&self) -> (r: Vec<u8>)
        ensures
            r@ == seq![0x1du8, 0xe1u8],
    {
        vec![0x1d, 0xe1]
    }

    /// Set the paper end limit, in centimetres split in a high and a low
    /// byte; the limit is zero.
    pub fn set_paper_end_limit(&self) -> (r: Vec<u8>)
        ensures
            r@ == seq![0x1du8, 0xe6u8, 0x00u8, 0x00u8],
    {
        vec![0x1d, 0xe6, 0x00, 0x00]
    }

    /// Ask whether paper is loaded (a one byte reply).
    pub fn paper_loaded_request(&self) -> (r: Vec<u8>)
        ensures
            r@ == seq![0x1du8, 0x72u8, 0x01u8],
    {
        vec![0x1d, 0x72, 0x01]
    }

    /// Turn on Automatic Status Back: the printer then sends its status
    /// whenever it changes.
    pub fn automatic_status_back(&self) -> (r: Vec<u8>)
        ensures
            r@ == seq![0x1du8, 0x61u8, 0x01u8],
    {
        vec![0x1d, 0x61, 0x01]
    }

    /// Whether the printer can push its status by itself.
    pub fn has_asb_capability(&self) -> (r: bool)
        ensures
            r == (self.printer == SupportedPrinters::SNBC),
    {
        self.printer == SupportedPrinters::SNBC
    }

    /// How this dialect's status is read.
    pub fn status_query(&self) -> (r: StatusQuery)
        ensures
            r == match self.printer {
                SupportedPrinters::SNBC => StatusQuery::Read,
                SupportedPrinters::Epic => StatusQuery::Poll,
                _ => StatusQuery::Unchecked,
            },
    {
        match self.printer {
            SupportedPrinters::SNBC => StatusQuery::Read,
            SupportedPrinters::Epic => StatusQuery::Poll,
            _ => StatusQuery::Unchecked,
        }
    }

    /// A 1D barcode of `code`. SNBC printers take Code128 only, with the
    /// selectors and a counted payload block; Epic printers take a fixed
    /// Code128 header, the text and a closing NUL.
    pub fn barcode(
        &self,
        code: &str,
        kind: BarcodeType,
        position: TextPosition,
        font: Font,
        width: u8,
        height: u8,
    ) -> (r: Result<Vec<u8>, Error>)
        ensures
            match barcode_bytes(
                self.printer,
                code.spec_bytes(),
                kind,
                position,
                font,
                width,
                height,
            ) {
                Some(b) => r is Ok && r->Ok_0@ == b,
                None => r == Err::<Vec<u8>, Error>(Error::Unsupported),
            },
    {
        let text = code.as_bytes();
        if kind == BarcodeType::Code128 && self.printer == SupportedPrinters::SNBC {
            let mut bc = Barcode { printer: self.printer, width, height, position, font, kind };
            let mut out: Vec<u8> = Vec::new();
            let w = bc.set_width();
            match w {
                Ok(sel) => push_all(&mut out, &sel),
                Err(e) => return Err(e),
            }
            let h = bc.set_height();
            push_all(&mut out, &h);
            let p = bc.set_text_position();
            push_all(&mut out, &p);
            let f = bc.set_font();
            push_all(&mut out, &f);
            let t = bc.set_barcode_type();
            push_all(&mut out, &t);
            let mut payload: Vec<u8> = Vec::new();
            payload.push(0x7b);
            if text.len() % 2 == 0 && all_ascii_digits(text) {
                payload.push(0x43);
                let mut packed = digit_pairs(text);
                payload.append(&mut packed);
            } else {
                payload.push(0x42);
                push_all(&mut payload, text);
            }
            let count = payload.len();
            out.push(#[verifier::truncate] (count as u8));
            out.append(&mut payload);
            assert(out@ =~= barcode_bytes(
                self.printer,
                code.spec_bytes(),
                kind,
                position,
                font,
                width,
                height,
            )->Some_0);
            Ok(out)
        } else if self.printer == SupportedPrinters::Epic {
            let mut out: Vec<u8> = vec![0x1d, 0x48, 0x02, 0x1d, 0x77, 0x02, 0x1d, 0x6b, 0x49];
            out.push(#[verifier::truncate] (text.len() as u8));
            push_all(&mut out, text);
            out.push(0x00);
            assert(out@ =~= barcode_bytes(
                self.printer,
                code.spec_bytes(),
                kind,
                position,
                font,
                width,
                height,
            )->Some_0);
            Ok(out)
        } else {
            Err(Error::Unsupported)
        }
    }
}

} // verus!
