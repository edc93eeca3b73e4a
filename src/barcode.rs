//! Barcode settings, their selector commands, and Code Set C packing.
use vstd::prelude::*;
use vstd::utf8::encode_utf8;

use crate::printer::{Error, SupportedPrinters};

verus! {

/// The 1D and 2D symbologies that a barcode can be printed in.
#[derive(Clone, Copy, Debug, PartialEq, Eq, Structural)]
pub enum BarcodeType {
    UPCA,
    UPCE,
    EAN13,
    EAN8,
    CODE39,
    ITF,
    Code93,
    Codabar,
    Code128,
    PDF417,
    QRCode,
    Maxicode,
    GS1,
}

/// Where the human readable interpretation of a barcode is printed.
#[derive(Clone, Copy, Debug, PartialEq, Eq, Structural)]
pub enum TextPosition {
    Off,
    Above,
    Below,
    Both,
}

/// The font of the human readable interpretation.
#[derive(Clone, Copy, Debug, PartialEq, Eq, Structural)]
pub enum Font {
    /// Standard font of SNBC printers.
    Standard,
    /// Compressed font of SNBC printers.
    Compressed,
    /// Font A of P3 printers.
    FontA,
    /// Font B of P3 printers.
    FontB,
}

/// Errors of the Code Set C conversion.
#[derive(Clone, Copy, Debug, PartialEq, Eq, Structural)]
pub enum CodeCError {
    /// A character of the text is not an ASCII digit.
    NotANumber,
    /// The text has an odd number of digits.
    InvalidLength,
}

/// The settings of one barcode, and the selector commands derived from them.
#[derive(Clone, Copy, Debug, PartialEq, Eq, Structural)]
pub struct Barcode {
    pub printer: SupportedPrinters,
    /// Module width; each dialect clamps it to its own range.
    pub width: u8,
    /// Height in dots.
    pub height: u8,
    pub font: Font,
    pub kind: BarcodeType,
    pub position: TextPosition,
}

/// The module width byte that a dialect emits for a requested width, or
/// `None` where the dialect has no width command.
pub open spec fn width_byte(printer: SupportedPrinters, width: u8) -> Option<u8> {
    match printer {
        SupportedPrinters::SNBC => if 2 <= width <= 6 { Some(width) } else { Some(2) },
        SupportedPrinters::P3 => if 1 <= width <= 6 { Some(width) } else { Some(3) },
        // Wider modules push long Code128 symbols past the print area.
        SupportedPrinters::Epic => Some(1),
        SupportedPrinters::Unknown => None,
    }
}

pub open spec fn position_byte(position: TextPosition) -> u8 {
    match position {
        TextPosition::Off => 0x00,
        TextPosition::Above => 0x01,
        TextPosition::Below => 0x02,
        TextPosition::Both => 0x03,
    }
}

pub open spec fn font_byte(font: Font) -> u8 {
    match font {
        Font::Standard => 0x00,
        Font::Compressed => 0x01,
        Font::FontA => 0x00,
        Font::FontB => 0x01,
    }
}

/// The symbology byte; a symbology without a code of its own falls back to
/// the one of EAN13.
pub open spec fn symbology_byte(printer: SupportedPrinters, kind: BarcodeType) -> u8 {
    match kind {
        BarcodeType::Code128 => if printer == SupportedPrinters::SNBC { 0x49 } else { 0x08 },
        _ => 0x02,
    }
}

/// The height byte: heights run from 1 to 255 dots, so 0 is raised to 1.
pub open spec fn height_byte(height: u8) -> u8 {
    if height == 0 {
        1
    } else {
        height
    }
}

pub open spec fn height_selector(height: u8) -> Seq<u8> {
    seq![0x1d, 0x68, height_byte(height)]
}

pub open spec fn position_selector(position: TextPosition) -> Seq<u8> {
    seq![0x1d, 0x48, position_byte(position)]
}

pub open spec fn font_selector(font: Font) -> Seq<u8> {
    seq![0x1d, 0x66, font_byte(font)]
}

pub open spec fn symbology_selector(printer: SupportedPrinters, kind: BarcodeType) -> Seq<u8> {
    seq![0x1d, 0x6b, symbology_byte(printer, kind)]
}

/// The five selector commands of a barcode in the order they are sent:
/// width, height, text position, font, symbology; `None` where the dialect
/// has no width command.
pub open spec fn selectors(b: Barcode) -> Option<Seq<u8>> {
    match width_byte(b.printer, b.width) {
        Some(w) => Some(
            seq![0x1du8, 0x77u8, w] + height_selector(b.height) + position_selector(b.position)
                + font_selector(b.font) + symbology_selector(b.printer, b.kind),
        ),
        None => None,
    }
}

/// Encoding the same barcode settings twice gives the same selector bytes,
/// and each selector depends on the fields it selects alone, so the order in
/// which the selectors are taken does not change any of them (taking one
/// leaves the settings unchanged, see the `ensures` of each method).
pub proof fn lemma_selectors_repeatable(a: Barcode, b: Barcode)
    ensures
        a == b ==> selectors(a) == selectors(b),
        a.printer == b.printer && a.width == b.width ==> width_byte(a.printer, a.width)
            == width_byte(b.printer, b.width),
        a.height == b.height ==> height_selector(a.height) == height_selector(b.height),
        a.position == b.position ==> position_selector(a.position) == position_selector(
            b.position,
        ),
        a.font == b.font ==> font_selector(a.font) == font_selector(b.font),
        a.printer == b.printer && a.kind == b.kind ==> symbology_selector(a.printer, a.kind)
            == symbology_selector(b.printer, b.kind),
{
}

pub open spec fn is_digit(b: u8) -> bool {
    0x30 <= b <= 0x39
}

pub open spec fn all_digits(s: Seq<u8>) -> bool {
    forall|i: int| 0 <= i < s.len() ==> is_digit(#[trigger] s[i])
}

/// The value of the two decimal digits at `s[2 * i]` and `s[2 * i + 1]`.
pub open spec fn digit_pair(s: Seq<u8>, i: int) -> u8 {
    ((s[2 * i] - 0x30) * 10 + (s[2 * i + 1] - 0x30)) as u8
}

/// Code Set C: each pair of digits, left to right, as one byte.
pub open spec fn codeset_c(s: Seq<u8>) -> Seq<u8> {
    Seq::new(s.len() / 2, |i: int| digit_pair(s, i))
}

/// What the Code Set C conversion of the text `s` gives.
pub open spec fn codeset_c_result(s: Seq<u8>) -> Result<Seq<u8>, CodeCError> {
    if !all_digits(s) {
        Err(CodeCError::NotANumber)
    } else if s.len() % 2 != 0 {
        Err(CodeCError::InvalidLength)
    } else {
        Ok(codeset_c(s))
    }
}

/// Tells whether every byte of `s` is an ASCII digit.
pub fn all_ascii_digits(s: &[u8]) -> (r: bool)
    ensures
        r == all_digits(s@),
{
    let n = s.len();
    let mut i: usize = 0;
    while i < n
        invariant
            n == s@.len(),
            i <= n,
            forall|j: int| 0 <= j < i ==> is_digit(#[trigger] s@[j]),
        decreases n - i,
    {
        if s[i] < 0x30 || s[i] > 0x39 {
            assert(!is_digit(s@[i as int]));
            return false;
        }
        i = i + 1;
    }
    true
}

/// Packs a text of ASCII digits of even length, two digits to a byte.
pub fn digit_pairs(s: &[u8]) -> (r: Vec<u8>)
    requires
        all_digits(s@),
        s@.len() % 2 == 0,
    ensures
        r@ == codeset_c(s@),
{
    let n = s.len();
    let half = n / 2;
    let mut out: Vec<u8> = Vec::new();
    let mut k: usize = 0;
    while k < half
        invariant
            n == s@.len(),
            2 * half == n,
            all_digits(s@),
            k <= half,
            out@ =~= codeset_c(s@).take(k as int),
        decreases half - k,
    {
        let hi = s[2 * k];
        let lo = s[2 * k + 1];
        assert(is_digit(s@[2 * k as int]) && is_digit(s@[2 * k + 1]));
        let v: u8 = (hi - 0x30) * 10 + (lo - 0x30);
        out.push(v);
        k = k + 1;
        assert(out@ =~= codeset_c(s@).take(k as int));
    }
    out
}

impl Barcode {
    /// The module width selector, clamped to the dialect's range.
    pub fn set_width(&mut self) -> (r: Result<[u8; 3], Error>)
        ensures
            *final(self) == *old(self),
            match width_byte(old(self).printer, old(self).width) {
                Some(b) => r is Ok && r->Ok_0@ == seq![0x1du8, 0x77u8, b],
                None => r == Err::<[u8; 3], Error>(Error::Unsupported),
            },
    {
        match self.printer {
            SupportedPrinters::SNBC => {
                if self.width >= 2 && self.width <= 6 {
                    Ok([0x1d, 0x77, self.width])
                } else {
                    Ok([0x1d, 0x77, 0x02])
                }
            },
            SupportedPrinters::P3 => {
                if self.width >= 1 && self.width <= 6 {
                    Ok([0x1d, 0x77, self.width])
                } else {
                    Ok([0x1d, 0x77, 0x03])
                }
            },
            SupportedPrinters::Epic => Ok([0x1d, 0x77, 0x01]),
            SupportedPrinters::Unknown => Err(Error::Unsupported),
        }
    }

    /// The height selector: the number of vertical dots, at least one.
    pub fn set_height(&mut self) -> (r: [u8; 3])
        ensures
            *final(self) == *old(self),
            r@ == height_selector(old(self).height),
    {
        if self.height == 0 {
            [0x1d, 0x68, 0x01]
        } else {
            [0x1d, 0x68, self.height]
        }
    }

    /// The selector of where the human readable interpretation is printed.
    pub fn set_text_position(&mut self) -> (r: [u8; 3])
        ensures
            *final(self) == *old(self),
            r@ == position_selector(old(self).position),
    {
        match self.position {
            TextPosition::Off => [0x1d, 0x48, 0x00],
            TextPosition::Above => [0x1d, 0x48, 0x01],
            TextPosition::Below => [0x1d, 0x48, 0x02],
            TextPosition::Both => [0x1d, 0x48, 0x03],
        }
    }

    /// The font selector of the human readable interpretation.
    pub fn set_font(&mut self) -> (r: [u8; 3])
        ensures
            *final(self) == *old(self),
            r@ == font_selector(old(self).font),
    {
        match self.font {
            Font::Standard => [0x1d, 0x66, 0x00],
            Font::Compressed => [0x1d, 0x66, 0x01],
            Font::FontA => [0x1d, 0x66, 0x00],
            Font::FontB => [0x1d, 0x66, 0x01],
        }
    }

    /// The symbology selector.
    pub fn set_barcode_type(&mut self) -> (r: [u8; 3])
        ensures
            *final(self) == *old(self),
            r@ == symbology_selector(old(self).printer, old(self).kind),
    {
        match self.kind {
            BarcodeType::Code128 => {
                if self.printer == SupportedPrinters::SNBC {
                    [0x1d, 0x6b, 0x49]
                } else {
                    [0x1d, 0x6b, 0x08]
                }
            },
            _ => [0x1d, 0x6b, 0x02],
        }
    }

    /// Converts a text of decimal digits to Code Set C, one byte for each
    /// pair of digits ("1234" gives `[12, 34]`).
    pub fn to_codeset_c(barcode: String) -> (r: Result<Vec<u8>, CodeCError>)
        ensures
            match codeset_c_result(encode_utf8(barcode@)) {
                Ok(v) => r is Ok && r->Ok_0@ == v,
                Err(e) => r == Err::<Vec<u8>, CodeCError>(e),
            },
    {
        let bytes = barcode.as_str().as_bytes();
        if !all_ascii_digits(bytes) {
            return Err(CodeCError::NotANumber);
        }
        if bytes.len() % 2 != 0 {
            return Err(CodeCError::InvalidLength);
        }
        Ok(digit_pairs(bytes))
    }
}

} // verus!
