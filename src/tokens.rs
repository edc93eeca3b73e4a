//! Case-insensitive command tokens: each operation upper-cases its token
//! with `str::to_uppercase`, then matches it here.
use vstd::prelude::*;

use crate::printer::Error;

verus! {

/// What `str::to_uppercase` makes of a text.
pub uninterp spec fn uppercase_of(s: Seq<char>) -> Seq<char>;

/// Relies on `str::to_uppercase`: its result depends on the characters of
/// the text alone.
#[verifier::external_body]
pub(crate) fn to_upper(s: &str) -> (r: String)
    ensures
        r@ == uppercase_of(s@),
{
    s.to_uppercase()
}

/// Whether `a` and `b` hold the same characters.
pub fn same_text(a: &str, b: &str) -> (r: bool)
    ensures
        r == (a@ == b@),
{
    let n = a.unicode_len();
    if n != b.unicode_len() {
        return false;
    }
    let mut i: usize = 0;
    while i < n
        invariant
            n == a@.len(),
            n == b@.len(),
            i <= n,
            forall|j: int| 0 <= j < i ==> a@[j] == b@[j],
        decreases n - i,
    {
        if a.get_char(i) != b.get_char(i) {
            return false;
        }
        i = i + 1;
    }
    assert(a@ =~= b@);
    true
}

pub open spec fn underline_bytes(token: Seq<char>) -> Seq<u8> {
    if token == "ON"@ {
        seq![0x1bu8, 0x2du8, 0x01u8]
    } else if token == "THICK"@ {
        seq![0x1bu8, 0x2du8, 0x02u8]
    } else {
        seq![0x1bu8, 0x2du8, 0x00u8]
    }
}

/// The underline command for an upper case token: `ON`, `THICK`, or off for
/// `OFF` and any other token.
pub fn underline_for(token: &str) -> (r: Vec<u8>)
    ensures
        r@ == underline_bytes(token@),
{
    if same_text(token, "ON") {
        vec![0x1b, 0x2d, 0x01]
    } else if same_text(token, "THICK") {
        vec![0x1b, 0x2d, 0x02]
    } else {
        vec![0x1b, 0x2d, 0x00]
    }
}

pub open spec fn control_byte(token: Seq<char>) -> Option<u8> {
    if token == "LF"@ {
        Some(0x0au8)
    } else if token == "FF"@ {
        Some(0x0cu8)
    } else if token == "CR"@ {
        Some(0x0du8)
    } else if token == "HT"@ {
        Some(0x09u8)
    } else if token == "VT"@ {
        Some(0x0bu8)
    } else {
        None
    }
}

/// The control character for an upper case token; `Unsupported` for a token
/// that names none.
pub fn control_for(token: &str) -> (r: Result<Vec<u8>, Error>)
    ensures
        match control_byte(token@) {
            Some(b) => r is Ok && r->Ok_0@ == seq![b],
            None => r == Err::<Vec<u8>, Error>(Error::Unsupported),
        },
{
    if same_text(token, "LF") {
        Ok(vec![0x0a])
    } else if same_text(token, "FF") {
        Ok(vec![0x0c])
    } else if same_text(token, "CR") {
        Ok(vec![0x0d])
    } else if same_text(token, "HT") {
        Ok(vec![0x09])
    } else if same_text(token, "VT") {
        Ok(vec![0x0b])
    } else {
        Err(Error::Unsupported)
    }
}

pub open spec fn align_byte(token: Seq<char>) -> Option<u8> {
    if token == "LT"@ {
        Some(0x00u8)
    } else if token == "CT"@ {
        Some(0x01u8)
    } else if token == "RT"@ {
        Some(0x02u8)
    } else {
        None
    }
}

/// The alignment command for an upper case token (`LT`, `CT` or `RT`);
/// `InvalidArgument` for any other token.
pub fn align_for(token: &str) -> (r: Result<Vec<u8>, Error>)
    ensures
        match align_byte(token@) {
            Some(b) => r is Ok && r->Ok_0@ == seq![0x1bu8, 0x61u8, b],
            None => r == Err::<Vec<u8>, Error>(Error::InvalidArgument),
        },
{
    if same_text(token, "LT") {
        Ok(vec![0x1b, 0x61, 0x00])
    } else if same_text(token, "CT") {
        Ok(vec![0x1b, 0x61, 0x01])
    } else if same_text(token, "RT") {
        Ok(vec![0x1b, 0x61, 0x02])
    } else {
        Err(Error::InvalidArgument)
    }
}

pub open spec fn font_family_byte(token: Seq<char>) -> Option<u8> {
    if token == "A"@ {
        Some(0x00u8)
    } else if token == "B"@ {
        Some(0x01u8)
    } else if token == "C"@ {
        Some(0x02u8)
    } else {
        None
    }
}

/// The font family command for an upper case token (`A`, `B` or `C`);
/// `InvalidArgument` for any other token.
pub fn font_for(token: &str) -> (r: Result<Vec<u8>, Error>)
    ensures
        match font_family_byte(token@) {
            Some(b) => r is Ok && r->Ok_0@ == seq![0x1bu8, 0x4du8, b],
            None => r == Err::<Vec<u8>, Error>(Error::InvalidArgument),
        },
{
    if same_text(token, "A") {
        Ok(vec![0x1b, 0x4d, 0x00])
    } else if same_text(token, "B") {
        Ok(vec![0x1b, 0x4d, 0x01])
    } else if same_text(token, "C") {
        Ok(vec![0x1b, 0x4d, 0x02])
    } else {
        Err(Error::InvalidArgument)
    }
}

pub open spec fn bold(on: bool) -> Seq<u8> {
    seq![0x1bu8, 0x45u8, if on { 0x01u8 } else { 0x00u8 }]
}

/// Underline off (0), on (1) or thick (2).
pub open spec fn underline(n: u8) -> Seq<u8> {
    seq![0x1bu8, 0x2du8, n]
}

pub open spec fn style_bytes(token: Seq<char>) -> Seq<u8> {
    if token == "B"@ {
        underline(0) + bold(true)
    } else if token == "U"@ {
        bold(false) + underline(1)
    } else if token == "U2"@ {
        bold(false) + underline(2)
    } else if token == "BU"@ {
        bold(true) + underline(1)
    } else if token == "BU2"@ {
        bold(true) + underline(2)
    } else {
        bold(false) + underline(0)
    }
}

/// The text style commands for an upper case token: bold (`B`), underline
/// (`U`, `U2` for thick), both (`BU`, `BU2`); bold and underline off for any
/// other token.
pub fn style_for(token: &str) -> (r: Vec<u8>)
    ensures
        r@ == style_bytes(token@),
{
    let r = if same_text(token, "B") {
        vec![0x1b, 0x2d, 0x00, 0x1b, 0x45, 0x01]
    } else if same_text(token, "U") {
        vec![0x1b, 0x45, 0x00, 0x1b, 0x2d, 0x01]
    } else if same_text(token, "U2") {
        vec![0x1b, 0x45, 0x00, 0x1b, 0x2d, 0x02]
    } else if same_text(token, "BU") {
        vec![0x1b, 0x45, 0x01, 0x1b, 0x2d, 0x01]
    } else if same_text(token, "BU2") {
        vec![0x1b, 0x45, 0x01, 0x1b, 0x2d, 0x02]
    } else {
        vec![0x1b, 0x45, 0x00, 0x1b, 0x2d, 0x00]
    };
    assert(r@ =~= style_bytes(token@));
    r
}

pub open spec fn bitmap_header(token: Seq<char>) -> Seq<u8> {
    seq![
        0x1bu8,
        0x2au8,
        if token == "S8"@ {
            0x00u8
        } else if token == "D8"@ {
            0x01u8
        } else if token == "S24"@ {
            0x20u8
        } else {
            0x21u8
        },
    ]
}

/// Bytes to a column of a band: one for the 8 dot modes, three for the 24
/// dot modes.
pub open spec fn band_depth(token: Seq<char>) -> u32 {
    if token == "S8"@ || token == "D8"@ {
        1
    } else {
        3
    }
}

/// The bit image header and band depth for an upper case density token:
/// `S8`, `D8`, `S24`, and `D24` for any other token.
pub fn bitmap_mode_for(token: &str) -> (r: ([u8; 3], u32))
    ensures
        r.0@ == bitmap_header(token@),
        r.1 == band_depth(token@),
{
    if same_text(token, "S8") {
        ([0x1b, 0x2a, 0x00], 1)
    } else if same_text(token, "D8") {
        ([0x1b, 0x2a, 0x01], 1)
    } else if same_text(token, "S24") {
        ([0x1b, 0x2a, 0x20], 3)
    } else {
        ([0x1b, 0x2a, 0x21], 3)
    }
}

pub open spec fn raster_mode(token: Seq<char>) -> u8 {
    if token == "DW"@ {
        0x01
    } else if token == "DH"@ {
        0x02
    } else if token == "QD"@ {
        0x03
    } else {
        0x00
    }
}

/// The raster header for an upper case scale token: double wide (`DW`),
/// double high (`DH`), quadruple (`QD`), normal for any other token.
pub fn raster_header_for(token: &str) -> (r: [u8; 4])
    ensures
        r@ == seq![0x1du8, 0x76u8, 0x30u8, raster_mode(token@)],
{
    if same_text(token, "DW") {
        [0x1d, 0x76, 0x30, 0x01]
    } else if same_text(token, "DH") {
        [0x1d, 0x76, 0x30, 0x02]
    } else if same_text(token, "QD") {
        [0x1d, 0x76, 0x30, 0x03]
    } else {
        [0x1d, 0x76, 0x30, 0x00]
    }
}

pub open spec fn starts_with(s: Seq<char>, prefix: Seq<char>) -> bool {
    prefix.len() <= s.len() && s.take(prefix.len() as int) == prefix
}

/// Whether `s` begins with `prefix`.
pub fn has_prefix(s: &str, prefix: &str) -> (r: bool)
    ensures
        r == starts_with(s@, prefix@),
{
    let n = prefix.unicode_len();
    if n > s.unicode_len() {
        return false;
    }
    let mut i: usize = 0;
    while i < n
        invariant
            n == prefix@.len(),
            n <= s@.len(),
            i <= n,
            forall|j: int| 0 <= j < i ==> s@[j] == prefix@[j],
        decreases n - i,
    {
        if s.get_char(i) != prefix.get_char(i) {
            assert(s@.take(n as int)[i as int] != prefix@[i as int]);
            return false;
        }
        i = i + 1;
    }
    assert(s@.take(n as int) =~= prefix@);
    true
}

} // verus!
