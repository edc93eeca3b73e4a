//! Monochrome bitmaps and the bands that bit image commands send.
use vstd::prelude::*;

use crate::status::bit_set;

verus! {

/// A monochrome bitmap packed one bit to a pixel: rows from top to bottom,
/// each row starting on a fresh byte, the leftmost pixel of a byte in its
/// most significant bit, a set bit printing a dot.
pub struct Image {
    width: u32,
    height: u32,
    raster: Vec<u8>,
}

/// The number of bytes of one packed row.
pub open spec fn row_bytes(width: u32) -> nat {
    ((width + 7) / 8) as nat
}

/// Whether the pixel at column `x` and row `y` prints a dot; pixels outside
/// the bitmap print none.
pub open spec fn pixel(img: &Image, x: int, y: int) -> bool {
    &&& 0 <= x < img.spec_width()
    &&& 0 <= y < img.spec_height()
    &&& bit_set(img.spec_raster()[y * row_bytes(img.spec_width()) + x / 8], (7 - x % 8) as u8)
}

/// The byte of the dots of column `x` in rows `y .. y + j`, the top one in
/// the most significant bit.
pub open spec fn dot_bits(img: &Image, x: int, y: int, j: nat) -> u8
    decreases j,
{
    if j == 0 {
        0
    } else {
        dot_bits(img, x, y, (j - 1) as nat) | if pixel(img, x, y + j - 1) {
            0x80u8 >> ((j - 1) as u8)
        } else {
            0u8
        }
    }
}

/// The `k` bytes of column `x` of the band that starts at row `top`.
pub open spec fn band_column(img: &Image, x: int, top: int, k: nat) -> Seq<u8> {
    Seq::new(k, |i: int| dot_bits(img, x, top + 8 * i, 8))
}

/// The first `w` columns of the band of `8 * k` rows that starts at `top`.
pub open spec fn band_columns(img: &Image, top: int, k: nat, w: nat) -> Seq<u8>
    decreases w,
{
    if w == 0 {
        seq![]
    } else {
        band_columns(img, top, k, (w - 1) as nat) + band_column(img, w - 1, top, k)
    }
}

/// The band of `8 * k` rows that starts at `top`, in column order.
pub open spec fn band(img: &Image, top: int, k: nat) -> Seq<u8> {
    band_columns(img, top, k, img.spec_width() as nat)
}

impl Image {
    pub closed spec fn spec_width(&self) -> u32 {
        self.width
    }

    pub closed spec fn spec_height(&self) -> u32 {
        self.height
    }

    pub closed spec fn spec_raster(&self) -> Seq<u8> {
        self.raster@
    }

    #[verifier::type_invariant]
    spec fn inv(&self) -> bool {
        self.raster@.len() == row_bytes(self.width) * self.height
    }

    /// A bitmap of `width` by `height` pixels packed in `raster`; `None`
    /// where `raster` does not hold exactly that many packed rows.
    pub fn new(width: u32, height: u32, raster: Vec<u8>) -> (r: Option<Image>)
        ensures
            r is Some <==> raster@.len() == row_bytes(width) * height,
            r matches Some(img) ==> img.spec_width() == width && img.spec_height() == height
                && img.spec_raster() == raster@,
    {
        let rb: u64 = (width as u64 + 7) / 8;
        assert(rb * height <= 0x2000_0000 * 0xffff_ffff) by (nonlinear_arith)
            requires
                rb <= 0x2000_0000,
                height <= 0xffff_ffff,
        ;
        let need: u64 = rb * height as u64;
        if raster.len() as u64 == need {
            Some(Image { width, height, raster })
        } else {
            None
        }
    }

    pub fn width(&self) -> (r: u32)
        ensures
            r == self.spec_width(),
    {
        self.width
    }

    pub fn height(&self) -> (r: u32)
        ensures
            r == self.spec_height(),
    {
        self.height
    }

    /// The packed rows, as the raster command sends them.
    pub fn get_raster(&self) -> (r: &[u8])
        ensures
            r@ == self.spec_raster(),
    {
        self.raster.as_slice()
    }

    /// Whether the pixel at column `x` and row `y` prints a dot.
    pub fn dot(&self, x: u32, y: u64) -> (r: bool)
        ensures
            r == pixel(self, x as int, y as int),
    {
        proof {
            use_type_invariant(self);
        }
        if x >= self.width || y >= self.height as u64 {
            return false;
        }
        let rb: u64 = (self.width as u64 + 7) / 8;
        let col: u64 = x as u64 / 8;
        let h: u64 = self.height as u64;
        let len: usize = self.raster.len();
        assert(rb * h == len);
        assert(y * rb + col < rb * h) by (nonlinear_arith)
            requires
                y < h,
                col < rb,
        ;
        let idx: u64 = y * rb + col;
        let byte = self.raster[idx as usize];
        let shift: u8 = (7 - x % 8) as u8;
        (byte >> shift) & 1u8 == 1u8
    }

    /// The byte of the eight dots of column `x` from row `y` down.
    pub fn column_byte(&self, x: u32, y: u64) -> (r: u8)
        requires
            y + 8 <= u64::MAX,
        ensures
            r == dot_bits(self, x as int, y as int, 8),
    {
        let mut v: u8 = 0;
        let mut j: u8 = 0;
        while j < 8
            invariant
                j <= 8,
                y + 8 <= u64::MAX,
                v == dot_bits(self, x as int, y as int, j as nat),
            decreases 8 - j,
        {
            let d = self.dot(x, y + j as u64);
            let m: u8 = if d {
                0x80u8 >> j
            } else {
                0u8
            };
            v = v | m;
            j = j + 1;
        }
        v
    }

    /// The band of `8 * k` rows that starts at row `top`, column by column,
    /// `k` bytes to a column.
    pub fn bitimage_line(&self, top: u64, k: u32) -> (r: Vec<u8>)
        requires
            1 <= k <= 3,
            top <= u32::MAX,
        ensures
            r@ == band(self, top as int, k as nat),
    {
        let mut out: Vec<u8> = Vec::new();
        let mut x: u32 = 0;
        while x < self.width
            invariant
                1 <= k <= 3,
                top <= u32::MAX,
                x <= self.spec_width(),
                out@ == band_columns(self, top as int, k as nat, x as nat),
            decreases self.spec_width() - x,
        {
            let mut i: u32 = 0;
            while i < k
                invariant
                    1 <= k <= 3,
                    top <= u32::MAX,
                    x < self.spec_width(),
                    i <= k,
                    out@ == band_columns(self, top as int, k as nat, x as nat) + band_column(
                        self,
                        x as int,
                        top as int,
                        k as nat,
                    ).take(i as int),
                decreases k - i,
            {
                let b = self.column_byte(x, top + 8 * i as u64);
                out.push(b);
                i = i + 1;
                assert(band_column(self, x as int, top as int, k as nat).take(i as int)
                    =~= band_column(self, x as int, top as int, k as nat).take(i - 1) + seq![b]);
            }
            assert(band_column(self, x as int, top as int, k as nat).take(k as int)
                =~= band_column(self, x as int, top as int, k as nat));
            x = x + 1;
        }
        out
    }
}

} // verus!
