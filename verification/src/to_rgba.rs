//! 8-bit RGBA encoding of a canvas.
//!
//! Each pixel becomes four bytes: the three channels clamped to `[0, 1]`,
//! scaled to 255 and rounded, then an opaque alpha byte.

use vstd::prelude::*;

use crate::canvas::Canvas;
use crate::color::{channel_byte, Color};

verus! {

/// The RGBA bytes of a run of pixels, four per pixel.
pub open spec fn rgba_bytes(pixels: Seq<Color>) -> Seq<u8>
    decreases pixels.len(),
{
    if pixels.len() == 0 {
        Seq::empty()
    } else {
        rgba_bytes(pixels.drop_last()) + rgba_pixel(pixels.last())
    }
}

/// Four bytes come out for every pixel that goes in.
pub proof fn lemma_rgba_len(pixels: Seq<Color>)
    ensures
        rgba_bytes(pixels).len() == 4 * pixels.len(),
    decreases pixels.len(),
{
    if pixels.len() == 0 {
    } else {
        lemma_rgba_len(pixels.drop_last());
    }
}

/// The four bytes of one pixel.
pub open spec fn rgba_pixel(c: Color) -> Seq<u8> {
    seq![
        channel_byte(c@.red) as u8,
        channel_byte(c@.green) as u8,
        channel_byte(c@.blue) as u8,
        255u8,
    ]
}

/// Encoding to bytes of four 8-bit channels per pixel.
pub trait ToRgba {
    /// The RGBA bytes of every pixel, row major.
    fn to_rgba(&self) -> Vec<u8>;
}

/// Encoding to 32 bits per pixel; for 8-bit channels this is byte-for-byte
/// the RGBA encoding.
pub trait ToRGBA32 {
    /// The RGBA bytes of every pixel, row major.
    fn to_rgba32(&self) -> Vec<u8>;
}

impl ToRgba for Canvas {
    fn to_rgba(&self) -> (r: Vec<u8>)
        ensures
            r@ == rgba_bytes(self@),
    {
        let mut data: Vec<u8> = Vec::new();
        let mut i: usize = 0;
        let len = crate::canvas::Canvas::pixel_count(self);
        while i < len
            invariant
                i <= self@.len(),
                len == self@.len(),
                data@ == rgba_bytes(self@.take(i as int)),
            decreases self@.len() - i,
        {
            let pixel = self.pixel_at(i);
            let (red, green, blue) = pixel.to_bytes();
            data.push(red);
            data.push(green);
            data.push(blue);
            data.push(255);
            proof {
                assert(self@.take(i + 1).drop_last() =~= self@.take(i as int));
                assert(self@.take(i + 1).last() == self@[i as int]);
                assert(data@ =~= rgba_bytes(self@.take(i as int)) + rgba_pixel(self@[i as int]));
            }
            i = i + 1;
        }
        proof {
            assert(self@.take(self@.len() as int) =~= self@);
        }
        data
    }
}

impl ToRGBA32 for Canvas {
    fn to_rgba32(&self) -> (r: Vec<u8>)
        ensures
            r@ == rgba_bytes(self@),
    {
        self.to_rgba()
    }
}

} // verus!
