//! PNG encoding of a canvas.
//!
//! The pixel grid is handed to the `png` crate as 8-bit RGBA rows and comes
//! back as the bytes of a complete PNG stream. What those bytes are is
//! named by [`png_of`]: the encoder is deterministic, so the output depends
//! on the dimensions and the pixel data alone.

use vstd::prelude::*;

use crate::canvas::Canvas;
use crate::to_rgba::{lemma_rgba_len, rgba_bytes, ToRgba};

verus! {

/// The PNG byte stream the encoder produces for an 8-bit RGBA image of the
/// given size.
pub uninterp spec fn png_of(width: nat, height: nat, rgba: Seq<u8>) -> Seq<u8>;

/// Relies on png::Encoder and png::Writer::write_image_data: an 8-bit RGBA
/// image of nonzero size, with exactly four bytes per pixel, encodes into
/// an in-memory buffer without failing, and the bytes depend only on the
/// dimensions and the pixel data.
#[verifier::external_body]
fn encode_png(width: u32, height: u32, rgba: &Vec<u8>) -> (r: Vec<u8>)
    requires
        1 <= width,
        1 <= height,
        width * height <= 100_000_000,
        rgba@.len() == 4 * width * height,
    ensures
        r@ == png_of(width as nat, height as nat, rgba@),
{
    let mut out: Vec<u8> = Vec::new();
    let mut encoder = png::Encoder::new(&mut out, width, height);
    encoder.set_color(png::ColorType::Rgba);
    encoder.set_depth(png::BitDepth::Eight);
    let mut writer = encoder.write_header().expect("png header");
    writer.write_image_data(rgba).expect("png image data");
    writer.finish().expect("png end");
    out
}

/// Encoding to the PNG image format.
pub trait ToPng {
    /// The PNG bytes of the whole image, or none for a degenerate grid.
    fn to_png(&self) -> Option<Vec<u8>>;
}

/// A canvas the PNG encoder accepts: nonzero on both sides, not
/// absurdly large, and carrying one color per pixel.
pub open spec fn png_encodable(width: int, height: int, pixel_count: int) -> bool {
    &&& 1 <= width
    &&& 1 <= height
    &&& width * height <= 100_000_000
    &&& pixel_count == width * height
}

impl ToPng for Canvas {
    fn to_png(&self) -> (r: Option<Vec<u8>>)
        ensures
            match r {
                Option::Some(bytes) => png_encodable(
                    self.width as int,
                    self.height as int,
                    self@.len() as int,
                ) && bytes@ == png_of(self.width as nat, self.height as nat, rgba_bytes(self@)),
                Option::None => !png_encodable(
                    self.width as int,
                    self.height as int,
                    self@.len() as int,
                ),
            },
    {
        if self.width < 1 || self.height < 1 {
            return None;
        }
        proof {
            crate::fixed::lemma_mul_bound(
                self.width as int,
                self.height as int,
                0xffff_ffff_ffff_ffff,
                0xffff_ffff_ffff_ffff,
            );
            assert(0xffff_ffff_ffff_ffffint * 0xffff_ffff_ffff_ffff < 0x1_0000_0000_0000_0000_0000_0000_0000_0000int)
                by (nonlinear_arith);
        }
        if (self.width as u128) * (self.height as u128) > 100_000_000 {
            return None;
        }
        proof {
            assert(self.width <= 100_000_000 && self.height <= 100_000_000) by (nonlinear_arith)
                requires
                    1 <= self.width,
                    1 <= self.height,
                    self.width * self.height <= 100_000_000,
            ;
        }
        let count: usize = self.width * self.height;
        if self.pixel_count() != count {
            return None;
        }
        let rgba = self.to_rgba();
        proof {
            lemma_rgba_len(self@);
            assert(4 * (self.width as int) * (self.height as int) == 4 * ((self.width as int) * (
            self.height as int))) by (nonlinear_arith);
        }
        Some(encode_png(self.width as u32, self.height as u32, &rgba))
    }
}

} // verus!
