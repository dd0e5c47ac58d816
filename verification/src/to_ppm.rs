//! Plain-text PPM encoding of a canvas.
//!
//! The header is `P3`, the grid size and the channel maximum 255, one per
//! line. The body writes each pixel's three channel values as decimal
//! text, separated by single spaces, wrapping a line before it would pass
//! 70 characters and after each row's worth of pixels.

use vstd::prelude::*;

use crate::canvas::Canvas;
use crate::color::channel_byte;
use crate::color::Color;

verus! {

/// The decimal digits of `n`, most significant first, as ASCII bytes.
pub open spec fn dec_bytes(n: nat) -> Seq<u8>
    decreases n,
{
    if n < 10 {
        seq![(48 + n) as u8]
    } else {
        dec_bytes(n / 10).push((48 + n % 10) as u8)
    }
}

/// A short number prints one to three digits.
pub proof fn lemma_dec_bytes_len(n: nat)
    requires
        n < 1000,
    ensures
        1 <= dec_bytes(n).len() <= 3,
{
    if n < 10 {
    } else if n < 100 {
        assert(dec_bytes(n / 10).len() == 1);
    } else {
        assert(dec_bytes(n / 100).len() == 1);
        assert(dec_bytes(n / 10) == dec_bytes((n / 10) / 10).push((48 + (n / 10) % 10) as u8));
        assert((n / 10) / 10 == n / 100) by (nonlinear_arith);
    }
}

/// One channel value appended to a line in progress: a line break first if
/// the value (and its separating space) would pass 70 columns, then a space
/// unless at the line start, then the decimal digits. Yields the bytes and
/// the new column count.
#[verifier::opaque]
pub open spec fn emit_component(out: Seq<u8>, row_width: int, b: int) -> (Seq<u8>, int) {
    let comp = dec_bytes(b as nat);
    let want = if row_width == 0 {
        comp.len() as int
    } else {
        1 + comp.len() as int
    };
    let wrapped_out = if row_width + want > 70 {
        out.push(10u8)
    } else {
        out
    };
    let wrapped_width: int = if row_width + want > 70 {
        0
    } else {
        row_width
    };
    let spaced_out = if wrapped_width != 0 {
        wrapped_out.push(32u8)
    } else {
        wrapped_out
    };
    let spaced_width: int = if wrapped_width != 0 {
        wrapped_width + 1
    } else {
        wrapped_width
    };
    (spaced_out + comp, spaced_width + comp.len())
}

/// One pixel appended to the body: its three channel bytes, then a line
/// break once a full row of pixels has been written. Yields the bytes, the
/// column count and the pixels written on the current row.
pub open spec fn emit_pixel(
    out: Seq<u8>,
    row_width: int,
    on_row: int,
    c: Color,
    width: int,
) -> (Seq<u8>, int, int) {
    let after_red = emit_component(out, row_width, channel_byte(c@.red));
    let after_green = emit_component(after_red.0, after_red.1, channel_byte(c@.green));
    let after_blue = emit_component(after_green.0, after_green.1, channel_byte(c@.blue));
    if on_row + 1 == width {
        (after_blue.0.push(10u8), 0, 0)
    } else {
        (after_blue.0, after_blue.1, on_row + 1)
    }
}

/// The whole body: every pixel emitted in buffer order.
pub open spec fn ppm_body(pixels: Seq<Color>, width: int) -> (Seq<u8>, int, int)
    decreases pixels.len(),
{
    if pixels.len() == 0 {
        (Seq::empty(), 0int, 0int)
    } else {
        let st = ppm_body(pixels.drop_last(), width);
        emit_pixel(st.0, st.1, st.2, pixels.last(), width)
    }
}

/// `P3`, the grid size, and the channel maximum, one per line.
pub open spec fn ppm_header_bytes(width: int, height: int) -> Seq<u8> {
    seq![80u8, 51u8, 10u8] + dec_bytes(width as nat) + seq![32u8] + dec_bytes(height as nat)
        + seq![10u8, 50u8, 53u8, 53u8, 10u8]
}

/// Header, then body.
pub open spec fn ppm_bytes(pixels: Seq<Color>, width: int, height: int) -> Seq<u8> {
    ppm_header_bytes(width, height) + ppm_body(pixels, width).0
}

/// Encoding to the plain-text PPM image format.
pub trait ToPPM {
    /// The PPM header for this pixel grid.
    fn ppm_header(&self) -> Vec<u8>;

    /// The PPM text of the whole image.
    fn to_ppm(&self) -> Vec<u8>;
}

impl ToPPM for Canvas {
    fn ppm_header(&self) -> (r: Vec<u8>)
        ensures
            r@ == ppm_header_bytes(self.width as int, self.height as int),
    {
        let mut out: Vec<u8> = Vec::new();
        out.push(80);
        out.push(51);
        out.push(10);
        let mut w_digits = decimal_bytes(self.width as u64);
        out.append(&mut w_digits);
        out.push(32);
        let mut h_digits = decimal_bytes(self.height as u64);
        out.append(&mut h_digits);
        out.push(10);
        out.push(50);
        out.push(53);
        out.push(53);
        out.push(10);
        proof {
            assert(out@ =~= ppm_header_bytes(self.width as int, self.height as int));
        }
        out
    }

    #[verifier::rlimit(100)]
    fn to_ppm(&self) -> (r: Vec<u8>)
        ensures
            r@ == ppm_bytes(self@, self.width as int, self.height as int),
    {
        let mut out: Vec<u8> = self.ppm_header();
        let ghost header: Seq<u8> = out@;
        let mut row_width: usize = 0;
        let mut on_row: usize = 0;
        let mut i: usize = 0;
        let count = self.pixel_count();
        proof {
            assert(self@.take(0) =~= Seq::<Color>::empty());
        }
        while i < count
            invariant
                i <= count,
                count == self@.len(),
                on_row <= i,
                row_width <= 70,
                header == ppm_header_bytes(self.width as int, self.height as int),
                out@ == header + ppm_body(self@.take(i as int), self.width as int).0,
                row_width as int == ppm_body(self@.take(i as int), self.width as int).1,
                on_row as int == ppm_body(self@.take(i as int), self.width as int).2,
            decreases count - i,
        {
            let pixel = self.pixel_at(i);
            let (red, green, blue) = pixel.to_bytes();
            let (o1, w1) = push_component(out, row_width, red);
            let (o2, w2) = push_component(o1, w1, green);
            let (o3, w3) = push_component(o2, w2, blue);
            out = o3;
            row_width = w3;
            on_row = on_row + 1;
            if on_row == self.width {
                out.push(10);
                row_width = 0;
                on_row = 0;
            }
            proof {
                lemma_ppm_body_step(self@, i as int, self.width as int);
                lemma_emit_pixel_prefix(
                    header,
                    ppm_body(self@.take(i as int), self.width as int).0,
                    ppm_body(self@.take(i as int), self.width as int).1,
                    ppm_body(self@.take(i as int), self.width as int).2,
                    self@[i as int],
                    self.width as int,
                );
            }
            i = i + 1;
        }
        proof {
            assert(self@.take(count as int) =~= self@);
        }
        out
    }
}

/// Appending a component only ever extends its buffer, so a fixed prefix
/// passes through unchanged.
proof fn lemma_emit_component_prefix(pre: Seq<u8>, out: Seq<u8>, rw: int, b: int)
    ensures
        emit_component(pre + out, rw, b).0 == pre + emit_component(out, rw, b).0,
        emit_component(pre + out, rw, b).1 == emit_component(out, rw, b).1,
{
    reveal(crate::to_ppm::emit_component);
    assert((pre + out).push(10u8) =~= pre + out.push(10u8));
    assert((pre + out).push(32u8) =~= pre + out.push(32u8));
    assert((pre + out.push(10u8)).push(32u8) =~= pre + out.push(10u8).push(32u8));
    let comp = dec_bytes(b as nat);
    assert((pre + out) + comp =~= pre + (out + comp));
    assert((pre + out.push(10u8)) + comp =~= pre + (out.push(10u8) + comp));
    assert((pre + out.push(32u8)) + comp =~= pre + (out.push(32u8) + comp));
    assert((pre + out.push(10u8).push(32u8)) + comp =~= pre + (out.push(10u8).push(32u8) + comp));
}

/// Appending a pixel only ever extends its buffer, so a fixed prefix
/// passes through unchanged.
proof fn lemma_emit_pixel_prefix(pre: Seq<u8>, out: Seq<u8>, rw: int, onr: int, c: Color, width: int)
    ensures
        emit_pixel(pre + out, rw, onr, c, width).0 == pre + emit_pixel(out, rw, onr, c, width).0,
        emit_pixel(pre + out, rw, onr, c, width).1 == emit_pixel(out, rw, onr, c, width).1,
        emit_pixel(pre + out, rw, onr, c, width).2 == emit_pixel(out, rw, onr, c, width).2,
{
    let red = channel_byte(c@.red);
    let green = channel_byte(c@.green);
    let blue = channel_byte(c@.blue);
    lemma_emit_component_prefix(pre, out, rw, red);
    let r1 = emit_component(out, rw, red);
    lemma_emit_component_prefix(pre, r1.0, r1.1, green);
    let r2 = emit_component(r1.0, r1.1, green);
    lemma_emit_component_prefix(pre, r2.0, r2.1, blue);
    let r3 = emit_component(r2.0, r2.1, blue);
    assert((pre + r3.0).push(10u8) =~= pre + r3.0.push(10u8));
}

/// Encoding one more pixel extends the body by exactly that pixel.
proof fn lemma_ppm_body_step(pixels: Seq<Color>, i: int, width: int)
    requires
        0 <= i < pixels.len(),
    ensures
        ppm_body(pixels.take(i + 1), width) == emit_pixel(
            ppm_body(pixels.take(i), width).0,
            ppm_body(pixels.take(i), width).1,
            ppm_body(pixels.take(i), width).2,
            pixels[i],
            width,
        ),
{
    assert(pixels.take(i + 1).drop_last() =~= pixels.take(i));
    assert(pixels.take(i + 1).last() == pixels[i]);
}

/// The decimal digits of `n`, most significant first, as ASCII bytes.
pub fn decimal_bytes(n: u64) -> (r: Vec<u8>)
    ensures
        r@ == dec_bytes(n as nat),
    decreases n,
{
    if n < 10 {
        let mut out: Vec<u8> = Vec::new();
        out.push(48 + n as u8);
        proof {
            assert(out@ =~= dec_bytes(n as nat));
        }
        out
    } else {
        let mut out = decimal_bytes(n / 10);
        out.push(48 + (n % 10) as u8);
        out
    }
}

/// Append one channel value to the line in progress, exactly as
/// `emit_component` lays it out.
fn push_component(out: Vec<u8>, row_width: usize, b: u8) -> (r: (Vec<u8>, usize))
    requires
        row_width <= 70,
    ensures
        (r.0@, r.1 as int) == emit_component(out@, row_width as int, b as int),
        r.1 <= 70,
{
    proof {
        reveal(crate::to_ppm::emit_component);
        lemma_dec_bytes_len(b as nat);
    }
    let mut comp = decimal_bytes(b as u64);
    let comp_len = comp.len();
    let want: usize = if row_width == 0 {
        comp_len
    } else {
        1 + comp_len
    };
    let mut res = out;
    let mut width = row_width;
    if width + want > 70 {
        res.push(10);
        width = 0;
    }
    if width != 0 {
        res.push(32);
        width = width + 1;
    }
    res.append(&mut comp);
    width = width + comp_len;
    (res, width)
}

} // verus!
