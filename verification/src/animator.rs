//! Frame-by-frame animation driving.
//!
//! An [`Animator`] runs a callback once per frame. A [`Frame`] knows its
//! position in the sequence, names its output file with a six-digit frame
//! number, and hands out a [`LinearScale`] over the frame range so that
//! scene parameters can be interpolated across the animation.

use vstd::prelude::*;
use vstd::string::StringExecFns;

use crate::fixed::{
    add_raw, clamp_raw, div_raw, mul_raw, sat, sub_raw, Fix, SCALE,
};

verus! {

/// The digit character for one decimal digit.
pub open spec fn digit_char(d: int) -> char {
    if d == 0 { '0' } else if d == 1 { '1' } else if d == 2 { '2' } else if d == 3 { '3' }
    else if d == 4 { '4' } else if d == 5 { '5' } else if d == 6 { '6' } else if d == 7 { '7' }
    else if d == 8 { '8' } else { '9' }
}

/// The decimal digits of `n`, most significant first.
pub open spec fn dec_chars(n: nat) -> Seq<char>
    decreases n,
{
    if n < 10 {
        seq![digit_char(n as int)]
    } else {
        dec_chars(n / 10).push(digit_char((n % 10) as int))
    }
}

/// The zeros that pad `n` out to six digits.
pub open spec fn pad6(n: nat) -> Seq<char> {
    if n < 10 {
        seq!['0', '0', '0', '0', '0']
    } else if n < 100 {
        seq!['0', '0', '0', '0']
    } else if n < 1000 {
        seq!['0', '0', '0']
    } else if n < 10000 {
        seq!['0', '0']
    } else if n < 100000 {
        seq!['0']
    } else {
        Seq::empty()
    }
}

/// A frame's file name: the path, a separator, the base name, the frame
/// number padded to six digits, and the extension.
pub open spec fn filename_v(
    path: Seq<char>,
    name: Seq<char>,
    current: nat,
    ext: Seq<char>,
) -> Seq<char> {
    path + seq!['/'] + name + pad6(current) + dec_chars(current) + ext
}

/// One frame of an animation: its index and the total frame count.
#[derive(Clone, Copy, Debug)]
pub struct Frame {
    pub current: usize,
    count: usize,
}

/// The mathematical value of a frame.
pub ghost struct FrameV {
    pub current: int,
    pub count: int,
}

impl View for Frame {
    type V = FrameV;

    closed spec fn view(&self) -> FrameV {
        FrameV { current: self.current as int, count: self.count as int }
    }
}

impl Frame {
    /// Frame `current` of `count`.
    pub fn new(current: usize, count: usize) -> (r: Frame)
        ensures
            r@ == (FrameV { current: current as int, count: count as int }),
    {
        Frame { current, count }
    }

    /// The output file name of this frame under `path`: the base name, the
    /// frame number padded to six digits, and the extension.
    pub fn filename(&self, path: &str, name: &str, ext: &str) -> (r: String)
        ensures
            r@ == filename_v(path@, name@, self@.current as nat, ext@),
    {
        let mut out = String::new();
        out.append(path);
        out.append("/");
        out.append(name);
        out.append(pad6_str(self.current as u64));
        let digits = decimal_string(self.current as u64);
        out.append(digits.as_str());
        out.append(ext);
        proof {
            reveal_strlit("/");
            assert(out@ =~= filename_v(path@, name@, self@.current as nat, ext@));
        }
        out
    }

    /// A scale whose input domain is this animation's frame range.
    pub fn linear_scale(&self) -> (r: LinearScale)
        ensures
            r.domain.0@ == 0,
            r.domain.1@ == sat(self@.count * SCALE),
            r.breakpoints@.len() == 0,
    {
        LinearScale {
            domain: (Fix::zero(), Fix::from_units_u64(self.count as u64)),
            breakpoints: Vec::new(),
        }
    }
}

/// Runs a callback once per frame, in order.
pub struct Animator {
    pub frame_count: usize,
}

impl Animator {
    /// An animator for `frame_count` frames.
    pub fn new(frame_count: usize) -> (r: Animator)
        ensures
            r.frame_count == frame_count,
    {
        Animator { frame_count }
    }

    /// Run the callback on every frame, first to last.
    pub fn animate<F: Fn(Frame)>(&self, animate: F)
        requires
            forall|frame: Frame| animate.requires((frame,)),
    {
        let mut current_frame: usize = 0;
        while current_frame < self.frame_count
            invariant
                forall|frame: Frame| animate.requires((frame,)),
            decreases self.frame_count - current_frame,
        {
            animate(Frame::new(current_frame, self.frame_count));
            current_frame = current_frame + 1;
        }
    }
}

/// Piecewise-linear interpolation over evenly spaced breakpoints.
pub struct LinearScale {
    pub domain: (Fix, Fix),
    pub breakpoints: Vec<Fix>,
}

/// How far `input` sits into `[lo, hi]`, as a fraction of the span.
pub open spec fn progress_v(input: int, lo: int, hi: int) -> int {
    div_raw(sub_raw(input, lo), sub_raw(hi, lo))
}

/// The scaled position of `input` along the slices: the fraction of the
/// domain covered, times the number of slices.
pub open spec fn scale_pos(d0: int, d1: int, n_breaks: int, input: int) -> int {
    mul_raw(progress_v(clamp_raw(input, d0, d1), d0, d1), sat((n_breaks - 1) * SCALE))
}

/// The interpolated value: how far the position sits into its slice, lerped
/// between the slice's two breakpoints.
pub open spec fn scale_v(d0: int, d1: int, breakpoints: Seq<Fix>, input: int) -> int {
    let pos = scale_pos(d0, d1, breakpoints.len() as int, input);
    let slice = pos / (SCALE as int);
    let lo = breakpoints[slice]@;
    let hi = breakpoints[slice + 1]@;
    let slice_frac = div_raw(
        sub_raw(pos, sat(slice * SCALE)),
        sub_raw(sat((slice + 1) * SCALE), sat(slice * SCALE)),
    );
    add_raw(lo, mul_raw(slice_frac, sub_raw(hi, lo)))
}

impl LinearScale {
    /// An empty scale over the unit domain.
    pub fn unit() -> (r: LinearScale)
        ensures
            r.domain.0@ == 0,
            r.domain.1@ == 0,
            r.breakpoints@.len() == 0,
    {
        LinearScale { domain: (Fix::zero(), Fix::zero()), breakpoints: Vec::new() }
    }

    /// This scale with its breakpoints replaced.
    pub fn with_breakpoints(self, breakpoints: Vec<Fix>) -> (r: LinearScale)
        ensures
            r.domain == self.domain,
            r.breakpoints@ == breakpoints@,
    {
        LinearScale { breakpoints, domain: self.domain }
    }

    /// Interpolate `input` through the breakpoints. The domain must be a
    /// real interval and the input must land strictly inside the last
    /// slice's upper breakpoint.
    pub fn scale(&self, input: Fix) -> (r: Fix)
        requires
            self.domain.0@ < self.domain.1@,
            self.breakpoints@.len() >= 1,
            scale_pos(self.domain.0@, self.domain.1@, self.breakpoints@.len() as int, input@) / (
            SCALE as int) + 1 < self.breakpoints@.len(),
        ensures
            r@ == scale_v(self.domain.0@, self.domain.1@, self.breakpoints@, input@),
    {
        let d0 = self.domain.0;
        let d1 = self.domain.1;
        let clamped = input.clamp(d0, d1);
        let span = d1.sub(d0);
        let frac = clamped.sub(d0).div(span);
        let num_slices = Fix::from_units_u64((self.breakpoints.len() - 1) as u64);
        let pos = frac.mul(num_slices);
        proof {
            crate::fixed::lemma_rdiv_nonneg(
                sub_raw(clamped@, d0@) * SCALE as int,
                sub_raw(d1@, d0@),
            );
            crate::fixed::lemma_mul_raw_nonneg(frac@, num_slices@);
        }
        let slice = pos.floor_units();
        let idx: usize = slice as usize;
        let lo = self.breakpoints[idx];
        let hi = self.breakpoints[idx + 1];
        let slice_lo = Fix::from_units(slice);
        let slice_hi = Fix::from_units(slice + 1);
        let denom = slice_hi.sub(slice_lo);
        proof {
            assert(sub_raw(clamped@, d0@) * SCALE as int >= 0) by (nonlinear_arith)
                requires
                    sub_raw(clamped@, d0@) >= 0,
            ;
            assert(slice as int * SCALE as int <= pos@) by (nonlinear_arith)
                requires
                    slice as int == pos@ / (SCALE as int),
                    pos@ >= 0,
                    SCALE == 1_000_000_000,
            ;
            assert(denom@ > 0);
        }
        let slice_frac = pos.sub(slice_lo).div(denom);
        lo.add(slice_frac.mul(hi.sub(lo)))
    }
}

/// The zeros that pad `n` out to six digits.
fn pad6_str(n: u64) -> (r: &'static str)
    ensures
        r@ == pad6(n as nat),
{
    proof {
        reveal_strlit("00000");
        reveal_strlit("0000");
        reveal_strlit("000");
        reveal_strlit("00");
        reveal_strlit("0");
        reveal_strlit("");
    }
    let r: &'static str = if n < 10 {
        "00000"
    } else if n < 100 {
        "0000"
    } else if n < 1000 {
        "000"
    } else if n < 10000 {
        "00"
    } else if n < 100000 {
        "0"
    } else {
        ""
    };
    proof {
        assert(r@ =~= pad6(n as nat));
    }
    r
}

/// The one-character string for one decimal digit.
fn digit_str(d: u64) -> (r: &'static str)
    requires
        d < 10,
    ensures
        r@ == seq![digit_char(d as int)],
{
    proof {
        reveal_strlit("0");
        reveal_strlit("1");
        reveal_strlit("2");
        reveal_strlit("3");
        reveal_strlit("4");
        reveal_strlit("5");
        reveal_strlit("6");
        reveal_strlit("7");
        reveal_strlit("8");
        reveal_strlit("9");
    }
    let r: &'static str = if d == 0 {
        "0"
    } else if d == 1 {
        "1"
    } else if d == 2 {
        "2"
    } else if d == 3 {
        "3"
    } else if d == 4 {
        "4"
    } else if d == 5 {
        "5"
    } else if d == 6 {
        "6"
    } else if d == 7 {
        "7"
    } else if d == 8 {
        "8"
    } else {
        "9"
    };
    proof {
        assert(r@ =~= seq![digit_char(d as int)]);
    }
    r
}

/// The decimal digits of `n`, most significant first.
pub fn decimal_string(n: u64) -> (r: String)
    ensures
        r@ == dec_chars(n as nat),
    decreases n,
{
    if n < 10 {
        let mut out = String::new();
        out.append(digit_str(n));
        proof {
            assert(out@ =~= dec_chars(n as nat));
        }
        out
    } else {
        let mut out = decimal_string(n / 10);
        out.append(digit_str(n % 10));
        proof {
            assert(out@ =~= dec_chars(n as nat));
        }
        out
    }
}

} // verus!
