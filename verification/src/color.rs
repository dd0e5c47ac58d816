//! Colors.
//!
//! A [`Color`] is a 3-component tuple without a homogeneous coordinate,
//! used both for light intensity and surface color. Channels are unclamped
//! in general; clamping to `[0, 1]` happens only at byte encoding.

use vstd::prelude::*;

use crate::fixed::{
    add_raw, clamp_raw, mul_raw, rdiv, sub_raw, Fix, SCALE,
};
use crate::utils::{fuzzy_raw, FuzzyEq};

verus! {

/// The mathematical value of a color: raw units per channel.
pub ghost struct Col3 {
    pub red: int,
    pub green: int,
    pub blue: int,
}

/// Channelwise sum.
pub open spec fn add_c(a: Col3, b: Col3) -> Col3 {
    Col3 {
        red: add_raw(a.red, b.red),
        green: add_raw(a.green, b.green),
        blue: add_raw(a.blue, b.blue),
    }
}

/// Channelwise difference.
pub open spec fn sub_c(a: Col3, b: Col3) -> Col3 {
    Col3 {
        red: sub_raw(a.red, b.red),
        green: sub_raw(a.green, b.green),
        blue: sub_raw(a.blue, b.blue),
    }
}

/// Every channel scaled by `s`.
pub open spec fn scale_c(a: Col3, s: int) -> Col3 {
    Col3 { red: mul_raw(a.red, s), green: mul_raw(a.green, s), blue: mul_raw(a.blue, s) }
}

/// Channelwise (Hadamard) product.
pub open spec fn mul_c(a: Col3, b: Col3) -> Col3 {
    Col3 {
        red: mul_raw(a.red, b.red),
        green: mul_raw(a.green, b.green),
        blue: mul_raw(a.blue, b.blue),
    }
}

/// Every channel clamped into `[lower, upper]`.
pub open spec fn clamp_c(a: Col3, lower: int, upper: int) -> Col3 {
    Col3 {
        red: clamp_raw(a.red, lower, upper),
        green: clamp_raw(a.green, lower, upper),
        blue: clamp_raw(a.blue, lower, upper),
    }
}

/// A channel's 8-bit value: clamp into `[0, 1]`, scale to 255, round.
pub open spec fn channel_byte(c: int) -> int {
    rdiv(clamp_raw(c, 0, SCALE as int) * 255, SCALE as int)
}

/// All three channels agree within tolerance.
pub open spec fn fuzzy_c(a: Col3, b: Col3) -> bool {
    fuzzy_raw(a.red, b.red) && fuzzy_raw(a.green, b.green) && fuzzy_raw(a.blue, b.blue)
}

/// A color with red, green and blue channels.
#[derive(Clone, Copy, Debug, PartialEq, Eq, Structural)]
pub struct Color {
    pub red: Fix,
    pub green: Fix,
    pub blue: Fix,
}

impl View for Color {
    type V = Col3;

    open spec fn view(&self) -> Col3 {
        Col3 { red: self.red@, green: self.green@, blue: self.blue@ }
    }
}

impl Color {
    /// The color with the given channels.
    pub fn new(red: Fix, green: Fix, blue: Fix) -> (r: Color)
        ensures
            r@ == (Col3 { red: red@, green: green@, blue: blue@ }),
    {
        Color { red, green, blue }
    }

    /// Black.
    pub fn black() -> (r: Color)
        ensures
            r@ == (Col3 { red: 0, green: 0, blue: 0 }),
    {
        Color { red: Fix::zero(), green: Fix::zero(), blue: Fix::zero() }
    }

    /// Channelwise sum.
    pub fn add(self, rhs: Color) -> (r: Color)
        ensures
            r@ == add_c(self@, rhs@),
    {
        Color {
            red: self.red.add(rhs.red),
            green: self.green.add(rhs.green),
            blue: self.blue.add(rhs.blue),
        }
    }

    /// Channelwise difference.
    pub fn sub(self, rhs: Color) -> (r: Color)
        ensures
            r@ == sub_c(self@, rhs@),
    {
        Color {
            red: self.red.sub(rhs.red),
            green: self.green.sub(rhs.green),
            blue: self.blue.sub(rhs.blue),
        }
    }

    /// Every channel scaled by `s`.
    pub fn scale(self, s: Fix) -> (r: Color)
        ensures
            r@ == scale_c(self@, s@),
    {
        Color { red: self.red.mul(s), green: self.green.mul(s), blue: self.blue.mul(s) }
    }

    /// Channelwise (Hadamard) product.
    pub fn mul(self, rhs: Color) -> (r: Color)
        ensures
            r@ == mul_c(self@, rhs@),
    {
        Color {
            red: self.red.mul(rhs.red),
            green: self.green.mul(rhs.green),
            blue: self.blue.mul(rhs.blue),
        }
    }

    /// Every channel clamped into `[lower, upper]`.
    pub fn clamp(&self, lower: Fix, upper: Fix) -> (r: Color)
        requires
            lower@ <= upper@,
        ensures
            r@ == clamp_c(self@, lower@, upper@),
    {
        Color {
            red: self.red.clamp(lower, upper),
            green: self.green.clamp(lower, upper),
            blue: self.blue.clamp(lower, upper),
        }
    }

    /// The three 8-bit channel values of this color.
    pub fn to_bytes(&self) -> (r: (u8, u8, u8))
        ensures
            r.0 as int == channel_byte(self@.red),
            r.1 as int == channel_byte(self@.green),
            r.2 as int == channel_byte(self@.blue),
    {
        (fix_to_byte(self.red), fix_to_byte(self.green), fix_to_byte(self.blue))
    }
}

/// One channel's 8-bit value.
fn fix_to_byte(c: Fix) -> (r: u8)
    ensures
        r as int == channel_byte(c@),
{
    let clamped: i64 = if c.raw < 0 {
        0
    } else if c.raw > SCALE {
        SCALE
    } else {
        c.raw
    };
    let scaled: i64 = (clamped * 255 + SCALE / 2) / SCALE;
    scaled as u8
}

impl FuzzyEq for Color {
    open spec fn fuzzy_spec(&self, other: Self) -> bool {
        fuzzy_c(self@, other@)
    }

    fn fuzzy_eq(&self, other: Self) -> (r: bool) {
        self.red.fuzzy_eq(other.red) && self.green.fuzzy_eq(other.green)
            && self.blue.fuzzy_eq(other.blue)
    }

    fn fuzzy_ne(&self, other: Self) -> (r: bool) {
        !self.fuzzy_eq(other)
    }
}

} // verus!
