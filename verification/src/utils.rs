//! Tolerant comparison.
//!
//! Transform composition and the circular functions accumulate rounding
//! error, so equality of computed scalars is always judged within a fixed
//! tolerance of 1e-5 ([`crate::fixed::EPSILON_RAW`] raw units), never exactly.

use vstd::prelude::*;

use crate::fixed::{Fix, EPSILON_RAW};

verus! {

/// Two raw values agree within the fixed tolerance.
pub open spec fn fuzzy_raw(a: int, b: int) -> bool {
    -(EPSILON_RAW as int) < a - b < EPSILON_RAW as int
}

/// Equality within the fixed tolerance of 1e-5.
pub trait FuzzyEq: Sized {
    /// What the comparison decides.
    spec fn fuzzy_spec(&self, other: Self) -> bool;

    /// The two values agree within tolerance.
    fn fuzzy_eq(&self, other: Self) -> (r: bool)
        ensures
            r == self.fuzzy_spec(other),
    ;

    /// The two values disagree beyond tolerance.
    fn fuzzy_ne(&self, other: Self) -> (r: bool)
        ensures
            r == !self.fuzzy_spec(other),
    ;
}

impl FuzzyEq for Fix {
    open spec fn fuzzy_spec(&self, other: Self) -> bool {
        fuzzy_raw(self@, other@)
    }

    fn fuzzy_eq(&self, other: Self) -> (r: bool) {
        let d: i128 = (self.raw as i128) - (other.raw as i128);
        let res: bool = -(EPSILON_RAW as i128) < d && d < EPSILON_RAW as i128;
        proof {
            assert(self.fuzzy_spec(other) == fuzzy_raw(self@, other@));
        }
        res
    }

    fn fuzzy_ne(&self, other: Self) -> (r: bool) {
        !self.fuzzy_eq(other)
    }
}

impl<T: FuzzyEq + Copy> FuzzyEq for Option<T> {
    open spec fn fuzzy_spec(&self, other: Self) -> bool {
        match *self {
            Option::None => other is None,
            Option::Some(a) => match other {
                Option::None => false,
                Option::Some(b) => a.fuzzy_spec(b),
            },
        }
    }

    fn fuzzy_eq(&self, other: Self) -> (r: bool) {
        match (self, other) {
            (Option::None, Option::None) => true,
            (Option::Some(a), Option::Some(b)) => a.fuzzy_eq(b),
            _ => false,
        }
    }

    fn fuzzy_ne(&self, other: Self) -> (r: bool) {
        !self.fuzzy_eq(other)
    }
}

} // verus!
