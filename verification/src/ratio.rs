//! A minimal rational number used as a unit/tick scale factor.
//!
//! A `Ratio` expresses how many seconds one tick of some unit represents.
//! Applying it to an integer multiplies by the numerator first and divides
//! by the denominator second — deliberately not reassociated — so that
//! ratios such as `1/1000` lose no precision; the caller sizes the integer
//! width so that the intermediate product fits. Construction performs no
//! validation: a zero denominator is a caller error, ruled out at each use.

use vstd::arithmetic::div_mod::{lemma_div_multiples_vanish, lemma_fundamental_div_mod};
use vstd::prelude::*;

use crate::tick::TickCount;

verus! {

/// A simple rational number: numerator over denominator.
///
/// Two ratios are equal exactly when both fields are pairwise equal; there
/// is no reduction to lowest terms, so `1/2` and `2/4` compare unequal.
#[derive(Clone, Copy, Debug)]
pub struct Ratio<T: TickCount> {
    pub numerator: T,
    pub denominator: T,
}

impl<T: TickCount> PartialEq for Ratio<T> {
    fn eq(&self, other: &Self) -> (r: bool) {
        self.numerator.eq_val(other.numerator) && self.denominator.eq_val(other.denominator)
    }
}

impl<T: TickCount> vstd::std_specs::cmp::PartialEqSpecImpl for Ratio<T> {
    open spec fn obeys_eq_spec() -> bool {
        true
    }

    open spec fn eq_spec(&self, other: &Self) -> bool {
        self.numerator.as_int() == other.numerator.as_int()
            && self.denominator.as_int() == other.denominator.as_int()
    }
}

impl<T: TickCount> Eq for Ratio<T> {
}

impl<T: TickCount> Ratio<T> {
    /// What applying the ratio forward yields: multiply by the numerator,
    /// then divide (truncating) by the denominator.
    pub open spec fn spec_forward(self, v: int) -> int {
        (v * self.numerator.as_int()) / self.denominator.as_int()
    }

    /// What applying the ratio inversely yields: multiply by the
    /// denominator, then divide (truncating) by the numerator.
    pub open spec fn spec_inverse(self, v: int) -> int {
        (v * self.denominator.as_int()) / self.numerator.as_int()
    }

    /// Pure constructor; performs no validation of the denominator.
    pub fn new(numerator: T, denominator: T) -> (r: Self)
        ensures
            r.numerator == numerator,
            r.denominator == denominator,
    {
        Self { numerator, denominator }
    }

    /// Scales `value` by the ratio: `value * numerator / denominator`, the
    /// multiply evaluated before the divide at the operand's own width.
    pub fn apply_forward(self, value: T) -> (r: T)
        requires
            self.denominator.as_int() != 0,
            value.as_int() * self.numerator.as_int() < T::modulus(),
        ensures
            r.as_int() == self.spec_forward(value.as_int()),
    {
        proof {
            value.as_int_in_range();
            self.numerator.as_int_in_range();
        }
        value.mul_exact(self.numerator).div_trunc(self.denominator)
    }

    /// Scales `value` by the reciprocal: `value * denominator / numerator`,
    /// the multiply evaluated before the divide at the operand's own width.
    pub fn apply_inverse(self, value: T) -> (r: T)
        requires
            self.numerator.as_int() != 0,
            value.as_int() * self.denominator.as_int() < T::modulus(),
        ensures
            r.as_int() == self.spec_inverse(value.as_int()),
    {
        proof {
            value.as_int_in_range();
            self.denominator.as_int_in_range();
        }
        value.mul_exact(self.denominator).div_trunc(self.numerator)
    }
}

/// Law: applying a ratio forward and then inversely returns the original
/// value whenever the forward division is exact (no truncation occurs).
pub proof fn lemma_forward_inverse_round_trip<T: TickCount>(r: Ratio<T>, v: int)
    requires
        r.numerator.as_int() > 0,
        r.denominator.as_int() > 0,
        (v * r.numerator.as_int()) % r.denominator.as_int() == 0,
    ensures
        r.spec_inverse(r.spec_forward(v)) == v,
{
    let n = r.numerator.as_int();
    let d = r.denominator.as_int();
    let f = (v * n) / d;
    lemma_fundamental_div_mod(v * n, d);
    assert(f * d == v * n) by {
        assert(d * f == f * d) by (nonlinear_arith);
    }
    lemma_div_multiples_vanish(v, n);
    assert((v * n) / n == v) by {
        assert(n * v == v * n) by (nonlinear_arith);
    }
}

} // verus!
