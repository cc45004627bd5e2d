//! A scale-factor-carrying duration and its checked unit conversion.
//!
//! A duration is a raw tick magnitude paired with the scale factor giving
//! the length of one of its ticks in seconds. Converting it into ticks of a
//! different unit scales by the ratio of the two scale factors, widening
//! into a 128-bit intermediate so the multiply-then-divide itself cannot
//! overflow, then narrowing into the requested width — reporting overflow
//! instead of wrapping, and reporting a degenerate scale-factor pairing
//! (one that would divide by zero) instead of panicking.

use vstd::arithmetic::div_mod::lemma_div_pos_is_pos;
use vstd::prelude::*;

use crate::ratio::Ratio;
use crate::tick::TickCount;

verus! {

/// Why a unit conversion failed.
#[derive(Clone, Copy, Debug, PartialEq, Eq, Structural)]
pub enum ConversionError {
    /// The scaled magnitude does not fit the requested target width.
    Overflow,
    /// The source/target scale-factor pairing would divide by zero.
    Unspecified,
}

/// A duration of a runtime-chosen unit: a raw tick magnitude paired with an
/// explicit scale factor giving one tick's length in seconds.
#[derive(Clone, Copy, Debug)]
pub struct Generic<T: TickCount> {
    pub ticks: T,
    pub scale: Ratio<u32>,
}

/// The exact scaled magnitude of a unit conversion: `ticks` ticks of
/// `sn/sd` seconds each, expressed in ticks of `tn/td` seconds each,
/// truncating toward zero. The multiplies happen before the divide.
pub open spec fn spec_scaled(ticks: int, sn: int, sd: int, tn: int, td: int) -> int {
    (ticks * sn * td) / (sd * tn)
}

impl<T: TickCount> PartialEq for Generic<T> {
    fn eq(&self, other: &Self) -> (r: bool) {
        self.ticks.eq_val(other.ticks) && self.scale == other.scale
    }
}

impl<T: TickCount> vstd::std_specs::cmp::PartialEqSpecImpl for Generic<T> {
    open spec fn obeys_eq_spec() -> bool {
        true
    }

    open spec fn eq_spec(&self, other: &Self) -> bool {
        self.ticks.as_int() == other.ticks.as_int() && self.scale == other.scale
    }
}

impl<T: TickCount> Eq for Generic<T> {
}

impl<T: TickCount> Generic<T> {
    /// The magnitude this duration takes when expressed in ticks of
    /// `target_scale` seconds each.
    pub open spec fn converted(self, target_scale: Ratio<u32>) -> int {
        spec_scaled(
            self.ticks.as_int(),
            self.scale.numerator as int,
            self.scale.denominator as int,
            target_scale.numerator as int,
            target_scale.denominator as int,
        )
    }

    /// Whether converting toward `target_scale` would divide by zero.
    pub open spec fn degenerate(self, target_scale: Ratio<u32>) -> bool {
        (self.scale.denominator as int) * (target_scale.numerator as int) == 0
    }

    /// Pairs a raw tick magnitude with an explicit scale factor.
    pub fn new(ticks: T, scale: Ratio<u32>) -> (r: Self)
        ensures
            r.ticks == ticks,
            r.scale == scale,
    {
        Self { ticks, scale }
    }

    /// Converts this duration into ticks of a unit whose tick lasts
    /// `target_scale` seconds, at width `U`.
    ///
    /// The tick magnitude is scaled by the ratio of the two scale factors,
    /// multiplying before dividing in a 128-bit intermediate, truncating
    /// toward zero. Fails with `Unspecified` exactly when the scale-factor
    /// pairing is degenerate (the combined divisor is zero), and with
    /// `Overflow` exactly when the scaled magnitude does not fit in `U`.
    pub fn into_ticks<U: TickCount>(self, target_scale: Ratio<u32>) -> (r: Result<
        U,
        ConversionError,
    >)
        ensures
            self.degenerate(target_scale) <==> r == Err::<U, _>(ConversionError::Unspecified),
            (!self.degenerate(target_scale) && self.converted(target_scale) >= U::modulus())
                <==> r == Err::<U, _>(ConversionError::Overflow),
            r matches Ok(u) ==> u.as_int() == self.converted(target_scale)
                && self.converted(target_scale) < U::modulus(),
    {
        let t: u128 = self.ticks.widen_to_u128();
        let sn: u128 = self.scale.numerator as u128;
        let sd: u128 = self.scale.denominator as u128;
        let tn: u128 = target_scale.numerator as u128;
        let td: u128 = target_scale.denominator as u128;
        proof {
            self.ticks.as_int_in_range();
            T::modulus_facts();
            assert((t as int) * (sn as int) <= 0xffff_ffff_ffff_ffff * 0xffff_ffff)
                by (nonlinear_arith)
                requires
                    0 <= t <= 0xffff_ffff_ffff_ffff,
                    0 <= sn <= 0xffff_ffff,
            ;
            assert((t as int) * (sn as int) * (td as int) <= 0xffff_ffff_ffff_ffff * 0xffff_ffff
                * 0xffff_ffff) by (nonlinear_arith)
                requires
                    0 <= (t as int) * (sn as int) <= 0xffff_ffff_ffff_ffff * 0xffff_ffff,
                    0 <= td <= 0xffff_ffff,
            ;
            assert((sd as int) * (tn as int) <= 0xffff_ffff * 0xffff_ffff) by (nonlinear_arith)
                requires
                    0 <= sd <= 0xffff_ffff,
                    0 <= tn <= 0xffff_ffff,
            ;
        }
        let divisor: u128 = sd * tn;
        if divisor == 0 {
            return Err(ConversionError::Unspecified);
        }
        let prod: u128 = t * sn * td;
        let q: u128 = prod / divisor;
        match U::narrow_from_u128(q) {
            Some(u) => Ok(u),
            None => Err(ConversionError::Overflow),
        }
    }
}

/// A non-degenerate conversion never yields a negative magnitude: every
/// factor of the scaling multiply-then-divide is non-negative.
pub proof fn lemma_converted_nonneg<T: TickCount>(g: Generic<T>, target_scale: Ratio<u32>)
    requires
        !g.degenerate(target_scale),
    ensures
        g.converted(target_scale) >= 0,
{
    let t = g.ticks.as_int();
    let sn = g.scale.numerator as int;
    let sd = g.scale.denominator as int;
    let tn = target_scale.numerator as int;
    let td = target_scale.denominator as int;
    g.ticks.as_int_in_range();
    assert(t * sn * td >= 0) by (nonlinear_arith)
        requires
            t >= 0,
            sn >= 0,
            td >= 0,
    ;
    assert(sd * tn > 0) by (nonlinear_arith)
        requires
            sd >= 0,
            tn >= 0,
            sd * tn != 0,
    ;
    lemma_div_pos_is_pos(t * sn * td, sd * tn);
}

} // verus!
