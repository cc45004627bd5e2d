//! A wraparound-safe point in time bound to a specific clock.
//!
//! An instant is a single tick count of its clock's native width. Hardware
//! counters roll over, so two instants are compared with the half-period
//! (circular clock) rule: the wrapping difference of their tick counts is
//! held against half the tick type's maximum value, and a difference in the
//! lower half of the modular space sorts the left operand as later. The
//! comparison is total and always terminates, but it is only meaningful
//! when the true separation of the two instants is under half the
//! counter's range; beyond that bound the direction of "earlier/later" is
//! ambiguous by construction, an inherent property of modular counters.

use core::cmp::Ordering;
use vstd::prelude::*;
use vstd::std_specs::cmp::PartialOrdSpec;

use crate::clock::Clock;
use crate::duration::{lemma_converted_nonneg, Generic};
use crate::tick::{wrap_add, wrap_sub, TickCount};

verus! {

/// A point in time relative to a specific clock's epoch: a single tick
/// count of that clock's native width.
#[derive(Clone, Copy, Debug)]
pub struct Instant<C: Clock> {
    pub(crate) ticks: C::T,
}

/// The half-period comparison of a wrapping difference `d` against the
/// half-range bound `half`: a difference in the lower half of the modular
/// space means the left instant is ahead (later), one in the upper half
/// means it is behind, and one exactly at the bound compares as equal.
pub open spec fn spec_half_period_cmp(d: int, half: int) -> Ordering {
    if d < half {
        Ordering::Greater
    } else if d == half {
        Ordering::Equal
    } else {
        Ordering::Less
    }
}

impl<C: Clock> Instant<C> {
    /// The mathematical value of the held tick count.
    pub closed spec fn ticks_spec(self) -> int {
        self.ticks.as_int()
    }

    /// The counter's full period: the number of distinct tick values.
    pub open spec fn period() -> int {
        <C::T as TickCount>::modulus()
    }

    /// Half the tick type's maximum value: the bound below which a wrapped
    /// difference still determines direction unambiguously.
    pub open spec fn half_bound() -> int {
        (Self::period() - 1) / 2
    }

    /// What `checked_duration_since` returns: the wrapping tick difference
    /// `self - other` as a magnitude at the clock's scale factor when it
    /// falls in the non-negative half of the modular space, nothing
    /// otherwise.
    pub open spec fn duration_since_result(self, other: Self, r: Option<Generic<C::T>>) -> bool {
        let d = wrap_sub(self.ticks_spec(), other.ticks_spec(), Self::period());
        &&& (r is Some <==> d <= Self::half_bound())
        &&& (r matches Some(g) ==> g.ticks.as_int() == d && g.scale == C::scale_spec())
    }

    /// What `checked_add` returns: the modular sum of the tick count and
    /// the duration's converted magnitude when that magnitude converts
    /// without overflow and is at most half the tick type's maximum,
    /// nothing otherwise.
    pub open spec fn checked_add_result<T2: TickCount>(
        self,
        duration: Generic<T2>,
        r: Option<Self>,
    ) -> bool {
        let k = duration.converted(C::scale_spec());
        &&& (r is Some <==> !duration.degenerate(C::scale_spec()) && k <= Self::half_bound())
        &&& (r matches Some(j) ==> j.ticks_spec() == wrap_add(
            self.ticks_spec(),
            k,
            Self::period(),
        ))
    }

    /// What `checked_sub` returns: as `checked_add_result`, with the
    /// modular difference in place of the sum.
    pub open spec fn checked_sub_result<T2: TickCount>(
        self,
        duration: Generic<T2>,
        r: Option<Self>,
    ) -> bool {
        let k = duration.converted(C::scale_spec());
        &&& (r is Some <==> !duration.degenerate(C::scale_spec()) && k <= Self::half_bound())
        &&& (r matches Some(j) ==> j.ticks_spec() == wrap_sub(
            self.ticks_spec(),
            k,
            Self::period(),
        ))
    }

    /// Constructs an instant directly from a raw tick value, `ticks *
    /// scale factor` seconds since the clock's epoch.
    pub fn new(ticks: C::T) -> (r: Self)
        ensures
            r.ticks_spec() == ticks.as_int(),
    {
        Self { ticks }
    }

    /// Returns the amount of time elapsed from another instant to this one,
    /// or nothing if that instant is later than this one under the
    /// half-period ordering rule.
    pub fn checked_duration_since(&self, other: &Self) -> (r: Option<Generic<C::T>>)
        ensures
            self.duration_since_result(*other, r),
    {
        let diff = self.ticks.wrapping_sub(other.ticks);
        let half = <C::T as TickCount>::half_max();
        if diff.le(half) {
            Some(Generic::new(diff, C::scaling_factor()))
        } else {
            None
        }
    }

    /// Returns the amount of time from this instant to another, or nothing
    /// if that instant is earlier than this one under the half-period
    /// ordering rule.
    pub fn checked_duration_until(&self, other: &Self) -> (r: Option<Generic<C::T>>)
        ensures
            other.duration_since_result(*self, r),
    {
        let diff = other.ticks.wrapping_sub(self.ticks);
        let half = <C::T as TickCount>::half_max();
        if diff.le(half) {
            Some(Generic::new(diff, C::scaling_factor()))
        } else {
            None
        }
    }

    /// The raw tick count as a duration at the clock's scale factor: the
    /// time since the clock's zero. If the counter has wrapped since its
    /// true epoch the result is meaningless, by design and not flagged;
    /// callers relying on true epoch distance use a rarely-wrapping width.
    pub fn duration_since_epoch(&self) -> (r: Generic<C::T>)
        ensures
            r.ticks.as_int() == self.ticks_spec(),
            r.scale == C::scale_spec(),
    {
        Generic::new(self.ticks, C::scaling_factor())
    }

    /// This instant plus a duration: a later instant, or nothing if the
    /// duration's converted tick magnitude fails to convert or exceeds half
    /// the tick type's maximum — past that bound a modular sum can no
    /// longer be told apart from a smaller movement in either direction.
    pub fn checked_add<T2: TickCount>(self, duration: Generic<T2>) -> (r: Option<Self>)
        ensures
            self.checked_add_result(duration, r),
    {
        proof {
            <C::T as TickCount>::modulus_facts();
        }
        let scale = C::scaling_factor();
        match duration.into_ticks::<C::T>(scale) {
            Ok(add_ticks) => {
                let half = <C::T as TickCount>::half_max();
                if add_ticks.le(half) {
                    Some(Self { ticks: self.ticks.wrapping_add(add_ticks) })
                } else {
                    proof {
                        assert(duration.converted(C::scale_spec()) > Self::half_bound());
                    }
                    None
                }
            },
            Err(_e) => {
                proof {
                    assert(duration.degenerate(C::scale_spec()) || duration.converted(
                        C::scale_spec(),
                    ) > Self::half_bound());
                }
                None
            },
        }
    }

    /// This instant minus a duration: an earlier instant, or nothing under
    /// exactly the conditions of `checked_add`.
    pub fn checked_sub<T2: TickCount>(self, duration: Generic<T2>) -> (r: Option<Self>)
        ensures
            self.checked_sub_result(duration, r),
    {
        proof {
            <C::T as TickCount>::modulus_facts();
        }
        let scale = C::scaling_factor();
        match duration.into_ticks::<C::T>(scale) {
            Ok(sub_ticks) => {
                let half = <C::T as TickCount>::half_max();
                if sub_ticks.le(half) {
                    Some(Self { ticks: self.ticks.wrapping_sub(sub_ticks) })
                } else {
                    proof {
                        assert(duration.converted(C::scale_spec()) > Self::half_bound());
                    }
                    None
                }
            },
            Err(_e) => {
                proof {
                    assert(duration.degenerate(C::scale_spec()) || duration.converted(
                        C::scale_spec(),
                    ) > Self::half_bound());
                }
                None
            },
        }
    }

    /// This instant plus a duration: the abort-on-violation counterpart of
    /// `checked_add`, mirroring native fixed-width overflow semantics. The
    /// inputs on which `checked_add` reports no result are excluded here as
    /// a precondition, for call sites that have already proven the duration
    /// in range.
    pub fn add<T2: TickCount>(self, duration: Generic<T2>) -> (r: Self)
        requires
            !duration.degenerate(C::scale_spec()),
            duration.converted(C::scale_spec()) <= Self::half_bound(),
        ensures
            r.ticks_spec() == wrap_add(
                self.ticks_spec(),
                duration.converted(C::scale_spec()),
                Self::period(),
            ),
    {
        self.checked_add(duration).unwrap()
    }

    /// This instant minus a duration: the abort-on-violation counterpart of
    /// `checked_sub`, with the same precondition discipline as `add`.
    pub fn sub<T2: TickCount>(self, duration: Generic<T2>) -> (r: Self)
        requires
            !duration.degenerate(C::scale_spec()),
            duration.converted(C::scale_spec()) <= Self::half_bound(),
        ensures
            r.ticks_spec() == wrap_sub(
                self.ticks_spec(),
                duration.converted(C::scale_spec()),
                Self::period(),
            ),
    {
        self.checked_sub(duration).unwrap()
    }
}

/// Law: the elapsed-duration queries are symmetric. `checked_duration_since`
/// and `checked_duration_until` both promise `duration_since_result` of the
/// same ordered pair of instants, and that predicate pins a single answer:
/// so `a.checked_duration_since(&b)` yields a duration exactly when
/// `b.checked_duration_until(&a)` does, and it is the same duration.
pub proof fn lemma_since_until_symmetry<C: Clock>(
    a: Instant<C>,
    b: Instant<C>,
    r1: Option<Generic<C::T>>,
    r2: Option<Generic<C::T>>,
)
    requires
        a.duration_since_result(b, r1),
        a.duration_since_result(b, r2),
    ensures
        r1 == r2,
{
    match (r1, r2) {
        (Some(d1), Some(d2)) => {
            d1.ticks.as_int_injective(d2.ticks);
        },
        _ => {
        },
    }
}

/// Law: the elapsed-duration query agrees with the half-period ordering.
/// `a.checked_duration_since(&b)` yields a duration exactly when `a`
/// compares greater than or equal to `b` — that is, exactly when `b` is not
/// strictly later than `a` on the circular clock.
pub proof fn lemma_since_agrees_with_ordering<C: Clock>(
    a: Instant<C>,
    b: Instant<C>,
    r: Option<Generic<C::T>>,
)
    requires
        a.duration_since_result(b, r),
    ensures
        r is Some <==> (a.partial_cmp_spec(&b) matches Some(
            Ordering::Greater
            | Ordering::Equal,
        )),
{
}

/// Law: checked addition and subtraction are inverses within the
/// representable half-range. Whenever adding a duration to an instant
/// succeeded, subtracting the same duration from the sum succeeds and
/// returns exactly the original instant.
pub proof fn lemma_add_sub_inverse<C: Clock, T2: TickCount>(
    i: Instant<C>,
    d: Generic<T2>,
    j: Instant<C>,
    r: Option<Instant<C>>,
)
    requires
        i.checked_add_result(d, Some(j)),
        j.checked_sub_result(d, r),
    ensures
        r == Some(i),
{
    let k = d.converted(C::scale_spec());
    let m = Instant::<C>::period();
    <C::T as TickCount>::modulus_facts();
    i.ticks.as_int_in_range();
    lemma_converted_nonneg(d, C::scale_spec());
    match r {
        Some(x) => {
            assert(wrap_sub(wrap_add(i.ticks_spec(), k, m), k, m) == i.ticks_spec());
            x.ticks.as_int_injective(i.ticks);
        },
        None => {
            assert(false);
        },
    }
}

impl<C: Clock> PartialEq for Instant<C> {
    fn eq(&self, other: &Self) -> (r: bool) {
        self.ticks.eq_val(other.ticks)
    }
}

impl<C: Clock> vstd::std_specs::cmp::PartialEqSpecImpl for Instant<C> {
    open spec fn obeys_eq_spec() -> bool {
        true
    }

    open spec fn eq_spec(&self, other: &Self) -> bool {
        self.ticks_spec() == other.ticks_spec()
    }
}

impl<C: Clock> Eq for Instant<C> {
}

impl<C: Clock> PartialOrd for Instant<C> {
    /// Compares two instants by the half-period rule: the wrapping tick
    /// difference `self - other` is held against half the tick type's
    /// maximum value, with the comparison direction inverted, so that a
    /// difference in the lower half of the modular space sorts `self` as
    /// later even across a counter wraparound.
    fn partial_cmp(&self, other: &Self) -> (r: Option<Ordering>) {
        let diff = self.ticks.wrapping_sub(other.ticks);
        let half = <C::T as TickCount>::half_max();
        if diff.eq_val(half) {
            Some(Ordering::Equal)
        } else if diff.le(half) {
            Some(Ordering::Greater)
        } else {
            Some(Ordering::Less)
        }
    }
}

impl<C: Clock> vstd::std_specs::cmp::PartialOrdSpecImpl for Instant<C> {
    open spec fn obeys_partial_cmp_spec() -> bool {
        true
    }

    open spec fn partial_cmp_spec(&self, other: &Self) -> Option<Ordering> {
        Some(
            spec_half_period_cmp(
                wrap_sub(self.ticks_spec(), other.ticks_spec(), Instant::<C>::period()),
                Instant::<C>::half_bound(),
            ),
        )
    }
}

} // verus!
