//! The numeric capability a clock's tick counter must provide.
//!
//! A tick counter is a fixed-width unsigned integer that rolls over. Every
//! operation the rest of the crate needs from such a counter — wrapping
//! addition and subtraction, the half-range bound used by the half-period
//! comparison rule, exact multiply/divide for scale-factor application, and
//! widening/narrowing for unit conversion — is stated here once, against a
//! mathematical model (`as_int`/`modulus`), and proved for each width.

use vstd::prelude::*;

verus! {

/// Modular reduction of a sum of two values already in `[0, m)`.
pub open spec fn wrap_add(a: int, b: int, m: int) -> int {
    if a + b >= m {
        a + b - m
    } else {
        a + b
    }
}

/// Modular reduction of a difference of two values already in `[0, m)`.
pub open spec fn wrap_sub(a: int, b: int, m: int) -> int {
    if a - b < 0 {
        a - b + m
    } else {
        a - b
    }
}

/// An unsigned fixed-width integer usable as a clock's tick counter.
///
/// `as_int` maps a value to the mathematical integer it stands for and
/// `modulus` is the number of distinct values of the type (one past its
/// maximum), so a counter of this type rolls over modulo `modulus`.
pub trait TickCount: Sized + Copy {
    /// Number of distinct values of the type.
    spec fn modulus() -> int;

    /// The mathematical integer a value stands for.
    spec fn as_int(self) -> int;

    proof fn modulus_facts()
        ensures
            2 <= Self::modulus() <= 0x1_0000_0000_0000_0000,
    ;

    proof fn as_int_in_range(self)
        ensures
            0 <= self.as_int() < Self::modulus(),
    ;

    proof fn as_int_injective(self, other: Self)
        requires
            self.as_int() == other.as_int(),
        ensures
            self == other,
    ;

    /// Modular addition: never panics, rolls over past the maximum.
    fn wrapping_add(self, rhs: Self) -> (r: Self)
        ensures
            r.as_int() == wrap_add(self.as_int(), rhs.as_int(), Self::modulus()),
    ;

    /// Modular subtraction: never panics, rolls over below zero.
    fn wrapping_sub(self, rhs: Self) -> (r: Self)
        ensures
            r.as_int() == wrap_sub(self.as_int(), rhs.as_int(), Self::modulus()),
    ;

    /// Half of the type's maximum value, the half-period comparison bound.
    fn half_max() -> (r: Self)
        ensures
            r.as_int() == (Self::modulus() - 1) / 2,
    ;

    fn le(self, rhs: Self) -> (r: bool)
        ensures
            r == (self.as_int() <= rhs.as_int()),
    ;

    fn eq_val(self, rhs: Self) -> (r: bool)
        ensures
            r == (self.as_int() == rhs.as_int()),
    ;

    /// Exact product at the type's own width; the caller sizes the width so
    /// that the product fits.
    fn mul_exact(self, rhs: Self) -> (r: Self)
        requires
            self.as_int() * rhs.as_int() < Self::modulus(),
        ensures
            r.as_int() == self.as_int() * rhs.as_int(),
    ;

    /// Quotient truncated toward zero; the divisor must be non-zero.
    fn div_trunc(self, rhs: Self) -> (r: Self)
        requires
            rhs.as_int() != 0,
        ensures
            r.as_int() == self.as_int() / rhs.as_int(),
    ;

    /// Exact widening into the intermediate width used by unit conversion.
    fn widen_to_u128(self) -> (r: u128)
        ensures
            r as int == self.as_int(),
    ;

    /// Narrowing from the intermediate width; fails exactly when the value
    /// does not fit.
    fn narrow_from_u128(v: u128) -> (r: Option<Self>)
        ensures
            match r {
                Some(t) => t.as_int() == v as int && (v as int) < Self::modulus(),
                None => v as int >= Self::modulus(),
            },
    ;
}

impl TickCount for u8 {
    open spec fn modulus() -> int {
        0x100
    }

    open spec fn as_int(self) -> int {
        self as int
    }

    proof fn modulus_facts() {
    }

    proof fn as_int_in_range(self) {
    }

    proof fn as_int_injective(self, other: Self) {
    }

    fn wrapping_add(self, rhs: Self) -> (r: Self) {
        u8::wrapping_add(self, rhs)
    }

    fn wrapping_sub(self, rhs: Self) -> (r: Self) {
        u8::wrapping_sub(self, rhs)
    }

    fn half_max() -> (r: Self) {
        u8::MAX / 2
    }

    fn le(self, rhs: Self) -> (r: bool) {
        self <= rhs
    }

    fn eq_val(self, rhs: Self) -> (r: bool) {
        self == rhs
    }

    fn mul_exact(self, rhs: Self) -> (r: Self) {
        self * rhs
    }

    fn div_trunc(self, rhs: Self) -> (r: Self) {
        self / rhs
    }

    fn widen_to_u128(self) -> (r: u128) {
        self as u128
    }

    fn narrow_from_u128(v: u128) -> (r: Option<Self>) {
        if v <= u8::MAX as u128 {
            Some(v as u8)
        } else {
            None
        }
    }
}

impl TickCount for u16 {
    open spec fn modulus() -> int {
        0x1_0000
    }

    open spec fn as_int(self) -> int {
        self as int
    }

    proof fn modulus_facts() {
    }

    proof fn as_int_in_range(self) {
    }

    proof fn as_int_injective(self, other: Self) {
    }

    fn wrapping_add(self, rhs: Self) -> (r: Self) {
        u16::wrapping_add(self, rhs)
    }

    fn wrapping_sub(self, rhs: Self) -> (r: Self) {
        u16::wrapping_sub(self, rhs)
    }

    fn half_max() -> (r: Self) {
        u16::MAX / 2
    }

    fn le(self, rhs: Self) -> (r: bool) {
        self <= rhs
    }

    fn eq_val(self, rhs: Self) -> (r: bool) {
        self == rhs
    }

    fn mul_exact(self, rhs: Self) -> (r: Self) {
        self * rhs
    }

    fn div_trunc(self, rhs: Self) -> (r: Self) {
        self / rhs
    }

    fn widen_to_u128(self) -> (r: u128) {
        self as u128
    }

    fn narrow_from_u128(v: u128) -> (r: Option<Self>) {
        if v <= u16::MAX as u128 {
            Some(v as u16)
        } else {
            None
        }
    }
}

impl TickCount for u32 {
    open spec fn modulus() -> int {
        0x1_0000_0000
    }

    open spec fn as_int(self) -> int {
        self as int
    }

    proof fn modulus_facts() {
    }

    proof fn as_int_in_range(self) {
    }

    proof fn as_int_injective(self, other: Self) {
    }

    fn wrapping_add(self, rhs: Self) -> (r: Self) {
        u32::wrapping_add(self, rhs)
    }

    fn wrapping_sub(self, rhs: Self) -> (r: Self) {
        u32::wrapping_sub(self, rhs)
    }

    fn half_max() -> (r: Self) {
        u32::MAX / 2
    }

    fn le(self, rhs: Self) -> (r: bool) {
        self <= rhs
    }

    fn eq_val(self, rhs: Self) -> (r: bool) {
        self == rhs
    }

    fn mul_exact(self, rhs: Self) -> (r: Self) {
        self * rhs
    }

    fn div_trunc(self, rhs: Self) -> (r: Self) {
        self / rhs
    }

    fn widen_to_u128(self) -> (r: u128) {
        self as u128
    }

    fn narrow_from_u128(v: u128) -> (r: Option<Self>) {
        if v <= u32::MAX as u128 {
            Some(v as u32)
        } else {
            None
        }
    }
}

impl TickCount for u64 {
    open spec fn modulus() -> int {
        0x1_0000_0000_0000_0000
    }

    open spec fn as_int(self) -> int {
        self as int
    }

    proof fn modulus_facts() {
    }

    proof fn as_int_in_range(self) {
    }

    proof fn as_int_injective(self, other: Self) {
    }

    fn wrapping_add(self, rhs: Self) -> (r: Self) {
        u64::wrapping_add(self, rhs)
    }

    fn wrapping_sub(self, rhs: Self) -> (r: Self) {
        u64::wrapping_sub(self, rhs)
    }

    fn half_max() -> (r: Self) {
        u64::MAX / 2
    }

    fn le(self, rhs: Self) -> (r: bool) {
        self <= rhs
    }

    fn eq_val(self, rhs: Self) -> (r: bool) {
        self == rhs
    }

    fn mul_exact(self, rhs: Self) -> (r: Self) {
        self * rhs
    }

    fn div_trunc(self, rhs: Self) -> (r: Self) {
        self / rhs
    }

    fn widen_to_u128(self) -> (r: u128) {
        self as u128
    }

    fn narrow_from_u128(v: u128) -> (r: Option<Self>) {
        if v <= u64::MAX as u128 {
            Some(v as u64)
        } else {
            None
        }
    }
}

} // verus!
