//! The clock-source boundary: the external collaborator that produces ticks.

use vstd::prelude::*;

use crate::instant::Instant;
use crate::ratio::Ratio;
use crate::tick::TickCount;

verus! {

/// A sampling failure, wrapping the clock implementation's own error.
#[derive(Clone, Copy, Debug, PartialEq, Eq)]
pub enum ClockError<E> {
    /// The clock source could not be sampled; the payload is the
    /// implementation-defined error, opaque and non-retriable at this layer.
    Sampling(E),
}

/// A clock source.
///
/// An implementation declares the integer width of its tick counter, the
/// fixed rational scale factor giving the real-world length of one tick in
/// seconds, and an error type of its own for sampling failures; it exposes
/// one operation, sampling the counter now. Every instant is bound to the
/// clock it came from, so the scale factor is a compile-time association,
/// not a runtime field of the instant.
pub trait Clock: Sized {
    /// The tick counter's integer width.
    type T: TickCount;

    /// The implementation-defined sampling error.
    type ImplError;

    /// The fixed scale factor: seconds per tick.
    spec fn scale_spec() -> Ratio<u32>;

    /// Returns the clock's scale factor, seconds per tick.
    fn scaling_factor() -> (r: Ratio<u32>)
        ensures
            r == Self::scale_spec(),
    ;

    /// Samples the counter now: a fresh instant bound to this clock, or an
    /// opaque sampling failure.
    fn try_now(&self) -> Result<Instant<Self>, ClockError<Self::ImplError>>;
}

/// A software clock over a 32-bit millisecond counter (one tick lasts
/// 1/1000 seconds): sampling returns the tick value the clock holds.
#[derive(Clone, Copy, Debug)]
pub struct MilliClock32 {
    pub now: u32,
}

impl Clock for MilliClock32 {
    type T = u32;

    type ImplError = ();

    open spec fn scale_spec() -> Ratio<u32> {
        Ratio { numerator: 1, denominator: 1000 }
    }

    fn scaling_factor() -> (r: Ratio<u32>) {
        Ratio::new(1, 1000)
    }

    fn try_now(&self) -> (r: Result<Instant<Self>, ClockError<()>>) {
        Ok(Instant { ticks: self.now })
    }
}

/// A software clock over a 64-bit microsecond counter (one tick lasts
/// 1/1000000 seconds): sampling returns the tick value the clock holds.
#[derive(Clone, Copy, Debug)]
pub struct MicroClock64 {
    pub now: u64,
}

impl Clock for MicroClock64 {
    type T = u64;

    type ImplError = ();

    open spec fn scale_spec() -> Ratio<u32> {
        Ratio { numerator: 1, denominator: 1_000_000 }
    }

    fn scaling_factor() -> (r: Ratio<u32>) {
        Ratio::new(1, 1_000_000)
    }

    fn try_now(&self) -> (r: Result<Instant<Self>, ClockError<()>>) {
        Ok(Instant { ticks: self.now })
    }
}

} // verus!
