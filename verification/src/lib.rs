//! Fixed-point time arithmetic for integer tick counters.
//!
//! A clock source exposes a monotonic tick counter of some fixed integer
//! width together with a rational scale factor giving the length of one tick
//! in seconds. This crate provides the arithmetic a caller needs on top of
//! such a counter: a minimal rational scale-factor type ([`ratio::Ratio`]),
//! a scale-factor-carrying duration with overflow-checked unit conversion
//! ([`duration::Generic`]), and a wraparound-safe point-in-time value with
//! half-period modular comparison and checked add/subtract
//! ([`instant::Instant`]).

pub mod clock;
pub mod duration;
pub mod instant;
pub mod ratio;
pub mod tick;
