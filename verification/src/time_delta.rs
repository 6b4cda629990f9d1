//! A saturating duration type with microsecond resolution.
//!
//! Every arithmetic operation clamps at the representable bounds instead of
//! wrapping or panicking: the results feed into block timestamp validity
//! checks, where a wrapped value would silently accept or reject the wrong
//! blocks. The maximum value serves as a "never" sentinel.

use vstd::prelude::*;

verus! {

/// Number of microseconds in one second.
pub const MICROS_PER_SEC: u64 = 1_000_000;

/// A length of time in microseconds.
///
/// `TimeDelta { micros: u64::MAX }` stands for "never" / "forever".
#[derive(Clone, Copy, PartialEq, Eq, Structural, Hash, Debug)]
pub struct TimeDelta {
    /// The number of microseconds.
    pub micros: u64,
}

/// The sum of two microsecond counts, clamped at `u64::MAX`.
pub open spec fn sat_add(a: u64, b: u64) -> u64 {
    if a + b > u64::MAX {
        u64::MAX
    } else {
        (a + b) as u64
    }
}

/// The difference of two microsecond counts, floored at zero.
pub open spec fn sat_sub(a: u64, b: u64) -> u64 {
    if a - b < 0 {
        0u64
    } else {
        (a - b) as u64
    }
}

/// The product of two microsecond counts, clamped at `u64::MAX`.
pub open spec fn sat_mul(a: u64, b: u64) -> u64 {
    if a * b > u64::MAX {
        u64::MAX
    } else {
        (a * b) as u64
    }
}

impl TimeDelta {
    /// The zero duration.
    pub fn zero() -> (r: TimeDelta)
        ensures
            r.micros == 0,
    {
        TimeDelta { micros: 0 }
    }

    /// The longest representable duration, used as a "never" sentinel.
    pub fn max_value() -> (r: TimeDelta)
        ensures
            r.micros == u64::MAX,
    {
        TimeDelta { micros: u64::MAX }
    }

    /// The duration of `micros` microseconds.
    pub fn from_micros(micros: u64) -> (r: TimeDelta)
        ensures
            r.micros == micros,
    {
        TimeDelta { micros }
    }

    /// The duration of `secs` seconds, clamped at the maximum.
    pub fn from_secs(secs: u64) -> (r: TimeDelta)
        ensures
            r.micros == sat_mul(secs, MICROS_PER_SEC),
    {
        match secs.checked_mul(MICROS_PER_SEC) {
            Some(micros) => TimeDelta { micros },
            None => TimeDelta { micros: u64::MAX },
        }
    }

    /// The sum of the two durations, clamped at the maximum.
    pub fn saturating_add(self, other: TimeDelta) -> (r: TimeDelta)
        ensures
            r.micros == sat_add(self.micros, other.micros),
    {
        TimeDelta { micros: self.micros.saturating_add(other.micros) }
    }

    /// The difference of the two durations, floored at zero.
    pub fn saturating_sub(self, other: TimeDelta) -> (r: TimeDelta)
        ensures
            r.micros == sat_sub(self.micros, other.micros),
    {
        TimeDelta { micros: self.micros.saturating_sub(other.micros) }
    }

    /// This duration taken `factor` times, clamped at the maximum.
    pub fn saturating_mul(self, factor: u64) -> (r: TimeDelta)
        ensures
            r.micros == sat_mul(self.micros, factor),
    {
        match self.micros.checked_mul(factor) {
            Some(micros) => TimeDelta { micros },
            None => TimeDelta { micros: u64::MAX },
        }
    }
}

/// Clamped multiplication is monotone in its second argument.
pub proof fn lemma_sat_mul_monotone(a: u64, b1: u64, b2: u64)
    requires
        b1 <= b2,
    ensures
        sat_mul(a, b1) <= sat_mul(a, b2),
{
    assert(a * b1 <= a * b2) by (nonlinear_arith)
        requires
            0 <= a,
            0 <= b1 <= b2,
    ;
}

/// Clamped addition is monotone in its second argument.
pub proof fn lemma_sat_add_monotone(a: u64, b1: u64, b2: u64)
    requires
        b1 <= b2,
    ensures
        sat_add(a, b1) <= sat_add(a, b2),
{
}

} // verus!
