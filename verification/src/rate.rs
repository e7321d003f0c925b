//! Event rates and the timer periods derived from them.
//!
//! A rate counts events per second. The period of its timer is counted in
//! whole nanoseconds and is never zero.

use vstd::prelude::*;
use crate::error::TuiError;

verus! {

/// Nanoseconds in one second.
pub const NANOS_PER_SECOND: u64 = 1_000_000_000;

/// The period, in nanoseconds, of a timer that fires `hertz` times a second:
/// the least whole number of nanoseconds in which `hertz` periods fill a
/// second.
pub open spec fn period_of(hertz: int) -> int
    recommends
        hertz > 0,
{
    (NANOS_PER_SECOND + hertz - 1) / hertz
}

/// Ticks per second of a multiplexer that was given no other rate.
pub const DEFAULT_TICK_RATE: i64 = 4;

/// Frames per second of a multiplexer that was given no other rate.
pub const DEFAULT_FRAME_RATE: i64 = 60;

/// A strictly positive number of events per second.
#[derive(Clone, Copy, Debug, PartialEq, Eq)]
pub struct Rate {
    hertz: i64,
}

impl Rate {
    #[verifier::type_invariant]
    spec fn positive(self) -> bool {
        self.hertz > 0
    }

    /// Events per second.
    pub closed spec fn value(self) -> int {
        self.hertz as int
    }

    /// Accepts `hertz` as a rate exactly when it is greater than zero.
    pub fn new(hertz: i64) -> (r: Result<Rate, TuiError>)
        ensures
            hertz > 0 ==> r is Ok && r->Ok_0.value() == hertz,
            hertz <= 0 ==> r == Err::<Rate, TuiError>(TuiError::InvalidRate),
    {
        if hertz > 0 {
            Ok(Rate { hertz })
        } else {
            Err(TuiError::InvalidRate)
        }
    }

    /// The default tick rate.
    pub fn default_tick() -> (rate: Rate)
        ensures
            rate.value() == DEFAULT_TICK_RATE,
    {
        Rate { hertz: DEFAULT_TICK_RATE }
    }

    /// The default frame rate.
    pub fn default_frame() -> (rate: Rate)
        ensures
            rate.value() == DEFAULT_FRAME_RATE,
    {
        Rate { hertz: DEFAULT_FRAME_RATE }
    }

    /// Events per second.
    pub fn hertz(&self) -> (h: i64)
        ensures
            h == self.value(),
            h > 0,
    {
        proof {
            use_type_invariant(self);
        }
        self.hertz
    }

    /// The timer period for this rate, in nanoseconds.
    pub fn period_nanos(&self) -> (p: u64)
        ensures
            p == period_of(self.value()),
            1 <= p <= NANOS_PER_SECOND,
    {
        proof {
            use_type_invariant(self);
            lemma_period_bounds(self.hertz as int);
        }
        let h: u64 = self.hertz as u64;
        (NANOS_PER_SECOND + (h - 1)) / h
    }
}

/// A period is the least number of nanoseconds that, taken `hertz` times,
/// reaches a second; so it is at least one nanosecond and at most a second.
pub proof fn lemma_period_bounds(hertz: int)
    requires
        hertz > 0,
    ensures
        1 <= period_of(hertz) <= NANOS_PER_SECOND,
        period_of(hertz) * hertz >= NANOS_PER_SECOND,
        (period_of(hertz) - 1) * hertz < NANOS_PER_SECOND,
{
    let n = NANOS_PER_SECOND as int;
    let p = (n + hertz - 1) / hertz;
    assert(n + hertz - 1 == hertz * p + (n + hertz - 1) % hertz) by (nonlinear_arith)
        requires
            hertz > 0,
            p == (n + hertz - 1) / hertz,
    ;
    assert(0 <= (n + hertz - 1) % hertz < hertz) by (nonlinear_arith)
        requires
            hertz > 0,
    ;
    assert(p * hertz == hertz * p) by (nonlinear_arith);
    assert((p - 1) * hertz == hertz * p - hertz) by (nonlinear_arith);
    assert(p >= 1) by (nonlinear_arith)
        requires
            hertz > 0,
            hertz * p >= n,
            n > 0,
    ;
    assert(p <= n) by (nonlinear_arith)
        requires
            hertz >= 1,
            hertz * p - hertz < n,
            p >= 1,
    ;
}

/// A rate that divides a second evenly has the exact period.
pub proof fn lemma_period_exact(hertz: int, nanos: int)
    requires
        hertz > 0,
        nanos * hertz == NANOS_PER_SECOND,
    ensures
        period_of(hertz) == nanos,
{
    lemma_period_bounds(hertz);
    let p = period_of(hertz);
    assert(p == nanos) by (nonlinear_arith)
        requires
            hertz > 0,
            nanos * hertz == NANOS_PER_SECOND,
            p * hertz >= NANOS_PER_SECOND,
            (p - 1) * hertz < NANOS_PER_SECOND,
    ;
}

} // verus!
