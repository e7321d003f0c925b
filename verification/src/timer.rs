//! Periodic timers on a clock that counts nanoseconds.
//!
//! A timer fires at most once per period. When it fires late it is
//! rescheduled from the instant of firing, so the periods that were missed
//! are skipped instead of being made up in a burst.

use vstd::prelude::*;
use crate::rate::{Rate, period_of};

verus! {

/// A periodic timer: its period and the instant from which it is due.
#[derive(Clone, Copy, Debug, PartialEq, Eq)]
pub struct Timer {
    period: u64,
    deadline: u64,
}

/// The deadline of a timer of period `period` that fired at `now`: one
/// period later, or the end of the clock where that is sooner.
pub open spec fn rescheduled(now: u64, period: u64) -> u64 {
    if now + period <= u64::MAX {
        (now + period) as u64
    } else {
        u64::MAX
    }
}

impl Timer {
    #[verifier::type_invariant]
    spec fn well_formed(self) -> bool {
        self.period >= 1
    }

    /// Nanoseconds between two firings.
    pub closed spec fn period(self) -> u64 {
        self.period
    }

    /// The instant from which the timer is due.
    pub closed spec fn deadline(self) -> u64 {
        self.deadline
    }

    /// Whether the timer is due at `now`.
    pub open spec fn due_at(self, now: u64) -> bool {
        self.deadline() <= now
    }

    /// Whether the timer is on schedule at `now`: it is due within one
    /// period from `now`.
    pub open spec fn on_schedule(self, now: u64) -> bool {
        self.deadline() <= now + self.period()
    }

    /// The timer once it has fired at `now`.
    pub closed spec fn fired(self, now: u64) -> Timer {
        Timer { period: self.period, deadline: rescheduled(now, self.period) }
    }

    /// A timer for `rate`, due at once.
    pub fn every(rate: &Rate) -> (timer: Timer)
        ensures
            timer.period() == period_of(rate.value()),
            timer.period() >= 1,
            timer.deadline() == 0,
            timer.on_schedule(0),
    {
        Timer { period: rate.period_nanos(), deadline: 0 }
    }

    /// Nanoseconds between two firings.
    pub fn period_nanos(&self) -> (p: u64)
        ensures
            p == self.period(),
            p >= 1,
    {
        proof {
            use_type_invariant(self);
        }
        self.period
    }

    /// The instant from which the timer is due.
    pub fn deadline_nanos(&self) -> (d: u64)
        ensures
            d == self.deadline(),
    {
        self.deadline
    }

    /// Whether the timer is due at `now`.
    pub fn is_due(&self, now: u64) -> (b: bool)
        ensures
            b == self.due_at(now),
    {
        self.deadline <= now
    }

    /// Fires the timer at `now`: the next firing is one period after `now`.
    pub fn fire(&mut self, now: u64)
        ensures
            *final(self) == old(self).fired(now),
            final(self).period() == old(self).period(),
            final(self).deadline() == rescheduled(now, old(self).period()),
            final(self).on_schedule(now),
    {
        proof {
            use_type_invariant(&*self);
        }
        self.deadline = now.saturating_add(self.period);
    }
}

/// What firing does to a timer: the period stays, the deadline moves one
/// period past the firing, and the timer is on schedule.
pub proof fn lemma_fired(timer: Timer, now: u64)
    ensures
        timer.fired(now).period() == timer.period(),
        timer.fired(now).deadline() == rescheduled(now, timer.period()),
        timer.fired(now).on_schedule(now),
{
}

/// A timer that is on schedule stays so as the clock moves on.
pub proof fn lemma_on_schedule_later(timer: Timer, now: u64, later: u64)
    requires
        timer.on_schedule(now),
        now <= later,
    ensures
        timer.on_schedule(later),
{
}

/// No burst: a timer that fired at `now` is not due again before a full
/// period has passed, however late the firing was.
pub proof fn lemma_no_burst(timer: Timer, now: u64, later: u64)
    requires
        timer.period() >= 1,
        later < now + timer.period(),
        later < u64::MAX,
    ensures
        !timer.fired(now).due_at(later),
{
}

} // verus!
