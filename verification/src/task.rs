//! The background task of the multiplexer, as a state machine.
//!
//! The task waits on four sources at once: the cancellation signal, the
//! driver's input, the tick timer and the render timer. The waiting is done
//! by the program that runs the task. Each time a source is ready, the task
//! is told which ([`Ready`]) and decides what to enqueue and whether to go
//! on. Sources are serviced one at a time in the order in which they became
//! ready; no source has precedence over another.
//!
//! Cancellation is cooperative. Besides waiting for the signal, the task
//! looks at its stop flag each time it comes to its wait point, so that a
//! task whose token was signalled ends there at the latest.

use vstd::prelude::*;
use tokio::sync::mpsc::UnboundedSender;
use tokio_util::sync::CancellationToken;
use crate::event::{Event, Input, forwarded, translate};
use crate::rate::{Rate, period_of};
use crate::runtime::send_event;
use crate::timer::{Timer, rescheduled};

verus! {

/// The source that became ready, with what it delivered.
#[derive(Clone, Debug, PartialEq, Eq)]
pub enum Ready {
    /// The cancellation signal was given.
    Cancelled,
    /// The driver reported a notification.
    Input(Input),
    /// The driver failed to read or decode its input.
    InputFault,
    /// The driver's input has ended.
    InputEnded,
    /// The tick timer fired.
    Tick,
    /// The render timer fired.
    Render,
}

/// Where a task is in its life.
#[derive(Clone, Copy, Debug, PartialEq, Eq)]
pub enum Phase {
    /// Made, but not yet begun.
    Fresh,
    /// In its loop.
    Running,
    /// Terminated; a stopped task never produces an event again.
    Stopped,
}

/// What became of an event that was to be enqueued.
#[derive(Clone, Copy, Debug, PartialEq, Eq)]
pub enum Delivery {
    /// There was nothing to enqueue.
    Nothing,
    /// The queue took the event.
    Taken,
    /// The queue refused the event: its consumer is gone.
    Refused,
}

/// One turn of the loop: what the stop flag showed when the task came to
/// its wait point, and the source that was serviced after the wait.
#[derive(Clone, Debug, PartialEq, Eq)]
pub struct Turn {
    pub cancelled: bool,
    pub ready: Ready,
}

/// The state of one background task.
#[derive(Clone, Copy, Debug, PartialEq, Eq)]
pub struct Task {
    pub phase: Phase,
    pub tick: Timer,
    pub render: Timer,
}

/// What a running task enqueues when `ready` is serviced: the translation of
/// a driver notification, `Error` for a driver fault, `Tick` and `Render`
/// for the timers, and nothing for cancellation or the end of input.
pub open spec fn emits(ready: Ready) -> Option<Event> {
    match ready {
        Ready::Cancelled => None,
        Ready::Input(input) => forwarded(input),
        Ready::InputFault => Some(Event::Error),
        Ready::InputEnded => None,
        Ready::Tick => Some(Event::Tick),
        Ready::Render => Some(Event::Render),
    }
}

/// The event that a task in `phase` enqueues when `ready` is serviced.
pub open spec fn step_event(phase: Phase, ready: Ready) -> Option<Event> {
    if phase is Running {
        emits(ready)
    } else {
        None
    }
}

/// The phase of a task in `phase` once `ready` has been serviced: only
/// cancellation ends a running task, and nothing revives one.
pub open spec fn step_phase(phase: Phase, ready: Ready) -> Phase {
    if phase is Running && ready is Cancelled {
        Phase::Stopped
    } else {
        phase
    }
}

/// The phase of a task in `phase` once it has looked at its stop flag: a
/// running task that finds the flag set stops.
pub open spec fn observed(phase: Phase, cancelled: bool) -> Phase {
    if phase is Running && cancelled {
        Phase::Stopped
    } else {
        phase
    }
}

/// The event that a task in `phase` enqueues in one turn.
pub open spec fn turn_event(phase: Phase, turn: Turn) -> Option<Event> {
    step_event(observed(phase, turn.cancelled), turn.ready)
}

/// The phase of a task in `phase` after one turn.
pub open spec fn turn_phase(phase: Phase, turn: Turn) -> Phase {
    step_phase(observed(phase, turn.cancelled), turn.ready)
}

/// The sequence that holds `event` where there is one.
pub open spec fn as_seq(event: Option<Event>) -> Seq<Event> {
    match event {
        Some(e) => seq![e],
        None => Seq::<Event>::empty(),
    }
}

/// The events that a task in `phase` enqueues, in order, when the sources
/// in `readies` are serviced one after the other.
pub open spec fn run_events(phase: Phase, readies: Seq<Ready>) -> Seq<Event>
    decreases readies.len(),
{
    if readies.len() == 0 {
        Seq::<Event>::empty()
    } else {
        as_seq(step_event(phase, readies.first())) + run_events(
            step_phase(phase, readies.first()),
            readies.drop_first(),
        )
    }
}

/// The phase of a task in `phase` once all of `readies` have been serviced.
pub open spec fn run_phase(phase: Phase, readies: Seq<Ready>) -> Phase
    decreases readies.len(),
{
    if readies.len() == 0 {
        phase
    } else {
        run_phase(step_phase(phase, readies.first()), readies.drop_first())
    }
}

/// The events that a task in `phase` enqueues, in order, over `turns`.
pub open spec fn turns_events(phase: Phase, turns: Seq<Turn>) -> Seq<Event>
    decreases turns.len(),
{
    if turns.len() == 0 {
        Seq::<Event>::empty()
    } else {
        as_seq(turn_event(phase, turns.first())) + turns_events(
            turn_phase(phase, turns.first()),
            turns.drop_first(),
        )
    }
}

/// The phase of a task in `phase` after `turns`.
pub open spec fn turns_phase(phase: Phase, turns: Seq<Turn>) -> Phase
    decreases turns.len(),
{
    if turns.len() == 0 {
        phase
    } else {
        turns_phase(turn_phase(phase, turns.first()), turns.drop_first())
    }
}

/// How many of `readies` come before the first cancellation.
pub open spec fn live_len(readies: Seq<Ready>) -> int
    decreases readies.len(),
{
    if readies.len() == 0 {
        0
    } else if readies.first() is Cancelled {
        0
    } else {
        1 + live_len(readies.drop_first())
    }
}

impl Task {
    /// The timer that is serviced at `now`, if one is due: the one whose
    /// deadline came first, the tick timer where both came together.
    pub open spec fn due(self, now: u64) -> Option<Ready> {
        if self.tick.due_at(now) && self.tick.deadline() <= self.render.deadline() {
            Some(Ready::Tick)
        } else if self.render.due_at(now) {
            Some(Ready::Render)
        } else {
            None
        }
    }

    /// Whether both timers are on schedule at `now`.
    pub open spec fn on_schedule(self, now: u64) -> bool {
        self.tick.on_schedule(now) && self.render.on_schedule(now)
    }

    /// The longer of the two timers' periods.
    pub open spec fn longest_period(self) -> u64 {
        if self.tick.period() >= self.render.period() {
            self.tick.period()
        } else {
            self.render.period()
        }
    }

    /// The earlier of the two timers' deadlines.
    pub open spec fn wake_at(self) -> u64 {
        if self.tick.deadline() <= self.render.deadline() {
            self.tick.deadline()
        } else {
            self.render.deadline()
        }
    }

    /// A task that has not begun, with a timer for each rate, both due at
    /// once.
    pub fn new(tick_rate: &Rate, frame_rate: &Rate) -> (task: Task)
        ensures
            task.phase is Fresh,
            task.tick.period() == period_of(tick_rate.value()),
            task.render.period() == period_of(frame_rate.value()),
            task.tick.deadline() == 0,
            task.render.deadline() == 0,
            task.on_schedule(0),
    {
        Task {
            phase: Phase::Fresh,
            tick: Timer::every(tick_rate),
            render: Timer::every(frame_rate),
        }
    }

    /// Whether the task is in its loop.
    pub fn is_running(&self) -> (b: bool)
        ensures
            b == (self.phase is Running),
    {
        match self.phase {
            Phase::Running => true,
            _ => false,
        }
    }

    /// Takes note of the stop flag at the wait point: a running task that
    /// finds it set stops, and nothing else changes.
    pub fn observe(&mut self, cancelled: bool)
        ensures
            final(self).phase == observed(old(self).phase, cancelled),
            final(self).tick == old(self).tick,
            final(self).render == old(self).render,
    {
        if cancelled && self.is_running() {
            self.phase = Phase::Stopped;
        }
    }

    /// Looks at `token` at the wait point and takes note of what it shows,
    /// as [`Task::observe`] does. The result is what the token showed.
    pub fn checkpoint(&mut self, token: &CancellationToken) -> (cancelled: bool)
        ensures
            final(self).phase == observed(old(self).phase, cancelled),
            final(self).tick == old(self).tick,
            final(self).render == old(self).render,
    {
        let cancelled = token.is_cancelled();
        self.observe(cancelled);
        cancelled
    }

    /// Begins the task. A fresh task starts running and announces itself
    /// with `Init`; any other task is left as it is and announces nothing,
    /// so `Init` is produced once.
    pub fn begin(&mut self) -> (out: Option<Event>)
        ensures
            old(self).phase is Fresh ==> out == Some(Event::Init) && final(self).phase is Running,
            !(old(self).phase is Fresh) ==> out is None && final(self).phase == old(self).phase,
            final(self).tick == old(self).tick,
            final(self).render == old(self).render,
    {
        match self.phase {
            Phase::Fresh => {
                self.phase = Phase::Running;
                Some(Event::Init)
            },
            _ => None,
        }
    }

    /// The instant until which the task may sleep when no other source is
    /// ready: the earlier of the two timers' deadlines.
    pub fn next_deadline(&self) -> (at: u64)
        ensures
            at == self.wake_at(),
    {
        let t: u64 = self.tick.deadline_nanos();
        let r: u64 = self.render.deadline_nanos();
        if t <= r {
            t
        } else {
            r
        }
    }

    /// Looks for a timer that is due at `now`. A running task fires the one
    /// that is due, which reschedules it one period after `now`, and reports
    /// it as ready. The other timer is not touched. A task that is not
    /// running reports nothing and changes nothing.
    pub fn poll_timers(&mut self, now: u64) -> (out: Option<Ready>)
        ensures
            final(self).phase == old(self).phase,
            old(self).phase is Running ==> out == old(self).due(now),
            !(old(self).phase is Running) ==> out is None,
            out is None ==> *final(self) == *old(self),
            out == Some(Ready::Tick) ==> {
                &&& final(self).tick == old(self).tick.fired(now)
                &&& final(self).tick.deadline() == rescheduled(now, old(self).tick.period())
                &&& final(self).render == old(self).render
            },
            out == Some(Ready::Render) ==> {
                &&& final(self).render == old(self).render.fired(now)
                &&& final(self).render.deadline() == rescheduled(now, old(self).render.period())
                &&& final(self).tick == old(self).tick
            },
            final(self).tick.period() == old(self).tick.period(),
            final(self).render.period() == old(self).render.period(),
            old(self).on_schedule(now) ==> final(self).on_schedule(now),
    {
        if !self.is_running() {
            return None;
        }
        if self.tick.is_due(now) && self.tick.deadline_nanos() <= self.render.deadline_nanos() {
            self.tick.fire(now);
            Some(Ready::Tick)
        } else if self.render.is_due(now) {
            self.render.fire(now);
            Some(Ready::Render)
        } else {
            None
        }
    }

    /// Services the source that became ready and returns the event to
    /// enqueue, if any. A running task stops on cancellation and goes on
    /// otherwise; a task that is not running produces nothing.
    pub fn service(&mut self, ready: Ready) -> (out: Option<Event>)
        ensures
            out == step_event(old(self).phase, ready),
            final(self).phase == step_phase(old(self).phase, ready),
            final(self).tick == old(self).tick,
            final(self).render == old(self).render,
    {
        if !self.is_running() {
            return None;
        }
        match ready {
            Ready::Cancelled => {
                self.phase = Phase::Stopped;
                None
            },
            Ready::Input(input) => translate(input),
            Ready::InputFault => Some(Event::Error),
            Ready::InputEnded => None,
            Ready::Tick => Some(Event::Tick),
            Ready::Render => Some(Event::Render),
        }
    }

    /// Takes note of whether the queue took an event. A queue that refuses
    /// has lost its consumer, and the task stops without further ado.
    pub fn settle(&mut self, taken: bool)
        ensures
            taken ==> *final(self) == *old(self),
            !taken ==> final(self).phase is Stopped,
            final(self).tick == old(self).tick,
            final(self).render == old(self).render,
    {
        if !taken {
            self.phase = Phase::Stopped;
        }
    }

    /// Hands `event` to the queue and takes note of the answer, as
    /// [`Task::settle`] does.
    fn enqueue(&mut self, tx: &UnboundedSender<Event>, event: Event) -> (delivery: Delivery)
        ensures
            delivery is Taken || delivery is Refused,
            delivery is Taken ==> *final(self) == *old(self),
            delivery is Refused ==> final(self).phase is Stopped,
            final(self).tick == old(self).tick,
            final(self).render == old(self).render,
    {
        let taken = send_event(tx, event);
        self.settle(taken);
        if taken {
            Delivery::Taken
        } else {
            Delivery::Refused
        }
    }

    /// Begins the task, as [`Task::begin`] does, and enqueues its `Init` on
    /// `tx`. The result says what became of the event. A task that was not
    /// fresh has nothing to enqueue and is left as it is; a fresh task is
    /// running afterwards, or stopped where the queue refused the event.
    pub fn launch(&mut self, tx: &UnboundedSender<Event>) -> (delivery: Delivery)
        ensures
            delivery is Nothing <==> !(old(self).phase is Fresh),
            delivery is Nothing ==> *final(self) == *old(self),
            delivery is Taken ==> final(self).phase is Running,
            delivery is Refused ==> final(self).phase is Stopped,
            final(self).tick == old(self).tick,
            final(self).render == old(self).render,
    {
        match self.begin() {
            Some(event) => self.enqueue(tx, event),
            None => Delivery::Nothing,
        }
    }

    /// Services the source that became ready, as [`Task::service`] does, and
    /// enqueues on `tx` the event that it decides on. The result says what
    /// became of the event. Where the queue refused it the task has stopped;
    /// otherwise the task is as [`Task::service`] leaves it.
    pub fn forward(&mut self, tx: &UnboundedSender<Event>, ready: Ready) -> (delivery: Delivery)
        ensures
            delivery is Nothing <==> step_event(old(self).phase, ready) is None,
            !(delivery is Refused) ==> final(self).phase == step_phase(old(self).phase, ready),
            delivery is Refused ==> final(self).phase is Stopped,
            final(self).tick == old(self).tick,
            final(self).render == old(self).render,
    {
        match self.service(ready) {
            Some(event) => self.enqueue(tx, event),
            None => Delivery::Nothing,
        }
    }
}

} // verus!
