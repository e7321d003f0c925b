//! What holds of the stream that a task produces, whatever the order in
//! which its sources become ready.

use vstd::prelude::*;
use crate::event::Event;
use crate::timer::{lemma_fired, lemma_on_schedule_later};
use crate::task::{
    Phase, Ready, Task, Turn, as_seq, emits, live_len, observed, run_events, run_phase, step_event,
    step_phase, turn_event, turn_phase, turns_events, turns_phase,
};

verus! {

/// Servicing `a` and then `b` is servicing their concatenation: the events
/// of `a` come first, followed by those that `b` produces from the phase in
/// which `a` left the task.
pub proof fn lemma_run_concat(phase: Phase, a: Seq<Ready>, b: Seq<Ready>)
    ensures
        run_events(phase, a + b) == run_events(phase, a) + run_events(run_phase(phase, a), b),
        run_phase(phase, a + b) == run_phase(run_phase(phase, a), b),
    decreases a.len(),
{
    if a.len() == 0 {
        assert(a + b == b);
    } else {
        let next = step_phase(phase, a.first());
        lemma_run_concat(next, a.drop_first(), b);
        assert((a + b).first() == a.first());
        assert((a + b).drop_first() == a.drop_first() + b);
        assert(run_events(phase, a + b) == as_seq(step_event(phase, a.first())) + (run_events(
            next,
            a.drop_first(),
        ) + run_events(run_phase(next, a.drop_first()), b)));
    }
}

/// A task that is not running stays as it is and produces nothing,
/// whichever sources become ready.
pub proof fn lemma_idle_silent(phase: Phase, readies: Seq<Ready>)
    requires
        !(phase is Running),
    ensures
        run_events(phase, readies) == Seq::<Event>::empty(),
        run_phase(phase, readies) == phase,
    decreases readies.len(),
{
    if readies.len() > 0 {
        lemma_idle_silent(phase, readies.drop_first());
    }
}

/// A running task is still running after `readies` exactly when none of
/// them is the cancellation signal; otherwise it has stopped.
pub proof fn lemma_runs_until_cancelled(readies: Seq<Ready>)
    ensures
        0 <= live_len(readies) <= readies.len(),
        live_len(readies) == readies.len() <==> run_phase(Phase::Running, readies) is Running,
        live_len(readies) < readies.len() <==> run_phase(Phase::Running, readies) is Stopped,
        live_len(readies) < readies.len() ==> readies[live_len(readies)] is Cancelled,
        forall|i: int| 0 <= i < live_len(readies) ==> !(#[trigger] readies[i] is Cancelled),
    decreases readies.len(),
{
    if readies.len() > 0 {
        let rest = readies.drop_first();
        if readies.first() is Cancelled {
            lemma_idle_silent(Phase::Stopped, rest);
        } else {
            lemma_runs_until_cancelled(rest);
            assert forall|i: int| 0 <= i < live_len(readies) implies !(#[trigger] readies[i]
                is Cancelled) by {
                if i > 0 {
                    assert(readies[i] == rest[i - 1]);
                }
            }
            if live_len(readies) < readies.len() {
                assert(readies[live_len(readies)] == rest[live_len(rest)]);
            }
        }
    }
}

/// Cancellation ends the stream: once the cancellation signal has been
/// serviced, no source that becomes ready afterwards adds an event.
pub proof fn lemma_cancel_ends_stream(before: Seq<Ready>, after: Seq<Ready>)
    ensures
        run_events(Phase::Running, before + seq![Ready::Cancelled] + after) == run_events(
            Phase::Running,
            before,
        ),
        !(run_phase(Phase::Running, before + seq![Ready::Cancelled] + after) is Running),
{
    let cancel = seq![Ready::Cancelled];
    let mid = run_phase(Phase::Running, before);
    lemma_runs_until_cancelled(before);
    lemma_run_concat(Phase::Running, before, cancel + after);
    assert(before + cancel + after == before + (cancel + after));
    assert((cancel + after).first() == Ready::Cancelled);
    assert((cancel + after).drop_first() == after);
    let stopped = step_phase(mid, Ready::Cancelled);
    assert(!(stopped is Running));
    lemma_idle_silent(stopped, after);
    assert(run_events(mid, cancel + after) == as_seq(step_event(mid, Ready::Cancelled))
        + run_events(stopped, after));
    assert(run_events(mid, cancel + after) == Seq::<Event>::empty());
    assert(run_events(Phase::Running, before) + Seq::<Event>::empty() == run_events(
        Phase::Running,
        before,
    ));
}

/// A driver fault costs nothing but itself: it puts exactly one `Error` in
/// the stream, at its place, and what becomes ready before and after it is
/// delivered as if the fault had not happened.
pub proof fn lemma_fault_is_one_error(before: Seq<Ready>, after: Seq<Ready>)
    requires
        live_len(before) == before.len(),
    ensures
        run_events(Phase::Running, before + seq![Ready::InputFault] + after) == run_events(
            Phase::Running,
            before,
        ) + seq![Event::Error] + run_events(Phase::Running, after),
        run_phase(Phase::Running, before + seq![Ready::InputFault] + after) == run_phase(
            Phase::Running,
            after,
        ),
{
    let fault = seq![Ready::InputFault];
    lemma_runs_until_cancelled(before);
    lemma_run_concat(Phase::Running, before, fault + after);
    assert(before + fault + after == before + (fault + after));
    assert((fault + after).first() == Ready::InputFault);
    assert((fault + after).drop_first() == after);
    assert(run_events(Phase::Running, fault + after) == seq![Event::Error] + run_events(
        Phase::Running,
        after,
    ));
    assert(run_events(Phase::Running, before) + (seq![Event::Error] + run_events(
        Phase::Running,
        after,
    )) == run_events(Phase::Running, before) + seq![Event::Error] + run_events(
        Phase::Running,
        after,
    ));
}

/// A turn adds at most one event to the stream.
pub proof fn lemma_turn_adds_at_most_one(phase: Phase, turn: Turn)
    ensures
        as_seq(turn_event(phase, turn)).len() <= 1,
        !(phase is Running) ==> turn_event(phase, turn) is None && turn_phase(phase, turn)
            == phase,
        turn.cancelled ==> turn_event(phase, turn) is None && !(turn_phase(phase, turn) is Running),
{
}

/// The turns of `a` followed by those of `b`: the events of `a` come first,
/// followed by those that `b` adds from the phase in which `a` left the
/// task.
pub proof fn lemma_turns_concat(phase: Phase, a: Seq<Turn>, b: Seq<Turn>)
    ensures
        turns_events(phase, a + b) == turns_events(phase, a) + turns_events(
            turns_phase(phase, a),
            b,
        ),
        turns_phase(phase, a + b) == turns_phase(turns_phase(phase, a), b),
    decreases a.len(),
{
    if a.len() == 0 {
        assert(a + b == b);
    } else {
        let next = turn_phase(phase, a.first());
        lemma_turns_concat(next, a.drop_first(), b);
        assert((a + b).first() == a.first());
        assert((a + b).drop_first() == a.drop_first() + b);
        assert(turns_events(phase, a + b) == as_seq(turn_event(phase, a.first())) + (turns_events(
            next,
            a.drop_first(),
        ) + turns_events(turns_phase(next, a.drop_first()), b)));
    }
}

/// A task that is not running, or that finds its stop flag set at every
/// wait point, adds nothing to the stream and is not running afterwards.
pub proof fn lemma_flagged_turns_are_silent(phase: Phase, turns: Seq<Turn>)
    requires
        !(phase is Running) || forall|i: int|
            0 <= i < turns.len() ==> (#[trigger] turns[i]).cancelled,
    ensures
        turns_events(phase, turns) == Seq::<Event>::empty(),
        turns.len() > 0 ==> !(turns_phase(phase, turns) is Running),
        !(phase is Running) ==> turns_phase(phase, turns) == phase,
    decreases turns.len(),
{
    if turns.len() > 0 {
        let head = turns.first();
        let rest = turns.drop_first();
        let next = turn_phase(phase, head);
        if phase is Running {
            assert(turns[0].cancelled);
        }
        assert(!(next is Running));
        assert(turn_event(phase, head) is None);
        lemma_flagged_turns_are_silent(next, rest);
        assert(turns_events(phase, turns) =~= Seq::<Event>::empty());
    }
}

/// The bound on a restart. A restart signals the token of the previous
/// task, which shows in that task's stop flag from its next wait point on.
/// Let `k` be the first turn at whose wait point the flag shows. Then the
/// stream of the previous task is what its first `k` turns added: the turn
/// that was under way when the signal was given may still add its one
/// event, and from turn `k` on the task adds nothing and is no longer
/// running.
pub proof fn lemma_restart_bound(turns: Seq<Turn>, k: int)
    requires
        0 <= k <= turns.len(),
        forall|i: int| k <= i < turns.len() ==> (#[trigger] turns[i]).cancelled,
    ensures
        turns_events(Phase::Running, turns) == turns_events(Phase::Running, turns.take(k)),
        k < turns.len() ==> !(turns_phase(Phase::Running, turns) is Running),
{
    let before = turns.take(k);
    let after = turns.skip(k);
    let mid = turns_phase(Phase::Running, before);
    assert(turns == before + after);
    lemma_turns_concat(Phase::Running, before, after);
    assert forall|i: int| 0 <= i < after.len() implies (#[trigger] after[i]).cancelled by {
        assert(after[i] == turns[k + i]);
    }
    lemma_flagged_turns_are_silent(mid, after);
    assert(turns_events(Phase::Running, before) + Seq::<Event>::empty() == turns_events(
        Phase::Running,
        before,
    ));
}

/// The wait is bounded. A task whose timers are on schedule when it comes
/// to its wait point is woken by a timer within the longer of the two
/// periods (within the shorter one, in fact), whatever the other sources
/// do. So a task that was signalled while it waited is back at its wait
/// point, where it looks at its stop flag, within that time.
pub proof fn lemma_wait_is_bounded(task: Task, now: u64)
    requires
        task.on_schedule(now),
    ensures
        task.wake_at() <= now + task.tick.period(),
        task.wake_at() <= now + task.render.period(),
        task.wake_at() <= now + task.longest_period(),
{
}

/// Timers that are on schedule stay so: as the clock moves on, and when
/// one of them fires.
pub proof fn lemma_schedule_is_kept(task: Task, now: u64, later: u64)
    requires
        task.on_schedule(now),
        now <= later,
    ensures
        task.on_schedule(later),
        (Task { tick: task.tick.fired(later), ..task }).on_schedule(later),
        (Task { render: task.render.fired(later), ..task }).on_schedule(later),
{
    lemma_on_schedule_later(task.tick, now, later);
    lemma_on_schedule_later(task.render, now, later);
    lemma_fired(task.tick, later);
    lemma_fired(task.render, later);
}

/// Turns in which the stop flag never shows are plain servicing: the
/// stream is that of the sources serviced, in their order.
pub proof fn lemma_unflagged_turns_are_services(phase: Phase, turns: Seq<Turn>)
    requires
        forall|i: int| 0 <= i < turns.len() ==> !(#[trigger] turns[i]).cancelled,
    ensures
        turns_events(phase, turns) == run_events(phase, turns.map(|i: int, t: Turn| t.ready)),
        turns_phase(phase, turns) == run_phase(phase, turns.map(|i: int, t: Turn| t.ready)),
    decreases turns.len(),
{
    let readies = turns.map(|i: int, t: Turn| t.ready);
    if turns.len() > 0 {
        let rest = turns.drop_first();
        assert(!turns[0].cancelled);
        assert(observed(phase, turns.first().cancelled) == phase);
        assert(readies.first() == turns.first().ready);
        assert(readies.drop_first() == rest.map(|i: int, t: Turn| t.ready));
        assert forall|i: int| 0 <= i < rest.len() implies !(#[trigger] rest[i]).cancelled by {
            assert(rest[i] == turns[i + 1]);
        }
        lemma_unflagged_turns_are_services(turn_phase(phase, turns.first()), rest);
    }
}

/// Events leave in the order in which their sources became ready. For every
/// sequence of ready sources there is, for each event of the stream, the
/// position of the source that it came from (`origin`), such that: the event
/// is what that source emits; the positions rise strictly along the stream,
/// so no two events are swapped and none is repeated; every source that
/// became ready before the first cancellation and emits something has its
/// event in the stream, so none is lost; and no event comes from a source
/// that became ready at or after the cancellation.
pub proof fn lemma_delivery_order(readies: Seq<Ready>) -> (origin: Seq<int>)
    ensures
        origin.len() == run_events(Phase::Running, readies).len(),
        live_len(readies) <= readies.len(),
        forall|k: int|
            0 <= k < origin.len() ==> 0 <= #[trigger] origin[k] < live_len(readies) && emits(
                readies[origin[k]],
            ) == Some(run_events(Phase::Running, readies)[k]),
        forall|k: int, l: int| 0 <= k < l < origin.len() ==> origin[k] < origin[l],
        forall|i: int|
            0 <= i < live_len(readies) && emits(#[trigger] readies[i]) is Some ==> origin.contains(
                i,
            ),
    decreases readies.len(),
{
    let events = run_events(Phase::Running, readies);
    if readies.len() == 0 {
        Seq::<int>::empty()
    } else {
        let head = readies.first();
        let rest = readies.drop_first();
        if head is Cancelled {
            lemma_idle_silent(Phase::Stopped, rest);
            assert(events =~= Seq::<Event>::empty());
            Seq::<int>::empty()
        } else {
            let sub = lemma_delivery_order(rest);
            lemma_runs_until_cancelled(rest);
            let tail = run_events(Phase::Running, rest);
            let shifted = Seq::new(sub.len(), |k: int| sub[k] + 1);
            let d: int = if emits(head) is Some {
                1
            } else {
                0
            };
            let origin = if emits(head) is Some {
                seq![0int] + shifted
            } else {
                shifted
            };
            assert(events == as_seq(emits(head)) + tail);
            assert(as_seq(emits(head)).len() == d);
            assert(origin.len() == events.len());
            assert forall|k: int| 0 <= k < origin.len() implies 0 <= #[trigger] origin[k]
                < live_len(readies) && emits(readies[origin[k]]) == Some(events[k]) by {
                if k < d {
                    assert(origin[k] == 0);
                    assert(readies[0] == head);
                    assert(events[k] == as_seq(emits(head))[0]);
                    assert(live_len(readies) == 1 + live_len(rest));
                } else {
                    let j = k - d;
                    assert(0 <= sub[j] < live_len(rest));
                    assert(emits(rest[sub[j]]) == Some(tail[j]));
                    assert(origin[k] == sub[j] + 1);
                    assert(readies[origin[k]] == rest[sub[j]]);
                    assert(events[k] == tail[j]);
                    assert(live_len(readies) == 1 + live_len(rest));
                }
            }
            assert forall|k: int, l: int| 0 <= k < l < origin.len() implies origin[k]
                < origin[l] by {
                if k < d {
                    assert(origin[k] == 0);
                    assert(origin[l] == sub[l - d] + 1);
                } else {
                    assert(origin[k] == sub[k - d] + 1);
                    assert(origin[l] == sub[l - d] + 1);
                }
            }
            assert forall|i: int|
                0 <= i < live_len(readies) && emits(
                    #[trigger] readies[i],
                ) is Some implies origin.contains(i) by {
                if i == 0 {
                    assert(origin[0] == 0);
                } else {
                    assert(readies[i] == rest[i - 1]);
                    assert(sub.contains(i - 1));
                    let k = choose|k: int| 0 <= k < sub.len() && sub[k] == i - 1;
                    assert(origin[k + d] == i);
                }
            }
            origin
        }
    }
}

} // verus!
