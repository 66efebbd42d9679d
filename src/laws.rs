//! Properties of the control loop over whole runs of events.

use vstd::prelude::*;

use crate::counter::decremented;
use crate::machine::{step, run, Action, Event, Key, State};

verus! {

/// The events of a countdown started with Enter and then fed `ticks` ticks.
pub open spec fn start_then_ticks(ticks: nat) -> Seq<Event> {
    seq![Event::KeyPress(Key::Enter)] + Seq::new(ticks, |_i: int| Event::Tick)
}

/// The counter after `n` guarded decrements.
pub open spec fn decremented_times(count: nat, n: nat) -> nat
    decreases n,
{
    if n == 0 {
        count
    } else {
        decremented(decremented_times(count, (n - 1) as nat))
    }
}

proof fn lemma_start_then_ticks_split(ticks: nat)
    ensures
        start_then_ticks(ticks + 1).drop_last() =~= start_then_ticks(ticks),
        start_then_ticks(ticks + 1).last() == Event::Tick,
{
}

/// Started from idle with `d` seconds, the countdown takes exactly one second
/// off on each of its first `d` ticks, and the tick after them finds zero and
/// returns the loop to idle with the counter at zero.
pub proof fn lemma_countdown_runs_to_zero(d: nat)
    ensures
        forall|k: nat|
            k <= d ==> #[trigger] run(State::Idle, d, start_then_ticks(k)) == (
                State::Running,
                (d - k) as nat,
            ),
        run(State::Idle, d, start_then_ticks(d + 1)) == (State::Idle, 0nat),
{
    assert forall|k: nat| k <= d implies #[trigger] run(State::Idle, d, start_then_ticks(k)) == (
        State::Running,
        (d - k) as nat,
    ) by {
        lemma_countdown_prefix(d, k);
    }
    lemma_countdown_prefix(d, d);
    lemma_start_then_ticks_split(d);
}

proof fn lemma_countdown_prefix(d: nat, k: nat)
    requires
        k <= d,
    ensures
        run(State::Idle, d, start_then_ticks(k)) == (State::Running, (d - k) as nat),
    decreases k,
{
    if k == 0 {
        let s = start_then_ticks(0);
        assert(s.drop_last() =~= Seq::<Event>::empty());
        assert(run(State::Idle, d, Seq::<Event>::empty()) == (State::Idle, d));
        assert(s.last() == Event::KeyPress(Key::Enter));
    } else {
        lemma_countdown_prefix(d, (k - 1) as nat);
        lemma_start_then_ticks_split((k - 1) as nat);
    }
}

/// A counter at zero stays at zero however many guarded decrements are made,
/// so each of them reports that nothing was taken off.
pub proof fn lemma_zero_guard_idempotent(n: nat)
    ensures
        decremented_times(0, n) == 0,
    decreases n,
{
    if n > 0 {
        lemma_zero_guard_idempotent((n - 1) as nat);
    }
}

/// Escape while counting down returns to idle and keeps the counter where the
/// last tick left it: neither the configured duration nor zero.
pub proof fn lemma_cancel_keeps_count(d: nat, k: nat)
    requires
        k < d,
    ensures
        run(State::Idle, d, start_then_ticks(k).push(Event::KeyPress(Key::Escape))) == (
            State::Idle,
            (d - k) as nat,
        ),
        step(State::Running, (d - k) as nat, Event::KeyPress(Key::Escape)) == (
            State::Idle,
            (d - k) as nat,
            Action::StopTicks,
        ),
{
    lemma_countdown_prefix(d, k);
    let s = start_then_ticks(k).push(Event::KeyPress(Key::Escape));
    assert(s.drop_last() =~= start_then_ticks(k));
}

/// Once the loop has terminated, no event changes its state or the counter.
pub proof fn lemma_terminated_is_final(count: nat, events: Seq<Event>)
    ensures
        run(State::Terminated, count, events) == (State::Terminated, count),
    decreases events.len(),
{
    if events.len() > 0 {
        lemma_terminated_is_final(count, events.drop_last());
    }
}

/// Quit in the idle state ends the program at once, whatever the duration:
/// the loop never enters the running state, and nothing after moves it.
pub proof fn lemma_quit_when_idle(d: nat, events: Seq<Event>)
    ensures
        step(State::Idle, d, Event::KeyPress(Key::Quit)) == (State::Terminated, d, Action::Exit),
        run(State::Idle, d, seq![Event::KeyPress(Key::Quit)] + events) == (
            State::Terminated,
            d,
        ),
    decreases events.len(),
{
    if events.len() > 0 {
        lemma_quit_when_idle(d, events.drop_last());
        assert((seq![Event::KeyPress(Key::Quit)] + events).drop_last() =~= seq![
            Event::KeyPress(Key::Quit),
        ] + events.drop_last());
    } else {
        let s = seq![Event::KeyPress(Key::Quit)] + events;
        assert(s.drop_last() =~= Seq::<Event>::empty());
        assert(run(State::Idle, d, Seq::<Event>::empty()) == (State::Idle, d));
    }
}

/// Quit while counting down ends the program at once: no tick or key that
/// follows takes another second off.
pub proof fn lemma_quit_when_running(count: nat, events: Seq<Event>)
    ensures
        step(State::Running, count, Event::KeyPress(Key::Quit)) == (
            State::Terminated,
            count,
            Action::Exit,
        ),
        run(State::Running, count, seq![Event::KeyPress(Key::Quit)] + events) == (
            State::Terminated,
            count,
        ),
    decreases events.len(),
{
    if events.len() > 0 {
        lemma_quit_when_running(count, events.drop_last());
        assert((seq![Event::KeyPress(Key::Quit)] + events).drop_last() =~= seq![
            Event::KeyPress(Key::Quit),
        ] + events.drop_last());
    } else {
        let s = seq![Event::KeyPress(Key::Quit)] + events;
        assert(s.drop_last() =~= Seq::<Event>::empty());
        assert(run(State::Running, count, Seq::<Event>::empty()) == (State::Running, count));
    }
}

} // verus!
