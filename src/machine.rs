use vstd::prelude::*;

use crate::counter::decremented;

verus! {

/// The keys the timer tells apart; every other key is `Other`.
#[derive(Clone, Copy, Debug, PartialEq, Eq, Structural)]
pub enum Key {
    /// Starts the countdown.
    Enter,
    /// Cancels a countdown; in the idle state it ends the program.
    Escape,
    /// Ends the program.
    Quit,
    Other,
}

/// One item of the merged stream: a key press or a tick of the cadence.
#[derive(Clone, Copy, Debug, PartialEq, Eq, Structural)]
pub enum Event {
    KeyPress(Key),
    Tick,
}

/// The states of the control loop.
#[derive(Clone, Copy, Debug, PartialEq, Eq, Structural)]
pub enum State {
    /// Waiting for a start signal; the counter is left alone.
    Idle,
    /// Counting down, one second per tick.
    Running,
    /// The loop is done and the program ends.
    Terminated,
}

/// What the loop's driver does after an event has been consumed.
#[derive(Clone, Copy, Debug, PartialEq, Eq, Structural)]
pub enum Action {
    /// Paint the counter again.
    Redraw,
    /// Start the tick source, then paint.
    StartTicks,
    /// Stop the tick source, then paint.
    StopTicks,
    /// Leave the loop.
    Exit,
}

/// One step of the control loop: from a state and the seconds left, an event
/// gives the next state, the seconds left after it, and the driver's action.
pub open spec fn step(state: State, count: nat, event: Event) -> (State, nat, Action) {
    match state {
        State::Idle => match event {
            Event::KeyPress(Key::Enter) => (State::Running, count, Action::StartTicks),
            Event::KeyPress(Key::Escape) => (State::Terminated, count, Action::Exit),
            Event::KeyPress(Key::Quit) => (State::Terminated, count, Action::Exit),
            _ => (State::Idle, count, Action::Redraw),
        },
        State::Running => match event {
            Event::Tick => if count > 0 {
                (State::Running, decremented(count), Action::Redraw)
            } else {
                (State::Idle, count, Action::StopTicks)
            },
            Event::KeyPress(Key::Escape) => (State::Idle, count, Action::StopTicks),
            Event::KeyPress(Key::Quit) => (State::Terminated, count, Action::Exit),
            _ => (State::Running, count, Action::Redraw),
        },
        State::Terminated => (State::Terminated, count, Action::Exit),
    }
}

/// The state and the seconds left after the events have been consumed in order.
pub open spec fn run(state: State, count: nat, events: Seq<Event>) -> (State, nat)
    decreases events.len(),
{
    if events.len() == 0 {
        (state, count)
    } else {
        let before = run(state, count, events.drop_last());
        let after = step(before.0, before.1, events.last());
        (after.0, after.1)
    }
}

} // verus!
