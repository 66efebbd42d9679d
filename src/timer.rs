use vstd::prelude::*;

use crate::counter::Counter;
use crate::machine::{step, run, Action, Event, Key, State};

verus! {

/// The seconds a countdown runs when none are given.
pub const DEFAULT_DURATION: usize = 10;

/// The timer's configuration: the countdown's length in seconds.
pub struct Args {
    pub duration: usize,
}

impl Default for Args {
    fn default() -> (a: Args)
        ensures
            a.duration == DEFAULT_DURATION,
    {
        Args { duration: DEFAULT_DURATION }
    }
}

/// The control loop's state together with the counter it drives.
pub struct App {
    state: State,
    counter: Counter,
}

impl App {
    /// The control loop's state.
    pub closed spec fn phase(&self) -> State {
        self.state
    }

    /// The seconds left.
    pub closed spec fn count(&self) -> nat {
        self.counter.count()
    }

    /// The configured duration.
    pub closed spec fn start(&self) -> nat {
        self.counter.start()
    }

    pub open spec fn wf(&self) -> bool {
        self.count() <= self.start()
    }

    /// An idle timer holding the configured duration.
    pub fn new(args: Args) -> (app: App)
        ensures
            app.phase() == State::Idle,
            app.count() == args.duration,
            app.start() == args.duration,
            app.wf(),
    {
        App { state: State::Idle, counter: Counter::new(args.duration) }
    }

    /// The control loop's state.
    pub fn state(&self) -> (r: State)
        ensures
            r == self.phase(),
    {
        self.state
    }

    /// The seconds left, as the display shows them.
    pub fn remaining(&self) -> (r: usize)
        ensures
            r == self.count(),
    {
        self.counter.get()
    }

    /// The configured duration.
    pub fn duration(&self) -> (r: usize)
        ensures
            r == self.start(),
    {
        self.counter.initial()
    }

    /// Consumes one event: moves to the next state, takes a second off on a
    /// tick while running, and says what the driver does next.
    pub fn handle(&mut self, event: Event) -> (a: Action)
        ensures
            (final(self).phase(), final(self).count(), a) == step(
                old(self).phase(),
                old(self).count(),
                event,
            ),
            final(self).start() == old(self).start(),
            old(self).wf() ==> final(self).wf(),
    {
        match self.state {
            State::Idle => match event {
                Event::KeyPress(Key::Enter) => {
                    self.state = State::Running;
                    Action::StartTicks
                },
                Event::KeyPress(Key::Escape) | Event::KeyPress(Key::Quit) => {
                    self.state = State::Terminated;
                    Action::Exit
                },
                _ => Action::Redraw,
            },
            State::Running => match event {
                Event::Tick => {
                    if self.counter.decrement_if_positive() {
                        Action::Redraw
                    } else {
                        self.state = State::Idle;
                        Action::StopTicks
                    }
                },
                Event::KeyPress(Key::Escape) => {
                    self.state = State::Idle;
                    Action::StopTicks
                },
                Event::KeyPress(Key::Quit) => {
                    self.state = State::Terminated;
                    Action::Exit
                },
                _ => Action::Redraw,
            },
            State::Terminated => Action::Exit,
        }
    }

    /// Consumes the events in order and gives the seconds left after each.
    pub fn handle_all(&mut self, events: &Vec<Event>) -> (trace: Vec<usize>)
        ensures
            trace@.len() == events@.len(),
            forall|i: int|
                0 <= i < events@.len() ==> trace@[i] == run(
                    old(self).phase(),
                    old(self).count(),
                    events@.take(i + 1),
                ).1,
            (final(self).phase(), final(self).count()) == run(
                old(self).phase(),
                old(self).count(),
                events@,
            ),
            final(self).start() == old(self).start(),
            old(self).wf() ==> final(self).wf(),
    {
        let ghost s0 = self.phase();
        let ghost c0 = self.count();
        let ghost w0 = self.wf();
        let mut trace: Vec<usize> = Vec::new();
        let mut i: usize = 0;
        while i < events.len()
            invariant
                i <= events@.len(),
                trace@.len() == i,
                forall|j: int|
                    0 <= j < i ==> trace@[j] == run(s0, c0, events@.take(j + 1)).1,
                (self.phase(), self.count()) == run(s0, c0, events@.take(i as int)),
                self.start() == old(self).start(),
                w0 ==> self.wf(),
            decreases events@.len() - i,
        {
            let event = events[i];
            assert(events@.take(i + 1).drop_last() =~= events@.take(i as int));
            assert(events@.take(i + 1).last() == event);
            self.handle(event);
            trace.push(self.remaining());
            i = i + 1;
        }
        assert(events@.take(events@.len() as int) =~= events@);
        trace
    }
}

} // verus!
