use timr::counter::Counter;
use timr::display::margin_above;
use timr::machine::{Action, Event, Key, State};
use timr::timer::{App, Args, DEFAULT_DURATION};

fn app_with(duration: usize) -> App {
    App::new(Args { duration })
}

const ENTER: Event = Event::KeyPress(Key::Enter);
const ESCAPE: Event = Event::KeyPress(Key::Escape);
const QUIT: Event = Event::KeyPress(Key::Quit);
const OTHER: Event = Event::KeyPress(Key::Other);

#[test]
fn new_app_is_idle_with_duration() {
    let app = app_with(7);
    assert_eq!(app.state(), State::Idle);
    assert_eq!(app.remaining(), 7);
    assert_eq!(app.duration(), 7);
}

#[test]
fn default_duration_is_ten() {
    assert_eq!(Args::default().duration, 10);
    assert_eq!(DEFAULT_DURATION, 10);
    assert_eq!(App::new(Args::default()).remaining(), 10);
}

#[test]
fn countdown_runs_to_zero_with_exactly_d_decrements() {
    for d in [0usize, 1, 2, 5, 12] {
        let mut app = app_with(d);
        assert_eq!(app.handle(ENTER), Action::StartTicks);
        let mut decrements = 0usize;
        loop {
            let before = app.remaining();
            let action = app.handle(Event::Tick);
            if app.state() == State::Idle {
                assert_eq!(action, Action::StopTicks);
                break;
            }
            assert_eq!(action, Action::Redraw);
            assert_eq!(app.remaining(), before - 1);
            decrements += 1;
        }
        assert_eq!(decrements, d);
        assert_eq!(app.remaining(), 0);
    }
}

#[test]
fn zero_guard_is_idempotent() {
    let mut c = Counter::new(0);
    for _ in 0..5 {
        assert!(!c.decrement_if_positive());
        assert_eq!(c.get(), 0);
    }
    assert_eq!(c.initial(), 0);
}

#[test]
fn counter_decrements_until_zero() {
    let mut c = Counter::new(2);
    assert!(c.decrement_if_positive());
    assert_eq!(c.get(), 1);
    assert!(c.decrement_if_positive());
    assert_eq!(c.get(), 0);
    assert!(!c.decrement_if_positive());
    assert_eq!(c.get(), 0);
    assert_eq!(c.initial(), 2);
}

#[test]
fn counter_at_largest_duration() {
    let mut c = Counter::new(usize::MAX);
    assert!(c.decrement_if_positive());
    assert_eq!(c.get(), usize::MAX - 1);
}

#[test]
fn escape_mid_countdown_keeps_count() {
    let mut app = app_with(5);
    app.handle(ENTER);
    app.handle(Event::Tick);
    app.handle(Event::Tick);
    assert_eq!(app.handle(ESCAPE), Action::StopTicks);
    assert_eq!(app.state(), State::Idle);
    assert_eq!(app.remaining(), 3);
}

#[test]
fn restart_after_cancel_resumes_from_remaining() {
    let mut app = app_with(4);
    app.handle(ENTER);
    app.handle(Event::Tick);
    app.handle(ESCAPE);
    assert_eq!(app.handle(ENTER), Action::StartTicks);
    assert_eq!(app.state(), State::Running);
    app.handle(Event::Tick);
    assert_eq!(app.remaining(), 2);
}

#[test]
fn quit_from_idle_terminates() {
    for d in [0usize, 3, 10] {
        let mut app = app_with(d);
        assert_eq!(app.handle(QUIT), Action::Exit);
        assert_eq!(app.state(), State::Terminated);
        assert_eq!(app.remaining(), d);
    }
}

#[test]
fn escape_from_idle_terminates() {
    let mut app = app_with(3);
    assert_eq!(app.handle(ESCAPE), Action::Exit);
    assert_eq!(app.state(), State::Terminated);
}

#[test]
fn quit_from_running_stops_decrements() {
    let mut app = app_with(5);
    app.handle(ENTER);
    app.handle(Event::Tick);
    assert_eq!(app.handle(QUIT), Action::Exit);
    assert_eq!(app.state(), State::Terminated);
    for e in [Event::Tick, ENTER, ESCAPE, OTHER, Event::Tick] {
        assert_eq!(app.handle(e), Action::Exit);
        assert_eq!(app.state(), State::Terminated);
        assert_eq!(app.remaining(), 4);
    }
}

#[test]
fn other_keys_and_stale_ticks_only_redraw() {
    let mut app = app_with(3);
    assert_eq!(app.handle(OTHER), Action::Redraw);
    assert_eq!(app.handle(Event::Tick), Action::Redraw);
    assert_eq!(app.state(), State::Idle);
    assert_eq!(app.remaining(), 3);
    app.handle(ENTER);
    assert_eq!(app.handle(OTHER), Action::Redraw);
    assert_eq!(app.state(), State::Running);
    assert_eq!(app.remaining(), 3);
}

#[test]
fn duration_three_trace() {
    let mut app = app_with(3);
    let events = vec![ENTER, Event::Tick, Event::Tick, Event::Tick, Event::Tick];
    let trace = app.handle_all(&events);
    assert_eq!(trace, vec![3, 2, 1, 0, 0]);
    assert_eq!(app.state(), State::Idle);

    let mut app = app_with(3);
    app.handle(ENTER);
    for _ in 0..3 {
        assert_eq!(app.handle(Event::Tick), Action::Redraw);
        assert_eq!(app.state(), State::Running);
    }
    assert_eq!(app.handle(Event::Tick), Action::StopTicks);
    assert_eq!(app.state(), State::Idle);
    assert_eq!(app.remaining(), 0);
}

#[test]
fn two_ticks_at_one_decrement_once() {
    let mut c = Counter::new(1);
    let first = c.decrement_if_positive();
    let second = c.decrement_if_positive();
    assert!(first);
    assert!(!second);
    assert_eq!(c.get(), 0);

    let mut app = app_with(1);
    app.handle(ENTER);
    let trace = app.handle_all(&vec![Event::Tick, Event::Tick]);
    assert_eq!(trace, vec![0, 0]);
    assert_eq!(app.state(), State::Idle);
}

#[test]
fn handle_all_on_no_events() {
    let mut app = app_with(2);
    assert_eq!(app.handle_all(&vec![]), Vec::<usize>::new());
    assert_eq!(app.state(), State::Idle);
    assert_eq!(app.remaining(), 2);
}

#[test]
fn margin_centres_one_line() {
    assert_eq!(margin_above(0), 0);
    assert_eq!(margin_above(1), 0);
    assert_eq!(margin_above(2), 0);
    assert_eq!(margin_above(3), 1);
    assert_eq!(margin_above(24), 11);
    assert_eq!(margin_above(25), 12);
    assert_eq!(margin_above(u16::MAX), 32767);
}
