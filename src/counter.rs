use vstd::prelude::*;

verus! {

/// What one guarded decrement does to a count: one less, but never below zero.
pub open spec fn decremented(count: nat) -> nat {
    if count > 0 {
        (count - 1) as nat
    } else {
        0
    }
}

/// The remaining seconds of a countdown. Its only mutator is
/// `decrement_if_positive`, so the value stays within `[0, initial]` and
/// never grows.
pub struct Counter {
    value: usize,
    initial: usize,
}

impl Counter {
    /// The seconds left.
    pub closed spec fn count(&self) -> nat {
        self.value as nat
    }

    /// The duration the counter was made with.
    pub closed spec fn start(&self) -> nat {
        self.initial as nat
    }

    pub open spec fn wf(&self) -> bool {
        self.count() <= self.start()
    }

    /// A counter holding `duration` seconds.
    pub fn new(duration: usize) -> (c: Counter)
        ensures
            c.count() == duration,
            c.start() == duration,
            c.wf(),
    {
        Counter { value: duration, initial: duration }
    }

    /// The seconds left.
    pub fn get(&self) -> (r: usize)
        ensures
            r == self.count(),
    {
        self.value
    }

    /// The duration the counter was made with.
    pub fn initial(&self) -> (r: usize)
        ensures
            r == self.start(),
    {
        self.initial
    }

    /// Takes one second off when any is left, and says whether it did.
    /// At zero the counter is left unchanged and `false` comes back.
    pub fn decrement_if_positive(&mut self) -> (r: bool)
        ensures
            r == (old(self).count() > 0),
            final(self).count() == decremented(old(self).count()),
            final(self).start() == old(self).start(),
            old(self).wf() ==> final(self).wf(),
    {
        if self.value > 0 {
            self.value = self.value - 1;
            true
        } else {
            false
        }
    }
}

} // verus!
