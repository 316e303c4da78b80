//! The watchdog that stops a script when its wall-clock budget runs out.
//!
//! A thread of its own waits on a channel for at most the budget. A message
//! on the channel cancels it; where the wait runs out first, it tells the
//! isolate to stop and the guard counts as triggered.

use vstd::prelude::*;

verus! {

/// How the watchdog's wait ended.
#[derive(Debug, Clone, Copy, PartialEq, Eq, Structural)]
pub enum Wake {
    /// The guard was given up within the budget.
    Cancelled,
    /// The budget ran out.
    TimedOut,
    /// The channel broke without a message.
    Disconnected,
}

/// What the watchdog does when its wait has ended.
#[derive(Debug, Clone, Copy, PartialEq, Eq, Structural)]
pub enum WatchdogAction {
    /// Nothing: the thread ends.
    Exit,
    /// Tell the isolate to stop, then end.
    Terminate,
}

/// A wall-clock guard over one run of a script.
#[derive(Debug, Clone, Copy, PartialEq, Eq, Structural)]
pub struct TimeoutGuard {
    timeout_ms: u64,
    triggered: bool,
}

impl TimeoutGuard {
    /// The budget in milliseconds; 0 for a guard that watches nothing.
    pub closed spec fn budget_ms(self) -> u64 {
        self.timeout_ms
    }

    /// Whether the budget ran out.
    pub closed spec fn triggered(self) -> bool {
        self.triggered
    }

    /// Whether this guard has a watchdog.
    pub open spec fn armed(self) -> bool {
        self.budget_ms() > 0
    }

    /// Whether a wait that ended as `wake` makes this guard fire: it does
    /// where the guard is armed and the wait ran out.
    pub open spec fn fires_on(self, wake: Wake) -> bool {
        self.armed() && wake == Wake::TimedOut
    }

    /// A guard with a budget of `timeout_ms` milliseconds, not triggered.
    /// With a budget of 0 it is disabled: no watchdog is started for it.
    pub fn new(timeout_ms: u64) -> (guard: TimeoutGuard)
        ensures
            guard.budget_ms() == timeout_ms,
            !guard.triggered(),
    {
        TimeoutGuard { timeout_ms, triggered: false }
    }

    /// How long the watchdog is to wait, in milliseconds, or `None` where
    /// none is to be started.
    pub fn watchdog_wait_ms(&self) -> (wait: Option<u64>)
        ensures
            wait == if self.armed() {
                Some(self.budget_ms())
            } else {
                None
            },
    {
        if self.timeout_ms == 0 {
            None
        } else {
            Some(self.timeout_ms)
        }
    }

    /// Records how the watchdog's wait ended and says what it does next. A
    /// wait that runs out triggers an armed guard, and the isolate is told
    /// to stop. Anything else triggers nothing.
    pub fn on_wake(&mut self, wake: Wake) -> (action: WatchdogAction)
        ensures
            final(self).budget_ms() == old(self).budget_ms(),
            final(self).triggered() == (old(self).triggered() || old(self).fires_on(wake)),
            action == if old(self).fires_on(wake) {
                WatchdogAction::Terminate
            } else {
                WatchdogAction::Exit
            },
    {
        if self.timeout_ms > 0 && wake == Wake::TimedOut {
            self.triggered = true;
            WatchdogAction::Terminate
        } else {
            WatchdogAction::Exit
        }
    }

    /// Whether the budget ran out and the isolate was told to stop.
    pub fn was_triggered(&self) -> (triggered: bool)
        ensures
            triggered == self.triggered(),
    {
        self.triggered
    }

    /// Whether giving the guard up has a watchdog to cancel and wait for.
    pub fn is_armed(&self) -> (armed: bool)
        ensures
            armed == self.armed(),
    {
        self.timeout_ms > 0
    }
}

} // verus!
