//! The executable countdown state and its operations.
//!
//! Each operation takes the state by `&mut`, so whoever calls it holds the
//! state alone for the length of the call, and hands back what the caller
//! owes the outside world. A caller that shares the state between threads
//! keeps it behind one lock, calls with the lock held, delivers the
//! notification before it lets the lock go, and sleeps only after that.

use vstd::prelude::*;
use crate::model::Countdown;

verus! {

/// The seconds a ticker sleeps between two turns.
pub const TICK_INTERVAL_SECS: u64 = 1;

/// The value of a counter field as the model sees it.
pub open spec fn value_of(count: Option<u16>) -> Option<nat> {
    match count {
        Some(c) => Some(c as nat),
        None => None,
    }
}

/// A report to the observer that the value has changed.
#[derive(Clone, Copy, Debug, PartialEq, Eq)]
pub struct Notification {
    /// The value after the change.
    pub value: Option<u16>,
}

impl View for Notification {
    type V = Option<nat>;

    open spec fn view(&self) -> Option<nat> {
        value_of(self.value)
    }
}

/// What a ticker does after one turn.
#[derive(Clone, Copy, Debug, PartialEq, Eq)]
pub enum TickOutcome {
    /// Deliver the notification, let go of the state, sleep for
    /// [`TICK_INTERVAL_SECS`] and take another turn.
    Continue(Notification),
    /// Leave the loop; nothing is delivered.
    Terminate,
}

/// The state of one countdown.
#[derive(Debug, PartialEq, Eq)]
pub struct CounterState {
    count: Option<u16>,
    running: bool,
    stop_signal: bool,
}

impl View for CounterState {
    type V = Countdown;

    closed spec fn view(&self) -> Countdown {
        Countdown {
            value: value_of(self.count),
            running: self.running,
            stop_requested: self.stop_signal,
        }
    }
}

impl Clone for CounterState {
    fn clone(&self) -> (copy: Self)
        ensures
            copy == *self,
    {
        proof {
            use_type_invariant(self);
        }
        CounterState { count: self.count, running: self.running, stop_signal: self.stop_signal }
    }
}

impl Default for CounterState {
    fn default() -> (state: Self)
        ensures
            state@ == Countdown::idle(),
    {
        CounterState::new()
    }
}

impl CounterState {
    #[verifier::type_invariant]
    spec fn well_formed(&self) -> bool {
        self@.consistent()
    }

    /// A countdown that is not armed and not running.
    pub fn new() -> (state: Self)
        ensures
            state@ == Countdown::idle(),
    {
        CounterState { count: None, running: false, stop_signal: false }
    }

    /// What is left to count, or `None` while the countdown is not armed.
    pub fn count(&self) -> (count: Option<u16>)
        ensures
            value_of(count) == self@.value,
            self@.consistent(),
    {
        proof {
            use_type_invariant(self);
        }
        self.count
    }

    /// Whether a ticker is at work on this countdown.
    pub fn is_running(&self) -> (running: bool)
        ensures
            running == self@.running,
            self@.consistent(),
    {
        proof {
            use_type_invariant(self);
        }
        self.running
    }

    /// Whether the ticker at work has been asked to give up.
    pub fn stop_requested(&self) -> (requested: bool)
        ensures
            requested == self@.stop_requested,
            self@.consistent(),
    {
        proof {
            use_type_invariant(self);
        }
        self.stop_signal
    }

    /// Arms the countdown with `count`.
    ///
    /// While the countdown is running the call changes nothing and returns
    /// `None`. Otherwise the countdown takes the new value, and the caller
    /// delivers the returned notification, which reports that value.
    pub fn ready(&mut self, count: u16) -> (notice: Option<Notification>)
        ensures
            final(self)@ == old(self)@.ready(count as nat),
            final(self)@.consistent(),
            notice is Some <==> !old(self)@.running,
            notice matches Some(n) ==> n.value == Some(count),
    {
        proof {
            use_type_invariant(&*self);
        }
        if self.running {
            return None;
        }
        self.count = Some(count);
        self.stop_signal = false;
        Some(Notification { value: self.count })
    }

    /// Starts counting down.
    ///
    /// Returns `true` where the call begins a run: the countdown was armed
    /// and not running, and is running now. The caller then spawns the one
    /// ticker of this run. Returns `false`, with nothing changed, where the
    /// countdown was not armed or was running already.
    pub fn start(&mut self) -> (spawn: bool)
        ensures
            final(self)@ == old(self)@.start(),
            final(self)@.consistent(),
            spawn == old(self)@.start_spawns(),
    {
        proof {
            use_type_invariant(&*self);
        }
        if self.count.is_none() {
            return false;
        }
        if self.running {
            return false;
        }
        self.running = true;
        self.stop_signal = false;
        true
    }

    /// Asks the ticker to give up.
    ///
    /// On a running countdown the request is recorded, and the ticker
    /// honours it at its next turn; the value and the running flag are not
    /// touched. On any other state the call changes nothing.
    pub fn stop(&mut self)
        ensures
            final(self)@ == old(self)@.stop(),
            final(self)@.consistent(),
    {
        proof {
            use_type_invariant(&*self);
        }
        if self.running {
            self.stop_signal = true;
        }
    }

    /// Takes one turn of the ticker.
    ///
    /// Where a stop is requested or nothing is left to count, the countdown
    /// goes idle and the ticker is told to leave, with nothing to deliver.
    /// Otherwise one is taken off the value, and the ticker is told to
    /// deliver a notification of the new value and to come back.
    ///
    /// The turn does not ask whether the countdown is running. A ticker is
    /// spawned by a start that begins a run and leaves when told to, so its
    /// turns fall on a running countdown.
    pub fn tick(&mut self) -> (outcome: TickOutcome)
        ensures
            final(self)@ == old(self)@.tick(),
            final(self)@.consistent(),
            outcome is Terminate <==> old(self)@.tick_finishes(),
            outcome matches TickOutcome::Continue(n) ==> n@ == final(self)@.value,
    {
        proof {
            use_type_invariant(&*self);
        }
        if self.stop_signal {
            self.stop_signal = false;
            self.running = false;
            self.count = None;
            return TickOutcome::Terminate;
        }
        match self.count {
            Some(0) | None => {
                self.stop_signal = false;
                self.running = false;
                self.count = None;
                TickOutcome::Terminate
            },
            Some(n) => {
                self.count = Some(n - 1);
                TickOutcome::Continue(Notification { value: self.count })
            },
        }
    }
}

} // verus!
