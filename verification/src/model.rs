//! The countdown as a mathematical value.
//!
//! [`Countdown`] is the state, with one spec function for each operation that
//! says what the operation makes of a state. [`Event`] names the operations,
//! so that a history of the countdown is a sequence of events: the order in
//! which the operations took hold of the state.

use vstd::prelude::*;

verus! {

/// The state of the countdown.
pub struct Countdown {
    /// What is left to count; `None` while the countdown is not armed.
    pub value: Option<nat>,
    /// Whether a ticker is at work on this countdown.
    pub running: bool,
    /// Whether the ticker at work has been asked to give up.
    pub stop_requested: bool,
}

/// One operation on the countdown.
pub enum Event {
    /// Arm the countdown with a starting value.
    Ready(nat),
    /// Start counting down.
    Start,
    /// Ask the ticker to give up.
    Stop,
    /// One turn of the ticker.
    Tick,
}

impl Countdown {
    /// The state a countdown is created in, and returns to when its ticker
    /// leaves: not armed, not running, nothing requested.
    pub open spec fn idle() -> Countdown {
        Countdown { value: None, running: false, stop_requested: false }
    }

    /// What holds of every state the operations can reach: only a running
    /// countdown can have a stop requested, and only an armed one can run.
    pub open spec fn consistent(self) -> bool {
        &&& self.stop_requested ==> self.running
        &&& self.running ==> self.value is Some
    }

    /// The state after arming with `count`. A running countdown is left as
    /// it is; any other takes the new value and forgets a stop request.
    pub open spec fn ready(self, count: nat) -> Countdown {
        if self.running {
            self
        } else {
            Countdown { value: Some(count), stop_requested: false, ..self }
        }
    }

    /// Whether a start on this state begins a run, and so calls for a
    /// ticker: the countdown is armed and no ticker is at work on it.
    pub open spec fn start_spawns(self) -> bool {
        self.value is Some && !self.running
    }

    /// The state after a start. Where the start begins a run the countdown
    /// is running with no stop requested; elsewhere nothing changes.
    pub open spec fn start(self) -> Countdown {
        if self.start_spawns() {
            Countdown { running: true, stop_requested: false, ..self }
        } else {
            self
        }
    }

    /// The state after a stop. A running countdown has the stop requested;
    /// its value and its running flag are left to the ticker. Any other
    /// state is unchanged.
    pub open spec fn stop(self) -> Countdown {
        if self.running {
            Countdown { stop_requested: true, ..self }
        } else {
            self
        }
    }

    /// Whether the ticker's turn on this state is its last: a stop is
    /// requested, or nothing is left to count.
    pub open spec fn tick_finishes(self) -> bool {
        self.stop_requested || self.value is None || self.value == Some(0nat)
    }

    /// The state after one turn of the ticker. The last turn leaves the
    /// countdown idle; every other turn takes one off the value.
    pub open spec fn tick(self) -> Countdown {
        if self.tick_finishes() {
            Countdown::idle()
        } else {
            Countdown { value: Some((self.value->0 - 1) as nat), ..self }
        }
    }

    /// The state after `event`.
    pub open spec fn step(self, event: Event) -> Countdown {
        match event {
            Event::Ready(count) => self.ready(count),
            Event::Start => self.start(),
            Event::Stop => self.stop(),
            Event::Tick => self.tick(),
        }
    }

    /// Whether `event`, taken on this state, notifies the observer. Arming
    /// does unless the countdown is running; a turn of the ticker does
    /// unless it is the last; start and stop never do.
    pub open spec fn notifies(self, event: Event) -> bool {
        match event {
            Event::Ready(_) => !self.running,
            Event::Start => false,
            Event::Stop => false,
            Event::Tick => !self.tick_finishes(),
        }
    }

    /// The notifications that `event` sends, in order: none, or the one
    /// that reports the value after the step.
    pub open spec fn emitted(self, event: Event) -> Seq<Option<nat>> {
        if self.notifies(event) {
            seq![self.step(event).value]
        } else {
            Seq::empty()
        }
    }

    /// How `event` changes the number of live tickers: a start that begins
    /// a run brings one to life, and a ticker's last turn ends one.
    pub open spec fn ticker_change(self, event: Event) -> int {
        match event {
            Event::Start => if self.start_spawns() { 1 } else { 0 },
            Event::Tick => if self.tick_finishes() { -1 } else { 0 },
            _ => 0,
        }
    }

    /// The state after all of `events`, first to last.
    pub open spec fn run(self, events: Seq<Event>) -> Countdown
        decreases events.len(),
    {
        if events.len() == 0 {
            self
        } else {
            self.run(events.drop_last()).step(events.last())
        }
    }

    /// Everything the observer is sent while `events` are taken, in the
    /// order in which it is sent.
    pub open spec fn notifications(self, events: Seq<Event>) -> Seq<Option<nat>>
        decreases events.len(),
    {
        if events.len() == 0 {
            Seq::empty()
        } else {
            self.notifications(events.drop_last())
                + self.run(events.drop_last()).emitted(events.last())
        }
    }

    /// The number of tickers alive after `events`, where none was alive
    /// before them.
    pub open spec fn tickers(self, events: Seq<Event>) -> int
        decreases events.len(),
    {
        if events.len() == 0 {
            0
        } else {
            self.tickers(events.drop_last())
                + self.run(events.drop_last()).ticker_change(events.last())
        }
    }

    /// Whether every `Tick` among `events` is the turn of a ticker that is
    /// alive when it is taken. Ticks come from tickers alone, so the
    /// histories that can happen are the ones of which this holds.
    pub open spec fn ticker_driven(self, events: Seq<Event>) -> bool
        decreases events.len(),
    {
        events.len() == 0 || {
            &&& self.ticker_driven(events.drop_last())
            &&& events.last() is Tick ==> self.tickers(events.drop_last()) > 0
        }
    }
}

/// `n` turns of the ticker with nothing in between.
pub open spec fn ticks(n: nat) -> Seq<Event> {
    Seq::new(n, |i: int| Event::Tick)
}

/// Whether none of `events` is a turn of the ticker: all of them are calls
/// of the control operations.
pub open spec fn only_controls(events: Seq<Event>) -> bool {
    forall|i: int| 0 <= i < events.len() ==> !(#[trigger] events[i] is Tick)
}

/// The reports of `len` turns that count down from `from`: `from - 1`,
/// `from - 2`, and so on, each one less than the one before.
pub open spec fn reports_below(from: nat, len: nat) -> Seq<Option<nat>> {
    Seq::new(len, |i: int| Some((from - 1 - i) as nat))
}

} // verus!
