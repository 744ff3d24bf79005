//! What holds of the operations taken together.
//!
//! The executable operations are proved to do to the state exactly what the
//! spec functions of [`Countdown`] say, so each law here, stated over those
//! spec functions, holds of every sequence of calls on one state, whichever
//! threads make them: the state is held alone for the length of each call.

use vstd::prelude::*;
use crate::model::{only_controls, reports_below, ticks, Countdown, Event};

verus! {

/// The three fields change as one group: every operation takes a consistent
/// countdown to a consistent countdown.
pub proof fn lemma_step_keeps_consistent(s: Countdown, event: Event)
    requires
        s.consistent(),
    ensures
        s.step(event).consistent(),
{
}

/// No interleaving of control calls and turns of the ticker leads out of
/// the consistent states.
pub proof fn lemma_run_keeps_consistent(s: Countdown, events: Seq<Event>)
    requires
        s.consistent(),
    ensures
        s.run(events).consistent(),
    decreases events.len(),
{
    if events.len() > 0 {
        lemma_run_keeps_consistent(s, events.drop_last());
    }
}

/// While a ticker is at work the value never rises. A control call leaves
/// it as it is; a turn of the ticker takes exactly one off it or clears it.
pub proof fn lemma_value_only_falls_while_running(s: Countdown, event: Event)
    requires
        s.running,
    ensures
        !(event is Tick) ==> s.step(event).value == s.value,
        event is Tick ==> s.step(event).value is None || (s.value matches Some(v) && v > 0
            && s.step(event).value == Some((v - 1) as nat)),
{
}

/// Arming again before a start overwrites: of two calls in a row on a
/// countdown that is not running, each is reported and the value of the
/// second stays.
pub proof fn lemma_rearming_overwrites(s: Countdown, first: nat, second: nat)
    requires
        !s.running,
    ensures
        s.notifies(Event::Ready(first)),
        s.ready(first).notifies(Event::Ready(second)),
        s.ready(first).ready(second) == s.ready(second),
        s.ready(first).ready(second).value == Some(second),
{
}

/// Arming during a run is ignored. After arming and a start, a second
/// arming changes nothing and reports nothing, and the run goes on from the
/// value it was armed with: the ticker reports `first - 1` down to zero and
/// then leaves the countdown idle.
pub proof fn lemma_rearming_after_start_ignored(s: Countdown, first: nat, second: nat)
    requires
        !s.running,
    ensures
        s.ready(first).start().running,
        s.ready(first).start().value == Some(first),
        s.ready(first).start().ready(second) == s.ready(first).start(),
        !s.ready(first).start().notifies(Event::Ready(second)),
        s.ready(first).start().ready(second).notifications(ticks(first + 1)) == reports_below(
            first,
            first,
        ),
        s.ready(first).start().ready(second).run(ticks(first + 1)) == Countdown::idle(),
{
    lemma_countdown_ends(s.ready(first).start(), first);
}

/// A second start is safe: whatever the state, a start that follows a start
/// begins no run and changes nothing.
pub proof fn lemma_start_is_idempotent(s: Countdown)
    ensures
        !s.start().start_spawns(),
        s.start().start() == s.start(),
{
}

/// Two starts make one run. After arming with `n`, the first start begins
/// a run and the second does not, and the one ticker reports exactly `n`
/// times, `n - 1` down to zero, before it leaves the countdown idle.
pub proof fn lemma_double_start_counts_once(s: Countdown, n: nat)
    requires
        !s.running,
    ensures
        s.ready(n).start_spawns(),
        !s.ready(n).start().start_spawns(),
        s.ready(n).start().start().notifications(ticks(n + 1)) == reports_below(n, n),
        s.ready(n).start().start().run(ticks(n + 1)) == Countdown::idle(),
{
    lemma_countdown_ends(s.ready(n).start(), n);
}

/// A start on a countdown that is not armed does nothing: the state is
/// unchanged, no run begins and nothing is reported.
pub proof fn lemma_start_unarmed_is_noop(s: Countdown)
    requires
        s.value is None,
    ensures
        s.start() == s,
        !s.start_spawns(),
        !s.notifies(Event::Start),
{
}

/// A second stop changes nothing.
pub proof fn lemma_stop_is_idempotent(s: Countdown)
    ensures
        s.stop().stop() == s.stop(),
{
}

/// A run counts down one by one. From a running countdown with `n` left
/// and no stop requested, `k <= n` turns of the ticker leave it running
/// with `n - k` left, and report `n - 1`, `n - 2`, ..., `n - k` in this
/// order.
pub proof fn lemma_countdown(s: Countdown, n: nat, k: nat)
    requires
        s.running,
        !s.stop_requested,
        s.value == Some(n),
        k <= n,
    ensures
        s.run(ticks(k)).running,
        !s.run(ticks(k)).stop_requested,
        s.run(ticks(k)).value == Some((n - k) as nat),
        s.notifications(ticks(k)) == reports_below(n, k),
    decreases k,
{
    if k > 0 {
        let shorter = (k - 1) as nat;
        lemma_countdown(s, n, shorter);
        assert(ticks(k).drop_last() == ticks(shorter));
    }
}

/// A run ends by itself after the value has reached zero. From a running
/// countdown with `n` left and no stop requested, the ticker reports
/// exactly `n` times, down to zero; its turn after that reports nothing
/// and leaves the countdown idle.
pub proof fn lemma_countdown_ends(s: Countdown, n: nat)
    requires
        s.running,
        !s.stop_requested,
        s.value == Some(n),
    ensures
        s.run(ticks(n + 1)) == Countdown::idle(),
        s.notifications(ticks(n + 1)) == reports_below(n, n),
{
    lemma_countdown(s, n, n);
    assert(ticks(n + 1).drop_last() == ticks(n));
}

/// A stop ends the run at the ticker's next turn. Once a stop is taken on a
/// running countdown, whatever control calls follow it change nothing and
/// report nothing, and the next turn of the ticker takes nothing off the
/// value, reports nothing and leaves the countdown idle.
pub proof fn lemma_stop_ends_run(s: Countdown, controls: Seq<Event>)
    requires
        s.running,
        only_controls(controls),
    ensures
        s.stop().run(controls) == s.stop(),
        s.stop().notifications(controls) == Seq::<Option<nat>>::empty(),
        !s.stop().notifies(Event::Tick),
        s.stop().tick() == Countdown::idle(),
    decreases controls.len(),
{
    if controls.len() > 0 {
        lemma_stop_ends_run(s, controls.drop_last());
    }
}

/// The observer is only ever told a value, never that the countdown went
/// idle: a ticker's last turn, and with it the end of a run, is not
/// reported.
pub proof fn lemma_notifications_carry_values(s: Countdown, events: Seq<Event>, i: int)
    requires
        0 <= i < s.notifications(events).len(),
    ensures
        s.notifications(events)[i] is Some,
    decreases events.len(),
{
    if events.len() > 0 {
        let earlier = s.notifications(events.drop_last());
        if i < earlier.len() {
            lemma_notifications_carry_values(s, events.drop_last(), i);
        }
    }
}

/// At most one ticker is alive at any time. In a history that begins with
/// the countdown not running and no ticker alive, and in which every tick
/// is the turn of a live ticker, one ticker is alive while the countdown is
/// running and none while it is not.
pub proof fn lemma_one_ticker(s: Countdown, events: Seq<Event>)
    requires
        !s.running,
        s.ticker_driven(events),
    ensures
        s.tickers(events) == if s.run(events).running { 1int } else { 0int },
    decreases events.len(),
{
    if events.len() > 0 {
        lemma_one_ticker(s, events.drop_last());
    }
}

/// A ticker never finds the countdown at rest. In a history that begins
/// with the countdown not running and no ticker alive, and in which every
/// tick is the turn of a live ticker, each tick is taken on a running
/// countdown.
pub proof fn lemma_ticks_find_countdown_running(s: Countdown, events: Seq<Event>)
    requires
        !s.running,
        s.ticker_driven(events),
        events.len() > 0,
        events.last() is Tick,
    ensures
        s.run(events.drop_last()).running,
{
    lemma_one_ticker(s, events.drop_last());
}

} // verus!
