//! Time, as the microsecond counter of the board tells it.

use fugit::{MicrosDurationU64, TimerInstantU64};
use vstd::prelude::*;

verus! {

/// `fugit::Instant::duration_since_epoch`: the time from the start of the counter to the moment
/// at which it stood at `counter` is that many microseconds.
#[verifier::external_body]
fn since_epoch(counter: u64) -> (micros: u64)
    ensures
        micros == counter,
{
    TimerInstantU64::<1_000_000>::from_ticks(counter).duration_since_epoch().ticks()
}

/// `fugit::Duration`'s `>` on two durations in microseconds: the first is the longer one.
#[verifier::external_body]
fn longer(first: u64, second: u64) -> (answer: bool)
    ensures
        answer == (first > second),
{
    MicrosDurationU64::from_ticks(first) > MicrosDurationU64::from_ticks(second)
}

/// A tick of the game is due. What is held against the interval is the time from the start of the
/// counter to the last tick.
pub open spec fn due(last_tick: u64, interval: u64) -> bool {
    last_tick > interval
}

/// Whether a tick of the game is due, if the counter stood at `last_tick` at the last one and the
/// game's interval is `interval` microseconds.
pub fn tick_due(last_tick: u64, interval: u64) -> (answer: bool)
    ensures
        answer == due(last_tick, interval),
        answer <==> last_tick > interval,
{
    let elapsed: u64 = since_epoch(last_tick);
    longer(elapsed, interval)
}

/// A tick is due if and only if the last one came later after the start of the counter than the
/// interval is long. So a later last tick, or a shorter interval, never undoes that one is due, and
/// every interval but the longest possible one lets the game tick at some time.
pub proof fn due_past_the_interval(last_tick: u64, interval: u64)
    ensures
        due(last_tick, interval) <==> last_tick > interval,
        forall|later: u64, shorter: u64|
            due(last_tick, interval) && last_tick <= later && shorter <= interval
                ==> #[trigger] due(later, shorter),
        interval < u64::MAX ==> due((interval + 1) as u64, interval),
        !due(interval, interval),
{
}

} // verus!
