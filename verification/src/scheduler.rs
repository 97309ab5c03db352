//! The tick scheduler: when a render tick is due.
//!
//! The scheduler thread reads a clock, asks here whether a tick is due,
//! and then sends the tick or sleeps for a moment. Times are nanoseconds
//! on a clock that the thread keeps; nothing here reads one.

use vstd::prelude::*;

verus! {

/// The time from one render tick to the next: a twenty-second part of a
/// second, in nanoseconds.
pub const TICK_PERIOD_NANOS: u64 = 45_454_545;

/// How long the scheduler sleeps where no tick is due, in milliseconds.
pub const IDLE_SLEEP_MILLIS: u64 = 1;

/// What the scheduler thread does next.
#[derive(Clone, Copy, Debug, PartialEq, Eq)]
pub enum TickAction {
    /// Send a render tick to the consumer.
    Emit,
    /// Sleep for `IDLE_SLEEP_MILLIS`, then look again.
    Sleep,
}

/// The state of the scheduler thread.
#[derive(Clone, Copy, Debug, PartialEq, Eq)]
pub struct TickScheduler {
    /// When the last tick was emitted, or the scheduler started.
    pub last_tick: u64,
    /// The consumer still takes ticks.
    pub running: bool,
}

/// The time that has passed from `last_tick` to `now`; none where the
/// clock reads earlier than the last tick.
pub open spec fn elapsed(last_tick: u64, now: u64) -> int {
    if now >= last_tick {
        now - last_tick
    } else {
        0
    }
}

/// A tick is due: a whole period has passed since the last one.
pub open spec fn tick_due(last_tick: u64, now: u64) -> bool {
    elapsed(last_tick, now) >= TICK_PERIOD_NANOS
}

impl TickScheduler {
    /// A scheduler that starts at `now`: the first tick is due one period later.
    pub fn new(now: u64) -> (scheduler: Self)
        ensures
            scheduler.last_tick == now,
            scheduler.running,
    {
        TickScheduler { last_tick: now, running: true }
    }

    /// Looks at the clock. A tick is emitted where one is due, and the
    /// next period counts from `now`; otherwise the scheduler sleeps and
    /// nothing changes.
    pub fn poll(&mut self, now: u64) -> (action: TickAction)
        ensures
            action == (if tick_due(old(self).last_tick, now) {
                TickAction::Emit
            } else {
                TickAction::Sleep
            }),
            final(self).last_tick == (if tick_due(old(self).last_tick, now) {
                now
            } else {
                old(self).last_tick
            }),
            final(self).running == old(self).running,
    {
        let since: u64 = if now >= self.last_tick {
            now - self.last_tick
        } else {
            0
        };
        if since >= TICK_PERIOD_NANOS {
            self.last_tick = now;
            TickAction::Emit
        } else {
            TickAction::Sleep
        }
    }

    /// Takes the outcome of sending a tick. The scheduler goes on while
    /// the consumer takes its ticks, and ends with the first one that the
    /// consumer does not take.
    pub fn after_send(&mut self, delivered: bool) -> (go_on: bool)
        ensures
            go_on == (old(self).running && delivered),
            final(self).running == go_on,
            final(self).last_tick == old(self).last_tick,
    {
        let go_on = self.running && delivered;
        self.running = go_on;
        go_on
    }
}

/// Two ticks in a row are at least a period apart: after a tick at
/// `first`, no tick is due before `first + TICK_PERIOD_NANOS`, and one is
/// due from then on. The period is the twenty-second part of a second,
/// less the fraction of a nanosecond.
pub proof fn ticks_are_a_period_apart(first: u64, now: u64)
    requires
        first <= now,
    ensures
        tick_due(first, now) <==> now - first >= TICK_PERIOD_NANOS,
        22 * TICK_PERIOD_NANOS <= 1_000_000_000 < 22 * (TICK_PERIOD_NANOS + 1),
{
}

} // verus!
