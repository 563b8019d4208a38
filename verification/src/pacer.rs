//! When a host should run the machine.
//!
//! The machine runs on two clocks: instructions at 800 Hz and the timers,
//! with a new frame after each tick, at 60 Hz. A host asks the pacer, with
//! the time on its own monotonic clock, what is due; the pacer holds no
//! clock of its own.

use vstd::prelude::*;

verus! {

/// Nanoseconds between two instruction cycles: 800 per second.
pub const CYCLE_PERIOD: u64 = 1_250_000;

/// Nanoseconds between two timer ticks: 60 per second.
pub const TICK_PERIOD: u64 = 16_666_667;

/// When the machine last ran a cycle and when its timers last ticked, in
/// nanoseconds on the host's clock.
#[derive(Debug, Clone, Copy, PartialEq, Eq)]
pub struct Pacer {
    pub last_cycle: u64,
    pub last_tick: u64,
}

/// What the host should do now.
#[derive(Debug, Clone, Copy, PartialEq, Eq)]
pub struct Due {
    /// Run one instruction.
    pub cycle: bool,
    /// Tick the timers and present a frame.
    pub tick: bool,
}

/// The time from `then` to `now`; zero if the clock went backwards.
pub open spec fn elapsed(then: u64, now: u64) -> int {
    if now >= then {
        now - then
    } else {
        0
    }
}

/// A cycle is due once more than a cycle period has passed since the
/// last one.
pub open spec fn cycle_due(pacer: Pacer, now: u64) -> bool {
    elapsed(pacer.last_cycle, now) > CYCLE_PERIOD
}

/// A tick is due once a tick period has passed since the last one.
pub open spec fn tick_due(pacer: Pacer, now: u64) -> bool {
    elapsed(pacer.last_tick, now) >= TICK_PERIOD
}

impl Pacer {
    /// A pacer for a machine that starts at `now`.
    pub fn new(now: u64) -> (pacer: Pacer)
        ensures
            pacer.last_cycle == now,
            pacer.last_tick == now,
    {
        Pacer { last_cycle: now, last_tick: now }
    }

    /// Says what is due at `now` and takes note that the host does it.
    pub fn poll(&mut self, now: u64) -> (due: Due)
        ensures
            due.cycle == cycle_due(*old(self), now),
            due.tick == tick_due(*old(self), now),
            final(self).last_cycle == if due.cycle { now } else { old(self).last_cycle },
            final(self).last_tick == if due.tick { now } else { old(self).last_tick },
    {
        let cycle = now.saturating_sub(self.last_cycle) > CYCLE_PERIOD;
        let tick = now.saturating_sub(self.last_tick) >= TICK_PERIOD;
        if cycle {
            self.last_cycle = now;
        }
        if tick {
            self.last_tick = now;
        }
        Due { cycle, tick }
    }
}

/// Nothing is due twice at one moment: right after a poll, a second poll
/// at the same time asks for nothing.
pub proof fn lemma_poll_settles(pacer: Pacer, now: u64)
    ensures
        ({
            let after = Pacer {
                last_cycle: if cycle_due(pacer, now) { now } else { pacer.last_cycle },
                last_tick: if tick_due(pacer, now) { now } else { pacer.last_tick },
            };
            !cycle_due(after, now) && !tick_due(after, now)
        }),
{
}

} // verus!
