//! The countdown and the buttons that add time to it.

use vstd::prelude::*;

verus! {

/// Milliseconds added per tick while the "small" button is held.
pub const SMALL_INCREMENT_MS: u32 = 5_000;

/// Milliseconds added per tick while the "large" button is held.
pub const LARGE_INCREMENT_MS: u32 = 60_000;

/// The time the two buttons add in one tick, as a function of their levels
/// in that tick alone.
pub open spec fn increment_ms(add_small: bool, add_large: bool) -> nat {
    (if add_small {
        5_000nat
    } else {
        0nat
    }) + (if add_large {
        60_000nat
    } else {
        0nat
    })
}

/// Resolves the two button samples of one tick into the time they add.
///
/// The buttons are read as levels, not edges: a button held over many ticks
/// adds its time again in every one of them.
pub fn resolve_increment(add_small: bool, add_large: bool) -> (ms: u32)
    ensures
        ms == increment_ms(add_small, add_large),
{
    let small: u32 = if add_small {
        SMALL_INCREMENT_MS
    } else {
        0
    };
    let large: u32 = if add_large {
        LARGE_INCREMENT_MS
    } else {
        0
    };
    small + large
}

/// The countdown as numbers: all three in milliseconds, none ever negative
/// between ticks.
pub struct TimerState {
    /// Time left before the alarm.
    pub remaining: nat,
    /// Time taken off per tick.
    pub tick: nat,
    /// Time the countdown restarts from.
    pub start: nat,
}

impl TimerState {
    /// The numbers are ones a [`CountdownTimer`] can hold.
    pub open spec fn fits(self) -> bool {
        self.remaining <= i64::MAX && self.tick <= u32::MAX && self.start <= u32::MAX
    }

    /// Time left once the tick is taken off and the increment is added:
    /// negative when the countdown has run out.
    pub open spec fn residual(self, increment: nat) -> int {
        self.remaining - self.tick + increment
    }

    /// Whether a tick with this increment runs the countdown out.
    pub open spec fn expires(self, increment: nat) -> bool {
        self.residual(increment) < 0
    }

    /// The countdown after one tick: it restarts from `start` when it ran
    /// out, and otherwise keeps what is left.
    pub open spec fn advance(self, increment: nat) -> TimerState {
        TimerState {
            remaining: if self.expires(increment) {
                self.start
            } else {
                self.residual(increment) as nat
            },
            ..self
        }
    }

    /// The countdown after `ticks` ticks that each receive `increment`.
    pub open spec fn advance_by(self, increment: nat, ticks: nat) -> TimerState
        decreases ticks,
    {
        if ticks == 0 {
            self
        } else {
            self.advance_by(increment, (ticks - 1) as nat).advance(increment)
        }
    }
}

/// A countdown that loses a fixed amount per tick and restarts when it runs
/// out.
#[derive(Debug)]
pub struct CountdownTimer {
    remaining_ms: i64,
    tick_ms: u32,
    start_ms: u32,
}

impl View for CountdownTimer {
    type V = TimerState;

    closed spec fn view(&self) -> TimerState {
        TimerState {
            remaining: if self.remaining_ms >= 0 {
                self.remaining_ms as nat
            } else {
                0
            },
            tick: self.tick_ms as nat,
            start: self.start_ms as nat,
        }
    }
}

impl CountdownTimer {
    #[verifier::type_invariant]
    spec fn inv(&self) -> bool {
        self.remaining_ms >= 0
    }

    /// A countdown at its starting value.
    pub fn new(start_ms: u32, tick_ms: u32) -> (timer: CountdownTimer)
        ensures
            timer@ == (TimerState {
                remaining: start_ms as nat,
                tick: tick_ms as nat,
                start: start_ms as nat,
            }),
    {
        CountdownTimer { remaining_ms: start_ms as i64, tick_ms, start_ms }
    }

    /// A countdown that is already under way, with `remaining_ms` left.
    pub fn resume(remaining_ms: u32, start_ms: u32, tick_ms: u32) -> (timer: CountdownTimer)
        ensures
            timer@ == (TimerState {
                remaining: remaining_ms as nat,
                tick: tick_ms as nat,
                start: start_ms as nat,
            }),
    {
        CountdownTimer { remaining_ms: remaining_ms as i64, tick_ms, start_ms }
    }

    /// Time left, in milliseconds; never negative between ticks.
    pub fn remaining_ms(&self) -> (ms: i64)
        ensures
            ms == self@.remaining,
    {
        proof {
            use_type_invariant(self);
        }
        self.remaining_ms
    }

    /// Time taken off per tick, in milliseconds.
    pub fn tick_ms(&self) -> (ms: u32)
        ensures
            ms == self@.tick,
    {
        self.tick_ms
    }

    /// Time the countdown restarts from, in milliseconds.
    pub fn start_ms(&self) -> (ms: u32)
        ensures
            ms == self@.start,
    {
        self.start_ms
    }

    /// Whether a tick with this increment keeps the time left within what
    /// the timer can hold.
    pub fn can_advance(&self, increment: u32) -> (ok: bool)
        ensures
            ok == (self@.residual(increment as nat) <= i64::MAX),
    {
        proof {
            use_type_invariant(self);
        }
        self.remaining_ms - (self.tick_ms as i64) <= i64::MAX - (increment as i64)
    }

    /// One tick: takes `tick_ms` off, adds `increment`, and, when the result
    /// is negative, restarts from the starting value. Returns whether the
    /// countdown ran out, which is when the alarm is due, once.
    pub fn tick(&mut self, increment: u32) -> (expired: bool)
        requires
            old(self)@.residual(increment as nat) <= i64::MAX,
        ensures
            expired == old(self)@.expires(increment as nat),
            final(self)@ == old(self)@.advance(increment as nat),
    {
        proof {
            use_type_invariant(&*self);
        }
        let residual: i64 = self.remaining_ms - (self.tick_ms as i64) + (increment as i64);
        if residual < 0 {
            self.remaining_ms = self.start_ms as i64;
            true
        } else {
            self.remaining_ms = residual;
            false
        }
    }
}

/// Whatever a timer holds fits.
pub proof fn lemma_timer_fits(timer: CountdownTimer)
    ensures
        timer@.fits(),
{
}

/// A tick that runs the countdown out leaves exactly the starting value: no
/// negative residual, and nothing of the increment received in that tick.
/// Any other tick leaves what the arithmetic gives.
pub proof fn lemma_expiry_restarts(timer: TimerState, increment: nat)
    ensures
        timer.expires(increment) <==> timer.remaining + increment < timer.tick,
        timer.expires(increment) ==> timer.advance(increment).remaining == timer.start,
        !timer.expires(increment) ==> timer.advance(increment).remaining == timer.remaining
            - timer.tick + increment,
        timer.advance(increment).tick == timer.tick,
        timer.advance(increment).start == timer.start,
{
}

/// While the levels are held and the countdown does not run out, every tick
/// adds the increment again: after `ticks` ticks the time left has changed by
/// `ticks * (increment - tick)`.
pub proof fn lemma_held_increment_accumulates(timer: TimerState, increment: nat, ticks: nat)
    requires
        increment >= timer.tick,
    ensures
        timer.advance_by(increment, ticks).remaining == timer.remaining + ticks * (increment
            - timer.tick),
        timer.advance_by(increment, ticks).tick == timer.tick,
        timer.advance_by(increment, ticks).start == timer.start,
    decreases ticks,
{
    let step = increment - timer.tick;
    if ticks > 0 {
        let before = (ticks - 1) as nat;
        lemma_held_increment_accumulates(timer, increment, before);
        let earlier = timer.advance_by(increment, before);
        assert(before * step >= 0 && ticks * step == before * step + step) by (nonlinear_arith)
            requires
                ticks == before + 1,
                step >= 0,
        ;
        assert(earlier.residual(increment) == earlier.remaining + step);
        assert(timer.advance_by(increment, ticks) == earlier.advance(increment));
    } else {
        assert(ticks * step == 0) by (nonlinear_arith)
            requires
                ticks == 0,
        ;
    }
}

} // verus!
