//! The cosmetic animation scalar: a sawtooth that climbs by one tick per
//! frame and falls back to its floor once it passes its ceiling.

use vstd::prelude::*;

verus! {

/// Ticks per unit of the animation scalar: one tick is 0.0002.
pub const TICKS_PER_UNIT: i32 = 5000;

/// The floor of the scalar, -0.5, in ticks.
pub const TICK_MIN: i32 = -2500;

/// The ceiling of the scalar, 0.5, in ticks.
pub const TICK_MAX: i32 = 2500;

/// The value after one advance from `t`: one tick more, or the floor once
/// that would pass the ceiling.
pub open spec fn next_tick(t: int) -> int {
    if t + 1 > TICK_MAX {
        TICK_MIN as int
    } else {
        t + 1
    }
}

/// The value after `n` advances from a fresh scalar.
pub open spec fn ticks_after(n: nat) -> int
    decreases n,
{
    if n == 0 {
        TICK_MIN as int
    } else {
        next_tick(ticks_after((n - 1) as nat))
    }
}

/// The animation scalar, in ticks (see [`TICKS_PER_UNIT`]). It always lies
/// between [`TICK_MIN`] and [`TICK_MAX`].
#[derive(Clone, Copy, Debug, PartialEq, Eq, Structural)]
pub struct Animation {
    tick: i32,
}

impl View for Animation {
    type V = int;

    closed spec fn view(&self) -> int {
        self.tick as int
    }
}

impl Animation {
    #[verifier::type_invariant]
    closed spec fn in_range(&self) -> bool {
        TICK_MIN <= self.tick <= TICK_MAX
    }

    /// A scalar at its floor.
    pub fn new() -> (a: Animation)
        ensures
            a@ == TICK_MIN,
    {
        Animation { tick: TICK_MIN }
    }

    /// The current value, in ticks.
    pub fn ticks(&self) -> (t: i32)
        ensures
            t == self@,
            TICK_MIN <= t <= TICK_MAX,
    {
        proof {
            use_type_invariant(&*self);
        }
        self.tick
    }

    /// Moves the scalar on by one frame and returns its new value.
    pub fn advance(&mut self) -> (t: i32)
        ensures
            final(self)@ == next_tick(old(self)@),
            t == final(self)@,
    {
        proof {
            use_type_invariant(&*self);
        }
        let next: i32 = if self.tick >= TICK_MAX {
            TICK_MIN
        } else {
            self.tick + 1
        };
        *self = Animation { tick: next };
        next
    }
}

/// A fresh scalar climbs one tick per advance, stands exactly at its ceiling
/// after `TICKS_PER_UNIT` advances, and is back at its floor on the advance
/// after that; from there the cycle repeats.
pub proof fn lemma_sawtooth(n: nat)
    ensures
        ticks_after(n) == TICK_MIN + (n % (TICKS_PER_UNIT as nat + 1)) as int,
        n <= TICKS_PER_UNIT ==> ticks_after(n) == TICK_MIN + n,
        ticks_after(TICKS_PER_UNIT as nat) == TICK_MAX,
        ticks_after(TICKS_PER_UNIT as nat + 1) == TICK_MIN,
    decreases n,
{
    if n > 0 {
        lemma_sawtooth((n - 1) as nat);
        let p: int = TICKS_PER_UNIT as int + 1;
        let m: int = ((n - 1) as nat % (p as nat)) as int;
        if m + 1 == p {
            assert((n as int) % p == 0) by {
                vstd::arithmetic::div_mod::lemma_add_mod_noop((n - 1) as int, 1, p);
            }
        } else {
            assert((n as int) % p == m + 1) by {
                vstd::arithmetic::div_mod::lemma_add_mod_noop((n - 1) as int, 1, p);
                vstd::arithmetic::div_mod::lemma_small_mod(1nat, p as nat);
                vstd::arithmetic::div_mod::lemma_small_mod((m + 1) as nat, p as nat);
            }
        }
    }
    assert(ticks_after(TICKS_PER_UNIT as nat) == TICK_MAX) by {
        lemma_sawtooth_prefix(TICKS_PER_UNIT as nat);
    }
}

proof fn lemma_sawtooth_prefix(n: nat)
    requires
        n <= TICKS_PER_UNIT,
    ensures
        ticks_after(n) == TICK_MIN + n,
    decreases n,
{
    if n > 0 {
        lemma_sawtooth_prefix((n - 1) as nat);
    }
}

} // verus!
