//! Heat: a bounded accumulator that decays after a quiet delay and gates
//! heat-driven reactions.
use vstd::prelude::*;

use crate::inventory::{clamp, PERMILLE, UNIT};
use crate::timer::{Timer, TimerMode};

verus! {

/// Heat of one object. `current` and `limit` are micro-units,
/// `reaction_threshold` is a fraction of `limit` in thousandths, and
/// `decay_rate` is micro-units lost per millisecond once `decay_timer` has run
/// out.
#[derive(Debug, Clone, Copy)]
pub struct Heat {
    pub enabled: bool,
    pub current: i64,
    pub limit: i64,
    pub reaction_threshold: u32,
    pub threshold_visible: bool,
    pub decay_rate: u64,
    pub decay_timer: Timer,
}

impl Heat {
    pub open spec fn wf(&self) -> bool {
        &&& 0 <= self.current <= self.limit
        &&& self.limit > 0
        &&& self.decay_timer.wf()
        &&& self.decay_timer.mode == TimerMode::Once
    }

    pub open spec fn can_react_spec(&self) -> bool {
        self.current * (PERMILLE as int) > self.reaction_threshold * self.limit
    }

    /// Heat after `add(delta)`: clamped, and a positive delta restarts the delay.
    pub open spec fn added(self, delta: int) -> Heat {
        Heat {
            current: clamp(self.current + delta, 0, self.limit as int) as i64,
            decay_timer: if delta > 0 {
                self.decay_timer.reset_spec()
            } else {
                self.decay_timer
            },
            ..self
        }
    }

    /// Heat after `dt` milliseconds: whatever part of `dt` lies beyond the end
    /// of the delay decays at `decay_rate`.
    pub open spec fn after_tick(self, dt: nat) -> Heat {
        let remaining = self.decay_timer.remaining_spec();
        let timer = self.decay_timer.ticked(dt);
        if dt > remaining {
            Heat {
                current: clamp(
                    self.current - self.decay_rate * (dt - remaining),
                    0,
                    self.limit as int,
                ) as i64,
                decay_timer: timer,
                ..self
            }
        } else {
            Heat { decay_timer: timer, ..self }
        }
    }

    pub fn enabled(&self) -> (r: bool)
        ensures
            r == self.enabled,
    {
        self.enabled
    }

    pub fn set_enabled(&mut self, enabled: bool)
        ensures
            *final(self) == (Heat { enabled, ..*old(self) }),
    {
        self.enabled = enabled;
    }

    pub fn current(&self) -> (r: i64)
        ensures
            r == self.current,
    {
        self.current
    }

    pub fn limit(&self) -> (r: i64)
        ensures
            r == self.limit,
    {
        self.limit
    }

    /// Filled fraction in thousandths, rounded down.
    pub fn fraction(&self) -> (r: u32)
        requires
            self.wf(),
        ensures
            r == self.current * (PERMILLE as int) / (self.limit as int),
            r <= PERMILLE,
    {
        let c: u128 = self.current as u128;
        let l: u128 = self.limit as u128;
        proof {
            let ci = c as int;
            let li = l as int;
            assert(ci * 1000 / li <= 1000) by (nonlinear_arith)
                requires 0 <= ci <= li, li > 0;
        }
        (c * 1000 / l) as u32
    }

    pub fn reaction_threshold(&self) -> (r: u32)
        ensures
            r == self.reaction_threshold,
    {
        self.reaction_threshold
    }

    pub fn threshold_visible(&self) -> (r: bool)
        ensures
            r == self.threshold_visible,
    {
        self.threshold_visible
    }

    pub fn set_threshold_visible(&mut self, visible: bool)
        ensures
            *final(self) == (Heat { threshold_visible: visible, ..*old(self) }),
    {
        self.threshold_visible = visible;
    }

    /// Whether the filled fraction is strictly above the reaction threshold,
    /// compared exactly.
    pub fn can_react(&self) -> (r: bool)
        requires
            self.wf(),
        ensures
            r == self.can_react_spec(),
    {
        let c: u128 = self.current as u128;
        let l: u128 = self.limit as u128;
        let t: u128 = self.reaction_threshold as u128;
        proof {
            assert(c * 1000 <= 1000 * 0x8000_0000_0000_0000) by (nonlinear_arith)
                requires c < 0x8000_0000_0000_0000;
            assert(t * l <= 0x1_0000_0000 * 0x8000_0000_0000_0000) by (nonlinear_arith)
                requires t < 0x1_0000_0000, l < 0x8000_0000_0000_0000;
        }
        c * 1000 > t * l
    }

    /// Adds `delta` micro-units (negative to cool), clamped to `[0, limit]`.
    /// A positive delta restarts the decay delay.
    pub fn add(&mut self, delta: i64)
        requires
            old(self).wf(),
        ensures
            *final(self) == old(self).added(delta as int),
            final(self).wf(),
    {
        let sum: i128 = self.current as i128 + delta as i128;
        if sum < 0 {
            self.current = 0;
        } else if sum > self.limit as i128 {
            self.current = self.limit;
        } else {
            self.current = sum as i64;
        }
        if delta > 0 {
            self.decay_timer.reset();
        }
    }

    /// Advances by `dt` milliseconds.
    pub fn tick(&mut self, dt: u64)
        requires
            old(self).wf(),
        ensures
            *final(self) == old(self).after_tick(dt as nat),
            final(self).wf(),
    {
        let remaining = self.decay_timer.remaining();
        self.decay_timer.tick(dt);
        if dt > remaining {
            let leftover: u64 = dt - remaining;
            let rate: u128 = self.decay_rate as u128;
            let l: u128 = leftover as u128;
            proof {
                assert(rate * l <= 0xffff_ffff_ffff_ffff * 0xffff_ffff_ffff_ffff) by (nonlinear_arith)
                    requires rate <= 0xffff_ffff_ffff_ffff, l <= 0xffff_ffff_ffff_ffff;
            }
            let decrease: u128 = rate * l;
            if decrease >= self.current as u128 {
                self.current = 0;
            } else {
                self.current = (self.current as u128 - decrease) as i64;
            }
        }
    }
}

impl Heat {
    /// Cold and disabled: limit 100 units, reactions above three quarters,
    /// decay of 25 units per second after a 1.5 second delay.
    pub open spec fn default_spec() -> Heat {
        Heat {
            enabled: false,
            current: 0,
            limit: 100_000_000,
            reaction_threshold: 750,
            threshold_visible: true,
            decay_rate: 25_000,
            decay_timer: Timer::new_spec(1500, TimerMode::Once),
        }
    }
}

impl Default for Heat {
    fn default() -> (r: Heat)
        ensures
            r.wf(),
            r == Heat::default_spec(),
    {
        Heat {
            enabled: false,
            current: 0,
            limit: 100 * UNIT,
            reaction_threshold: 750,
            threshold_visible: true,
            decay_rate: 25_000,
            decay_timer: Timer::new(1500, TimerMode::Once),
        }
    }
}

/// Heat after ticking by each step of `dts` in turn.
pub open spec fn after_ticks(h: Heat, dts: Seq<nat>) -> Heat
    decreases dts.len(),
{
    if dts.len() == 0 {
        h
    } else {
        after_ticks(h, dts.drop_last()).after_tick(dts.last())
    }
}

/// Sum of a sequence of durations.
pub open spec fn total(dts: Seq<nat>) -> nat
    decreases dts.len(),
{
    if dts.len() == 0 {
        0
    } else {
        total(dts.drop_last()) + dts.last()
    }
}

/// Two heats that will decay alike: same amount, parameters and delay state.
pub open spec fn decays_alike(a: Heat, b: Heat) -> bool {
    &&& a.current == b.current
    &&& a.limit == b.limit
    &&& a.decay_rate == b.decay_rate
    &&& a.decay_timer.duration == b.decay_timer.duration
    &&& a.decay_timer.elapsed == b.decay_timer.elapsed
    &&& a.decay_timer.mode == b.decay_timer.mode
}

/// Ticking keeps heat well formed.
pub proof fn lemma_after_tick_wf(h: Heat, dt: nat)
    requires
        h.wf(),
    ensures
        h.after_tick(dt).wf(),
{
}

/// Heats that decay alike still do after the same tick.
pub proof fn lemma_after_tick_alike(a: Heat, b: Heat, dt: nat)
    requires
        a.wf(),
        b.wf(),
        decays_alike(a, b),
    ensures
        decays_alike(a.after_tick(dt), b.after_tick(dt)),
{
}

/// Without additions, one tick of `x + y` milliseconds leaves the same heat
/// and the same delay state as a tick of `x` followed by a tick of `y`.
pub proof fn lemma_tick_split(h: Heat, x: nat, y: nat)
    requires
        h.wf(),
    ensures
        decays_alike(h.after_tick(x).after_tick(y), h.after_tick(x + y)),
{
    let d = h.decay_rate as int;
    let r = h.decay_timer.remaining_spec() as int;
    if x > r {
        assert(d * (x - r) + d * y == d * (x + y - r)) by (nonlinear_arith);
        assert(d * y >= 0) by (nonlinear_arith)
            requires d >= 0, y >= 0;
        assert(d * (x - r) >= 0) by (nonlinear_arith)
            requires d >= 0, x - r >= 0;
    } else if x + y > r {
        assert(d * (y - (r - x)) == d * (x + y - r)) by (nonlinear_arith);
    }
}

/// Without additions, ticking through any sequence of steps leaves the same
/// heat as one tick as long as their sum.
pub proof fn lemma_ticks_combine(h: Heat, dts: Seq<nat>)
    requires
        h.wf(),
    ensures
        after_ticks(h, dts).wf(),
        decays_alike(after_ticks(h, dts), h.after_tick(total(dts))),
        after_ticks(h, dts).current == h.after_tick(total(dts)).current,
    decreases dts.len(),
{
    if dts.len() == 0 {
        assert(h.after_tick(0).decay_timer.elapsed == h.decay_timer.elapsed);
    } else {
        let prefix = dts.drop_last();
        let last = dts.last();
        lemma_ticks_combine(h, prefix);
        let p = after_ticks(h, prefix);
        let q = h.after_tick(total(prefix));
        lemma_after_tick_wf(h, total(prefix));
        lemma_after_tick_alike(p, q, last);
        lemma_after_tick_wf(p, last);
        lemma_tick_split(h, total(prefix), last);
    }
}

} // verus!
