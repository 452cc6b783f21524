//! The main gun's firing rule, projectile lifetimes, and the cargo dumper.
use vstd::prelude::*;

use crate::heat::Heat;
use crate::inventory::{Inventory, Reagent, UNIT};
use crate::timer::{min_int, Timer, TimerMode};

verus! {

/// The player's main gun. Times are milliseconds, distances milli-units,
/// speeds milli-units per second, `recoil` an impulse in thousandths and
/// `heat_generated` micro-units of heat per shot.
#[derive(Debug, Clone, Copy)]
pub struct MainGun {
    pub enabled: bool,
    pub fire_delay: u64,
    pub delay_timer: Timer,
    pub recoil: i64,
    pub projectile_speed: i64,
    pub max_projectile_distance: i64,
    pub origin_distance: i64,
    pub heat_generated: i64,
}

/// A shot that was fired: its projectile lives `time_to_live` milliseconds.
#[derive(Debug, Clone, Copy, PartialEq, Eq, Structural)]
pub struct Shot {
    pub time_to_live: u64,
}

impl MainGun {
    pub open spec fn wf(&self) -> bool {
        &&& self.delay_timer.wf()
        &&& self.delay_timer.mode == TimerMode::Once
        &&& self.projectile_speed > 0
        &&& 0 <= self.max_projectile_distance
        &&& 0 <= self.heat_generated
    }

    /// Whether a shot goes off: the gun is enabled, the trigger is held, the
    /// delay since the last shot has passed, and the heat has room for the
    /// shot's heat.
    pub open spec fn fires(&self, heat: Heat, trigger_held: bool) -> bool {
        &&& self.enabled
        &&& trigger_held
        &&& self.delay_timer.finished
        &&& heat.limit - heat.current >= self.heat_generated
    }

    /// Milliseconds a projectile takes to cover the gun's range, rounded
    /// down and held within `u64`.
    pub open spec fn time_to_live_spec(&self) -> int {
        min_int(self.max_projectile_distance * 1000 / (self.projectile_speed as int), u64::MAX as int)
    }

    /// Advances the delay between shots.
    pub fn tick(&mut self, dt: u64)
        requires
            old(self).wf(),
        ensures
            final(self).wf(),
            *final(self) == (MainGun {
                delay_timer: old(self).delay_timer.ticked(dt as nat),
                ..*old(self)
            }),
    {
        self.delay_timer.tick(dt);
    }

    /// Fires if it can. A shot adds the gun's heat and restarts the delay at
    /// `fire_delay`; otherwise nothing changes.
    pub fn try_fire(&mut self, heat: &mut Heat, trigger_held: bool) -> (shot: Option<Shot>)
        requires
            old(self).wf(),
            old(heat).wf(),
        ensures
            final(self).wf(),
            final(heat).wf(),
            shot is Some == old(self).fires(*old(heat), trigger_held),
            shot is Some ==> {
                &&& shot.unwrap().time_to_live == old(self).time_to_live_spec()
                &&& *final(heat) == old(heat).added(old(self).heat_generated as int)
                &&& *final(self) == (MainGun {
                    delay_timer: Timer::new_spec(old(self).fire_delay, TimerMode::Once),
                    ..*old(self)
                })
            },
            shot is None ==> *final(self) == *old(self) && *final(heat) == *old(heat),
    {
        if !self.enabled || !trigger_held || !self.delay_timer.finished() {
            return None;
        }
        if heat.limit() - heat.current() < self.heat_generated {
            return None;
        }
        let d: u128 = self.max_projectile_distance as u128;
        let s: u128 = self.projectile_speed as u128;
        proof {
            let (di, si) = (d as int, s as int);
            assert(di * 1000 / si <= di * 1000) by (nonlinear_arith)
                requires 0 <= di, si > 0;
        }
        let t: u128 = d * 1000 / s;
        let time_to_live: u64 = if t > u64::MAX as u128 {
            u64::MAX
        } else {
            t as u64
        };
        heat.add(self.heat_generated);
        self.delay_timer.reset();
        self.delay_timer.set_duration(self.fire_delay);
        Some(Shot { time_to_live })
    }
}

impl Default for MainGun {
    /// Disabled; a third of a second between shots, 45 units per second over
    /// 15 units, eight units of heat per shot.
    fn default() -> (r: MainGun)
        ensures
            r.wf(),
            !r.enabled,
            r.fire_delay == 330,
            r.delay_timer == Timer::new_spec(0, TimerMode::Once),
            r.recoil == 5000,
            r.projectile_speed == 45_000,
            r.max_projectile_distance == 15_000,
            r.origin_distance == 1500,
            r.heat_generated == 8 * UNIT,
    {
        MainGun {
            enabled: false,
            fire_delay: 330,
            delay_timer: Timer::new(0, TimerMode::Once),
            recoil: 5000,
            projectile_speed: 45_000,
            max_projectile_distance: 15_000,
            origin_distance: 1500,
            heat_generated: 8 * UNIT,
        }
    }
}

/// A projectile in flight, spent once its timer runs out.
#[derive(Debug, Clone, Copy)]
pub struct Slug {
    pub timer: Timer,
}

impl Slug {
    pub open spec fn wf(&self) -> bool {
        self.timer.wf() && self.timer.mode == TimerMode::Once
    }

    pub fn new(time_to_live: u64) -> (r: Slug)
        ensures
            r.wf(),
            r.timer == Timer::new_spec(time_to_live, TimerMode::Once),
    {
        Slug { timer: Timer::new(time_to_live, TimerMode::Once) }
    }

    pub fn tick(&mut self, dt: u64)
        requires
            old(self).wf(),
        ensures
            final(self).wf(),
            final(self).timer == old(self).timer.ticked(dt as nat),
    {
        self.timer.tick(dt);
    }

    /// Whether the projectile is to be removed.
    pub fn is_spent(&self) -> (r: bool)
        ensures
            r == self.timer.finished,
    {
        self.timer.finished()
    }
}

/// Throws the exotic matter out of the hold in one-unit chunks.
#[derive(Debug, Clone, Copy, PartialEq, Eq, Structural, Default)]
pub struct CargoDumper {
    pub enabled: bool,
}

/// The chunks that `total` micro-units split into: one per whole unit, equal
/// shares, with the remainder of the division in the first one.
pub open spec fn chunks_spec(total: int) -> Seq<i64> {
    let n = total / (UNIT as int);
    Seq::new(
        n as nat,
        |i: int|
            if i == 0 {
                (total / n + total % n) as i64
            } else {
                (total / n) as i64
            },
    )
}

impl CargoDumper {
    /// When enabled and the button was just pressed, empties the exotic pool
    /// into chunks if it holds at least one whole unit, and returns the amount
    /// of each chunk; otherwise returns nothing and leaves the pool alone.
    pub fn dump(&self, inventory: &mut Inventory, just_pressed: bool) -> (chunks: Vec<i64>)
        requires
            old(inventory).wf(),
        ensures
            final(inventory).wf(),
            ({
                let total = old(inventory).current_of(Reagent::Exotic);
                if self.enabled && just_pressed && total >= UNIT {
                    &&& chunks@ == chunks_spec(total)
                    &&& *final(inventory) == old(inventory).added(Reagent::Exotic, -total)
                } else {
                    &&& chunks@.len() == 0
                    &&& *final(inventory) == *old(inventory)
                }
            }),
    {
        let mut chunks: Vec<i64> = Vec::new();
        if !self.enabled || !just_pressed {
            return chunks;
        }
        let total = inventory.reagent(Reagent::Exotic).current();
        let n = total / UNIT;
        if n <= 0 {
            return chunks;
        }
        inventory.add(Reagent::Exotic, -total);
        let share = total / n;
        let rest = total % n;
        proof {
            let (ti, ni) = (total as int, n as int);
            assert(ti / ni + ti % ni <= ti) by (nonlinear_arith)
                requires ti >= 0, ni >= 1, ni == ti / 1_000_000;
        }
        let mut k: i64 = 0;
        while k < n
            invariant
                0 <= k <= n,
                n == total / UNIT,
                share == total / n,
                rest == total % n,
                share + rest <= total,
                chunks@ == chunks_spec(total as int).take(k as int),
            decreases n - k,
        {
            if k == 0 {
                chunks.push(share + rest);
            } else {
                chunks.push(share);
            }
            proof {
                assert(chunks@ =~= chunks_spec(total as int).take(k as int + 1));
            }
            k = k + 1;
        }
        proof {
            assert(chunks_spec(total as int).take(k as int) =~= chunks_spec(total as int));
        }
        chunks
    }
}

} // verus!
