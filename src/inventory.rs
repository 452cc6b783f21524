//! Reagent pools: one bounded pool per reagent kind, all held by one inventory.
use vstd::prelude::*;

use crate::sound::SoundEvent;

verus! {

/// Number of reagent kinds, and of pools in an inventory.
pub const REAGENT_TYPES: usize = 4;

/// Micro-units in one unit of reagent or heat.
pub const UNIT: i64 = 1_000_000;

/// Fractions are given in thousandths: this is the whole.
pub const PERMILLE: u32 = 1000;

#[derive(Debug, Clone, Copy, PartialEq, Eq, Structural)]
pub enum Reagent {
    Minerals,
    Exotic,
    Strange,
    Continuum,
}

impl Reagent {
    pub open spec fn index_spec(self) -> int {
        match self {
            Reagent::Minerals => 0,
            Reagent::Exotic => 1,
            Reagent::Strange => 2,
            Reagent::Continuum => 3,
        }
    }

    pub open spec fn from_index_spec(i: int) -> Option<Reagent> {
        if i == 0 {
            Some(Reagent::Minerals)
        } else if i == 1 {
            Some(Reagent::Exotic)
        } else if i == 2 {
            Some(Reagent::Strange)
        } else if i == 3 {
            Some(Reagent::Continuum)
        } else {
            None
        }
    }

    /// Position of this kind's pool in an inventory.
    pub fn index(self) -> (r: usize)
        ensures
            r == self.index_spec(),
            r < REAGENT_TYPES,
    {
        match self {
            Reagent::Minerals => 0,
            Reagent::Exotic => 1,
            Reagent::Strange => 2,
            Reagent::Continuum => 3,
        }
    }
}

impl TryFrom<usize> for Reagent {
    type Error = ();

    fn try_from(value: usize) -> (r: Result<Reagent, ()>) {
        match value {
            0 => Ok(Reagent::Minerals),
            1 => Ok(Reagent::Exotic),
            2 => Ok(Reagent::Strange),
            3 => Ok(Reagent::Continuum),
            _ => Err(()),
        }
    }
}

impl vstd::std_specs::convert::TryFromSpecImpl<usize> for Reagent {
    open spec fn obeys_try_from_spec() -> bool {
        true
    }

    open spec fn try_from_spec(v: usize) -> Result<Reagent, ()> {
        match Reagent::from_index_spec(v as int) {
            Some(r) => Ok(r),
            None => Err(()),
        }
    }
}

/// A change of one pool, as seen by the interface and the stage machine.
#[derive(Debug, Clone, Copy, PartialEq, Eq, Structural)]
pub struct ReagentEvent {
    pub reagent: Reagent,
    pub delta: i64,
}

/// A request to add `amount` micro-units to a pool.
#[derive(Debug, Clone, Copy, PartialEq, Eq, Structural)]
pub struct CollectionEvent {
    pub reagent: Reagent,
    pub amount: i64,
}

/// A display colour, one byte per channel.
#[derive(Debug, Clone, Copy, PartialEq, Eq, Structural)]
pub struct Rgb {
    pub r: u8,
    pub g: u8,
    pub b: u8,
}

/// `x` forced into `[lo, hi]`.
pub open spec fn clamp(x: int, lo: int, hi: int) -> int {
    if x < lo {
        lo
    } else if x > hi {
        hi
    } else {
        x
    }
}

/// One reagent pool. `current` and `limit` are micro-units; `threshold`,
/// when set, is a target fraction of `limit` in thousandths.
#[derive(Debug, Clone, Copy)]
pub struct InventoryEntry {
    pub current: i64,
    pub limit: i64,
    pub threshold: Option<u32>,
    pub visible: bool,
    pub color: Rgb,
    pub name: &'static str,
}

impl InventoryEntry {
    pub open spec fn wf(&self) -> bool {
        0 <= self.current <= self.limit && self.limit > 0
    }

    /// The pool after `add(amount)`.
    pub open spec fn added(self, amount: int) -> InventoryEntry {
        InventoryEntry { current: clamp(self.current + amount, 0, self.limit as int) as i64, ..self }
    }

    /// Whether the filled fraction is at least `t` thousandths.
    pub open spec fn reached_spec(&self, t: u32) -> bool {
        self.current * (PERMILLE as int) >= t * self.limit
    }

    /// An empty pool.
    pub fn new(limit: i64, visible: bool, color: Rgb, name: &'static str) -> (r: InventoryEntry)
        requires
            limit > 0,
        ensures
            r.wf(),
            r.current == 0,
            r.limit == limit,
            r.threshold is None,
            r.visible == visible,
            r.color == color,
            r.name == name,
    {
        InventoryEntry { current: 0, limit, threshold: None, visible, color, name }
    }

    pub fn current(&self) -> (r: i64)
        ensures
            r == self.current,
    {
        self.current
    }

    pub fn limit(&self) -> (r: i64)
        ensures
            r == self.limit,
    {
        self.limit
    }

    pub fn threshold(&self) -> (r: Option<u32>)
        ensures
            r == self.threshold,
    {
        self.threshold
    }

    pub fn set_threshold(&mut self, threshold: Option<u32>)
        ensures
            *final(self) == (InventoryEntry { threshold, ..*old(self) }),
    {
        self.threshold = threshold;
    }

    pub fn visibile(&self) -> (r: bool)
        ensures
            r == self.visible,
    {
        self.visible
    }

    pub fn color(&self) -> (r: Rgb)
        ensures
            r == self.color,
    {
        self.color
    }

    pub fn name(&self) -> (r: &'static str)
        ensures
            r == self.name,
    {
        self.name
    }

    /// Filled fraction in thousandths, rounded down.
    pub fn fraction(&self) -> (r: u32)
        requires
            self.wf(),
        ensures
            r == self.current * (PERMILLE as int) / (self.limit as int),
            r <= PERMILLE,
    {
        let c: u128 = self.current as u128;
        let l: u128 = self.limit as u128;
        proof {
            let ci = c as int;
            let li = l as int;
            assert(ci * 1000 / li <= 1000) by (nonlinear_arith)
                requires 0 <= ci <= li, li > 0;
        }
        (c * 1000 / l) as u32
    }

    /// Whether the filled fraction is at least `t` thousandths, compared exactly.
    pub fn has_reached(&self, t: u32) -> (r: bool)
        requires
            self.wf(),
        ensures
            r == self.reached_spec(t),
    {
        let c: u128 = self.current as u128;
        let l: u128 = self.limit as u128;
        proof {
            assert(c * 1000 <= 1000 * 0x8000_0000_0000_0000) by (nonlinear_arith)
                requires c < 0x8000_0000_0000_0000;
            assert(t * l <= 0x1_0000_0000 * 0x8000_0000_0000_0000) by (nonlinear_arith)
                requires t < 0x1_0000_0000, l < 0x8000_0000_0000_0000;
        }
        c * 1000 >= t as u128 * l
    }

    /// Adds `amount` (negative to take away), keeping the pool within `[0, limit]`.
    pub fn add(&mut self, amount: i64)
        requires
            old(self).wf(),
        ensures
            *final(self) == old(self).added(amount as int),
            final(self).wf(),
            0 <= final(self).current <= final(self).limit,
    {
        let sum: i128 = self.current as i128 + amount as i128;
        if sum < 0 {
            self.current = 0;
        } else if sum > self.limit as i128 {
            self.current = self.limit;
        } else {
            self.current = sum as i64;
        }
    }
}

/// The pools of one object, one per reagent kind.
#[derive(Debug, Clone, Copy)]
pub struct Inventory {
    pub minerals: InventoryEntry,
    pub exotic: InventoryEntry,
    pub strange: InventoryEntry,
    pub continuum: InventoryEntry,
}

impl Inventory {
    pub open spec fn wf(&self) -> bool {
        &&& self.minerals.wf()
        &&& self.exotic.wf()
        &&& self.strange.wf()
        &&& self.continuum.wf()
    }

    pub open spec fn entry(&self, r: Reagent) -> InventoryEntry {
        match r {
            Reagent::Minerals => self.minerals,
            Reagent::Exotic => self.exotic,
            Reagent::Strange => self.strange,
            Reagent::Continuum => self.continuum,
        }
    }

    pub open spec fn with_entry(self, r: Reagent, e: InventoryEntry) -> Inventory {
        match r {
            Reagent::Minerals => Inventory { minerals: e, ..self },
            Reagent::Exotic => Inventory { exotic: e, ..self },
            Reagent::Strange => Inventory { strange: e, ..self },
            Reagent::Continuum => Inventory { continuum: e, ..self },
        }
    }

    /// The inventory after adding `amount` to the pool of `r`.
    pub open spec fn added(self, r: Reagent, amount: int) -> Inventory {
        self.with_entry(r, self.entry(r).added(amount))
    }

    /// The inventory with every pool that gains in `events` shown.
    pub open spec fn shown(self, events: Seq<ReagentEvent>) -> Inventory {
        Inventory {
            minerals: InventoryEntry {
                visible: self.minerals.visible || gained(events, Reagent::Minerals),
                ..self.minerals
            },
            exotic: InventoryEntry {
                visible: self.exotic.visible || gained(events, Reagent::Exotic),
                ..self.exotic
            },
            strange: InventoryEntry {
                visible: self.strange.visible || gained(events, Reagent::Strange),
                ..self.strange
            },
            continuum: InventoryEntry {
                visible: self.continuum.visible || gained(events, Reagent::Continuum),
                ..self.continuum
            },
        }
    }

    pub open spec fn current_of(&self, r: Reagent) -> int {
        self.entry(r).current as int
    }

    pub fn reagent(&self, reagent: Reagent) -> (r: &InventoryEntry)
        ensures
            *r == self.entry(reagent),
    {
        match reagent {
            Reagent::Minerals => &self.minerals,
            Reagent::Exotic => &self.exotic,
            Reagent::Strange => &self.strange,
            Reagent::Continuum => &self.continuum,
        }
    }

    pub fn reagent_mut(&mut self, reagent: Reagent) -> (r: &mut InventoryEntry)
        ensures
            *r == old(self).entry(reagent),
            *final(self) == old(self).with_entry(reagent, *final(r)),
    {
        match reagent {
            Reagent::Minerals => &mut self.minerals,
            Reagent::Exotic => &mut self.exotic,
            Reagent::Strange => &mut self.strange,
            Reagent::Continuum => &mut self.continuum,
        }
    }

    /// Every pool with its kind, in kind order.
    pub fn reagents(&self) -> (r: Vec<(Reagent, InventoryEntry)>)
        ensures
            r@.len() == REAGENT_TYPES,
            forall|i: int|
                0 <= i < REAGENT_TYPES ==> {
                    let k = Reagent::from_index_spec(i).unwrap();
                    #[trigger] r@[i] == (k, self.entry(k))
                },
    {
        let r = vec![
            (Reagent::Minerals, self.minerals),
            (Reagent::Exotic, self.exotic),
            (Reagent::Strange, self.strange),
            (Reagent::Continuum, self.continuum),
        ];
        r
    }

    /// Adds `amount` to the pool of `reagent`, clamped to the pool's bounds.
    pub fn add(&mut self, reagent: Reagent, amount: i64)
        requires
            old(self).wf(),
        ensures
            *final(self) == old(self).added(reagent, amount as int),
            final(self).wf(),
    {
        let e = self.reagent_mut(reagent);
        e.add(amount);
    }

    /// Applies collected reagents in order. Each one adds its amount to its pool
    /// and reports the amount as it arrived, before the pool clamps it, together
    /// with a `Collected` sound.
    pub fn handle_collection_events(
        &mut self,
        collected: &Vec<CollectionEvent>,
        reagent_events: &mut Vec<ReagentEvent>,
        sounds: &mut Vec<SoundEvent>,
    )
        requires
            old(self).wf(),
        ensures
            final(self).wf(),
            *final(self) == collect_all(*old(self), collected@),
            final(reagent_events)@ == old(reagent_events)@ + collected@.map_values(
                |c: CollectionEvent| ReagentEvent { reagent: c.reagent, delta: c.amount },
            ),
            final(sounds)@ == old(sounds)@ + Seq::new(collected@.len(), |i: int| SoundEvent::Collected),
    {
        let ghost inv0 = *self;
        let ghost ev0 = reagent_events@;
        let ghost s0 = sounds@;
        let mut i: usize = 0;
        while i < collected.len()
            invariant
                i <= collected@.len(),
                self.wf(),
                *self == collect_all(inv0, collected@.take(i as int)),
                reagent_events@ == ev0 + collected@.take(i as int).map_values(
                    |c: CollectionEvent| ReagentEvent { reagent: c.reagent, delta: c.amount },
                ),
                sounds@ == s0 + Seq::new(i as nat, |j: int| SoundEvent::Collected),
            decreases collected@.len() - i,
        {
            let c = collected[i];
            self.add(c.reagent, c.amount);
            reagent_events.push(ReagentEvent { reagent: c.reagent, delta: c.amount });
            sounds.push(SoundEvent::Collected);
            proof {
                let t = collected@.take(i as int + 1);
                assert(t.drop_last() =~= collected@.take(i as int));
                assert(t.map_values(
                    |c: CollectionEvent| ReagentEvent { reagent: c.reagent, delta: c.amount },
                ) =~= collected@.take(i as int).map_values(
                    |c: CollectionEvent| ReagentEvent { reagent: c.reagent, delta: c.amount },
                ).push(ReagentEvent { reagent: c.reagent, delta: c.amount }));
                assert(Seq::new((i + 1) as nat, |j: int| SoundEvent::Collected) =~= Seq::new(
                    i as nat,
                    |j: int| SoundEvent::Collected,
                ).push(SoundEvent::Collected));
            }
            i = i + 1;
        }
        proof {
            assert(collected@.take(i as int) =~= collected@);
        }
    }

    /// Marks a pool visible once it has gained anything.
    pub fn set_visibility(&mut self, events: &Vec<ReagentEvent>)
        ensures
            *final(self) == old(self).shown(events@),
            forall|r: Reagent|
                #![trigger final(self).entry(r)]
                final(self).entry(r) == (InventoryEntry {
                    visible: old(self).entry(r).visible || gained(events@, r),
                    ..old(self).entry(r)
                }),
    {
        let ghost inv0 = *self;
        let mut i: usize = 0;
        while i < events.len()
            invariant
                i <= events@.len(),
                forall|r: Reagent|
                    #![trigger self.entry(r)]
                    self.entry(r) == (InventoryEntry {
                        visible: inv0.entry(r).visible || gained(events@.take(i as int), r),
                        ..inv0.entry(r)
                    }),
            decreases events@.len() - i,
        {
            let ev = events[i];
            let ghost prev = *self;
            if ev.delta > 0 {
                let e = self.reagent_mut(ev.reagent);
                e.visible = true;
            }
            proof {
                let t = events@.take(i as int + 1);
                assert(t.drop_last() =~= events@.take(i as int));
                assert(t.last() == ev);
                assert forall|r: Reagent| #[trigger]
                    self.entry(r) == (InventoryEntry {
                        visible: inv0.entry(r).visible || gained(t, r),
                        ..inv0.entry(r)
                    }) by {
                    assert(prev.entry(r) == (InventoryEntry {
                        visible: inv0.entry(r).visible || gained(events@.take(i as int), r),
                        ..inv0.entry(r)
                    }));
                }
            }
            i = i + 1;
        }
        proof {
            assert(events@.take(i as int) =~= events@);
            assert(self.entry(Reagent::Minerals) == inv0.shown(events@).minerals);
            assert(self.entry(Reagent::Exotic) == inv0.shown(events@).exotic);
            assert(self.entry(Reagent::Strange) == inv0.shown(events@).strange);
            assert(self.entry(Reagent::Continuum) == inv0.shown(events@).continuum);
        }
    }
}

/// Whether some event in `events` adds a positive amount to the pool of `r`.
pub open spec fn gained(events: Seq<ReagentEvent>, r: Reagent) -> bool
    decreases events.len(),
{
    if events.len() == 0 {
        false
    } else {
        gained(events.drop_last(), r) || (events.last().reagent == r && events.last().delta > 0)
    }
}

/// The inventory after each collected reagent is added in order.
pub open spec fn collect_all(inv: Inventory, collected: Seq<CollectionEvent>) -> Inventory
    decreases collected.len(),
{
    if collected.len() == 0 {
        inv
    } else {
        let last = collected.last();
        collect_all(inv, collected.drop_last()).added(last.reagent, last.amount as int)
    }
}

/// Whether two inventories have the same targets on every pool.
pub open spec fn same_thresholds(a: Inventory, b: Inventory) -> bool {
    &&& a.minerals.threshold == b.minerals.threshold
    &&& a.exotic.threshold == b.exotic.threshold
    &&& a.strange.threshold == b.strange.threshold
    &&& a.continuum.threshold == b.continuum.threshold
}

/// Collecting reagents leaves every target as it was.
pub proof fn lemma_collect_keeps_thresholds(inv: Inventory, collected: Seq<CollectionEvent>)
    ensures
        same_thresholds(collect_all(inv, collected), inv),
    decreases collected.len(),
{
    if collected.len() > 0 {
        lemma_collect_keeps_thresholds(inv, collected.drop_last());
    }
}

impl Inventory {
    /// Empty pools: minerals (10 units, shown), exotic matter (25), strange
    /// matter (50) and continuum (100), the last three hidden.
    pub open spec fn default_spec() -> Inventory {
        Inventory {
            minerals: InventoryEntry {
                current: 0,
                limit: 10_000_000,
                threshold: None,
                visible: true,
                color: Rgb { r: 0, g: 255, b: 255 },
                name: "MINERALS",
            },
            exotic: InventoryEntry {
                current: 0,
                limit: 25_000_000,
                threshold: None,
                visible: false,
                color: Rgb { r: 255, g: 0, b: 255 },
                name: "EXOTIC MATTER",
            },
            strange: InventoryEntry {
                current: 0,
                limit: 50_000_000,
                threshold: None,
                visible: false,
                color: Rgb { r: 0, g: 255, b: 0 },
                name: "STRANGE MATTER",
            },
            continuum: InventoryEntry {
                current: 0,
                limit: 100_000_000,
                threshold: None,
                visible: false,
                color: Rgb { r: 255, g: 230, b: 26 },
                name: "CONTINUUM",
            },
        }
    }
}

impl Default for Inventory {
    fn default() -> (r: Inventory)
        ensures
            r.wf(),
            r == Inventory::default_spec(),
    {
        Inventory {
            minerals: InventoryEntry::new(10 * UNIT, true, Rgb { r: 0, g: 255, b: 255 }, "MINERALS"),
            exotic: InventoryEntry::new(25 * UNIT, false, Rgb { r: 255, g: 0, b: 255 }, "EXOTIC MATTER"),
            strange: InventoryEntry::new(50 * UNIT, false, Rgb { r: 0, g: 255, b: 0 }, "STRANGE MATTER"),
            continuum: InventoryEntry::new(100 * UNIT, false, Rgb { r: 255, g: 230, b: 26 }, "CONTINUUM"),
        }
    }
}

} // verus!
