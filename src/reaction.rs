//! Reaction rules: rate-limited conversions between the pools of an inventory.
use vstd::prelude::*;

use crate::heat::Heat;
use crate::inventory::{same_thresholds, Inventory, Reagent, ReagentEvent};
use crate::timer::min_int;

verus! {

/// Drains `reagent1` (and `reagent2`, if any) into `result` (if any) at up to
/// `rate` micro-units per millisecond. A rule that needs heat only runs while
/// the heat can react.
#[derive(Debug, Clone, Copy, PartialEq, Eq, Structural)]
pub struct Reaction {
    pub reagent1: Reagent,
    pub reagent2: Option<Reagent>,
    pub needs_heat: bool,
    pub rate: u64,
    pub result: Option<Reagent>,
}

impl Reaction {
    /// Whether the rule runs at all with this heat.
    pub open spec fn runs(self, heat: Heat) -> bool {
        !self.needs_heat || heat.can_react_spec()
    }

    /// The amount converted in one step: bounded by each input pool, by
    /// `dt * rate`, and by the room left in the result pool.
    pub open spec fn amount_spec(self, inv: Inventory, dt: nat) -> int {
        let by_rate = min_int(inv.current_of(self.reagent1), dt * self.rate);
        let by_inputs = match self.reagent2 {
            Some(r2) => min_int(by_rate, inv.current_of(r2)),
            None => by_rate,
        };
        match self.result {
            Some(res) => min_int(by_inputs, inv.entry(res).limit - inv.current_of(res)),
            None => by_inputs,
        }
    }

    /// The inventory after one step: the result pool gains the amount, then
    /// each input pool loses it.
    pub open spec fn apply_spec(self, inv: Inventory, heat: Heat, dt: nat) -> Inventory {
        if !self.runs(heat) {
            inv
        } else {
            let a = self.amount_spec(inv, dt);
            let with_result = match self.result {
                Some(res) => inv.added(res, a),
                None => inv,
            };
            let drained = with_result.added(self.reagent1, -a);
            match self.reagent2 {
                Some(r2) => drained.added(r2, -a),
                None => drained,
            }
        }
    }

    /// The events of one step: result first, then `reagent1`, then `reagent2`.
    pub open spec fn events_spec(self, inv: Inventory, heat: Heat, dt: nat) -> Seq<ReagentEvent> {
        if !self.runs(heat) {
            seq![]
        } else {
            let a = self.amount_spec(inv, dt);
            let gained = match self.result {
                Some(res) => seq![ReagentEvent { reagent: res, delta: a as i64 }],
                None => seq![],
            };
            let first = gained.push(ReagentEvent { reagent: self.reagent1, delta: -a as i64 });
            match self.reagent2 {
                Some(r2) => first.push(ReagentEvent { reagent: r2, delta: -a as i64 }),
                None => first,
            }
        }
    }

    /// Runs the rule for `dt` milliseconds on one inventory, appending one
    /// event per pool touched.
    #[verifier::rlimit(40)]
    pub fn tick(
        &self,
        inventory: &mut Inventory,
        heat: &Heat,
        dt: u64,
        events: &mut Vec<ReagentEvent>,
    )
        requires
            old(inventory).wf(),
            heat.wf(),
        ensures
            final(inventory).wf(),
            *final(inventory) == self.apply_spec(*old(inventory), *heat, dt as nat),
            final(events)@ == old(events)@ + self.events_spec(*old(inventory), *heat, dt as nat),
    {
        if self.needs_heat && !heat.can_react() {
            proof {
                assert(old(events)@ + seq![] =~= old(events)@);
            }
            return ;
        }
        let ghost inv0 = *inventory;
        let ghost ev0 = events@;
        let rate: u128 = self.rate as u128;
        let d: u128 = dt as u128;
        proof {
            assert(d * rate <= 0xffff_ffff_ffff_ffff * 0xffff_ffff_ffff_ffff) by (nonlinear_arith)
                requires rate <= 0xffff_ffff_ffff_ffff, d <= 0xffff_ffff_ffff_ffff;
        }
        let by_rate: u128 = d * rate;
        let c1 = inventory.reagent(self.reagent1).current();
        let mut amount: i64 = if by_rate < c1 as u128 {
            by_rate as i64
        } else {
            c1
        };
        if let Some(r2) = self.reagent2 {
            let c2 = inventory.reagent(r2).current();
            if c2 < amount {
                amount = c2;
            }
        }
        if let Some(res) = self.result {
            let e = inventory.reagent(res);
            let room = e.limit() - e.current();
            if room < amount {
                amount = room;
            }
            assert(amount == self.amount_spec(inv0, dt as nat));
            inventory.add(res, amount);
            events.push(ReagentEvent { reagent: res, delta: amount });
        }
        assert(0 <= amount);
        inventory.add(self.reagent1, -amount);
        events.push(ReagentEvent { reagent: self.reagent1, delta: -amount });
        if let Some(r2) = self.reagent2 {
            inventory.add(r2, -amount);
            events.push(ReagentEvent { reagent: r2, delta: -amount });
        }
        proof {
            assert(events@ =~= ev0 + self.events_spec(inv0, *heat, dt as nat));
        }
    }
}

/// The rule list, evaluated in order every step.
#[derive(Debug)]
pub struct Reactions {
    pub reactions: Vec<Reaction>,
}

/// The inventory after each rule of `rules` has run in order.
pub open spec fn apply_rules(rules: Seq<Reaction>, inv: Inventory, heat: Heat, dt: nat) -> Inventory
    decreases rules.len(),
{
    if rules.len() == 0 {
        inv
    } else {
        rules.last().apply_spec(apply_rules(rules.drop_last(), inv, heat, dt), heat, dt)
    }
}

/// The events of running each rule of `rules` in order.
pub open spec fn rule_events(rules: Seq<Reaction>, inv: Inventory, heat: Heat, dt: nat) -> Seq<
    ReagentEvent,
>
    decreases rules.len(),
{
    if rules.len() == 0 {
        seq![]
    } else {
        rule_events(rules.drop_last(), inv, heat, dt) + rules.last().events_spec(
            apply_rules(rules.drop_last(), inv, heat, dt),
            heat,
            dt,
        )
    }
}

/// Reactions leave every target as it was.
pub proof fn lemma_rules_keep_thresholds(rules: Seq<Reaction>, inv: Inventory, heat: Heat, dt: nat)
    ensures
        same_thresholds(apply_rules(rules, inv, heat, dt), inv),
    decreases rules.len(),
{
    if rules.len() > 0 {
        lemma_rules_keep_thresholds(rules.drop_last(), inv, heat, dt);
    }
}

impl Reactions {
    /// Appends a rule; existing rules are kept as they are.
    pub fn push(&mut self, rule: Reaction)
        ensures
            final(self).reactions@ == old(self).reactions@.push(rule),
    {
        self.reactions.push(rule);
    }

    /// Runs every rule in order against one inventory and heat; each rule
    /// sees the pools as the rules before it left them.
    pub fn perform(
        &self,
        inventory: &mut Inventory,
        heat: &Heat,
        dt: u64,
        events: &mut Vec<ReagentEvent>,
    )
        requires
            old(inventory).wf(),
            heat.wf(),
        ensures
            final(inventory).wf(),
            *final(inventory) == apply_rules(self.reactions@, *old(inventory), *heat, dt as nat),
            final(events)@ == old(events)@ + rule_events(
                self.reactions@,
                *old(inventory),
                *heat,
                dt as nat,
            ),
    {
        let ghost inv0 = *inventory;
        let ghost ev0 = events@;
        let mut i: usize = 0;
        while i < self.reactions.len()
            invariant
                i <= self.reactions@.len(),
                heat.wf(),
                inventory.wf(),
                *inventory == apply_rules(self.reactions@.take(i as int), inv0, *heat, dt as nat),
                events@ == ev0 + rule_events(self.reactions@.take(i as int), inv0, *heat, dt as nat),
            decreases self.reactions@.len() - i,
        {
            let rule = &self.reactions[i];
            rule.tick(inventory, heat, dt, events);
            proof {
                let t = self.reactions@.take(i as int + 1);
                assert(t.drop_last() =~= self.reactions@.take(i as int));
                assert(t.last() == *rule);
                assert(events@ =~= ev0 + rule_events(t, inv0, *heat, dt as nat));
            }
            i = i + 1;
        }
        proof {
            assert(self.reactions@.take(i as int) =~= self.reactions@);
        }
    }
}

impl Reactions {
    /// One rule: minerals into exotic matter at half a unit per second, while
    /// hot enough.
    pub open spec fn default_spec() -> Seq<Reaction> {
        seq![
            Reaction {
                reagent1: Reagent::Minerals,
                reagent2: None,
                needs_heat: true,
                rate: 500,
                result: Some(Reagent::Exotic),
            },
        ]
    }
}

impl Default for Reactions {
    fn default() -> (r: Reactions)
        ensures
            r.reactions@ == Reactions::default_spec(),
    {
        let reactions = vec![
            Reaction {
                reagent1: Reagent::Minerals,
                reagent2: None,
                needs_heat: true,
                rate: 500,
                result: Some(Reagent::Exotic),
            },
        ];
        Reactions { reactions }
    }
}

/// A one-reagent rule without a result takes from its pool no more than
/// `dt * rate` and no more than the pool held, and never adds to it.
pub proof fn lemma_one_reagent_mass_bound(rule: Reaction, inv: Inventory, heat: Heat, dt: nat)
    requires
        inv.wf(),
        rule.reagent2 is None,
        rule.result is None,
    ensures
        ({
            let taken = inv.current_of(rule.reagent1) - rule.apply_spec(inv, heat, dt).current_of(
                rule.reagent1,
            );
            &&& 0 <= taken
            &&& taken <= dt * rule.rate
            &&& taken <= inv.current_of(rule.reagent1)
        }),
{
    assert(dt * rule.rate >= 0) by (nonlinear_arith)
        requires dt >= 0, rule.rate >= 0;
}

/// A rule whose result pool is already full changes no pool.
pub proof fn lemma_full_result_stalls(rule: Reaction, inv: Inventory, heat: Heat, dt: nat)
    requires
        inv.wf(),
        rule.result is Some,
        inv.current_of(rule.result.unwrap()) == inv.entry(rule.result.unwrap()).limit,
    ensures
        rule.apply_spec(inv, heat, dt) == inv,
{
    assert(dt * rule.rate >= 0) by (nonlinear_arith)
        requires dt >= 0, rule.rate >= 0;
    if rule.runs(heat) {
        let a = rule.amount_spec(inv, dt);
        assert(a == 0);
        let res = rule.result.unwrap();
        assert(inv.entry(res).added(0) == inv.entry(res));
        assert(inv.with_entry(res, inv.entry(res)) == inv);
        assert(inv.entry(rule.reagent1).added(0) == inv.entry(rule.reagent1));
        assert(inv.with_entry(rule.reagent1, inv.entry(rule.reagent1)) == inv);
        if rule.reagent2 is Some {
            let r2 = rule.reagent2.unwrap();
            assert(inv.entry(r2).added(0) == inv.entry(r2));
            assert(inv.with_entry(r2, inv.entry(r2)) == inv);
        }
    }
}

} // verus!
