use space_progression::heat::Heat;
use space_progression::inventory::{
    CollectionEvent, Inventory, InventoryEntry, Reagent, ReagentEvent, Rgb, UNIT,
};
use space_progression::reaction::{Reaction, Reactions};
use space_progression::sound::SoundEvent;
use space_progression::timer::{Timer, TimerMode};

fn hot_heat() -> Heat {
    let mut heat = Heat::default();
    heat.add(80 * UNIT);
    heat
}

#[test]
fn entry_add_clamps_to_limit() {
    let mut e = InventoryEntry::new(10 * UNIT, true, Rgb { r: 0, g: 0, b: 0 }, "X");
    e.add(9 * UNIT);
    e.add(5 * UNIT);
    assert_eq!(e.current(), 10 * UNIT);
}

#[test]
fn entry_add_clamps_to_zero() {
    let mut e = InventoryEntry::new(10 * UNIT, true, Rgb { r: 0, g: 0, b: 0 }, "X");
    e.add(3 * UNIT);
    e.add(-7 * UNIT);
    assert_eq!(e.current(), 0);
    e.add(i64::MIN);
    assert_eq!(e.current(), 0);
    e.add(i64::MAX);
    assert_eq!(e.current(), 10 * UNIT);
}

#[test]
fn entry_add_within_bounds_is_exact() {
    let mut e = InventoryEntry::new(10 * UNIT, true, Rgb { r: 0, g: 0, b: 0 }, "X");
    e.add(2_500_000);
    e.add(-1_000_000);
    assert_eq!(e.current(), 1_500_000);
}

#[test]
fn entry_fraction_and_threshold() {
    let mut e = InventoryEntry::new(10 * UNIT, true, Rgb { r: 0, g: 0, b: 0 }, "X");
    e.add(8_999_999);
    assert_eq!(e.fraction(), 899);
    assert!(!e.has_reached(900));
    e.add(1);
    assert_eq!(e.fraction(), 900);
    assert!(e.has_reached(900));
    e.set_threshold(Some(900));
    assert_eq!(e.threshold(), Some(900));
}

#[test]
fn default_inventory_pools() {
    let inv = Inventory::default();
    let pools = inv.reagents();
    assert_eq!(pools.len(), 4);
    assert_eq!(pools[0].0, Reagent::Minerals);
    assert_eq!(pools[0].1.limit(), 10 * UNIT);
    assert!(pools[0].1.visibile());
    assert_eq!(pools[1].1.limit(), 25 * UNIT);
    assert!(!pools[1].1.visibile());
    assert_eq!(pools[2].1.limit(), 50 * UNIT);
    assert_eq!(pools[3].1.limit(), 100 * UNIT);
    assert_eq!(pools[3].1.name(), "CONTINUUM");
    assert_eq!(pools[1].1.color(), Rgb { r: 255, g: 0, b: 255 });
}

#[test]
fn reagent_from_index() {
    assert_eq!(Reagent::try_from(0usize), Ok(Reagent::Minerals));
    assert_eq!(Reagent::try_from(2usize), Ok(Reagent::Strange));
    assert_eq!(Reagent::try_from(3usize), Ok(Reagent::Continuum));
    assert_eq!(Reagent::try_from(4usize), Err(()));
    assert_eq!(Reagent::Exotic.index(), 1);
}

#[test]
fn collection_clamps_and_reports_raw_delta() {
    let mut inv = Inventory::default();
    inv.add(Reagent::Minerals, 9 * UNIT);
    let collected = vec![CollectionEvent { reagent: Reagent::Minerals, amount: 5 * UNIT }];
    let mut events = Vec::new();
    let mut sounds = Vec::new();
    inv.handle_collection_events(&collected, &mut events, &mut sounds);
    assert_eq!(inv.reagent(Reagent::Minerals).current(), 10 * UNIT);
    assert_eq!(events, vec![ReagentEvent { reagent: Reagent::Minerals, delta: 5 * UNIT }]);
    assert_eq!(sounds, vec![SoundEvent::Collected]);
}

#[test]
fn gained_pool_becomes_visible() {
    let mut inv = Inventory::default();
    let events = vec![
        ReagentEvent { reagent: Reagent::Strange, delta: -5 },
        ReagentEvent { reagent: Reagent::Exotic, delta: 5 },
    ];
    inv.set_visibility(&events);
    assert!(inv.reagent(Reagent::Exotic).visibile());
    assert!(!inv.reagent(Reagent::Strange).visibile());
    assert!(!inv.reagent(Reagent::Continuum).visibile());
}

#[test]
fn reaction_needs_heat() {
    let rule = Reactions::default().reactions[0];
    let mut inv = Inventory::default();
    inv.add(Reagent::Minerals, 5 * UNIT);
    let heat = Heat::default();
    assert!(!heat.can_react());
    let mut events = Vec::new();
    rule.tick(&mut inv, &heat, 1000, &mut events);
    assert_eq!(inv.reagent(Reagent::Minerals).current(), 5 * UNIT);
    assert_eq!(inv.reagent(Reagent::Exotic).current(), 0);
    assert!(events.is_empty());
}

#[test]
fn reaction_converts_when_hot() {
    let rule = Reactions::default().reactions[0];
    assert_eq!(rule.rate, 500);
    let mut inv = Inventory::default();
    inv.add(Reagent::Minerals, UNIT);
    let heat = hot_heat();
    assert!(heat.can_react());
    let mut events = Vec::new();
    rule.tick(&mut inv, &heat, 1000, &mut events);
    assert_eq!(inv.reagent(Reagent::Minerals).current(), 500_000);
    assert_eq!(inv.reagent(Reagent::Exotic).current(), 500_000);
    assert_eq!(
        events,
        vec![
            ReagentEvent { reagent: Reagent::Exotic, delta: 500_000 },
            ReagentEvent { reagent: Reagent::Minerals, delta: -500_000 },
        ]
    );
}

#[test]
fn heat_threshold_is_strict() {
    let mut heat = Heat::default();
    heat.add(75 * UNIT);
    assert_eq!(heat.fraction(), 750);
    assert!(!heat.can_react());
    heat.add(1);
    assert!(heat.can_react());
}

#[test]
fn one_reagent_rule_takes_at_most_rate_times_dt() {
    let rule = Reaction {
        reagent1: Reagent::Strange,
        reagent2: None,
        needs_heat: false,
        rate: 500,
        result: None,
    };
    let heat = Heat::default();
    let mut inv = Inventory::default();
    inv.add(Reagent::Strange, 5 * UNIT);
    let mut events = Vec::new();
    rule.tick(&mut inv, &heat, 1000, &mut events);
    assert_eq!(inv.reagent(Reagent::Strange).current(), 4_500_000);
    assert_eq!(events, vec![ReagentEvent { reagent: Reagent::Strange, delta: -500_000 }]);
}

#[test]
fn one_reagent_rule_takes_at_most_the_pool() {
    let rule = Reaction {
        reagent1: Reagent::Strange,
        reagent2: None,
        needs_heat: false,
        rate: 500,
        result: None,
    };
    let heat = Heat::default();
    let mut inv = Inventory::default();
    inv.add(Reagent::Strange, 300_000);
    let mut events = Vec::new();
    rule.tick(&mut inv, &heat, 1000, &mut events);
    assert_eq!(inv.reagent(Reagent::Strange).current(), 0);
    assert_eq!(events, vec![ReagentEvent { reagent: Reagent::Strange, delta: -300_000 }]);
}

#[test]
fn full_result_pool_stalls_reaction() {
    let rule = Reactions::default().reactions[0];
    let mut inv = Inventory::default();
    inv.add(Reagent::Minerals, 5 * UNIT);
    inv.add(Reagent::Exotic, 25 * UNIT);
    let heat = hot_heat();
    let mut events = Vec::new();
    rule.tick(&mut inv, &heat, 1000, &mut events);
    assert_eq!(inv.reagent(Reagent::Minerals).current(), 5 * UNIT);
    assert_eq!(inv.reagent(Reagent::Exotic).current(), 25 * UNIT);
    assert_eq!(
        events,
        vec![
            ReagentEvent { reagent: Reagent::Exotic, delta: 0 },
            ReagentEvent { reagent: Reagent::Minerals, delta: 0 },
        ]
    );
}

#[test]
fn result_headroom_limits_amount() {
    let rule = Reactions::default().reactions[0];
    let mut inv = Inventory::default();
    inv.add(Reagent::Minerals, 5 * UNIT);
    inv.add(Reagent::Exotic, 25 * UNIT - 200_000);
    let heat = hot_heat();
    let mut events = Vec::new();
    rule.tick(&mut inv, &heat, 1000, &mut events);
    assert_eq!(inv.reagent(Reagent::Minerals).current(), 4_800_000);
    assert_eq!(inv.reagent(Reagent::Exotic).current(), 25 * UNIT);
}

#[test]
fn two_reagent_rule_and_rule_order() {
    let mut reactions = Reactions::default();
    reactions.push(Reaction {
        reagent1: Reagent::Exotic,
        reagent2: Some(Reagent::Strange),
        needs_heat: true,
        rate: 1000,
        result: Some(Reagent::Continuum),
    });
    let mut inv = Inventory::default();
    inv.add(Reagent::Minerals, 2 * UNIT);
    inv.add(Reagent::Strange, 3 * UNIT);
    let heat = hot_heat();
    let mut events = Vec::new();
    reactions.perform(&mut inv, &heat, 1000, &mut events);
    // the first rule makes half a unit of exotic matter, which the second
    // rule then sees and uses up
    assert_eq!(inv.reagent(Reagent::Minerals).current(), 1_500_000);
    assert_eq!(inv.reagent(Reagent::Exotic).current(), 0);
    assert_eq!(inv.reagent(Reagent::Strange).current(), 2_500_000);
    assert_eq!(inv.reagent(Reagent::Continuum).current(), 500_000);
    assert_eq!(
        events,
        vec![
            ReagentEvent { reagent: Reagent::Exotic, delta: 500_000 },
            ReagentEvent { reagent: Reagent::Minerals, delta: -500_000 },
            ReagentEvent { reagent: Reagent::Continuum, delta: 500_000 },
            ReagentEvent { reagent: Reagent::Exotic, delta: -500_000 },
            ReagentEvent { reagent: Reagent::Strange, delta: -500_000 },
        ]
    );
}

#[test]
fn heat_decays_only_after_delay() {
    let mut heat = Heat::default();
    heat.add(50 * UNIT);
    heat.tick(1500);
    assert_eq!(heat.current(), 50 * UNIT);
    heat.tick(1000);
    assert_eq!(heat.current(), 25 * UNIT);
    heat.tick(10_000);
    assert_eq!(heat.current(), 0);
}

#[test]
fn heat_addition_restarts_delay() {
    let mut heat = Heat::default();
    heat.add(50 * UNIT);
    heat.tick(1400);
    heat.add(10 * UNIT);
    heat.tick(1400);
    assert_eq!(heat.current(), 60 * UNIT);
    heat.add(-10 * UNIT);
    heat.tick(200);
    assert_eq!(heat.current(), 50 * UNIT - 100 * 25_000);
}

#[test]
fn heat_ticks_combine() {
    let mut split = Heat::default();
    split.add(50 * UNIT);
    let mut whole = split;
    split.tick(1000);
    split.tick(1000);
    split.tick(500);
    whole.tick(2500);
    assert_eq!(split.current(), whole.current());
    assert_eq!(whole.current(), 25 * UNIT);
}

#[test]
fn heat_add_clamps() {
    let mut heat = Heat::default();
    heat.add(150 * UNIT);
    assert_eq!(heat.current(), heat.limit());
    assert_eq!(heat.fraction(), 1000);
    heat.add(-200 * UNIT);
    assert_eq!(heat.current(), 0);
}

#[test]
fn once_timer_stops_at_duration() {
    let mut t = Timer::new(1000, TimerMode::Once);
    t.tick(400);
    assert!(!t.finished());
    assert_eq!(t.remaining(), 600);
    t.tick(700);
    assert!(t.finished());
    assert_eq!(t.elapsed(), 1000);
    assert_eq!(t.times_finished_this_tick(), 1);
    t.tick(10);
    assert_eq!(t.times_finished_this_tick(), 0);
    t.reset();
    assert!(!t.finished());
    assert_eq!(t.elapsed(), 0);
}

#[test]
fn repeating_timer_counts_completions() {
    let mut t = Timer::new(5000, TimerMode::Repeating);
    t.tick(4000);
    assert_eq!(t.times_finished_this_tick(), 0);
    t.tick(12_000);
    assert_eq!(t.times_finished_this_tick(), 3);
    assert_eq!(t.elapsed(), 1000);
    assert!(t.finished());
}

#[test]
fn heat_many_small_ticks_match_one_long_tick() {
    let mut split = Heat::default();
    split.add(90 * UNIT);
    let mut whole = split;
    let steps: [u64; 6] = [7, 16, 17, 33, 0, 250];
    let mut total: u64 = 0;
    for i in 0..300 {
        let dt = steps[i % steps.len()];
        split.tick(dt);
        total += dt;
    }
    whole.tick(total);
    assert!(total > 1500);
    assert_eq!(split.current(), whole.current());
    let expected = (90 * UNIT - 25_000 * (total as i64 - 1500)).max(0);
    assert_eq!(whole.current(), expected);
}
