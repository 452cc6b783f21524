use space_progression::inventory::ReagentEvent;
use space_progression::markup::{markup_spans, Span};
use space_progression::menu::{
    button_response, handle_menu_input, process_menu_event, ButtonLook, Interaction, MenuEvent,
    MenuOutcome, SettingsMenuEvent, SettingsState, VolumeSettings,
};
use space_progression::collision::{
    player_pickup, projectile_hit, shield_contact, shield_effect, Body, BodyKind, Collectible,
    Pickup, RockDestroyed, ShieldAction, ShieldCollision, ShieldEffect, ShieldEmitter,
};
use space_progression::geometry::{isqrt, saturating_add, scale_to_length, Point};
use space_progression::inventory::{CollectionEvent, Reagent, UNIT};
use space_progression::population::{
    cluster_centre, cluster_object, cluster_radius, cull_far_away, destroy_rock, first_cluster,
    fragments_of,
    spawn_cluster, Cull, ObjectDraw, ObjectKind, PopulationEntry, RockLimit, RockSpawner,
    SpawnEvent, SpawnedKind, CHANCE_OF_MINERAL,
};
use space_progression::progression::{GameState, ProgressStages, Run};
use space_progression::random::{
    direction_candidate, disk_candidate, random_direction, random_in_circle, random_range,
    scatter_in_disk, unit_disk_candidate,
};
use space_progression::sound::SoundEvent;
use space_progression::geometry::Spin;
use space_progression::weapon::{CargoDumper, MainGun, Slug};
use space_progression::heat::Heat;

fn body(entity: u64, kind: BodyKind) -> Body {
    Body { entity, kind, position: Point { x: entity as i64, y: 0 } }
}

#[test]
fn full_cap_rejects_whole_cluster() {
    let mut limit = RockLimit { current: 145, limit: 150 };
    let ev = SpawnEvent {
        number_of_rocks: 10,
        centre_of_region: Point { x: 0, y: 0 },
        chance_of_mineral: CHANCE_OF_MINERAL,
    };
    let spawned = spawn_cluster(&mut limit, &ev);
    assert!(spawned.is_empty());
    assert_eq!(limit.current, 145);
}

#[test]
fn cluster_reserves_its_whole_size() {
    let mut limit = RockLimit::default();
    assert_eq!(limit.limit, 150);
    let ev = first_cluster();
    assert_eq!(ev.number_of_rocks, 50);
    let spawned = spawn_cluster(&mut limit, &ev);
    assert_eq!(spawned.len(), 50);
    assert_eq!(limit.current, 50);
    let r = cluster_radius(50) as i128;
    for o in &spawned {
        let (x, y) = (o.position.x as i128, o.position.y as i128);
        assert!(x * x + y * y < r * r || (x == 0 && y == 0));
        match o.kind {
            SpawnedKind::Rock => {}
            SpawnedKind::Mineral { amount } => assert_eq!(amount, 2 * UNIT),
        }
    }
}

#[test]
fn population_never_exceeds_cap() {
    let mut limit = RockLimit::new(40);
    let requests = [15u32, 20, 10, 25, 5, 1, 30, 3];
    for (i, n) in requests.iter().enumerate() {
        let before = limit.current;
        let accepted = limit.try_reserve(*n);
        assert_eq!(accepted, before + n <= 40);
        assert!(limit.current <= limit.limit);
        if i % 2 == 1 {
            limit.release();
        }
    }
    assert_eq!(limit.current, 37);
    let mut empty = RockLimit::new(5);
    empty.release();
    assert_eq!(empty.current, 0);
}

#[test]
fn cull_at_exact_radius_keeps_object() {
    let cull = Cull::default();
    assert_eq!(cull.max_distance, 75_000);
    let reference = Point { x: 1000, y: -2000 };
    assert!(!cull.should_cull(Point { x: 76_000, y: -2000 }, reference));
    assert!(!cull.should_cull(Point { x: 46_000, y: 58_000 }, reference));
    assert!(cull.should_cull(Point { x: 76_001, y: -2000 }, reference));
    assert!(cull.should_cull(Point { x: 46_001, y: 58_000 }, reference));
    assert!(cull.should_cull(Point { x: i64::MAX, y: i64::MIN }, Point { x: i64::MIN, y: i64::MAX }));
}

#[test]
fn culling_releases_only_rocks() {
    let far = Point { x: 100_000, y: 0 };
    let near = Point { x: 10, y: 0 };
    let objects = vec![
        PopulationEntry { entity: 1, kind: ObjectKind::Rock, position: far, cull: Some(Cull::default()) },
        PopulationEntry { entity: 2, kind: ObjectKind::Rock, position: near, cull: Some(Cull::default()) },
        PopulationEntry { entity: 3, kind: ObjectKind::Collectible, position: far, cull: Some(Cull::default()) },
        PopulationEntry { entity: 4, kind: ObjectKind::Rock, position: far, cull: None },
    ];
    let mut limit = RockLimit { current: 10, limit: 150 };
    let removed = cull_far_away(&objects, Point { x: 0, y: 0 }, &mut limit);
    assert_eq!(removed, vec![1, 3]);
    assert_eq!(limit.current, 9);
}

#[test]
fn cluster_radius_grows_with_count() {
    assert_eq!(cluster_radius(0), 0);
    assert_eq!(cluster_radius(50), 15_957);
    assert_eq!(cluster_radius(1), 2256);
}

#[test]
fn integer_square_roots() {
    assert_eq!(isqrt(0), 0);
    assert_eq!(isqrt(15), 3);
    assert_eq!(isqrt(16), 4);
    assert_eq!(isqrt(u64::MAX), 4_294_967_295);
}

#[test]
fn scaling_and_translation() {
    assert_eq!(scale_to_length(Point { x: 3, y: -4 }, 1000), Point { x: 600, y: -800 });
    assert_eq!(saturating_add(i64::MAX, 5), i64::MAX);
    assert_eq!(saturating_add(-5, 3), -2);
    let c = cluster_centre(Point { x: 100, y: 100 }, Point { x: 0, y: 7 }, 35_000);
    assert_eq!(c, Point { x: 100, y: 35_100 });
}

#[test]
fn cluster_object_from_draw() {
    let draw = ObjectDraw {
        offset: Point { x: 5, y: -5 },
        rotation: Spin { x: 1, y: 2, z: 3 },
        velocity: Point { x: 10, y: 20 },
        angvel: Spin { x: -1, y: -2, z: -3 },
        roll: 50,
    };
    let centre = Point { x: 1000, y: 1000 };
    let mineral = cluster_object(centre, &draw, CHANCE_OF_MINERAL);
    assert_eq!(mineral.kind, SpawnedKind::Mineral { amount: 2 * UNIT });
    assert_eq!(mineral.position, Point { x: 1005, y: 995 });
    let rock = cluster_object(centre, &ObjectDraw { roll: 51, ..draw }, CHANCE_OF_MINERAL);
    assert_eq!(rock.kind, SpawnedKind::Rock);
    assert_eq!(rock.velocity, Point { x: 10, y: 20 });
}

#[test]
fn spawner_asks_for_clusters_on_schedule() {
    let mut spawner = RockSpawner::default();
    let reference = Point { x: 0, y: 0 };
    assert!(spawner.request_clusters(4999, reference).is_empty());
    let evs = spawner.request_clusters(10_001, reference);
    assert_eq!(evs.len(), 3);
    for ev in &evs {
        assert!(15 <= ev.number_of_rocks && ev.number_of_rocks <= 25);
        assert_eq!(ev.chance_of_mineral, 50);
        let (x, y) = (ev.centre_of_region.x as i128, ev.centre_of_region.y as i128);
        let d2 = x * x + y * y;
        assert!(d2 <= 50_100 * 50_100 && d2 >= 34_900 * 34_900);
    }
}

#[test]
fn destroyed_rock_leaves_three_fragments() {
    let at = Point { x: -300, y: 700 };
    let parts = fragments_of(at);
    assert_eq!(parts.len(), 3);
    for p in &parts {
        assert_eq!(p.position, at);
        assert_eq!(p.kind, SpawnedKind::Mineral { amount: UNIT });
        assert_eq!(p.scale, 500);
        let (x, y) = (p.velocity.x as i128, p.velocity.y as i128);
        assert!(x * x + y * y <= 1_000_000 && x * x + y * y >= 998 * 998);
    }
}

#[test]
fn random_draws_stay_in_range() {
    let mut moved = false;
    for _ in 0..200 {
        let v = random_range(-3, 4);
        assert!((-3..=4).contains(&v));
        let d = random_direction();
        assert!(d.x != 0 || d.y != 0);
        assert!(d.x.abs() <= 1000 && d.y.abs() <= 1000);
        let p = scatter_in_disk(1000);
        assert!(p.x * p.x + p.y * p.y < 1_000_000 || (p.x == 0 && p.y == 0));
        if p.x != 0 || p.y != 0 {
            moved = true;
        }
        let q = random_in_circle(500);
        assert!(q.x * q.x + q.y * q.y <= 250_000);
    }
    assert!(moved);
}

#[test]
fn player_picks_up_collectible_either_order() {
    let player = body(1, BodyKind::Player);
    let gem = body(
        2,
        BodyKind::Collectible(Collectible::CollectibleReagent { reagent: Reagent::Minerals, amount: 2 * UNIT }),
    );
    let expected = Some(Pickup {
        collected: Some(CollectionEvent { reagent: Reagent::Minerals, amount: 2 * UNIT }),
        despawn: 2,
    });
    assert_eq!(player_pickup(&player, &gem), expected);
    assert_eq!(player_pickup(&gem, &player), expected);
    let empty = body(3, BodyKind::Collectible(Collectible::Other));
    assert_eq!(player_pickup(&player, &empty), Some(Pickup { collected: None, despawn: 3 }));
    assert_eq!(player_pickup(&player, &body(4, BodyKind::Rock)), None);
}

#[test]
fn projectile_destroys_rock_either_order() {
    let rock = body(7, BodyKind::Rock);
    let slug = body(8, BodyKind::Slug);
    let hit = Some(RockDestroyed { entity: 7, position: Point { x: 7, y: 0 } });
    assert_eq!(projectile_hit(&rock, &slug), hit);
    assert_eq!(projectile_hit(&slug, &rock), hit);
    assert_eq!(projectile_hit(&rock, &body(9, BodyKind::Player)), None);
}

#[test]
fn shield_contacts_and_effects() {
    let shield = body(1, BodyKind::Shield);
    let exotic = body(
        20,
        BodyKind::Collectible(Collectible::CollectibleReagent { reagent: Reagent::Exotic, amount: 3 }),
    );
    let contact = shield_contact(&exotic, &shield).unwrap();
    assert_eq!(
        contact,
        ShieldCollision::Collectible { entity: 20, position: Point { x: 20, y: 0 }, reagent: Reagent::Exotic, amount: 3 }
    );
    assert_eq!(
        shield_effect(&contact, Some(Point { x: 5, y: 5 })),
        ShieldEffect::Transmute {
            despawn: 20,
            position: Point { x: 20, y: 0 },
            amount: 3,
            sound: Some(SoundEvent::ShieldTransmute { relative_pos: Point { x: 15, y: -5 } }),
        }
    );
    let rock = shield_contact(&shield, &body(30, BodyKind::Rock)).unwrap();
    assert_eq!(
        shield_effect(&rock, None),
        ShieldEffect::DestroyRock(RockDestroyed { entity: 30, position: Point { x: 30, y: 0 } })
    );
    let strange = ShieldCollision::Collectible { entity: 4, position: Point { x: 0, y: 0 }, reagent: Reagent::Strange, amount: 1 };
    assert_eq!(shield_effect(&strange, None), ShieldEffect::Nothing);
    let mineral = ShieldCollision::Collectible { entity: 5, position: Point { x: 0, y: 0 }, reagent: Reagent::Minerals, amount: 1 };
    assert_eq!(shield_effect(&mineral, None), ShieldEffect::Despawn(5));
    assert_eq!(shield_contact(&shield, &body(6, BodyKind::Slug)), None);
}

#[test]
fn shield_raise_and_lower() {
    let on = ShieldEmitter { enabled: true };
    let off = ShieldEmitter { enabled: false };
    assert_eq!(on.action(true, false), ShieldAction::Raise);
    assert_eq!(on.action(true, true), ShieldAction::Keep);
    assert_eq!(off.action(true, false), ShieldAction::Keep);
    assert_eq!(off.action(false, true), ShieldAction::Lower);
    assert_eq!(on.action(false, false), ShieldAction::Keep);
}

#[test]
fn main_gun_fires_with_heat_room() {
    let mut gun = MainGun::default();
    let mut heat = Heat::default();
    assert_eq!(gun.try_fire(&mut heat, true), None);
    gun.enabled = true;
    assert_eq!(gun.try_fire(&mut heat, true), None);
    gun.tick(16);
    assert_eq!(gun.try_fire(&mut heat, false), None);
    let shot = gun.try_fire(&mut heat, true).unwrap();
    assert_eq!(shot.time_to_live, 333);
    assert_eq!(heat.current(), 8 * UNIT);
    assert_eq!(gun.try_fire(&mut heat, true), None);
    gun.tick(330);
    assert!(gun.try_fire(&mut heat, true).is_some());
    heat.add(90 * UNIT);
    gun.tick(330);
    assert_eq!(gun.try_fire(&mut heat, true), None);
}

#[test]
fn slug_is_spent_after_its_lifetime() {
    let mut slug = Slug::new(333);
    slug.tick(300);
    assert!(!slug.is_spent());
    slug.tick(33);
    assert!(slug.is_spent());
}

#[test]
fn cargo_dump_splits_exotic_matter() {
    let mut run = Run::new();
    let dumper = CargoDumper { enabled: true };
    run.player.inventory.add(Reagent::Exotic, 3_700_001);
    assert!(dumper.dump(&mut run.player.inventory, false).is_empty());
    let chunks = dumper.dump(&mut run.player.inventory, true);
    assert_eq!(chunks, vec![1_233_335, 1_233_333, 1_233_333]);
    assert_eq!(run.player.inventory.reagent(Reagent::Exotic).current(), 0);
    run.player.inventory.add(Reagent::Exotic, 900_000);
    assert!(dumper.dump(&mut run.player.inventory, true).is_empty());
    assert_eq!(run.player.inventory.reagent(Reagent::Exotic).current(), 900_000);
    let disabled = CargoDumper::default();
    run.player.inventory.add(Reagent::Exotic, 5 * UNIT);
    assert!(disabled.dump(&mut run.player.inventory, true).is_empty());
}

#[test]
fn exploration_ends_at_minerals_target() {
    let mut run = Run::new();
    run.begin();
    assert_eq!(run.stage, ProgressStages::Exploration);
    assert_eq!(run.player.inventory.reagent(Reagent::Minerals).threshold(), Some(900));
    run.player.inventory.add(Reagent::Minerals, 8 * UNIT);
    assert_eq!(run.update_stage(), None);
    assert!(!run.advance());
    run.player.inventory.add(Reagent::Minerals, UNIT);
    assert_eq!(run.update_stage(), Some(ProgressStages::GunAndHeat));
    assert!(run.advance());
    assert_eq!(run.stage, ProgressStages::GunAndHeat);
    let minerals = run.player.inventory.reagent(Reagent::Minerals);
    assert_eq!(minerals.current(), 0);
    assert_eq!(minerals.threshold(), None);
    assert!(run.player.heat.enabled());
    assert!(run.player.main_gun.enabled);
    assert!(run.controls.shoot);
    assert_eq!(run.sounds, vec![SoundEvent::NextStage]);
}

#[test]
fn stages_run_in_order_to_the_end() {
    let mut run = Run::new();
    run.begin();
    run.player.inventory.add(Reagent::Minerals, 9 * UNIT);
    assert!(run.advance());
    run.player.inventory.add(Reagent::Exotic, 1);
    assert!(run.advance());
    assert_eq!(run.stage, ProgressStages::CollectExotic);
    assert!(run.player.heat.threshold_visible());
    assert_eq!(run.player.inventory.reagent(Reagent::Exotic).threshold(), Some(900));
    run.player.inventory.add(Reagent::Exotic, 23 * UNIT);
    assert!(run.advance());
    assert_eq!(run.stage, ProgressStages::ShieldAndStrange);
    assert_eq!(run.player.inventory.reagent(Reagent::Exotic).threshold(), None);
    assert!(run.player.shield_emitter.enabled);
    assert!(run.player.cargo_dumper.enabled);
    assert!(run.controls.dump && run.controls.shield);
    run.player.inventory.add(Reagent::Strange, 45 * UNIT);
    assert!(run.advance());
    assert_eq!(run.stage, ProgressStages::Continuum);
    assert_eq!(run.reactions.reactions.len(), 2);
    assert_eq!(run.player.inventory.reagent(Reagent::Continuum).threshold(), Some(990));
    run.player.inventory.add(Reagent::Continuum, 98 * UNIT);
    assert!(!run.advance());
    run.player.inventory.add(Reagent::Continuum, UNIT);
    assert!(run.advance());
    assert_eq!(run.stage, ProgressStages::End);
    assert!(run.fade_out.is_some());
    assert_eq!(run.sounds.len(), 5);
    run.update_end_stage(4999);
    assert_eq!(run.game_state, GameState::InGame);
    assert_eq!(run.fade_out.unwrap().opacity(), 999);
    run.update_end_stage(1);
    assert_eq!(run.game_state, GameState::Outro);
    assert!(!run.advance());
    run.restart();
    assert_eq!(run.stage, ProgressStages::NotStarted);
    assert!(run.fade_out.is_none());
}

#[test]
fn short_directions_normalise_accurately() {
    assert_eq!(scale_to_length(Point { x: 1, y: 1 }, 1000), Point { x: 707, y: 707 });
    assert_eq!(scale_to_length(Point { x: -1, y: 0 }, 1000), Point { x: -1000, y: 0 });
    assert_eq!(scale_to_length(Point { x: 1000, y: -1000 }, 0), Point { x: 0, y: 0 });
}

#[test]
fn markup_splits_at_stars() {
    let text = "COLLECT *MINERALS* NOW";
    let spans = markup_spans(text.as_bytes());
    assert_eq!(
        spans,
        vec![
            Span { start: 0, end: 8, highlighted: false },
            Span { start: 9, end: 17, highlighted: true },
            Span { start: 18, end: 22, highlighted: false },
        ]
    );
    assert_eq!(&text[spans[1].start..spans[1].end], "MINERALS");
    assert_eq!(markup_spans(b""), vec![Span { start: 0, end: 0, highlighted: false }]);
    assert_eq!(
        markup_spans(b"**"),
        vec![
            Span { start: 0, end: 0, highlighted: false },
            Span { start: 1, end: 1, highlighted: true },
            Span { start: 2, end: 2, highlighted: false },
        ]
    );
}

#[test]
fn menu_screens_follow_each_other() {
    let none = MenuOutcome { next_state: None, reset_stages: false, open_settings: false, exit: false };
    assert_eq!(
        process_menu_event(MenuEvent::Start, GameState::MainMenu),
        MenuOutcome { next_state: Some(GameState::Intro), reset_stages: true, ..none }
    );
    assert_eq!(process_menu_event(MenuEvent::Start, GameState::InGame), none);
    assert_eq!(
        process_menu_event(MenuEvent::Continue, GameState::Outro),
        MenuOutcome { next_state: Some(GameState::EndScreen), ..none }
    );
    assert_eq!(
        process_menu_event(MenuEvent::Continue, GameState::Intro),
        MenuOutcome { next_state: Some(GameState::InGame), ..none }
    );
    assert_eq!(process_menu_event(MenuEvent::Resume, GameState::InGame), none);
    assert_eq!(
        process_menu_event(MenuEvent::Restart, GameState::EndScreen),
        MenuOutcome { next_state: Some(GameState::MainMenu), ..none }
    );
    assert_eq!(process_menu_event(MenuEvent::Exit, GameState::Paused), MenuOutcome { exit: true, ..none });
    assert_eq!(
        process_menu_event(MenuEvent::Settings, GameState::Paused),
        MenuOutcome { open_settings: true, ..none }
    );
    assert_eq!(
        handle_menu_input(GameState::InGame, SettingsState::Closed),
        (GameState::Paused, SettingsState::Closed)
    );
    assert_eq!(
        handle_menu_input(GameState::Paused, SettingsState::InSettings),
        (GameState::Paused, SettingsState::Closed)
    );
    assert_eq!(
        handle_menu_input(GameState::Paused, SettingsState::Closed),
        (GameState::InGame, SettingsState::Closed)
    );
    assert_eq!(
        handle_menu_input(GameState::Intro, SettingsState::Closed),
        (GameState::Intro, SettingsState::Closed)
    );
}

#[test]
fn volume_settings_clamp_and_mute() {
    let mut v = VolumeSettings::default();
    assert_eq!(v.effects_gain(), 1000);
    assert!(!v.process_settings_menu_event(SettingsMenuEvent::SoundEffectVolume { delta: 700 }));
    assert_eq!(v.sound_effects, 1000);
    assert!(!v.process_settings_menu_event(SettingsMenuEvent::MusicVolume { delta: -600 }));
    assert_eq!(v.music, 0);
    assert!(!v.process_settings_menu_event(SettingsMenuEvent::MusicVolume { delta: 100 }));
    assert_eq!(v.music_gain(), 200);
    assert!(!v.process_settings_menu_event(SettingsMenuEvent::ToggleMute));
    assert_eq!(v.effects_gain(), 0);
    assert_eq!(v.music_gain(), 0);
    assert!(v.process_settings_menu_event(SettingsMenuEvent::CloseSettings));
    assert!(v.mute);
}

#[test]
fn button_responds_to_pointer() {
    assert_eq!(
        button_response(Interaction::Clicked, Some(MenuEvent::Start)),
        (ButtonLook::Pressed, Some(MenuEvent::Start), Some(SoundEvent::ButtonClick))
    );
    assert_eq!(
        button_response(Interaction::Hovered, Some(MenuEvent::Start)),
        (ButtonLook::Hover, None, None)
    );
    assert_eq!(button_response::<MenuEvent>(Interaction::Idle, None), (ButtonLook::Base, None, None));
}

#[test]
fn step_runs_reactions_then_collection_then_watch() {
    let mut run = Run::new();
    run.begin();
    run.player.inventory.add(Reagent::Minerals, 8_800_000);
    run.player.heat.add(80 * UNIT);
    let collected = vec![CollectionEvent { reagent: Reagent::Minerals, amount: 200_000 }];
    let events = run.step(400, &collected);
    // 0.2 units react into exotic matter, then the collected 0.2 units bring
    // the minerals back to 8.8: short of the target, so no stage change
    assert_eq!(
        events,
        vec![
            ReagentEvent { reagent: Reagent::Exotic, delta: 200_000 },
            ReagentEvent { reagent: Reagent::Minerals, delta: -200_000 },
            ReagentEvent { reagent: Reagent::Minerals, delta: 200_000 },
        ]
    );
    assert_eq!(run.player.inventory.reagent(Reagent::Minerals).current(), 8_800_000);
    assert_eq!(run.player.inventory.reagent(Reagent::Exotic).current(), 200_000);
    assert!(run.player.inventory.reagent(Reagent::Exotic).visibile());
    assert_eq!(run.stage, ProgressStages::Exploration);
    assert_eq!(run.sounds, vec![SoundEvent::Collected]);
    let more = vec![CollectionEvent { reagent: Reagent::Minerals, amount: 400_000 }];
    run.step(0, &more);
    assert_eq!(run.stage, ProgressStages::GunAndHeat);
    assert_eq!(run.player.inventory.reagent(Reagent::Minerals).current(), 0);
}

#[test]
fn disk_candidates_inside_are_kept() {
    assert_eq!(disk_candidate(3, 4, 5), None);
    assert_eq!(disk_candidate(3, 3, 5), Some(Point { x: 3, y: 3 }));
    assert_eq!(disk_candidate(-5, 0, 5), None);
    assert_eq!(disk_candidate(0, 0, 0), None);
    assert_eq!(disk_candidate(0, -4, 5), Some(Point { x: 0, y: -4 }));
}

#[test]
fn unit_disk_candidates_are_scaled() {
    assert_eq!(unit_disk_candidate(600, -800, 2000), Some(Point { x: 1200, y: -1600 }));
    assert_eq!(unit_disk_candidate(1000, 0, 7), Some(Point { x: 7, y: 0 }));
    assert_eq!(unit_disk_candidate(800, 800, 2000), None);
    assert_eq!(unit_disk_candidate(-333, 0, 10), Some(Point { x: -3, y: 0 }));
}

#[test]
fn direction_candidates_must_be_nonzero() {
    assert_eq!(direction_candidate(0, 0), None);
    assert_eq!(direction_candidate(0, -1), Some(Point { x: 0, y: -1 }));
}

#[test]
fn destroyed_rock_leaves_the_count() {
    let mut limit = RockLimit { current: 12, limit: 150 };
    let at = Point { x: 5, y: 6 };
    let parts = destroy_rock(&mut limit, at);
    assert_eq!(limit.current, 11);
    assert_eq!(parts.len(), 3);
    for p in &parts {
        assert_eq!(p.position, at);
        assert_eq!(p.cull, Some(Cull { max_distance: 75_000 }));
    }
    let mut empty = RockLimit::new(10);
    assert_eq!(destroy_rock(&mut empty, at).len(), 3);
    assert_eq!(empty.current, 0);
}

#[test]
fn spawned_objects_carry_a_cull_radius() {
    let draw = ObjectDraw {
        offset: Point { x: 0, y: 0 },
        rotation: Spin { x: 0, y: 0, z: 0 },
        velocity: Point { x: 0, y: 0 },
        angvel: Spin { x: 0, y: 0, z: 0 },
        roll: 900,
    };
    let o = cluster_object(Point { x: 0, y: 0 }, &draw, CHANCE_OF_MINERAL);
    assert_eq!(o.cull, Some(Cull::default()));
    let mut limit = RockLimit::default();
    for o in spawn_cluster(&mut limit, &first_cluster()) {
        assert_eq!(o.cull, Some(Cull { max_distance: 75_000 }));
    }
}
