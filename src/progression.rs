//! The forward-only sequence of gameplay stages. Each stage sets a target on
//! one pool when it is entered, watches that pool while it is current, and
//! clears the target when it is left; entering a stage can also switch on
//! abilities and add reaction rules.
use vstd::prelude::*;

use crate::collision::ShieldEmitter;
use crate::heat::Heat;
use crate::inventory::{collect_all, lemma_collect_keeps_thresholds, CollectionEvent, Inventory, InventoryEntry, Reagent, ReagentEvent};
use crate::reaction::{apply_rules, lemma_rules_keep_thresholds, rule_events, Reaction, Reactions};
use crate::sound::SoundEvent;
use crate::timer::{Timer, TimerMode};
use crate::weapon::{CargoDumper, MainGun};

verus! {

/// Target fraction, in thousandths, of the pool that ends most stages.
pub const STAGE_THRESHOLD: u32 = 900;

/// Target fraction, in thousandths, of the continuum pool that ends the
/// continuum stage.
pub const CONTINUUM_THRESHOLD: u32 = 990;

/// Length of the fade to black after the last stage, in milliseconds.
pub const FADE_OUT_DURATION: u64 = 5000;

/// The stages of a run, in order.
#[derive(Debug, Clone, Copy, PartialEq, Eq, Structural, Hash)]
pub enum ProgressStages {
    NotStarted,
    Exploration,
    GunAndHeat,
    CollectExotic,
    ShieldAndStrange,
    Continuum,
    End,
}

/// The screens around a run.
#[derive(Debug, Clone, Copy, PartialEq, Eq, Structural, Hash)]
pub enum GameState {
    MainMenu,
    Intro,
    InGame,
    Outro,
    EndScreen,
    Paused,
}

impl ProgressStages {
    pub open spec fn order(self) -> int {
        match self {
            ProgressStages::NotStarted => 0,
            ProgressStages::Exploration => 1,
            ProgressStages::GunAndHeat => 2,
            ProgressStages::CollectExotic => 3,
            ProgressStages::ShieldAndStrange => 4,
            ProgressStages::Continuum => 5,
            ProgressStages::End => 6,
        }
    }

    /// The pool whose target ends this stage, and the target it gets on entry.
    pub open spec fn gate(self) -> Option<(Reagent, u32)> {
        match self {
            ProgressStages::Exploration => Some((Reagent::Minerals, STAGE_THRESHOLD)),
            ProgressStages::CollectExotic => Some((Reagent::Exotic, STAGE_THRESHOLD)),
            ProgressStages::ShieldAndStrange => Some((Reagent::Strange, STAGE_THRESHOLD)),
            ProgressStages::Continuum => Some((Reagent::Continuum, CONTINUUM_THRESHOLD)),
            _ => None,
        }
    }
}

/// Which player controls are switched on.
#[derive(Debug, Clone, Copy, PartialEq, Eq, Structural)]
pub struct EnabledControls {
    pub shoot: bool,
    pub dump: bool,
    pub shield: bool,
}

/// The parts of the player object that the simulation core reads and writes.
#[derive(Debug, Clone, Copy)]
pub struct PlayerState {
    pub inventory: Inventory,
    pub heat: Heat,
    pub main_gun: MainGun,
    pub shield_emitter: ShieldEmitter,
    pub cargo_dumper: CargoDumper,
}

impl PlayerState {
    pub open spec fn wf(&self) -> bool {
        self.inventory.wf() && self.heat.wf() && self.main_gun.wf()
    }

    /// The player with the target of the pool of `r` set to `t`.
    pub open spec fn with_threshold(self, r: Reagent, t: Option<u32>) -> PlayerState {
        PlayerState {
            inventory: self.inventory.with_entry(
                r,
                InventoryEntry { threshold: t, ..self.inventory.entry(r) },
            ),
            ..self
        }
    }
}

impl Default for PlayerState {
    fn default() -> (r: PlayerState)
        ensures
            r.wf(),
            r.inventory == Inventory::default_spec(),
            r.heat == Heat::default_spec(),
            !r.main_gun.enabled,
            !r.shield_emitter.enabled,
            !r.cargo_dumper.enabled,
    {
        PlayerState {
            inventory: Inventory::default(),
            heat: Heat::default(),
            main_gun: MainGun::default(),
            shield_emitter: ShieldEmitter { enabled: false },
            cargo_dumper: CargoDumper { enabled: false },
        }
    }
}

/// The player after entering `stage`.
pub open spec fn player_entered(p: PlayerState, stage: ProgressStages) -> PlayerState {
    match stage {
        ProgressStages::GunAndHeat => PlayerState {
            heat: Heat { enabled: true, ..p.heat },
            main_gun: MainGun { enabled: true, ..p.main_gun },
            ..p
        },
        ProgressStages::ShieldAndStrange => PlayerState {
            shield_emitter: ShieldEmitter { enabled: true },
            cargo_dumper: CargoDumper { enabled: true },
            ..p.with_threshold(Reagent::Strange, Some(STAGE_THRESHOLD))
        },
        _ => match stage.gate() {
            Some((r, t)) => p.with_threshold(r, Some(t)),
            None => p,
        },
    }
}

/// The player after leaving `stage`. Leaving exploration also empties the
/// minerals pool.
pub open spec fn player_exited(p: PlayerState, stage: ProgressStages) -> PlayerState {
    match stage {
        ProgressStages::Exploration => {
            let q = p.with_threshold(Reagent::Minerals, None);
            PlayerState {
                inventory: q.inventory.added(
                    Reagent::Minerals,
                    -q.inventory.current_of(Reagent::Minerals),
                ),
                ..q
            }
        },
        ProgressStages::GunAndHeat => PlayerState {
            heat: Heat { threshold_visible: true, ..p.heat },
            ..p
        },
        _ => match stage.gate() {
            Some((r, t)) => p.with_threshold(r, None),
            None => p,
        },
    }
}

pub open spec fn controls_entered(c: EnabledControls, stage: ProgressStages) -> EnabledControls {
    match stage {
        ProgressStages::GunAndHeat => EnabledControls { shoot: true, ..c },
        ProgressStages::ShieldAndStrange => EnabledControls { dump: true, shield: true, ..c },
        _ => c,
    }
}

/// The rule that entering the continuum stage adds: exotic and strange
/// matter into continuum at one unit per second, while hot enough.
pub open spec fn continuum_rule() -> Reaction {
    Reaction {
        reagent1: Reagent::Exotic,
        reagent2: Some(Reagent::Strange),
        needs_heat: true,
        rate: 1000,
        result: Some(Reagent::Continuum),
    }
}

pub open spec fn rules_entered(stage: ProgressStages) -> Seq<Reaction> {
    if stage == ProgressStages::Continuum {
        seq![continuum_rule()]
    } else {
        seq![]
    }
}

/// Every stage after exploration announces itself with a sound.
pub open spec fn sounds_entered(stage: ProgressStages) -> Seq<SoundEvent> {
    if stage.order() >= 2 {
        seq![SoundEvent::NextStage]
    } else {
        seq![]
    }
}

/// Whether the pool that gates `stage` has its target set, as the stage's
/// watch needs.
pub open spec fn gate_ready(p: PlayerState, stage: ProgressStages) -> bool {
    match stage.gate() {
        Some((r, t)) => p.inventory.entry(r).threshold is Some,
        None => true,
    }
}

/// Leaving a stage clears the target that entering it set, so no target
/// outlives the stage that owns it.
pub proof fn lemma_exit_clears_entry_target(p: PlayerState, stage: ProgressStages)
    requires
        stage.gate() is Some,
    ensures
        player_exited(player_entered(p, stage), stage).inventory.entry(stage.gate().unwrap().0).threshold
            is None,
        player_entered(p, stage).inventory.entry(stage.gate().unwrap().0).threshold
            == Some(stage.gate().unwrap().1),
{
}

/// The stage that the watch of `stage` asks for, if any: the next one, once
/// the gating pool reaches its target (once any exotic matter is held, for
/// the gun-and-heat stage).
pub open spec fn next_stage_spec(p: PlayerState, stage: ProgressStages) -> Option<ProgressStages> {
    match stage {
        ProgressStages::Exploration => if p.inventory.minerals.reached_spec(
            p.inventory.minerals.threshold.unwrap(),
        ) {
            Some(ProgressStages::GunAndHeat)
        } else {
            None
        },
        ProgressStages::GunAndHeat => if p.inventory.exotic.current > 0 {
            Some(ProgressStages::CollectExotic)
        } else {
            None
        },
        ProgressStages::CollectExotic => if p.inventory.exotic.reached_spec(
            p.inventory.exotic.threshold.unwrap(),
        ) {
            Some(ProgressStages::ShieldAndStrange)
        } else {
            None
        },
        ProgressStages::ShieldAndStrange => if p.inventory.strange.reached_spec(
            p.inventory.strange.threshold.unwrap(),
        ) {
            Some(ProgressStages::Continuum)
        } else {
            None
        },
        ProgressStages::Continuum => if p.inventory.continuum.reached_spec(
            p.inventory.continuum.threshold.unwrap(),
        ) {
            Some(ProgressStages::End)
        } else {
            None
        },
        _ => None,
    }
}

/// The pool changes of one simulation step: those of the reaction rules,
/// run against the heat after its tick, then the collected amounts.
pub open spec fn step_events(
    p: PlayerState,
    rules: Seq<Reaction>,
    dt: nat,
    collected: Seq<CollectionEvent>,
) -> Seq<ReagentEvent> {
    let heat = p.heat.after_tick(dt);
    rule_events(rules, p.inventory, heat, dt) + collected.map_values(
        |c: CollectionEvent| ReagentEvent { reagent: c.reagent, delta: c.amount },
    )
}

/// The player after one simulation step, before the stage watch.
pub open spec fn simulated(
    p: PlayerState,
    rules: Seq<Reaction>,
    dt: nat,
    collected: Seq<CollectionEvent>,
) -> PlayerState {
    let heat = p.heat.after_tick(dt);
    let stocked = collect_all(apply_rules(rules, p.inventory, heat, dt), collected);
    PlayerState {
        inventory: stocked.shown(step_events(p, rules, dt, collected)),
        heat,
        main_gun: MainGun { delay_timer: p.main_gun.delay_timer.ticked(dt), ..p.main_gun },
        ..p
    }
}

/// Sets the minerals target of the exploration stage.
pub fn enter_exploration_stage(inventory: &mut Inventory)
    ensures
        *final(inventory) == old(inventory).with_entry(
            Reagent::Minerals,
            InventoryEntry { threshold: Some(STAGE_THRESHOLD), ..old(inventory).minerals },
        ),
{
    inventory.reagent_mut(Reagent::Minerals).set_threshold(Some(STAGE_THRESHOLD));
}

/// Asks for the gun-and-heat stage once the minerals pool reaches its target.
pub fn update_exploration_stage(inventory: &Inventory) -> (r: Option<ProgressStages>)
    requires
        inventory.wf(),
        inventory.minerals.threshold is Some,
    ensures
        r == (if inventory.minerals.reached_spec(inventory.minerals.threshold.unwrap()) {
            Some(ProgressStages::GunAndHeat)
        } else {
            None
        }),
{
    update_gated(inventory, Reagent::Minerals, ProgressStages::GunAndHeat)
}

/// Clears the minerals target and empties the minerals pool.
pub fn exit_exploration_stage(inventory: &mut Inventory)
    requires
        old(inventory).wf(),
    ensures
        final(inventory).wf(),
        final(inventory).minerals == (InventoryEntry {
            threshold: None,
            current: 0,
            ..old(inventory).minerals
        }),
        *final(inventory) == old(inventory).with_entry(
            Reagent::Minerals,
            InventoryEntry { threshold: None, current: 0, ..old(inventory).minerals },
        ),
{
    let entry = inventory.reagent_mut(Reagent::Minerals);
    entry.set_threshold(None);
    let c = entry.current();
    entry.add(-c);
}

/// Asks for `next` once the pool of `r` reaches its target.
fn update_gated(inventory: &Inventory, r: Reagent, next: ProgressStages) -> (n: Option<
    ProgressStages,
>)
    requires
        inventory.wf(),
        inventory.entry(r).threshold is Some,
    ensures
        n == (if inventory.entry(r).reached_spec(inventory.entry(r).threshold.unwrap()) {
            Some(next)
        } else {
            None
        }),
{
    let entry = inventory.reagent(r);
    let t = match entry.threshold() {
        Some(t) => t,
        None => 0,
    };
    if entry.has_reached(t) {
        Some(next)
    } else {
        None
    }
}

/// A fade to black, driven by a one-shot timer.
#[derive(Debug, Clone, Copy)]
pub struct FadeOut {
    pub timer: Timer,
}

impl FadeOut {
    pub open spec fn wf(&self) -> bool {
        self.timer.wf() && self.timer.mode == TimerMode::Once
    }

    pub fn new() -> (r: FadeOut)
        ensures
            r.wf(),
            r.timer == Timer::new_spec(FADE_OUT_DURATION, TimerMode::Once),
    {
        FadeOut { timer: Timer::new(FADE_OUT_DURATION, TimerMode::Once) }
    }

    /// How far the fade has gone, in thousandths (fully dark for a fade of
    /// no length).
    pub fn opacity(&self) -> (r: u32)
        requires
            self.wf(),
        ensures
            self.timer.duration == 0 ==> r == 1000,
            self.timer.duration > 0 ==> r == self.timer.elapsed * 1000 / (self.timer.duration as int),
    {
        if self.timer.duration() == 0 {
            1000
        } else {
            let e: u128 = self.timer.elapsed() as u128;
            let d: u128 = self.timer.duration() as u128;
            proof {
                let (ei, di) = (e as int, d as int);
                assert(ei * 1000 / di <= 1000) by (nonlinear_arith)
                    requires 0 <= ei <= di, di > 0;
            }
            (e * 1000 / d) as u32
        }
    }
}

/// One run of the game: the current stage, the player, the rule list, the
/// switched-on controls, the closing fade, and the sounds raised so far.
#[derive(Debug)]
pub struct Run {
    pub stage: ProgressStages,
    pub game_state: GameState,
    pub player: PlayerState,
    pub reactions: Reactions,
    pub controls: EnabledControls,
    pub fade_out: Option<FadeOut>,
    pub sounds: Vec<SoundEvent>,
}

impl Run {
    pub open spec fn wf(&self) -> bool {
        &&& self.player.wf()
        &&& gate_ready(self.player, self.stage)
        &&& (self.fade_out matches Some(f) ==> f.wf())
    }

    /// A fresh run, before its first stage.
    pub fn new() -> (r: Run)
        ensures
            r.wf(),
            r.stage == ProgressStages::NotStarted,
            r.game_state == GameState::InGame,
            r.player.inventory == Inventory::default_spec(),
            r.player.heat == Heat::default_spec(),
            r.reactions.reactions@ == Reactions::default_spec(),
            r.controls == (EnabledControls { shoot: false, dump: false, shield: false }),
            r.fade_out is None,
            r.sounds@.len() == 0,
    {
        Run {
            stage: ProgressStages::NotStarted,
            game_state: GameState::InGame,
            player: PlayerState::default(),
            reactions: Reactions::default(),
            controls: EnabledControls { shoot: false, dump: false, shield: false },
            fade_out: None,
            sounds: Vec::new(),
        }
    }

    /// Runs the entry of `stage`.
    pub fn enter_stage(&mut self, stage: ProgressStages)
        requires
            old(self).player.wf(),
            old(self).fade_out matches Some(f) ==> f.wf(),
        ensures
            final(self).player.wf(),
            final(self).player == player_entered(old(self).player, stage),
            final(self).controls == controls_entered(old(self).controls, stage),
            final(self).reactions.reactions@ == old(self).reactions.reactions@ + rules_entered(stage),
            final(self).sounds@ == old(self).sounds@ + sounds_entered(stage),
            stage == ProgressStages::End ==> final(self).fade_out == Some(FadeOut { timer: Timer::new_spec(FADE_OUT_DURATION, TimerMode::Once) }),
            stage != ProgressStages::End ==> final(self).fade_out == old(self).fade_out,
            final(self).stage == old(self).stage,
            final(self).game_state == old(self).game_state,
            gate_ready(final(self).player, stage),
    {
        match stage {
            ProgressStages::NotStarted => {},
            ProgressStages::Exploration => {
                enter_exploration_stage(&mut self.player.inventory);
            },
            ProgressStages::GunAndHeat => {
                self.player.heat.set_enabled(true);
                self.player.main_gun.enabled = true;
                self.controls.shoot = true;
                self.sounds.push(SoundEvent::NextStage);
            },
            ProgressStages::CollectExotic => {
                self.player.inventory.reagent_mut(Reagent::Exotic).set_threshold(Some(STAGE_THRESHOLD));
                self.sounds.push(SoundEvent::NextStage);
            },
            ProgressStages::ShieldAndStrange => {
                self.player.inventory.reagent_mut(Reagent::Strange).set_threshold(Some(STAGE_THRESHOLD));
                self.player.shield_emitter.enabled = true;
                self.player.cargo_dumper.enabled = true;
                self.controls.dump = true;
                self.controls.shield = true;
                self.sounds.push(SoundEvent::NextStage);
            },
            ProgressStages::Continuum => {
                self.player.inventory.reagent_mut(Reagent::Continuum).set_threshold(
                    Some(CONTINUUM_THRESHOLD),
                );
                self.reactions.push(
                    Reaction {
                        reagent1: Reagent::Exotic,
                        reagent2: Some(Reagent::Strange),
                        needs_heat: true,
                        rate: 1000,
                        result: Some(Reagent::Continuum),
                    },
                );
                self.sounds.push(SoundEvent::NextStage);
            },
            ProgressStages::End => {
                self.fade_out = Some(FadeOut::new());
                self.sounds.push(SoundEvent::NextStage);
            },
        }
        proof {
            assert(old(self).reactions.reactions@ + seq![] =~= old(self).reactions.reactions@);
            assert(old(self).sounds@ + seq![] =~= old(self).sounds@);
        }
    }

    /// Runs the exit of the current stage.
    pub fn exit_stage(&mut self)
        requires
            old(self).wf(),
        ensures
            final(self).player.wf(),
            final(self).player == player_exited(old(self).player, old(self).stage),
            final(self).stage == old(self).stage,
            final(self).game_state == old(self).game_state,
            final(self).controls == old(self).controls,
            final(self).reactions.reactions@ == old(self).reactions.reactions@,
            final(self).sounds@ == old(self).sounds@,
            old(self).stage == ProgressStages::End ==> final(self).fade_out is None,
            old(self).stage != ProgressStages::End ==> final(self).fade_out == old(self).fade_out,
    {
        match self.stage {
            ProgressStages::Exploration => {
                exit_exploration_stage(&mut self.player.inventory);
            },
            ProgressStages::GunAndHeat => {
                self.player.heat.set_threshold_visible(true);
            },
            ProgressStages::CollectExotic => {
                self.player.inventory.reagent_mut(Reagent::Exotic).set_threshold(None);
            },
            ProgressStages::ShieldAndStrange => {
                self.player.inventory.reagent_mut(Reagent::Strange).set_threshold(None);
            },
            ProgressStages::Continuum => {
                self.player.inventory.reagent_mut(Reagent::Continuum).set_threshold(None);
            },
            ProgressStages::End => {
                self.fade_out = None;
            },
            ProgressStages::NotStarted => {},
        }
    }

    /// The watch of the current stage: the stage it asks to move to, if any.
    /// A request is always for the very next stage.
    pub fn update_stage(&self) -> (r: Option<ProgressStages>)
        requires
            self.wf(),
        ensures
            r == next_stage_spec(self.player, self.stage),
            r matches Some(n) ==> n.order() == self.stage.order() + 1,
    {
        let inv = &self.player.inventory;
        match self.stage {
            ProgressStages::Exploration => update_exploration_stage(inv),
            ProgressStages::GunAndHeat => {
                if inv.reagent(Reagent::Exotic).current() > 0 {
                    Some(ProgressStages::CollectExotic)
                } else {
                    None
                }
            },
            ProgressStages::CollectExotic => update_gated(
                inv,
                Reagent::Exotic,
                ProgressStages::ShieldAndStrange,
            ),
            ProgressStages::ShieldAndStrange => update_gated(
                inv,
                Reagent::Strange,
                ProgressStages::Continuum,
            ),
            ProgressStages::Continuum => update_gated(inv, Reagent::Continuum, ProgressStages::End),
            _ => None,
        }
    }

    /// Leaves the current stage and enters `next`, in that order.
    pub fn transition(&mut self, next: ProgressStages)
        requires
            old(self).wf(),
        ensures
            final(self).wf(),
            final(self).stage == next,
            final(self).game_state == old(self).game_state,
            final(self).player == player_entered(player_exited(old(self).player, old(self).stage), next),
            final(self).controls == controls_entered(old(self).controls, next),
            final(self).reactions.reactions@ == old(self).reactions.reactions@ + rules_entered(next),
            final(self).sounds@ == old(self).sounds@ + sounds_entered(next),
    {
        self.exit_stage();
        self.enter_stage(next);
        self.stage = next;
    }

    /// Starts the first stage of a run.
    pub fn begin(&mut self)
        requires
            old(self).wf(),
            old(self).stage == ProgressStages::NotStarted,
        ensures
            final(self).wf(),
            final(self).stage == ProgressStages::Exploration,
            final(self).player == player_entered(old(self).player, ProgressStages::Exploration),
    {
        self.transition(ProgressStages::Exploration);
    }

    /// Moves on when the current stage's watch asks to: the old stage's exit
    /// and the new stage's entry both run before this returns. Returns whether
    /// the stage changed.
    pub fn advance(&mut self) -> (moved: bool)
        requires
            old(self).wf(),
        ensures
            final(self).wf(),
            moved == next_stage_spec(old(self).player, old(self).stage) is Some,
            moved ==> {
                let next = next_stage_spec(old(self).player, old(self).stage).unwrap();
                &&& final(self).stage == next
                &&& final(self).stage.order() == old(self).stage.order() + 1
                &&& final(self).player == player_entered(player_exited(old(self).player, old(self).stage), next)
                &&& final(self).controls == controls_entered(old(self).controls, next)
                &&& final(self).reactions.reactions@ == old(self).reactions.reactions@ + rules_entered(next)
                &&& final(self).sounds@ == old(self).sounds@ + sounds_entered(next)
            },
            !moved ==> {
                &&& final(self).stage == old(self).stage
                &&& final(self).player == old(self).player
                &&& final(self).reactions.reactions@ == old(self).reactions.reactions@
            },
    {
        match self.update_stage() {
            Some(next) => {
                self.transition(next);
                true
            },
            None => false,
        }
    }

    /// One simulation step of `dt` milliseconds, before the stage watch:
    /// heat decays and the gun's delay runs, then every reaction rule runs in
    /// order against the heat as it now stands, then the collected reagents
    /// arrive, and finally every pool that gained anything is shown. Returns
    /// the pool changes of the step, reactions first.
    pub fn simulate(&mut self, dt: u64, collected: &Vec<CollectionEvent>) -> (events: Vec<ReagentEvent>)
        requires
            old(self).wf(),
        ensures
            final(self).wf(),
            events@ == step_events(old(self).player, old(self).reactions.reactions@, dt as nat, collected@),
            final(self).player == simulated(old(self).player, old(self).reactions.reactions@, dt as nat, collected@),
            final(self).stage == old(self).stage,
            final(self).game_state == old(self).game_state,
            final(self).controls == old(self).controls,
            final(self).fade_out == old(self).fade_out,
            final(self).reactions.reactions@ == old(self).reactions.reactions@,
            final(self).sounds@ == old(self).sounds@ + Seq::new(collected@.len(), |i: int| SoundEvent::Collected),
    {
        let ghost p0 = self.player;
        self.player.heat.tick(dt);
        self.player.main_gun.tick(dt);
        let ghost inv0 = self.player.inventory;
        let ghost heat = self.player.heat;
        let mut events: Vec<ReagentEvent> = Vec::new();
        self.reactions.perform(&mut self.player.inventory, &self.player.heat, dt, &mut events);
        self.player.inventory.handle_collection_events(collected, &mut events, &mut self.sounds);
        self.player.inventory.set_visibility(&events);
        proof {
            let reacted = apply_rules(self.reactions.reactions@, inv0, heat, dt as nat);
            lemma_rules_keep_thresholds(self.reactions.reactions@, inv0, heat, dt as nat);
            lemma_collect_keeps_thresholds(reacted, collected@);
            assert(self.player.inventory.entry(Reagent::Minerals).threshold == inv0.minerals.threshold);
            assert(self.player.inventory.entry(Reagent::Exotic).threshold == inv0.exotic.threshold);
            assert(self.player.inventory.entry(Reagent::Strange).threshold == inv0.strange.threshold);
            assert(self.player.inventory.entry(Reagent::Continuum).threshold == inv0.continuum.threshold);
            assert(events@ =~= step_events(p0, self.reactions.reactions@, dt as nat, collected@));
        }
        events
    }

    /// A full step: `simulate`, then the stage watch, so that the watch sees
    /// this step's changes. Returns the step's pool changes.
    pub fn step(&mut self, dt: u64, collected: &Vec<CollectionEvent>) -> (events: Vec<ReagentEvent>)
        requires
            old(self).wf(),
        ensures
            final(self).wf(),
            events@ == step_events(old(self).player, old(self).reactions.reactions@, dt as nat, collected@),
            ({
                let mid = simulated(old(self).player, old(self).reactions.reactions@, dt as nat, collected@);
                match next_stage_spec(mid, old(self).stage) {
                    Some(next) => {
                        &&& final(self).stage == next
                        &&& final(self).player == player_entered(player_exited(mid, old(self).stage), next)
                        &&& final(self).reactions.reactions@ == old(self).reactions.reactions@ + rules_entered(next)
                    },
                    None => {
                        &&& final(self).stage == old(self).stage
                        &&& final(self).player == mid
                        &&& final(self).reactions.reactions@ == old(self).reactions.reactions@
                    },
                }
            }),
    {
        let events = self.simulate(dt, collected);
        self.advance();
        events
    }

    /// Abandons the run's stages: the current stage is left and the run goes
    /// back to before its first stage.
    pub fn restart(&mut self)
        requires
            old(self).wf(),
        ensures
            final(self).wf(),
            final(self).stage == ProgressStages::NotStarted,
            final(self).player == player_exited(old(self).player, old(self).stage),
    {
        self.exit_stage();
        self.stage = ProgressStages::NotStarted;
    }

    /// While the final stage is current and the game is running, advances the
    /// fade; when it completes, the game moves on to the outro.
    pub fn update_end_stage(&mut self, dt: u64)
        requires
            old(self).wf(),
        ensures
            final(self).wf(),
            final(self).stage == old(self).stage,
            final(self).player == old(self).player,
            (old(self).game_state == GameState::InGame && old(self).fade_out is Some) ==> {
                let f = old(self).fade_out.unwrap().timer.ticked(dt as nat);
                &&& final(self).fade_out == Some(FadeOut { timer: f })
                &&& final(self).game_state == if f.finished {
                    GameState::Outro
                } else {
                    GameState::InGame
                }
            },
            !(old(self).game_state == GameState::InGame && old(self).fade_out is Some) ==> {
                &&& final(self).fade_out == old(self).fade_out
                &&& final(self).game_state == old(self).game_state
            },
    {
        if self.game_state != GameState::InGame {
            return ;
        }
        match &mut self.fade_out {
            Some(f) => {
                f.timer.tick(dt);
                if f.timer.finished() {
                    self.game_state = GameState::Outro;
                }
            },
            None => {},
        }
    }
}

} // verus!
