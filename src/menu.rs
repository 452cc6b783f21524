//! The menus around a run: which screen follows which, the settings panel,
//! and the sound volumes it edits.
use vstd::prelude::*;

use crate::inventory::clamp;
use crate::progression::GameState;
use crate::sound::SoundEvent;

verus! {

/// What a menu button asks for.
#[derive(Debug, Clone, Copy, PartialEq, Eq, Structural)]
pub enum MenuEvent {
    Start,
    Continue,
    Resume,
    Settings,
    Exit,
    Restart,
}

/// What a settings button asks for. Volume steps are in thousandths.
#[derive(Debug, Clone, Copy, PartialEq, Eq, Structural)]
pub enum SettingsMenuEvent {
    SoundEffectVolume { delta: i32 },
    MusicVolume { delta: i32 },
    ToggleMute,
    CloseSettings,
}

/// Whether the settings panel is open.
#[derive(Debug, Clone, Copy, PartialEq, Eq, Structural, Hash)]
pub enum SettingsState {
    Closed,
    InSettings,
}

/// Volumes in thousandths of full volume, and the mute switch.
#[derive(Debug, Clone, Copy, PartialEq, Eq, Structural)]
pub struct VolumeSettings {
    pub sound_effects: u32,
    pub music: u32,
    pub mute: bool,
}

/// What a menu event leads to: the next screen, whether the stages start
/// over, whether the settings panel opens, and whether the program quits.
#[derive(Debug, Clone, Copy, PartialEq, Eq, Structural)]
pub struct MenuOutcome {
    pub next_state: Option<GameState>,
    pub reset_stages: bool,
    pub open_settings: bool,
    pub exit: bool,
}

pub open spec fn menu_outcome_spec(ev: MenuEvent, current: GameState) -> MenuOutcome {
    let none = MenuOutcome { next_state: None, reset_stages: false, open_settings: false, exit: false };
    match ev {
        MenuEvent::Exit => MenuOutcome { exit: true, ..none },
        MenuEvent::Resume => if current == GameState::Paused {
            MenuOutcome { next_state: Some(GameState::InGame), ..none }
        } else {
            none
        },
        MenuEvent::Settings => MenuOutcome { open_settings: true, ..none },
        MenuEvent::Start => if current == GameState::MainMenu {
            MenuOutcome { next_state: Some(GameState::Intro), reset_stages: true, ..none }
        } else {
            none
        },
        MenuEvent::Continue => if current == GameState::Intro {
            MenuOutcome { next_state: Some(GameState::InGame), ..none }
        } else if current == GameState::Outro {
            MenuOutcome { next_state: Some(GameState::EndScreen), ..none }
        } else {
            none
        },
        MenuEvent::Restart => if current == GameState::EndScreen {
            MenuOutcome { next_state: Some(GameState::MainMenu), ..none }
        } else {
            none
        },
    }
}

/// What a menu event does on the current screen. Events that make no sense
/// there are ignored.
pub fn process_menu_event(ev: MenuEvent, current: GameState) -> (r: MenuOutcome)
    ensures
        r == menu_outcome_spec(ev, current),
{
    let none = MenuOutcome { next_state: None, reset_stages: false, open_settings: false, exit: false };
    match ev {
        MenuEvent::Exit => MenuOutcome { exit: true, ..none },
        MenuEvent::Resume => {
            if current == GameState::Paused {
                MenuOutcome { next_state: Some(GameState::InGame), ..none }
            } else {
                none
            }
        },
        MenuEvent::Settings => MenuOutcome { open_settings: true, ..none },
        MenuEvent::Start => {
            if current == GameState::MainMenu {
                MenuOutcome { next_state: Some(GameState::Intro), reset_stages: true, ..none }
            } else {
                none
            }
        },
        MenuEvent::Continue => {
            if current == GameState::Intro {
                MenuOutcome { next_state: Some(GameState::InGame), ..none }
            } else if current == GameState::Outro {
                MenuOutcome { next_state: Some(GameState::EndScreen), ..none }
            } else {
                none
            }
        },
        MenuEvent::Restart => {
            if current == GameState::EndScreen {
                MenuOutcome { next_state: Some(GameState::MainMenu), ..none }
            } else {
                none
            }
        },
    }
}

/// A volume moved by `delta` thousandths, kept within `[0, 1000]`.
pub open spec fn stepped(v: u32, delta: i32) -> u32 {
    clamp(v + delta, 0, 1000) as u32
}

fn step_volume(v: u32, delta: i32) -> (r: u32)
    ensures
        r == stepped(v, delta),
{
    let s: i64 = v as i64 + delta as i64;
    if s < 0 {
        0
    } else if s > 1000 {
        1000
    } else {
        s as u32
    }
}

impl VolumeSettings {
    /// Applies a settings event. Returns `true` when it closes the panel.
    pub fn process_settings_menu_event(&mut self, ev: SettingsMenuEvent) -> (closed: bool)
        ensures
            closed == (ev == SettingsMenuEvent::CloseSettings),
            *final(self) == match ev {
                SettingsMenuEvent::CloseSettings => *old(self),
                SettingsMenuEvent::ToggleMute => VolumeSettings { mute: !old(self).mute, ..*old(self) },
                SettingsMenuEvent::SoundEffectVolume { delta } => VolumeSettings {
                    sound_effects: stepped(old(self).sound_effects, delta),
                    ..*old(self)
                },
                SettingsMenuEvent::MusicVolume { delta } => VolumeSettings {
                    music: stepped(old(self).music, delta),
                    ..*old(self)
                },
            },
    {
        match ev {
            SettingsMenuEvent::CloseSettings => {
                return true;
            },
            SettingsMenuEvent::ToggleMute => {
                self.mute = !self.mute;
            },
            SettingsMenuEvent::SoundEffectVolume { delta } => {
                self.sound_effects = step_volume(self.sound_effects, delta);
            },
            SettingsMenuEvent::MusicVolume { delta } => {
                self.music = step_volume(self.music, delta);
            },
        }
        false
    }

    /// Playback gain of sound effects, in thousandths: twice the setting,
    /// or silence when muted.
    pub fn effects_gain(&self) -> (r: u64)
        ensures
            r == if self.mute {
                0
            } else {
                2 * self.sound_effects as int
            },
    {
        if self.mute {
            0
        } else {
            2 * self.sound_effects as u64
        }
    }

    /// Playback gain of the music, in thousandths: twice the setting, or
    /// silence when muted.
    pub fn music_gain(&self) -> (r: u64)
        ensures
            r == if self.mute {
                0
            } else {
                2 * self.music as int
            },
    {
        if self.mute {
            0
        } else {
            2 * self.music as u64
        }
    }
}

impl Default for VolumeSettings {
    /// Both volumes at half, sound on.
    fn default() -> (r: VolumeSettings)
        ensures
            r == (VolumeSettings { sound_effects: 500, music: 500, mute: false }),
    {
        VolumeSettings { sound_effects: 500, music: 500, mute: false }
    }
}

/// The menu key: it closes the settings panel if open, and otherwise pauses
/// or resumes a game in progress. Returns the new screen and panel state.
pub fn handle_menu_input(current: GameState, settings: SettingsState) -> (r: (GameState, SettingsState))
    ensures
        settings == SettingsState::InSettings ==> r == (current, SettingsState::Closed),
        settings == SettingsState::Closed ==> r == (
            if current == GameState::InGame {
                GameState::Paused
            } else if current == GameState::Paused {
                GameState::InGame
            } else {
                current
            },
            SettingsState::Closed,
        ),
{
    match settings {
        SettingsState::InSettings => (current, SettingsState::Closed),
        SettingsState::Closed => {
            let next = match current {
                GameState::InGame => GameState::Paused,
                GameState::Paused => GameState::InGame,
                _ => current,
            };
            (next, SettingsState::Closed)
        },
    }
}

/// How a button is being used by the pointer.
#[derive(Debug, Clone, Copy, PartialEq, Eq, Structural)]
pub enum Interaction {
    Clicked,
    Hovered,
    Idle,
}

/// Which of its colours a button shows.
#[derive(Debug, Clone, Copy, PartialEq, Eq, Structural)]
pub enum ButtonLook {
    Pressed,
    Hover,
    Base,
}

/// A button's response to the pointer: its look, and on a click its event
/// (if it has one) and a click sound.
pub fn button_response<E: Copy>(interaction: Interaction, event: Option<E>) -> (r: (
    ButtonLook,
    Option<E>,
    Option<SoundEvent>,
))
    ensures
        interaction == Interaction::Clicked ==> r == (ButtonLook::Pressed, event, Some(SoundEvent::ButtonClick)),
        interaction == Interaction::Hovered ==> r == (ButtonLook::Hover, None::<E>, None::<SoundEvent>),
        interaction == Interaction::Idle ==> r == (ButtonLook::Base, None::<E>, None::<SoundEvent>),
{
    match interaction {
        Interaction::Clicked => (ButtonLook::Pressed, event, Some(SoundEvent::ButtonClick)),
        Interaction::Hovered => (ButtonLook::Hover, None, None),
        Interaction::Idle => (ButtonLook::Base, None, None),
    }
}

} // verus!
