//! The audio settings window: music and sound effects on or off, and their
//! volumes, cycled by clicks.
use vstd::prelude::*;

use crate::gfx::{rect_has, Rect};
use crate::settings_layout::{
    action_button_at, apply_area, cancel_area, close_area, close_rect, row_area, row_rect,
    section_area, section_rect, tab_area, tab_rect,
};

verus! {

/// The identifier of the window.
pub const AUDIO_SETTINGS_WINDOW_ID: u32 = 7200;

/// The widgets of the window.
#[derive(Debug, Clone, Copy, PartialEq, Eq, Structural)]
pub enum AudioSettingsWidgets {
    Window,
    TabsContainer,
    VideoTab,
    AudioTab,
    GameplayTab,
    MusicSectionLabel,
    MusicToggle,
    MusicVolume,
    EffectsSectionLabel,
    EffectsToggle,
    EffectsVolume,
    ApplyButton,
    CancelButton,
}

impl AudioSettingsWidgets {
    /// The widget identifier.
    pub fn id(self) -> (r: u32)
        ensures
            r == match self {
                AudioSettingsWidgets::Window => 7200u32,
                AudioSettingsWidgets::TabsContainer => 7201,
                AudioSettingsWidgets::VideoTab => 7202,
                AudioSettingsWidgets::AudioTab => 7203,
                AudioSettingsWidgets::GameplayTab => 7204,
                AudioSettingsWidgets::MusicSectionLabel => 7210,
                AudioSettingsWidgets::MusicToggle => 7211,
                AudioSettingsWidgets::MusicVolume => 7212,
                AudioSettingsWidgets::EffectsSectionLabel => 7220,
                AudioSettingsWidgets::EffectsToggle => 7221,
                AudioSettingsWidgets::EffectsVolume => 7222,
                AudioSettingsWidgets::ApplyButton => 7230,
                AudioSettingsWidgets::CancelButton => 7231,
            },
    {
        match self {
            AudioSettingsWidgets::Window => 7200,
            AudioSettingsWidgets::TabsContainer => 7201,
            AudioSettingsWidgets::VideoTab => 7202,
            AudioSettingsWidgets::AudioTab => 7203,
            AudioSettingsWidgets::GameplayTab => 7204,
            AudioSettingsWidgets::MusicSectionLabel => 7210,
            AudioSettingsWidgets::MusicToggle => 7211,
            AudioSettingsWidgets::MusicVolume => 7212,
            AudioSettingsWidgets::EffectsSectionLabel => 7220,
            AudioSettingsWidgets::EffectsToggle => 7221,
            AudioSettingsWidgets::EffectsVolume => 7222,
            AudioSettingsWidgets::ApplyButton => 7230,
            AudioSettingsWidgets::CancelButton => 7231,
        }
    }
}

/// The settings as chosen so far; none is applied yet.
#[derive(Debug, Clone, Copy, PartialEq, Eq, Structural)]
pub struct AudioSettingsState {
    pub music_enabled: bool,
    pub sound_enabled: bool,
    pub music_volume: u8,
    pub sound_volume: u8,
}

impl Default for AudioSettingsState {
    fn default() -> (r: Self)
        ensures
            r == (AudioSettingsState { music_enabled: true, sound_enabled: true, music_volume: 80, sound_volume: 70 }),
    {
        AudioSettingsState { music_enabled: true, sound_enabled: true, music_volume: 80, sound_volume: 70 }
    }
}

/// What a click asks the caller to do.
#[derive(Debug, Clone, Copy, PartialEq, Eq, Structural)]
pub enum AudioSettingsAction {
    Nothing,
    Close,
    OpenVideo,
    OpenGameplay,
}

/// The volume after `v` in the cycle 0, 25, 50, 75, 100; any other value
/// goes back to 0.
pub open spec fn next_volume_spec(v: u8) -> u8 {
    if v == 0 {
        25
    } else if v == 25 {
        50
    } else if v == 50 {
        75
    } else if v == 75 {
        100
    } else {
        0
    }
}

fn next_volume(v: u8) -> (r: u8)
    ensures
        r == next_volume_spec(v),
{
    match v {
        0 => 25,
        25 => 50,
        50 => 75,
        75 => 100,
        _ => 0,
    }
}

/// The row that music en is changed by.
pub fn music_toggle_rect() -> (r: Rect)
    ensures
        r == row_area(0, 1),
{
    row_rect(section_rect(0), 1)
}

/// The row that music v is changed by.
pub fn music_volume_rect() -> (r: Rect)
    ensures
        r == row_area(0, 2),
{
    row_rect(section_rect(0), 2)
}

/// The row that sound en is changed by.
pub fn effects_toggle_rect() -> (r: Rect)
    ensures
        r == row_area(1, 1),
{
    row_rect(section_rect(1), 1)
}

/// The row that sound v is changed by.
pub fn effects_volume_rect() -> (r: Rect)
    ensures
        r == row_area(1, 2),
{
    row_rect(section_rect(1), 2)
}

/// What a click at `x`, `y` in the window at `rect` does to the settings
/// `s`, and the action it asks for: nothing outside the window; the close
/// box and the Apply and Cancel buttons close it; a tab switches windows;
/// each settings row toggles or cycles its setting.
pub open spec fn click_outcome(s: AudioSettingsState, x: i32, y: i32, rect: Rect) -> (AudioSettingsState, Option<AudioSettingsAction>) {
    if !rect_has(rect, x, y) {
        (s, None)
    } else if rect_has(close_area(rect), x, y) {
        (s, Some(AudioSettingsAction::Close))
    } else if rect_has(tab_area(1), x, y) {
        (s, Some(AudioSettingsAction::OpenVideo))
    } else if rect_has(tab_area(2), x, y) {
        (s, Some(AudioSettingsAction::OpenGameplay))
    } else if rect_has(row_area(0, 1), x, y) {
        (AudioSettingsState { music_enabled: !s.music_enabled, ..s }, Some(AudioSettingsAction::Nothing))
    } else if rect_has(row_area(0, 2), x, y) {
        (AudioSettingsState { music_volume: next_volume_spec(s.music_volume), ..s }, Some(AudioSettingsAction::Nothing))
    } else if rect_has(row_area(1, 1), x, y) {
        (AudioSettingsState { sound_enabled: !s.sound_enabled, ..s }, Some(AudioSettingsAction::Nothing))
    } else if rect_has(row_area(1, 2), x, y) {
        (AudioSettingsState { sound_volume: next_volume_spec(s.sound_volume), ..s }, Some(AudioSettingsAction::Nothing))
    } else if rect_has(section_area(2), x, y) && (rect_has(apply_area(), x, y) || rect_has(
        cancel_area(),
        x,
        y,
    )) {
        (s, Some(AudioSettingsAction::Close))
    } else {
        (s, Some(AudioSettingsAction::Nothing))
    }
}

/// The window and the settings chosen in it.
pub struct AudioSettingsWindow {
    pub state: AudioSettingsState,
}

impl AudioSettingsWindow {
    pub fn new() -> (r: Self)
        ensures
            r.state == (AudioSettingsState { music_enabled: true, sound_enabled: true, music_volume: 80, sound_volume: 70 }),
    {
        AudioSettingsWindow { state: AudioSettingsState::default() }
    }

    pub fn music_enabled(&self) -> (r: bool)
        ensures
            r == self.state.music_enabled,
    {
        self.state.music_enabled
    }

    pub fn sound_enabled(&self) -> (r: bool)
        ensures
            r == self.state.sound_enabled,
    {
        self.state.sound_enabled
    }

    pub fn music_volume(&self) -> (r: u8)
        ensures
            r == self.state.music_volume,
    {
        self.state.music_volume
    }

    pub fn sound_volume(&self) -> (r: u8)
        ensures
            r == self.state.sound_volume,
    {
        self.state.sound_volume
    }

    /// Handles a click at `x`, `y` in the window at `rect`.
    pub fn handle_click(&mut self, x: i32, y: i32, rect: Rect) -> (r: Option<AudioSettingsAction>)
        requires
            i32::MIN + 18 <= rect.x + (rect.width as i32) <= i32::MAX,
            rect.y + 2 <= i32::MAX,
        ensures
            (final(self).state, r) == click_outcome(old(self).state, x, y, rect),
    {
        if !rect.contains_point(x, y) {
            return None;
        }
        let close = close_rect(rect);
        if close.contains_point(x, y) {
            return Some(AudioSettingsAction::Close);
        }
        if tab_rect(1).contains_point(x, y) {
            return Some(AudioSettingsAction::OpenVideo);
        }
        if tab_rect(2).contains_point(x, y) {
            return Some(AudioSettingsAction::OpenGameplay);
        }
        if music_toggle_rect().contains_point(x, y) {
            self.state.music_enabled = !self.state.music_enabled;
            return Some(AudioSettingsAction::Nothing);
        }
        if music_volume_rect().contains_point(x, y) {
            self.state.music_volume = next_volume(self.state.music_volume);
            return Some(AudioSettingsAction::Nothing);
        }
        if effects_toggle_rect().contains_point(x, y) {
            self.state.sound_enabled = !self.state.sound_enabled;
            return Some(AudioSettingsAction::Nothing);
        }
        if effects_volume_rect().contains_point(x, y) {
            self.state.sound_volume = next_volume(self.state.sound_volume);
            return Some(AudioSettingsAction::Nothing);
        }
        match action_button_at(x, y) {
            Some(_) => Some(AudioSettingsAction::Close),
            None => Some(AudioSettingsAction::Nothing),
        }
    }
}

} // verus!
