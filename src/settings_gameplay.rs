//! The gameplay settings window: autosave on or off and its interval, the
//! difficulty preset and vehicle breakdowns, changed by clicks.
use vstd::prelude::*;

use crate::gfx::{rect_has, Rect};
use crate::settings_layout::{
    action_button_at, apply_area, cancel_area, close_area, close_rect, row_area, row_rect,
    section_area, section_rect, tab_area, tab_rect,
};

verus! {

/// The identifier of the window.
pub const GAMEPLAY_SETTINGS_WINDOW_ID: u32 = 7400;

/// The widgets of the window.
#[derive(Debug, Clone, Copy, PartialEq, Eq, Structural)]
pub enum GameplaySettingsWidgets {
    Window,
    TabsContainer,
    AudioTab,
    VideoTab,
    GameplayTab,
    AutosaveSectionLabel,
    AutosaveToggle,
    AutosaveFrequency,
    DifficultySectionLabel,
    DifficultyPreset,
    BreakdownToggle,
    ApplyButton,
    CancelButton,
}

impl GameplaySettingsWidgets {
    /// The widget identifier.
    pub fn id(self) -> (r: u32)
        ensures
            r == match self {
                GameplaySettingsWidgets::Window => 7400u32,
                GameplaySettingsWidgets::TabsContainer => 7401,
                GameplaySettingsWidgets::AudioTab => 7402,
                GameplaySettingsWidgets::VideoTab => 7403,
                GameplaySettingsWidgets::GameplayTab => 7404,
                GameplaySettingsWidgets::AutosaveSectionLabel => 7410,
                GameplaySettingsWidgets::AutosaveToggle => 7411,
                GameplaySettingsWidgets::AutosaveFrequency => 7412,
                GameplaySettingsWidgets::DifficultySectionLabel => 7420,
                GameplaySettingsWidgets::DifficultyPreset => 7421,
                GameplaySettingsWidgets::BreakdownToggle => 7422,
                GameplaySettingsWidgets::ApplyButton => 7430,
                GameplaySettingsWidgets::CancelButton => 7431,
            },
    {
        match self {
            GameplaySettingsWidgets::Window => 7400,
            GameplaySettingsWidgets::TabsContainer => 7401,
            GameplaySettingsWidgets::AudioTab => 7402,
            GameplaySettingsWidgets::VideoTab => 7403,
            GameplaySettingsWidgets::GameplayTab => 7404,
            GameplaySettingsWidgets::AutosaveSectionLabel => 7410,
            GameplaySettingsWidgets::AutosaveToggle => 7411,
            GameplaySettingsWidgets::AutosaveFrequency => 7412,
            GameplaySettingsWidgets::DifficultySectionLabel => 7420,
            GameplaySettingsWidgets::DifficultyPreset => 7421,
            GameplaySettingsWidgets::BreakdownToggle => 7422,
            GameplaySettingsWidgets::ApplyButton => 7430,
            GameplaySettingsWidgets::CancelButton => 7431,
        }
    }
}

/// The settings as chosen so far; none is applied yet.
#[derive(Debug, Clone, Copy, PartialEq, Eq, Structural)]
pub struct GameplaySettingsState {
    pub autosave_enabled: bool,
    pub autosave_frequency: u8,
    pub difficulty_index: usize,
    pub breakdowns_enabled: bool,
}

impl Default for GameplaySettingsState {
    fn default() -> (r: Self)
        ensures
            r == (GameplaySettingsState { autosave_enabled: true, autosave_frequency: 10, difficulty_index: 1, breakdowns_enabled: true }),
    {
        GameplaySettingsState { autosave_enabled: true, autosave_frequency: 10, difficulty_index: 1, breakdowns_enabled: true }
    }
}

/// What a click asks the caller to do.
#[derive(Debug, Clone, Copy, PartialEq, Eq, Structural)]
pub enum GameplaySettingsAction {
    Nothing,
    Close,
    OpenAudio,
    OpenVideo,
}

/// The autosave interval after `v` months in the cycle 1, 3, 6, 12, 24; any
/// other value goes back to 1.
pub open spec fn next_frequency_spec(v: u8) -> u8 {
    if v == 1 {
        3
    } else if v == 3 {
        6
    } else if v == 6 {
        12
    } else if v == 12 {
        24
    } else {
        1
    }
}

fn next_frequency(v: u8) -> (r: u8)
    ensures
        r == next_frequency_spec(v),
{
    match v {
        1 => 3,
        3 => 6,
        6 => 12,
        12 => 24,
        _ => 1,
    }
}

/// The name of difficulty preset `index`; `Custom` past the last.
pub open spec fn difficulty_name(index: usize) -> Seq<char> {
    if index == 0 {
        "Easy"@
    } else if index == 1 {
        "Medium"@
    } else if index == 2 {
        "Hard"@
    } else {
        "Custom"@
    }
}

pub fn difficulty_label(index: usize) -> (r: &'static str)
    ensures
        r@ == difficulty_name(index),
{
    proof {
        reveal_strlit("Easy");
        reveal_strlit("Medium");
        reveal_strlit("Hard");
        reveal_strlit("Custom");
    }
    if index == 0 {
        "Easy"
    } else if index == 1 {
        "Medium"
    } else if index == 2 {
        "Hard"
    } else {
        "Custom"
    }
}

/// The row that autosave en is changed by.
pub fn autosave_toggle_rect() -> (r: Rect)
    ensures
        r == row_area(0, 1),
{
    row_rect(section_rect(0), 1)
}

/// The row that autosave freq is changed by.
pub fn autosave_frequency_rect() -> (r: Rect)
    ensures
        r == row_area(0, 2),
{
    row_rect(section_rect(0), 2)
}

/// The row that difficulty  is changed by.
pub fn difficulty_preset_rect() -> (r: Rect)
    ensures
        r == row_area(1, 1),
{
    row_rect(section_rect(1), 1)
}

/// The row that breakdowns en is changed by.
pub fn breakdown_toggle_rect() -> (r: Rect)
    ensures
        r == row_area(1, 2),
{
    row_rect(section_rect(1), 2)
}

/// What a click at `x`, `y` in the window at `rect` does to the settings
/// `s`, and the action it asks for: nothing outside the window; the close
/// box and the Apply and Cancel buttons close it; a tab switches windows;
/// each settings row toggles or cycles its setting.
pub open spec fn click_outcome(s: GameplaySettingsState, x: i32, y: i32, rect: Rect) -> (GameplaySettingsState, Option<GameplaySettingsAction>) {
    if !rect_has(rect, x, y) {
        (s, None)
    } else if rect_has(close_area(rect), x, y) {
        (s, Some(GameplaySettingsAction::Close))
    } else if rect_has(tab_area(0), x, y) {
        (s, Some(GameplaySettingsAction::OpenAudio))
    } else if rect_has(tab_area(1), x, y) {
        (s, Some(GameplaySettingsAction::OpenVideo))
    } else if rect_has(row_area(0, 1), x, y) {
        (GameplaySettingsState { autosave_enabled: !s.autosave_enabled, ..s }, Some(GameplaySettingsAction::Nothing))
    } else if rect_has(row_area(0, 2), x, y) {
        (GameplaySettingsState { autosave_frequency: next_frequency_spec(s.autosave_frequency), ..s }, Some(GameplaySettingsAction::Nothing))
    } else if rect_has(row_area(1, 1), x, y) {
        (GameplaySettingsState { difficulty_index: ((s.difficulty_index + 1) % 4) as usize, ..s }, Some(GameplaySettingsAction::Nothing))
    } else if rect_has(row_area(1, 2), x, y) {
        (GameplaySettingsState { breakdowns_enabled: !s.breakdowns_enabled, ..s }, Some(GameplaySettingsAction::Nothing))
    } else if rect_has(section_area(2), x, y) && (rect_has(apply_area(), x, y) || rect_has(
        cancel_area(),
        x,
        y,
    )) {
        (s, Some(GameplaySettingsAction::Close))
    } else {
        (s, Some(GameplaySettingsAction::Nothing))
    }
}

/// The window and the settings chosen in it.
pub struct GameplaySettingsWindow {
    pub state: GameplaySettingsState,
}

impl GameplaySettingsWindow {
    pub fn new() -> (r: Self)
        ensures
            r.state == (GameplaySettingsState { autosave_enabled: true, autosave_frequency: 10, difficulty_index: 1, breakdowns_enabled: true }),
    {
        GameplaySettingsWindow { state: GameplaySettingsState::default() }
    }

    pub fn autosave_enabled(&self) -> (r: bool)
        ensures
            r == self.state.autosave_enabled,
    {
        self.state.autosave_enabled
    }

    pub fn autosave_frequency(&self) -> (r: u8)
        ensures
            r == self.state.autosave_frequency,
    {
        self.state.autosave_frequency
    }

    pub fn difficulty_index(&self) -> (r: usize)
        ensures
            r == self.state.difficulty_index,
    {
        self.state.difficulty_index
    }

    pub fn breakdowns_enabled(&self) -> (r: bool)
        ensures
            r == self.state.breakdowns_enabled,
    {
        self.state.breakdowns_enabled
    }

    /// Handles a click at `x`, `y` in the window at `rect`.
    pub fn handle_click(&mut self, x: i32, y: i32, rect: Rect) -> (r: Option<GameplaySettingsAction>)
        requires
            i32::MIN + 18 <= rect.x + (rect.width as i32) <= i32::MAX,
            rect.y + 2 <= i32::MAX,
            old(self).state.difficulty_index < 4,
        ensures
            (final(self).state, r) == click_outcome(old(self).state, x, y, rect),
            final(self).state.difficulty_index < 4,
    {
        if !rect.contains_point(x, y) {
            return None;
        }
        let close = close_rect(rect);
        if close.contains_point(x, y) {
            return Some(GameplaySettingsAction::Close);
        }
        if tab_rect(0).contains_point(x, y) {
            return Some(GameplaySettingsAction::OpenAudio);
        }
        if tab_rect(1).contains_point(x, y) {
            return Some(GameplaySettingsAction::OpenVideo);
        }
        if autosave_toggle_rect().contains_point(x, y) {
            self.state.autosave_enabled = !self.state.autosave_enabled;
            return Some(GameplaySettingsAction::Nothing);
        }
        if autosave_frequency_rect().contains_point(x, y) {
            self.state.autosave_frequency = next_frequency(self.state.autosave_frequency);
            return Some(GameplaySettingsAction::Nothing);
        }
        if difficulty_preset_rect().contains_point(x, y) {
            self.state.difficulty_index = (self.state.difficulty_index % 4 + 1) % 4;
            return Some(GameplaySettingsAction::Nothing);
        }
        if breakdown_toggle_rect().contains_point(x, y) {
            self.state.breakdowns_enabled = !self.state.breakdowns_enabled;
            return Some(GameplaySettingsAction::Nothing);
        }
        match action_button_at(x, y) {
            Some(_) => Some(GameplaySettingsAction::Close),
            None => Some(GameplaySettingsAction::Nothing),
        }
    }
}

} // verus!
