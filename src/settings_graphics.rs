//! The graphics settings window: resolution, interface scale, font and
//! base graphics picked from lists, fullscreen and vsync toggled.
use vstd::prelude::*;

use crate::gfx::{rect_has, Rect};

verus! {

/// The identifier of the window.
pub const GRAPHICS_SETTINGS_WINDOW_ID: u32 = 7000;

/// The widgets of the window.
#[derive(Debug, Clone, Copy, PartialEq, Eq, Structural)]
pub enum GraphicsSettingsWidgets {
    Window,
    Panel,
    DisplaySectionLabel,
    ResolutionDropdown,
    FullscreenToggle,
    VsyncToggle,
    InterfaceSectionLabel,
    GuiScaleDropdown,
    FontDropdown,
    GraphicsSectionLabel,
    BaseGraphicsDropdown,
    ApplyButton,
    CancelButton,
}

impl GraphicsSettingsWidgets {
    /// The widget identifier.
    pub fn id(self) -> (r: u32)
        ensures
            r == match self {
                GraphicsSettingsWidgets::Window => 7000u32,
                GraphicsSettingsWidgets::Panel => 7001,
                GraphicsSettingsWidgets::DisplaySectionLabel => 7010,
                GraphicsSettingsWidgets::ResolutionDropdown => 7011,
                GraphicsSettingsWidgets::FullscreenToggle => 7012,
                GraphicsSettingsWidgets::VsyncToggle => 7013,
                GraphicsSettingsWidgets::InterfaceSectionLabel => 7020,
                GraphicsSettingsWidgets::GuiScaleDropdown => 7021,
                GraphicsSettingsWidgets::FontDropdown => 7022,
                GraphicsSettingsWidgets::GraphicsSectionLabel => 7030,
                GraphicsSettingsWidgets::BaseGraphicsDropdown => 7031,
                GraphicsSettingsWidgets::ApplyButton => 7040,
                GraphicsSettingsWidgets::CancelButton => 7041,
            },
    {
        match self {
            GraphicsSettingsWidgets::Window => 7000,
            GraphicsSettingsWidgets::Panel => 7001,
            GraphicsSettingsWidgets::DisplaySectionLabel => 7010,
            GraphicsSettingsWidgets::ResolutionDropdown => 7011,
            GraphicsSettingsWidgets::FullscreenToggle => 7012,
            GraphicsSettingsWidgets::VsyncToggle => 7013,
            GraphicsSettingsWidgets::InterfaceSectionLabel => 7020,
            GraphicsSettingsWidgets::GuiScaleDropdown => 7021,
            GraphicsSettingsWidgets::FontDropdown => 7022,
            GraphicsSettingsWidgets::GraphicsSectionLabel => 7030,
            GraphicsSettingsWidgets::BaseGraphicsDropdown => 7031,
            GraphicsSettingsWidgets::ApplyButton => 7040,
            GraphicsSettingsWidgets::CancelButton => 7041,
        }
    }
}

/// The lists the window can open.
#[derive(Debug, Clone, Copy, PartialEq, Eq, Structural)]
pub enum GraphicsDropdown {
    Resolution,
    GuiScale,
    Font,
    BaseGraphics,
}

/// The settings as chosen so far, with the options of each list.
#[derive(Debug, Clone)]
pub struct GraphicsSettingsState {
    pub resolutions: Vec<&'static str>,
    pub gui_scales: Vec<&'static str>,
    pub fonts: Vec<&'static str>,
    pub base_graphics: Vec<&'static str>,
    pub selected_resolution: usize,
    pub selected_gui_scale: usize,
    pub selected_font: usize,
    pub selected_base_graphics: usize,
    pub fullscreen: bool,
    pub vsync: bool,
    pub dropdown_open: Option<GraphicsDropdown>,
}

impl GraphicsSettingsState {
    /// Every list has at least one option.
    pub open spec fn wf(&self) -> bool {
        &&& self.resolutions@.len() >= 1
        &&& self.gui_scales@.len() >= 1
        &&& self.fonts@.len() >= 1
        &&& self.base_graphics@.len() >= 1
    }
}

impl Default for GraphicsSettingsState {
    fn default() -> (r: Self)
        ensures
            r.wf(),
            r.resolutions@.len() == 4 && r.gui_scales@.len() == 4 && r.fonts@.len() == 3
                && r.base_graphics@.len() == 3,
            r.selected_resolution == 1 && r.selected_gui_scale == 0 && r.selected_font == 0
                && r.selected_base_graphics == 0,
            !r.fullscreen && r.vsync && r.dropdown_open is None,
    {
        let mut resolutions: Vec<&'static str> = Vec::new();
        resolutions.push("640x480");
        resolutions.push("800x600");
        resolutions.push("1024x768");
        resolutions.push("1280x720");
        let mut gui_scales: Vec<&'static str> = Vec::new();
        gui_scales.push("100%");
        gui_scales.push("125%");
        gui_scales.push("150%");
        gui_scales.push("200%");
        let mut fonts: Vec<&'static str> = Vec::new();
        fonts.push("Default");
        fonts.push("Large");
        fonts.push("Mono");
        let mut base_graphics: Vec<&'static str> = Vec::new();
        base_graphics.push("OpenGFX");
        base_graphics.push("Original");
        base_graphics.push("ZBase");
        GraphicsSettingsState {
            resolutions,
            gui_scales,
            fonts,
            base_graphics,
            selected_resolution: 1,
            selected_gui_scale: 0,
            selected_font: 0,
            selected_base_graphics: 0,
            fullscreen: false,
            vsync: true,
            dropdown_open: None,
        }
    }
}

/// The list that is open after the list `target` is clicked: it closes if it
/// was the open one, else it opens.
pub open spec fn toggled(open: Option<GraphicsDropdown>, target: GraphicsDropdown) -> Option<GraphicsDropdown> {
    if open == Some(target) {
        None
    } else {
        Some(target)
    }
}

/// A row of the window at `rect`: `dy` below its top, `h` high.
pub open spec fn graphics_row(rect: Rect, dy: int, h: u32) -> Rect {
    Rect { x: (rect.x + 20) as i32, y: (rect.y + dy) as i32, width: (rect.width - 40) as u32, height: h }
}

/// The slot of a click at height `y` in a list that starts at `list_y`:
/// twenty pixels a slot, at most slot 3, and at most the last option.
pub open spec fn list_slot(y: i32, list_y: i32, len: nat) -> usize {
    let i = if (y - list_y) / 20 > 3 { 3 } else { (y - list_y) / 20 };
    if i <= len - 1 { i as usize } else { (len - 1) as usize }
}

/// The selections after picking at height `y` in the open list `open`.
pub open spec fn picked(s: GraphicsSettingsState, open: GraphicsDropdown, y: i32, list_y: i32) -> (usize, usize, usize, usize) {
    match open {
        GraphicsDropdown::Resolution => (list_slot(y, list_y, s.resolutions@.len()), s.selected_gui_scale, s.selected_font, s.selected_base_graphics),
        GraphicsDropdown::GuiScale => (s.selected_resolution, list_slot(y, list_y, s.gui_scales@.len()), s.selected_font, s.selected_base_graphics),
        GraphicsDropdown::Font => (s.selected_resolution, s.selected_gui_scale, list_slot(y, list_y, s.fonts@.len()), s.selected_base_graphics),
        GraphicsDropdown::BaseGraphics => (s.selected_resolution, s.selected_gui_scale, s.selected_font, list_slot(y, list_y, s.base_graphics@.len())),
    }
}

/// The window and the settings chosen in it.
pub struct GraphicsSettingsWindow {
    pub state: GraphicsSettingsState,
}

impl GraphicsSettingsWindow {
    pub fn new() -> (r: Self)
        ensures
            r.state.wf(),
            r.state.selected_resolution == 1,
            !r.state.fullscreen && r.state.vsync && r.state.dropdown_open is None,
    {
        GraphicsSettingsWindow { state: GraphicsSettingsState::default() }
    }

    pub fn fullscreen_enabled(&self) -> (r: bool)
        ensures
            r == self.state.fullscreen,
    {
        self.state.fullscreen
    }

    /// Whether a list is open.
    pub fn dropdown_open(&self) -> (r: bool)
        ensures
            r == self.state.dropdown_open is Some,
    {
        self.state.dropdown_open.is_some()
    }

    /// Whether a list is open.
    pub fn is_dropdown_open(&self) -> (r: bool)
        ensures
            r == self.state.dropdown_open is Some,
    {
        self.state.dropdown_open.is_some()
    }

    fn toggle_dropdown(&mut self, target: GraphicsDropdown)
        ensures
            final(self).state.dropdown_open == toggled(old(self).state.dropdown_open, target),
            final(self).state.fullscreen == old(self).state.fullscreen,
            final(self).state.vsync == old(self).state.vsync,
            final(self).state.selected_resolution == old(self).state.selected_resolution,
            final(self).state.selected_gui_scale == old(self).state.selected_gui_scale,
            final(self).state.selected_font == old(self).state.selected_font,
            final(self).state.selected_base_graphics == old(self).state.selected_base_graphics,
            final(self).state.resolutions@ == old(self).state.resolutions@,
            final(self).state.gui_scales@ == old(self).state.gui_scales@,
            final(self).state.fonts@ == old(self).state.fonts@,
            final(self).state.base_graphics@ == old(self).state.base_graphics@,
    {
        let open = self.state.dropdown_open;
        self.state.dropdown_open = match open {
            Some(o) => if o == target {
                None
            } else {
                Some(target)
            },
            None => Some(target),
        };
    }

    /// Handles a click at `x`, `y` in the window at `rect`: a list row opens
    /// or closes its list, a toggle row flips its setting, a click in the
    /// open list picks an option and closes it, and any other click inside
    /// closes the open list. Gives whether the click was used.
    pub fn handle_click(&mut self, x: i32, y: i32, rect: Rect) -> (r: bool)
        requires
            old(self).state.wf(),
            rect.width >= 40,
            rect.x <= i32::MAX - 20,
            rect.y <= i32::MAX - 400,
        ensures
            final(self).state.wf(),
            final(self).state.resolutions@ == old(self).state.resolutions@,
            final(self).state.gui_scales@ == old(self).state.gui_scales@,
            final(self).state.fonts@ == old(self).state.fonts@,
            final(self).state.base_graphics@ == old(self).state.base_graphics@,
            !rect_has(rect, x, y) ==> !r && final(self).state.dropdown_open == old(self).state.dropdown_open,
            rect_has(rect, x, y) && rect_has(graphics_row(rect, 50, 28), x, y) ==> r
                && final(self).state.dropdown_open == toggled(old(self).state.dropdown_open, GraphicsDropdown::Resolution),
            rect_has(rect, x, y) && !rect_has(graphics_row(rect, 50, 28), x, y) && rect_has(graphics_row(rect, 136, 28), x, y) ==> r
                && final(self).state.dropdown_open == toggled(old(self).state.dropdown_open, GraphicsDropdown::GuiScale),
            rect_has(rect, x, y) && !rect_has(graphics_row(rect, 50, 28), x, y) && !rect_has(graphics_row(rect, 136, 28), x, y)
                && rect_has(graphics_row(rect, 164, 28), x, y) ==> r
                && final(self).state.dropdown_open == toggled(old(self).state.dropdown_open, GraphicsDropdown::Font),
            rect_has(rect, x, y) && !rect_has(graphics_row(rect, 50, 28), x, y) && !rect_has(graphics_row(rect, 136, 28), x, y)
                && !rect_has(graphics_row(rect, 164, 28), x, y) && rect_has(graphics_row(rect, 202, 28), x, y) ==> r
                && final(self).state.dropdown_open == toggled(old(self).state.dropdown_open, GraphicsDropdown::BaseGraphics),
            rect_has(rect, x, y) && !rect_has(graphics_row(rect, 50, 28), x, y) && !rect_has(graphics_row(rect, 136, 28), x, y)
                && !rect_has(graphics_row(rect, 164, 28), x, y) && !rect_has(graphics_row(rect, 202, 28), x, y)
                && rect_has(graphics_row(rect, 78, 24), x, y) ==> r
                && final(self).state.fullscreen == !old(self).state.fullscreen,
            rect_has(rect, x, y) && !rect_has(graphics_row(rect, 50, 28), x, y) && !rect_has(graphics_row(rect, 136, 28), x, y)
                && !rect_has(graphics_row(rect, 164, 28), x, y) && !rect_has(graphics_row(rect, 202, 28), x, y)
                && !rect_has(graphics_row(rect, 78, 24), x, y) && rect_has(graphics_row(rect, 102, 24), x, y) ==> r
                && final(self).state.vsync == !old(self).state.vsync,
            rect_has(rect, x, y) && !rect_has(graphics_row(rect, 50, 28), x, y) && !rect_has(graphics_row(rect, 136, 28), x, y)
                && !rect_has(graphics_row(rect, 164, 28), x, y) && !rect_has(graphics_row(rect, 202, 28), x, y)
                && !rect_has(graphics_row(rect, 78, 24), x, y) && !rect_has(graphics_row(rect, 102, 24), x, y) ==> {
                &&& r == old(self).state.dropdown_open is Some
                &&& final(self).state.dropdown_open is None
                &&& (old(self).state.dropdown_open is Some && rect_has(graphics_row(rect, 234, 120), x, y)) ==> (
                    final(self).state.selected_resolution,
                    final(self).state.selected_gui_scale,
                    final(self).state.selected_font,
                    final(self).state.selected_base_graphics,
                ) == picked(old(self).state, old(self).state.dropdown_open->0, y, (rect.y + 234) as i32)
            },
    {
        if !rect.contains_point(x, y) {
            return false;
        }
        let content_x = rect.x + 20;
        let content_width = rect.width - 40;
        let mut cursor_y = rect.y + 50;
        let resolution_rect = Rect::new(content_x, cursor_y, content_width, 28);
        cursor_y = cursor_y + 28;
        let fullscreen_rect = Rect::new(content_x, cursor_y, content_width, 24);
        cursor_y = cursor_y + 24;
        let vsync_rect = Rect::new(content_x, cursor_y, content_width, 24);
        cursor_y = cursor_y + 24 + 10;
        let gui_scale_rect = Rect::new(content_x, cursor_y, content_width, 28);
        cursor_y = cursor_y + 28;
        let font_rect = Rect::new(content_x, cursor_y, content_width, 28);
        cursor_y = cursor_y + 28 + 10;
        let base_graphics_rect = Rect::new(content_x, cursor_y, content_width, 28);
        if resolution_rect.contains_point(x, y) {
            self.toggle_dropdown(GraphicsDropdown::Resolution);
            return true;
        }
        if gui_scale_rect.contains_point(x, y) {
            self.toggle_dropdown(GraphicsDropdown::GuiScale);
            return true;
        }
        if font_rect.contains_point(x, y) {
            self.toggle_dropdown(GraphicsDropdown::Font);
            return true;
        }
        if base_graphics_rect.contains_point(x, y) {
            self.toggle_dropdown(GraphicsDropdown::BaseGraphics);
            return true;
        }
        if fullscreen_rect.contains_point(x, y) {
            self.state.fullscreen = !self.state.fullscreen;
            return true;
        }
        if vsync_rect.contains_point(x, y) {
            self.state.vsync = !self.state.vsync;
            return true;
        }
        match self.state.dropdown_open {
            Some(open) => {
                let list_y = cursor_y + 32;
                let list_rect = Rect::new(content_x, list_y, content_width, 120);
                if list_rect.contains_point(x, y) {
                    let q = (y - list_y) / 20;
                    let index: usize = if q > 3 { 3 } else { q as usize };
                    match open {
                        GraphicsDropdown::Resolution => {
                            let last = self.state.resolutions.len() - 1;
                            self.state.selected_resolution = if index <= last { index } else { last };
                        },
                        GraphicsDropdown::GuiScale => {
                            let last = self.state.gui_scales.len() - 1;
                            self.state.selected_gui_scale = if index <= last { index } else { last };
                        },
                        GraphicsDropdown::Font => {
                            let last = self.state.fonts.len() - 1;
                            self.state.selected_font = if index <= last { index } else { last };
                        },
                        GraphicsDropdown::BaseGraphics => {
                            let last = self.state.base_graphics.len() - 1;
                            self.state.selected_base_graphics = if index <= last { index } else { last };
                        },
                    }
                }
                self.state.dropdown_open = None;
                true
            },
            None => false,
        }
    }
}

} // verus!
