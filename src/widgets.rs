//! The basic vocabulary of the window system: identifiers, widget kinds,
//! size constraints and the data every widget has.
use vstd::prelude::*;

use crate::gfx::{Colour, Rect};

verus! {

/// The failures of the window system.
#[derive(Debug)]
pub enum GuiError {
    WidgetNotFound(u32),
    WindowNotFound(u32),
    InvalidLayout,
}

/// The identifier of a widget.
pub type WidgetID = u32;

/// The identifier of a window.
pub type WindowID = u32;

/// The identifier that stands for no widget.
pub const INVALID_WIDGET: WidgetID = 0xFFFFFFFF;

/// The kinds of widget.
#[derive(Debug, Clone, Copy, PartialEq, Eq, Structural)]
pub enum WidgetType {
    Empty,
    Panel,
    Button,
    Label,
    Frame,
    Horizontal,
    Vertical,
    Spacer,
}

/// How text lines up in a label or a button.
#[derive(Debug, Clone, Copy, PartialEq, Eq, Structural)]
pub enum Alignment {
    Left,
    Center,
    Right,
}

/// The sizes a widget asks for.
#[derive(Debug, Clone, Copy, PartialEq, Eq, Structural)]
pub struct SizeConstraints {
    pub min_width: u32,
    pub min_height: u32,
    pub max_width: Option<u32>,
    pub max_height: Option<u32>,
    pub preferred_width: u32,
    pub preferred_height: u32,
}

impl Default for SizeConstraints {
    fn default() -> (r: Self)
        ensures
            r == (SizeConstraints {
                min_width: 0,
                min_height: 0,
                max_width: None,
                max_height: None,
                preferred_width: 100,
                preferred_height: 20,
            }),
    {
        SizeConstraints {
            min_width: 0,
            min_height: 0,
            max_width: None,
            max_height: None,
            preferred_width: 100,
            preferred_height: 20,
        }
    }
}

/// The data every widget has.
#[derive(Debug, Clone, Copy, PartialEq, Eq, Structural)]
pub struct WidgetBase {
    pub id: WidgetID,
    pub widget_type: WidgetType,
    pub rect: Rect,
    pub visible: bool,
    pub enabled: bool,
}

impl WidgetBase {
    /// A visible, enabled widget of 100 by 20 pixels at the origin.
    pub fn new(id: WidgetID, widget_type: WidgetType) -> (r: Self)
        ensures
            r == (WidgetBase {
                id,
                widget_type,
                rect: Rect { x: 0, y: 0, width: 100, height: 20 },
                visible: true,
                enabled: true,
            }),
    {
        WidgetBase {
            id,
            widget_type,
            rect: Rect { x: 0, y: 0, width: 100, height: 20 },
            visible: true,
            enabled: true,
        }
    }
}

/// A panel: a filled rectangle, with or without a border.
pub struct PanelWidget {
    pub base: WidgetBase,
    pub background_colour: Colour,
    pub border: bool,
}

impl PanelWidget {
    /// A bordered panel in the interface background colour.
    pub fn new(id: WidgetID) -> (r: Self)
        ensures
            r.base.id == id,
            r.base.widget_type == WidgetType::Panel,
            r.background_colour == (Colour { r: 0x2A, g: 0x2A, b: 0x2A, a: 255 }),
            r.border,
    {
        PanelWidget {
            base: WidgetBase::new(id, WidgetType::Panel),
            background_colour: Colour::ui_background(),
            border: true,
        }
    }

    pub fn with_colour(self, colour: Colour) -> (r: Self)
        ensures
            r.base == self.base && r.border == self.border && r.background_colour == colour,
    {
        PanelWidget { background_colour: colour, ..self }
    }

    pub fn with_border(self, border: bool) -> (r: Self)
        ensures
            r.base == self.base && r.background_colour == self.background_colour && r.border
                == border,
    {
        PanelWidget { border, ..self }
    }
}

/// A line of text.
pub struct LabelWidget {
    pub base: WidgetBase,
    pub text: String,
    pub colour: Colour,
    pub alignment: Alignment,
}

impl LabelWidget {
    /// A left-aligned label in the interface text colour.
    pub fn new(id: WidgetID, text: &str) -> (r: Self)
        ensures
            r.base.id == id,
            r.base.widget_type == WidgetType::Label,
            r.text@ == text@,
            r.colour == (Colour { r: 0xE0, g: 0xE0, b: 0xE0, a: 255 }),
            r.alignment == Alignment::Left,
    {
        LabelWidget {
            base: WidgetBase::new(id, WidgetType::Label),
            text: String::from_str(text),
            colour: Colour::ui_text(),
            alignment: Alignment::Left,
        }
    }

    pub fn with_colour(self, colour: Colour) -> (r: Self)
        ensures
            r.base == self.base && r.text@ == self.text@ && r.alignment == self.alignment
                && r.colour == colour,
    {
        LabelWidget { colour, ..self }
    }

    pub fn with_alignment(self, alignment: Alignment) -> (r: Self)
        ensures
            r.base == self.base && r.text@ == self.text@ && r.colour == self.colour
                && r.alignment == alignment,
    {
        LabelWidget { alignment, ..self }
    }
}

} // verus!
