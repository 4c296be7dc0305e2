//! The drawing primitives of the user interface: colours, rectangles and
//! the states a button is drawn in.
use vstd::prelude::*;

verus! {

/// The failures of the drawing layer.
#[derive(Debug)]
pub enum GfxError {
    Sdl2(String),
    Ttf(String),
    FontNotFound(String),
    InvalidColor,
}

/// A colour with alpha.
#[derive(Debug, Clone, Copy, PartialEq, Eq, Structural)]
pub struct Colour {
    pub r: u8,
    pub g: u8,
    pub b: u8,
    pub a: u8,
}

impl Colour {
    /// An opaque colour.
    pub fn rgb(r: u8, g: u8, b: u8) -> (c: Self)
        ensures
            c == (Colour { r, g, b, a: 255 }),
    {
        Colour { r, g, b, a: 255 }
    }

    pub fn rgba(r: u8, g: u8, b: u8, a: u8) -> (c: Self)
        ensures
            c == (Colour { r, g, b, a }),
    {
        Colour { r, g, b, a }
    }

    pub fn black() -> (r: Colour)
        ensures
            r == (Colour { r: 0, g: 0, b: 0, a: 255 }),
    {
        Colour { r: 0, g: 0, b: 0, a: 255 }
    }

    pub fn white() -> (r: Colour)
        ensures
            r == (Colour { r: 255, g: 255, b: 255, a: 255 }),
    {
        Colour { r: 255, g: 255, b: 255, a: 255 }
    }

    pub fn red() -> (r: Colour)
        ensures
            r == (Colour { r: 255, g: 0, b: 0, a: 255 }),
    {
        Colour { r: 255, g: 0, b: 0, a: 255 }
    }

    pub fn green() -> (r: Colour)
        ensures
            r == (Colour { r: 0, g: 255, b: 0, a: 255 }),
    {
        Colour { r: 0, g: 255, b: 0, a: 255 }
    }

    pub fn blue() -> (r: Colour)
        ensures
            r == (Colour { r: 0, g: 0, b: 255, a: 255 }),
    {
        Colour { r: 0, g: 0, b: 255, a: 255 }
    }

    pub fn grey() -> (r: Colour)
        ensures
            r == (Colour { r: 128, g: 128, b: 128, a: 255 }),
    {
        Colour { r: 128, g: 128, b: 128, a: 255 }
    }

    pub fn light_grey() -> (r: Colour)
        ensures
            r == (Colour { r: 192, g: 192, b: 192, a: 255 }),
    {
        Colour { r: 192, g: 192, b: 192, a: 255 }
    }

    pub fn dark_grey() -> (r: Colour)
        ensures
            r == (Colour { r: 64, g: 64, b: 64, a: 255 }),
    {
        Colour { r: 64, g: 64, b: 64, a: 255 }
    }

    pub fn ui_button() -> (r: Colour)
        ensures
            r == (Colour { r: 64, g: 64, b: 64, a: 255 }),
    {
        Colour { r: 64, g: 64, b: 64, a: 255 }
    }

    pub fn ui_button_hover() -> (r: Colour)
        ensures
            r == (Colour { r: 80, g: 80, b: 80, a: 255 }),
    {
        Colour { r: 80, g: 80, b: 80, a: 255 }
    }

    pub fn ui_button_pressed() -> (r: Colour)
        ensures
            r == (Colour { r: 48, g: 48, b: 48, a: 255 }),
    {
        Colour { r: 48, g: 48, b: 48, a: 255 }
    }

    pub fn ui_text_disabled() -> (r: Colour)
        ensures
            r == (Colour { r: 128, g: 128, b: 128, a: 255 }),
    {
        Colour { r: 128, g: 128, b: 128, a: 255 }
    }

    pub fn ui_background() -> (r: Colour)
        ensures
            r == (Colour { r: 42, g: 42, b: 42, a: 255 }),
    {
        Colour::rgb(42, 42, 42)
    }

    pub fn ui_border() -> (r: Colour)
        ensures
            r == (Colour { r: 128, g: 128, b: 128, a: 255 }),
    {
        Colour::rgb(128, 128, 128)
    }

    pub fn ui_text() -> (r: Colour)
        ensures
            r == (Colour { r: 224, g: 224, b: 224, a: 255 }),
    {
        Colour::rgb(224, 224, 224)
    }

    pub fn ui_window_background() -> (r: Colour)
        ensures
            r == (Colour { r: 42, g: 42, b: 42, a: 255 }),
    {
        Colour::rgb(42, 42, 42)
    }

    pub fn ui_title_bar() -> (r: Colour)
        ensures
            r == (Colour { r: 64, g: 64, b: 64, a: 255 }),
    {
        Colour::rgb(64, 64, 64)
    }

    pub fn ui_title_text() -> (r: Colour)
        ensures
            r == (Colour { r: 255, g: 255, b: 255, a: 255 }),
    {
        Colour::rgb(255, 255, 255)
    }

    pub fn ui_highlight() -> (r: Colour)
        ensures
            r == (Colour { r: 100, g: 150, b: 255, a: 255 }),
    {
        Colour::rgb(100, 150, 255)
    }
}

/// Whether the point `x`, `y` lies in `r`, the right and bottom edges
/// excluded; the sizes are read as `i32`.
pub open spec fn rect_has(r: Rect, x: i32, y: i32) -> bool {
    x >= r.x && x < r.x + (r.width as i32) && y >= r.y && y < r.y + (r.height as i32)
}

/// A rectangle on the screen: its top left corner and its size.
#[derive(Debug, Clone, Copy, PartialEq, Eq, Structural)]
pub struct Rect {
    pub x: i32,
    pub y: i32,
    pub width: u32,
    pub height: u32,
}

impl Rect {
    pub fn new(x: i32, y: i32, width: u32, height: u32) -> (r: Self)
        ensures
            r == (Rect { x, y, width, height }),
    {
        Rect { x, y, width, height }
    }

    /// Whether the point lies inside, the right and bottom edges excluded.
    /// The sizes are read as `i32`, wrapping above `i32::MAX`.
    pub fn contains_point(&self, x: i32, y: i32) -> (r: bool)
        ensures
            r == rect_has(*self, x, y),
    {
        let right = self.x as i64 + self.width as i32 as i64;
        let bottom = self.y as i64 + self.height as i32 as i64;
        x >= self.x && (x as i64) < right && y >= self.y && (y as i64) < bottom
    }

    /// The centre, rounded towards the top left.
    pub fn center(&self) -> (r: (i32, i32))
        requires
            self.x + self.width / 2 <= i32::MAX,
            self.y + self.height / 2 <= i32::MAX,
        ensures
            r.0 == self.x + self.width / 2,
            r.1 == self.y + self.height / 2,
    {
        (self.x + (self.width / 2) as i32, self.y + (self.height / 2) as i32)
    }
}

/// How text lines up in its box.
#[derive(Debug, Clone, Copy, PartialEq, Eq, Structural)]
pub enum TextAlign {
    Left,
    Center,
    Right,
}

/// The states a button is drawn in.
#[derive(Debug, Clone, Copy, PartialEq, Eq, Structural)]
pub enum ButtonState {
    Normal,
    Hover,
    Pressed,
    Disabled,
}

} // verus!
