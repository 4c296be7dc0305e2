//! The video layer's own data: input events, the dirty area of the screen
//! and the palette of the 8-bit display modes.
use vstd::prelude::*;

use crate::gfx::{Colour, Rect};

verus! {

/// The failures of the video layer.
#[derive(Debug)]
pub enum VideoError {
    InitFailed(String),
    WindowCreationFailed(String),
    EventError(String),
}

/// The mouse buttons.
#[derive(Debug, Clone, Copy, PartialEq, Eq, Structural)]
pub enum MouseButton {
    Left,
    Right,
    Middle,
    X1,
    X2,
}

/// The modifier keys held down.
#[derive(Debug, Clone, Copy, PartialEq, Eq, Structural)]
pub struct KeyModifiers {
    pub shift: bool,
    pub ctrl: bool,
    pub alt: bool,
    pub gui: bool,
}

impl Default for KeyModifiers {
    fn default() -> (r: Self)
        ensures
            !r.shift && !r.ctrl && !r.alt && !r.gui,
    {
        KeyModifiers { shift: false, ctrl: false, alt: false, gui: false }
    }
}

/// What happened to the window.
#[derive(Debug, Clone, Copy, PartialEq, Eq, Structural)]
pub enum WindowEvent {
    Exposed,
    SizeChanged { width: u32, height: u32 },
    MouseEnter,
    MouseLeave,
    FocusGained,
    FocusLost,
}

/// An input event.
#[derive(Debug, Clone)]
pub enum Event {
    Quit,
    MouseMotion { x: i32, y: i32, xrel: i32, yrel: i32 },
    MouseButtonDown { button: MouseButton, x: i32, y: i32 },
    MouseButtonUp { button: MouseButton, x: i32, y: i32 },
    MouseWheel { x: i32, y: i32 },
    KeyDown { keycode: u32, scancode: u32, modifiers: KeyModifiers },
    KeyUp { keycode: u32, scancode: u32, modifiers: KeyModifiers },
    TextInput { text: String },
    Window(WindowEvent),
}

impl Event {
    pub fn is_quit(&self) -> (r: bool)
        ensures
            r == self is Quit,
    {
        match self {
            Event::Quit => true,
            _ => false,
        }
    }

    /// Whether this is Alt with Return (13) or keypad Enter (271) pressed.
    pub fn is_fullscreen_toggle(&self) -> (r: bool)
        ensures
            r == (self is KeyDown && self->KeyDown_modifiers.alt && (self->KeyDown_keycode == 13
                || self->KeyDown_keycode == 271)),
    {
        match self {
            Event::KeyDown { keycode, modifiers, .. } => modifiers.alt && (*keycode == 13
                || *keycode == 271),
            _ => false,
        }
    }
}

/// The part of the screen that must be drawn again, right and bottom edges
/// excluded.
#[derive(Debug, Clone, Copy, PartialEq, Eq, Structural)]
pub struct DirtyRect {
    pub left: i32,
    pub top: i32,
    pub right: i32,
    pub bottom: i32,
}

impl Default for DirtyRect {
    fn default() -> (r: Self)
        ensures
            r == (DirtyRect { left: 0, top: 0, right: 0, bottom: 0 }),
    {
        DirtyRect { left: 0, top: 0, right: 0, bottom: 0 }
    }
}

pub open spec fn dirty_empty(d: DirtyRect) -> bool {
    d.left >= d.right || d.top >= d.bottom
}

pub open spec fn min_i32(a: i32, b: i32) -> i32 {
    if a <= b {
        a
    } else {
        b
    }
}

pub open spec fn max_i32(a: i32, b: i32) -> i32 {
    if a >= b {
        a
    } else {
        b
    }
}

impl DirtyRect {
    pub fn is_empty(&self) -> (r: bool)
        ensures
            r == dirty_empty(*self),
    {
        self.left >= self.right || self.top >= self.bottom
    }

    pub fn clear(&mut self)
        ensures
            *final(self) == (DirtyRect { left: 0, top: 0, right: 0, bottom: 0 }),
    {
        *self = DirtyRect::default();
    }

    /// Grows the area to the smallest one that holds it and the given one;
    /// an empty area becomes the given one.
    pub fn expand(&mut self, left: i32, top: i32, right: i32, bottom: i32)
        ensures
            dirty_empty(*old(self)) ==> *final(self) == (DirtyRect { left, top, right, bottom }),
            !dirty_empty(*old(self)) ==> *final(self) == (DirtyRect {
                left: min_i32(old(self).left, left),
                top: min_i32(old(self).top, top),
                right: max_i32(old(self).right, right),
                bottom: max_i32(old(self).bottom, bottom),
            }),
    {
        if self.is_empty() {
            self.left = left;
            self.top = top;
            self.right = right;
            self.bottom = bottom;
        } else {
            self.left = if self.left <= left { self.left } else { left };
            self.top = if self.top <= top { self.top } else { top };
            self.right = if self.right >= right { self.right } else { right };
            self.bottom = if self.bottom >= bottom { self.bottom } else { bottom };
        }
    }

    /// The area as a screen rectangle, or none when it is empty.
    pub fn to_sdl_rect(&self) -> (r: Option<Rect>)
        ensures
            dirty_empty(*self) ==> r is None,
            !dirty_empty(*self) ==> r == Some(
                Rect {
                    x: self.left,
                    y: self.top,
                    width: (self.right - self.left) as u32,
                    height: (self.bottom - self.top) as u32,
                },
            ),
    {
        if self.is_empty() {
            None
        } else {
            let width = (self.right as i64 - self.left as i64) as u32;
            let height = (self.bottom as i64 - self.top as i64) as u32;
            Some(Rect::new(self.left, self.top, width, height))
        }
    }
}

/// The 256 colours of the 8-bit modes, and the range of them changed since
/// the screen last took them.
pub struct Palette {
    pub colors: Vec<Colour>,
    pub first_dirty: usize,
    pub count_dirty: usize,
}

impl Default for Palette {
    /// A grey ramp from black to white, nothing changed.
    fn default() -> (r: Self)
        ensures
            r.colors@.len() == 256,
            forall|i: int|
                0 <= i < 256 ==> #[trigger] r.colors@[i] == (Colour { r: i as u8, g: i as u8, b: i as u8, a: 255 }),
            r.first_dirty == 0 && r.count_dirty == 0,
    {
        let mut colors: Vec<Colour> = Vec::with_capacity(256);
        let mut i: u32 = 0;
        while i < 256
            invariant
                i <= 256,
                colors@.len() == i,
                forall|k: int|
                    0 <= k < i ==> #[trigger] colors@[k] == (Colour { r: k as u8, g: k as u8, b: k as u8, a: 255 }),
            decreases 256 - i,
        {
            colors.push(Colour::rgb(i as u8, i as u8, i as u8));
            i = i + 1;
        }
        Palette { colors, first_dirty: 0, count_dirty: 0 }
    }
}

impl Palette {
    /// Adds the `count` entries from `first` to the changed range: the range
    /// becomes the smallest one that holds both.
    pub fn mark_dirty(&mut self, first: usize, count: usize)
        requires
            old(self).first_dirty + old(self).count_dirty <= usize::MAX,
            first + count <= usize::MAX,
        ensures
            final(self).colors@ == old(self).colors@,
            old(self).count_dirty == 0 ==> final(self).first_dirty == first
                && final(self).count_dirty == count,
            old(self).count_dirty != 0 ==> {
                let lo = if old(self).first_dirty <= first { old(self).first_dirty } else { first };
                let hi = if first + count >= old(self).first_dirty + old(self).count_dirty {
                    first + count
                } else {
                    old(self).first_dirty + old(self).count_dirty
                };
                final(self).first_dirty == lo && final(self).count_dirty == hi - lo
            },
    {
        if self.count_dirty == 0 {
            self.first_dirty = first;
            self.count_dirty = count;
        } else {
            let last_dirty = self.first_dirty + self.count_dirty;
            let new_last = first + count;
            let lo = if self.first_dirty <= first { self.first_dirty } else { first };
            let hi = if new_last >= last_dirty { new_last } else { last_dirty };
            self.first_dirty = lo;
            self.count_dirty = hi - lo;
        }
    }

    pub fn clear_dirty(&mut self)
        ensures
            final(self).count_dirty == 0,
            final(self).first_dirty == old(self).first_dirty,
            final(self).colors@ == old(self).colors@,
    {
        self.count_dirty = 0;
    }

    /// Sets entry `index` and marks it changed; an index past the end
    /// changes nothing.
    pub fn set_color(&mut self, index: usize, color: Colour)
        requires
            old(self).first_dirty + old(self).count_dirty <= usize::MAX,
            index < usize::MAX,
        ensures
            index < old(self).colors@.len() ==> final(self).colors@ == old(self).colors@.update(
                index as int,
                color,
            ),
            index >= old(self).colors@.len() ==> final(self).colors@ == old(self).colors@
                && final(self).first_dirty == old(self).first_dirty && final(self).count_dirty
                == old(self).count_dirty,
            index < old(self).colors@.len() && old(self).count_dirty == 0 ==> final(self).first_dirty
                == index && final(self).count_dirty == 1,
    {
        if index < self.colors.len() {
            self.colors.set(index, color);
            self.mark_dirty(index, 1);
        }
    }
}

} // verus!
