//! The layout shared by the settings windows: a title bar, a bar of three
//! tabs, then three sections of three rows each, the last holding the Apply
//! and Cancel buttons.
use vstd::prelude::*;

use crate::gfx::{rect_has, Rect};

verus! {

const WINDOW_X: i32 = 140;

const WINDOW_Y: i32 = 80;

const WINDOW_WIDTH: u32 = 520;

const WINDOW_HEIGHT: u32 = 360;

const TITLE_BAR_HEIGHT: i32 = 20;

const TAB_BAR_HEIGHT: i32 = 30;

const ROW_SPACING: i32 = 10;

const SECTION_SPACING: i32 = 6;

/// Section `i` (0 to 2) of the content area.
pub open spec fn section_area(i: int) -> Rect {
    Rect { x: 152, y: (142 + 98 * i) as i32, width: 496, height: 88 }
}

/// Row `k` (0 to 2) of section `i`.
pub open spec fn row_area(i: int, k: int) -> Rect {
    Rect { x: 152, y: (142 + 98 * i + 31 * k) as i32, width: 496, height: 25 }
}

/// Tab `i` (0 to 2) of the tab bar.
pub open spec fn tab_area(i: int) -> Rect {
    Rect { x: (152 + 167 * i) as i32, y: 100, width: 161, height: 30 }
}

/// The Apply button.
pub open spec fn apply_area() -> Rect {
    Rect { x: 152, y: 338, width: 243, height: 88 }
}

/// The Cancel button.
pub open spec fn cancel_area() -> Rect {
    Rect { x: 405, y: 338, width: 243, height: 88 }
}

/// The close box in the title bar of a window at `r`.
pub open spec fn close_area(r: Rect) -> Rect {
    Rect { x: (r.x + (r.width as i32) - 18) as i32, y: (r.y + 2) as i32, width: 16, height: 16 }
}

/// The close box of a window at `r`, which must lie well inside the screen
/// coordinates.
pub fn close_rect(r: Rect) -> (c: Rect)
    requires
        i32::MIN + 18 <= r.x + (r.width as i32) <= i32::MAX,
        r.y + 2 <= i32::MAX,
    ensures
        c == close_area(r),
{
    Rect::new(r.x + r.width as i32 - 18, r.y + 2, 16, 16)
}

/// Section `i` of the content area.
pub fn section_rect(i: i32) -> (r: Rect)
    requires
        0 <= i < 3,
    ensures
        r == section_area(i as int),
{
    let content_y = WINDOW_Y + TITLE_BAR_HEIGHT + TAB_BAR_HEIGHT;
    let content_height = WINDOW_HEIGHT - (TITLE_BAR_HEIGHT + TAB_BAR_HEIGHT) as u32;
    let padding: i32 = 12;
    let count: i32 = 3;
    let available_height = content_height as i32 - 2 * padding;
    let child_height = (available_height - (count - 1) * ROW_SPACING) / count;
    assert(child_height == 88);
    assert(i * (child_height + ROW_SPACING) == 98 * i) by (nonlinear_arith)
        requires
            child_height + ROW_SPACING == 98,
    ;
    let y = content_y + padding + i * (child_height + ROW_SPACING);
    Rect::new(WINDOW_X + padding, y, WINDOW_WIDTH - (2 * padding) as u32, child_height as u32)
}

/// Row `k` of a section `parent`, which holds three rows.
pub fn row_rect(parent: Rect, k: i32) -> (r: Rect)
    requires
        0 <= k < 3,
        parent.height == 88,
        0 <= parent.y <= 1000,
    ensures
        r == (Rect { x: parent.x, y: (parent.y + 31 * k) as i32, width: parent.width, height: 25 }),
{
    let count: i32 = 3;
    let available_height = parent.height as i32;
    let child_height = (available_height - (count - 1) * SECTION_SPACING) / count;
    assert(child_height == 25);
    assert(k * (child_height + SECTION_SPACING) == 31 * k) by (nonlinear_arith)
        requires
            child_height + SECTION_SPACING == 31,
    ;
    let y = parent.y + k * (child_height + SECTION_SPACING);
    Rect::new(parent.x, y, parent.width, child_height as u32)
}

/// Tab `i` of the tab bar.
pub fn tab_rect(i: i32) -> (r: Rect)
    requires
        0 <= i < 3,
    ensures
        r == tab_area(i as int),
{
    let bar_x = WINDOW_X + 12;
    let bar_y = WINDOW_Y + TITLE_BAR_HEIGHT;
    let bar_width = WINDOW_WIDTH - 24;
    let spacing: i32 = 6;
    let button_width = (bar_width as i32 - 2 * spacing) / 3;
    assert(button_width == 161);
    assert(i * (button_width + spacing) == 167 * i) by (nonlinear_arith)
        requires
            button_width + spacing == 167,
    ;
    Rect::new(bar_x + i * (button_width + spacing), bar_y, button_width as u32, TAB_BAR_HEIGHT as u32)
}

/// The button of the last section under the point: 0 for Apply, 1 for
/// Cancel.
pub fn action_button_at(x: i32, y: i32) -> (r: Option<u8>)
    ensures
        r == if !rect_has(section_area(2), x, y) {
            None
        } else if rect_has(apply_area(), x, y) {
            Some(0u8)
        } else if rect_has(cancel_area(), x, y) {
            Some(1u8)
        } else {
            None
        },
{
    let actions = section_rect(2);
    if !actions.contains_point(x, y) {
        return None;
    }
    let spacing: i32 = 10;
    let available_width = actions.width as i32;
    let button_width = (available_width - spacing) / 2;
    let left = Rect::new(actions.x, actions.y, button_width as u32, actions.height);
    let right = Rect::new(actions.x + button_width + spacing, actions.y, button_width as u32, actions.height);
    if left.contains_point(x, y) {
        Some(0)
    } else if right.contains_point(x, y) {
        Some(1)
    } else {
        None
    }
}

} // verus!
