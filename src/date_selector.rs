//! The date picker of the game set-up: a day, a month and a year, kept
//! within the range the game supports.
use vstd::prelude::*;

use crate::gfx::{rect_has, Rect};
use crate::text_format::{decimal, decimal_text};

verus! {

/// The identifier of the date picker window.
pub const DATE_SELECTOR_WINDOW_ID: u32 = 3000;

/// The widgets of the date picker.
#[derive(Debug, Clone, Copy, PartialEq, Eq, Structural)]
pub enum DateSelectorWidgets {
    DayDropdown,
    MonthDropdown,
    YearDropdown,
    SetDateButton,
    CancelButton,
}

impl DateSelectorWidgets {
    /// The widget identifier.
    pub fn id(self) -> (r: u32)
        ensures
            r == 3001 + match self {
                DateSelectorWidgets::DayDropdown => 0int,
                DateSelectorWidgets::MonthDropdown => 1,
                DateSelectorWidgets::YearDropdown => 2,
                DateSelectorWidgets::SetDateButton => 3,
                DateSelectorWidgets::CancelButton => 4,
            },
    {
        match self {
            DateSelectorWidgets::DayDropdown => 3001,
            DateSelectorWidgets::MonthDropdown => 3002,
            DateSelectorWidgets::YearDropdown => 3003,
            DateSelectorWidgets::SetDateButton => 3004,
            DateSelectorWidgets::CancelButton => 3005,
        }
    }
}

/// A calendar date as the picker shows it.
#[derive(Debug, Clone, Copy, PartialEq, Eq, Structural)]
pub struct GameDate {
    pub day: u8,
    pub month: u8,
    pub year: u16,
}

impl Default for GameDate {
    fn default() -> (r: Self)
        ensures
            r == (GameDate { day: 1, month: 1, year: 1950 }),
    {
        GameDate { day: 1, month: 1, year: 1950 }
    }
}

/// `v` brought into `lo..=hi`.
pub open spec fn clamp(v: int, lo: int, hi: int) -> int {
    if v < lo {
        lo
    } else if v > hi {
        hi
    } else {
        v
    }
}

/// The three-letter name of month `m`; `???` for a number outside 1 to 12.
pub open spec fn month_abbrev(m: u8) -> Seq<char> {
    if m == 1 {
        "JAN"@
    } else if m == 2 {
        "FEB"@
    } else if m == 3 {
        "MAR"@
    } else if m == 4 {
        "APR"@
    } else if m == 5 {
        "MAY"@
    } else if m == 6 {
        "JUN"@
    } else if m == 7 {
        "JUL"@
    } else if m == 8 {
        "AUG"@
    } else if m == 9 {
        "SEP"@
    } else if m == 10 {
        "OCT"@
    } else if m == 11 {
        "NOV"@
    } else if m == 12 {
        "DEC"@
    } else {
        "???"@
    }
}

/// `n` in decimal, with a leading zero below ten.
pub open spec fn two_digits(n: nat) -> Seq<char> {
    if n < 10 {
        seq!['0'] + decimal(n)
    } else {
        decimal(n)
    }
}

impl GameDate {
    /// The date with each part clamped: day 1 to 31, month 1 to 12, year
    /// 1900 to 2100.
    pub fn new(day: u8, month: u8, year: u16) -> (r: Self)
        ensures
            r.day == clamp(day as int, 1, 31),
            r.month == clamp(month as int, 1, 12),
            r.year == clamp(year as int, 1900, 2100),
    {
        let day = if day < 1 { 1 } else if day > 31 { 31 } else { day };
        let month = if month < 1 { 1 } else if month > 12 { 12 } else { month };
        let year = if year < 1900 { 1900 } else if year > 2100 { 2100 } else { year };
        GameDate { day, month, year }
    }

    pub fn month_name(&self) -> (r: &'static str)
        ensures
            r@ == month_abbrev(self.month),
    {
        proof {
            reveal_strlit("JAN");
            reveal_strlit("FEB");
            reveal_strlit("MAR");
            reveal_strlit("APR");
            reveal_strlit("MAY");
            reveal_strlit("JUN");
            reveal_strlit("JUL");
            reveal_strlit("AUG");
            reveal_strlit("SEP");
            reveal_strlit("OCT");
            reveal_strlit("NOV");
            reveal_strlit("DEC");
            reveal_strlit("???");
        }
        match self.month {
            1 => "JAN",
            2 => "FEB",
            3 => "MAR",
            4 => "APR",
            5 => "MAY",
            6 => "JUN",
            7 => "JUL",
            8 => "AUG",
            9 => "SEP",
            10 => "OCT",
            11 => "NOV",
            12 => "DEC",
            _ => "???",
        }
    }

    /// The date as `DD MON YYYY`, the day with at least two digits.
    pub fn to_string(&self) -> (r: String)
        ensures
            r@ == two_digits(self.day as nat) + " "@ + month_abbrev(self.month) + " "@ + decimal(
                self.year as nat,
            ),
    {
        proof {
            reveal_strlit("0");
            reveal_strlit(" ");
        }
        let mut s = if self.day < 10 {
            String::from_str("0")
        } else {
            String::new()
        };
        let day = decimal_text(self.day as u32);
        s.append(day.as_str());
        s.append(" ");
        s.append(self.month_name());
        s.append(" ");
        let year = decimal_text(self.year as u32);
        s.append(year.as_str());
        s
    }
}

/// The date picker: the date chosen so far, the years it allows and the
/// list that is open, if any.
#[derive(Debug, Clone, Copy, PartialEq, Eq, Structural)]
pub struct DateSelectorWindow {
    pub selected_date: GameDate,
    pub min_year: u16,
    pub max_year: u16,
    pub dropdown_open: Option<DateSelectorWidgets>,
}

impl DateSelectorWindow {
    /// A picker starting at `initial_date`; the years are kept within 1900
    /// to 2100.
    pub fn new(initial_date: GameDate, min_year: u16, max_year: u16) -> (r: Self)
        ensures
            r.selected_date == initial_date,
            r.min_year == if min_year >= 1900 { min_year } else { 1900 },
            r.max_year == if max_year <= 2100 { max_year } else { 2100 },
            r.dropdown_open is None,
    {
        DateSelectorWindow {
            selected_date: initial_date,
            min_year: if min_year >= 1900 { min_year } else { 1900 },
            max_year: if max_year <= 2100 { max_year } else { 2100 },
            dropdown_open: None,
        }
    }
}

/// The list that is open after the list button `w` is clicked.
pub open spec fn toggled_list(open: Option<DateSelectorWidgets>, w: DateSelectorWidgets) -> Option<DateSelectorWidgets> {
    if open == Some(w) {
        None
    } else {
        Some(w)
    }
}

/// The width of each of the three list buttons of a window `width` wide.
pub open spec fn list_width(width: u32) -> u32 {
    ((width - 60) / 3) as u32
}

/// The list button or list `k` (0 day, 1 month, 2 year) of the window at
/// `r`: `dy` below its top and `h` high.
pub open spec fn list_area(r: Rect, k: int, dy: int, h: u32) -> Rect {
    Rect {
        x: (r.x + 20 + k * (10 + list_width(r.width))) as i32,
        y: (r.y + dy) as i32,
        width: list_width(r.width),
        height: h,
    }
}

/// The entry of a list at row height twenty under the point, counting from
/// zero; the five pixels of margin belong to the first entry.
pub open spec fn list_entry(y: i32, list_y: int) -> int {
    if y - list_y - 5 < 0 {
        0
    } else {
        (y - list_y - 5) / 20
    }
}

/// The picker after a click at `y` in its open list.
pub open spec fn after_pick(w: DateSelectorWindow, x: i32, y: i32, r: Rect) -> DateSelectorWindow {
    match w.dropdown_open {
        Some(DateSelectorWidgets::DayDropdown) => if rect_has(list_area(r, 0, 110, 200), x, y) && list_entry(y, r.y + 110) + 1 <= 31 {
            DateSelectorWindow {
                selected_date: GameDate { day: (list_entry(y, r.y + 110) + 1) as u8, ..w.selected_date },
                dropdown_open: None,
                ..w
            }
        } else {
            w
        },
        Some(DateSelectorWidgets::MonthDropdown) => if rect_has(list_area(r, 1, 110, 240), x, y) && list_entry(y, r.y + 110) + 1 <= 12 {
            DateSelectorWindow {
                selected_date: GameDate { month: (list_entry(y, r.y + 110) + 1) as u8, ..w.selected_date },
                dropdown_open: None,
                ..w
            }
        } else {
            w
        },
        Some(DateSelectorWidgets::YearDropdown) => {
            let base = if w.selected_date.year >= 5 { w.selected_date.year - 5 } else { 0 };
            let start = if base >= w.min_year { base } else { w.min_year as int };
            let year = start + list_entry(y, r.y + 110);
            if rect_has(list_area(r, 2, 110, 200), x, y) && w.min_year <= year <= w.max_year {
                DateSelectorWindow {
                    selected_date: GameDate { year: year as u16, ..w.selected_date },
                    dropdown_open: None,
                    ..w
                }
            } else {
                w
            }
        },
        _ => w,
    }
}

/// The Set button of the window at `r`.
pub open spec fn set_area(r: Rect) -> Rect {
    Rect { x: (r.x + 20) as i32, y: (r.y + (r.height as i32) - 40) as i32, width: 100, height: 25 }
}

/// What a click at `x`, `y` in the picker at `r` does: the close box gives
/// nothing; a list button opens or closes its list; a click in the open
/// list picks that entry where it is allowed; then the Set button hands
/// back the date chosen.
pub open spec fn date_click(w: DateSelectorWindow, x: i32, y: i32, r: Rect) -> (DateSelectorWindow, Option<GameDate>) {
    let close = Rect { x: (r.x + (r.width as i32) - 25) as i32, y: (r.y + 5) as i32, width: 20, height: 20 };
    if rect_has(close, x, y) {
        (w, None)
    } else if rect_has(list_area(r, 0, 80, 25), x, y) {
        (DateSelectorWindow { dropdown_open: toggled_list(w.dropdown_open, DateSelectorWidgets::DayDropdown), ..w }, None)
    } else if rect_has(list_area(r, 1, 80, 25), x, y) {
        (DateSelectorWindow { dropdown_open: toggled_list(w.dropdown_open, DateSelectorWidgets::MonthDropdown), ..w }, None)
    } else if rect_has(list_area(r, 2, 80, 25), x, y) {
        (DateSelectorWindow { dropdown_open: toggled_list(w.dropdown_open, DateSelectorWidgets::YearDropdown), ..w }, None)
    } else {
        let after = after_pick(w, x, y, r);
        if rect_has(set_area(r), x, y) {
            (after, Some(after.selected_date))
        } else {
            (after, None)
        }
    }
}

fn entry_at(y: i32, list_y: i32) -> (r: i32)
    requires
        list_y <= y,
        y - list_y <= 1000,
    ensures
        r == list_entry(y, list_y as int),
        0 <= r <= 50,
{
    let relative_y = y - list_y - 5;
    if relative_y < 0 {
        0
    } else {
        relative_y / 20
    }
}

impl DateSelectorWindow {
    /// Handles a click at `x`, `y` in the picker at `window_rect`; gives the
    /// chosen date when the Set button is clicked.
    pub fn handle_click(&mut self, x: i32, y: i32, window_rect: Rect) -> (r: Option<GameDate>)
        requires
            60 <= window_rect.width <= i32::MAX,
            window_rect.x + window_rect.width <= i32::MAX,
            window_rect.y + 110 <= i32::MAX,
            i32::MIN + 40 <= window_rect.y + (window_rect.height as i32) <= i32::MAX,
        ensures
            (*final(self), r) == date_click(*old(self), x, y, window_rect),
    {
        let close_rect = Rect::new(window_rect.x + window_rect.width as i32 - 25, window_rect.y + 5, 20, 20);
        if close_rect.contains_point(x, y) {
            return None;
        }
        let content_y = window_rect.y + 40;
        let dropdown_y = content_y + 40;
        let dropdown_width = (window_rect.width - 60) / 3;
        let day_rect = Rect::new(window_rect.x + 20, dropdown_y, dropdown_width, 25);
        let month_rect = Rect::new(window_rect.x + 30 + dropdown_width as i32, dropdown_y, dropdown_width, 25);
        let year_rect = Rect::new(window_rect.x + 40 + (dropdown_width * 2) as i32, dropdown_y, dropdown_width, 25);
        proof {
            assert(list_area(window_rect, 0, 80, 25) == day_rect);
            assert(list_area(window_rect, 1, 80, 25) == month_rect);
            assert(list_area(window_rect, 2, 80, 25) == year_rect);
        }
        if day_rect.contains_point(x, y) {
            self.dropdown_open = match self.dropdown_open {
                Some(DateSelectorWidgets::DayDropdown) => None,
                _ => Some(DateSelectorWidgets::DayDropdown),
            };
            return None;
        }
        if month_rect.contains_point(x, y) {
            self.dropdown_open = match self.dropdown_open {
                Some(DateSelectorWidgets::MonthDropdown) => None,
                _ => Some(DateSelectorWidgets::MonthDropdown),
            };
            return None;
        }
        if year_rect.contains_point(x, y) {
            self.dropdown_open = match self.dropdown_open {
                Some(DateSelectorWidgets::YearDropdown) => None,
                _ => Some(DateSelectorWidgets::YearDropdown),
            };
            return None;
        }
        let list_y = dropdown_y + 30;
        match self.dropdown_open {
            Some(DateSelectorWidgets::DayDropdown) => {
                let list_rect = Rect::new(window_rect.x + 20, list_y, dropdown_width, 200);
                assert(list_area(window_rect, 0, 110, 200) == list_rect);
                if list_rect.contains_point(x, y) {
                    let day = entry_at(y, list_y) + 1;
                    if day >= 1 && day <= 31 {
                        self.selected_date.day = day as u8;
                        self.dropdown_open = None;
                    }
                }
            },
            Some(DateSelectorWidgets::MonthDropdown) => {
                let list_rect = Rect::new(window_rect.x + 30 + dropdown_width as i32, list_y, dropdown_width, 240);
                assert(list_area(window_rect, 1, 110, 240) == list_rect);
                if list_rect.contains_point(x, y) {
                    let month = entry_at(y, list_y) + 1;
                    if month >= 1 && month <= 12 {
                        self.selected_date.month = month as u8;
                        self.dropdown_open = None;
                    }
                }
            },
            Some(DateSelectorWidgets::YearDropdown) => {
                let list_rect = Rect::new(window_rect.x + 40 + (dropdown_width * 2) as i32, list_y, dropdown_width, 200);
                assert(list_area(window_rect, 2, 110, 200) == list_rect);
                if list_rect.contains_point(x, y) {
                    let index = entry_at(y, list_y);
                    let base = if self.selected_date.year >= 5 { self.selected_date.year - 5 } else { 0 };
                    let start = if base >= self.min_year { base } else { self.min_year };
                    let year = start as u32 + index as u32;
                    if year >= self.min_year as u32 && year <= self.max_year as u32 {
                        self.selected_date.year = year as u16;
                        self.dropdown_open = None;
                    }
                }
            },
            _ => {},
        }
        let button_y = window_rect.y + window_rect.height as i32 - 40;
        let set_rect = Rect::new(window_rect.x + 20, button_y, 100, 25);
        if set_rect.contains_point(x, y) {
            return Some(self.selected_date);
        }
        None
    }
}

} // verus!
