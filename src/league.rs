//! The league table: companies ranked by their performance rating, and the
//! titles those ratings earn.
use vstd::prelude::*;

use crate::gfx::{rect_has, Colour, Rect};

verus! {

/// The identifier of the league table window.
pub const LEAGUE_WINDOW_ID: u32 = 4000;

/// The identifier of the performance detail window.
pub const PERFORMANCE_DETAIL_WINDOW_ID: u32 = 4001;

/// The title a performance rating earns.
#[derive(Debug, Clone, Copy, PartialEq, Eq, Structural)]
pub enum PerformanceTitle {
    Engineer,
    TrafficManager,
    TransportCoordinator,
    RouteSupervisor,
    Director,
    ChiefExecutive,
    Chairman,
    President,
    Tycoon,
}

/// The title for a rating: one per band of 128 points up to 895, then
/// President to 959 and Tycoon above.
pub open spec fn title_for(rating: u32) -> PerformanceTitle {
    if rating <= 127 {
        PerformanceTitle::Engineer
    } else if rating <= 255 {
        PerformanceTitle::TrafficManager
    } else if rating <= 383 {
        PerformanceTitle::TransportCoordinator
    } else if rating <= 511 {
        PerformanceTitle::RouteSupervisor
    } else if rating <= 639 {
        PerformanceTitle::Director
    } else if rating <= 767 {
        PerformanceTitle::ChiefExecutive
    } else if rating <= 895 {
        PerformanceTitle::Chairman
    } else if rating <= 959 {
        PerformanceTitle::President
    } else {
        PerformanceTitle::Tycoon
    }
}

pub open spec fn title_text(t: PerformanceTitle) -> Seq<char> {
    match t {
        PerformanceTitle::Engineer => "Engineer"@,
        PerformanceTitle::TrafficManager => "Traffic Manager"@,
        PerformanceTitle::TransportCoordinator => "Transport Coordinator"@,
        PerformanceTitle::RouteSupervisor => "Route Supervisor"@,
        PerformanceTitle::Director => "Director"@,
        PerformanceTitle::ChiefExecutive => "Chief Executive"@,
        PerformanceTitle::Chairman => "Chairman"@,
        PerformanceTitle::President => "President"@,
        PerformanceTitle::Tycoon => "Tycoon of the Century"@,
    }
}

impl PerformanceTitle {
    pub fn from_rating(rating: u32) -> (r: Self)
        ensures
            r == title_for(rating),
    {
        if rating <= 127 {
            PerformanceTitle::Engineer
        } else if rating <= 255 {
            PerformanceTitle::TrafficManager
        } else if rating <= 383 {
            PerformanceTitle::TransportCoordinator
        } else if rating <= 511 {
            PerformanceTitle::RouteSupervisor
        } else if rating <= 639 {
            PerformanceTitle::Director
        } else if rating <= 767 {
            PerformanceTitle::ChiefExecutive
        } else if rating <= 895 {
            PerformanceTitle::Chairman
        } else if rating <= 959 {
            PerformanceTitle::President
        } else {
            PerformanceTitle::Tycoon
        }
    }

    pub fn as_str(&self) -> (r: &'static str)
        ensures
            r@ == title_text(*self),
    {
        proof {
            reveal_strlit("Engineer");
            reveal_strlit("Traffic Manager");
            reveal_strlit("Transport Coordinator");
            reveal_strlit("Route Supervisor");
            reveal_strlit("Director");
            reveal_strlit("Chief Executive");
            reveal_strlit("Chairman");
            reveal_strlit("President");
            reveal_strlit("Tycoon of the Century");
        }
        match self {
            PerformanceTitle::Engineer => "Engineer",
            PerformanceTitle::TrafficManager => "Traffic Manager",
            PerformanceTitle::TransportCoordinator => "Transport Coordinator",
            PerformanceTitle::RouteSupervisor => "Route Supervisor",
            PerformanceTitle::Director => "Director",
            PerformanceTitle::ChiefExecutive => "Chief Executive",
            PerformanceTitle::Chairman => "Chairman",
            PerformanceTitle::President => "President",
            PerformanceTitle::Tycoon => "Tycoon of the Century",
        }
    }
}

/// The colours a company can take in the league table.
#[derive(Debug, Clone, Copy, PartialEq, Eq, Structural)]
pub enum CompanyColor {
    Red,
    Blue,
    Green,
    Yellow,
    Orange,
    Purple,
    Brown,
    Grey,
}

pub open spec fn company_colour(c: CompanyColor) -> Colour {
    match c {
        CompanyColor::Red => Colour { r: 200, g: 0, b: 0, a: 255 },
        CompanyColor::Blue => Colour { r: 0, g: 0, b: 200, a: 255 },
        CompanyColor::Green => Colour { r: 0, g: 160, b: 0, a: 255 },
        CompanyColor::Yellow => Colour { r: 200, g: 200, b: 0, a: 255 },
        CompanyColor::Orange => Colour { r: 255, g: 128, b: 0, a: 255 },
        CompanyColor::Purple => Colour { r: 128, g: 0, b: 200, a: 255 },
        CompanyColor::Brown => Colour { r: 139, g: 69, b: 19, a: 255 },
        CompanyColor::Grey => Colour { r: 128, g: 128, b: 128, a: 255 },
    }
}

impl CompanyColor {
    pub fn to_colour(&self) -> (r: Colour)
        ensures
            r == company_colour(*self),
    {
        match self {
            CompanyColor::Red => Colour::rgb(200, 0, 0),
            CompanyColor::Blue => Colour::rgb(0, 0, 200),
            CompanyColor::Green => Colour::rgb(0, 160, 0),
            CompanyColor::Yellow => Colour::rgb(200, 200, 0),
            CompanyColor::Orange => Colour::rgb(255, 128, 0),
            CompanyColor::Purple => Colour::rgb(128, 0, 200),
            CompanyColor::Brown => Colour::rgb(139, 69, 19),
            CompanyColor::Grey => Colour::rgb(128, 128, 128),
        }
    }
}

/// One row of the league table.
#[derive(Debug, Clone)]
pub struct CompanyInfo {
    pub id: u8,
    pub name: String,
    pub manager: String,
    pub color: CompanyColor,
    /// Performance rating, 0 to 1000.
    pub rating: u32,
    pub value: i64,
    pub vehicles: u32,
}

impl CompanyInfo {
    pub fn get_title(&self) -> (r: PerformanceTitle)
        ensures
            r == title_for(self.rating),
    {
        PerformanceTitle::from_rating(self.rating)
    }
}

/// The league table window: its companies and the one selected.
pub struct LeagueWindow {
    pub companies: Vec<CompanyInfo>,
    pub selected_company: Option<u8>,
}

impl LeagueWindow {
    /// A league table filled with four sample companies.
    pub fn new() -> (r: Self)
        ensures
            r.companies@.len() == 4,
            r.companies@[0].id == 0 && r.companies@[0].rating == 850 && r.companies@[0].color == CompanyColor::Red,
            r.companies@[1].id == 1 && r.companies@[1].rating == 720 && r.companies@[1].color == CompanyColor::Blue,
            r.companies@[2].id == 2 && r.companies@[2].rating == 650 && r.companies@[2].color == CompanyColor::Green,
            r.companies@[3].id == 3 && r.companies@[3].rating == 580 && r.companies@[3].color == CompanyColor::Yellow,
            r.selected_company is None,
    {
        let mut companies: Vec<CompanyInfo> = Vec::new();
        companies.push(
            CompanyInfo {
                id: 0,
                name: String::from_str("Transport Tycoon Ltd"),
                manager: String::from_str("Player 1"),
                color: CompanyColor::Red,
                rating: 850,
                value: 5000000,
                vehicles: 45,
            },
        );
        companies.push(
            CompanyInfo {
                id: 1,
                name: String::from_str("City Connect"),
                manager: String::from_str("Player 2"),
                color: CompanyColor::Blue,
                rating: 720,
                value: 3500000,
                vehicles: 32,
            },
        );
        companies.push(
            CompanyInfo {
                id: 2,
                name: String::from_str("Rural Routes Co"),
                manager: String::from_str("Player 3"),
                color: CompanyColor::Green,
                rating: 650,
                value: 2800000,
                vehicles: 28,
            },
        );
        companies.push(
            CompanyInfo {
                id: 3,
                name: String::from_str("Express Logistics"),
                manager: String::from_str("AI Player"),
                color: CompanyColor::Yellow,
                rating: 580,
                value: 2200000,
                vehicles: 24,
            },
        );
        LeagueWindow { companies, selected_company: None }
    }
}

/// The place of company `c` when the companies `rs` (their ratings) are
/// listed best first, ties kept in their order.
pub open spec fn rank(rs: Seq<u32>, c: int) -> int {
    (rs.filter(|r: u32| r > rs[c]).len() + rs.take(c).filter(|r: u32| r == rs[c]).len()) as int
}

/// The row of place `k` in the league table at `r`.
pub open spec fn row_area(r: Rect, k: int) -> Rect {
    Rect { x: (r.x + 5) as i32, y: (r.y + 70 + 28 * k - 4) as i32, width: (r.width - 10) as u32, height: 24 }
}

/// The ratings of the companies `cs`, in order.
pub open spec fn ratings(cs: Seq<CompanyInfo>) -> Seq<u32> {
    cs.map_values(|c: CompanyInfo| c.rating)
}

/// Whether company `c` sits in the row under the point.
pub open spec fn hit(cs: Seq<CompanyInfo>, c: int, x: i32, y: i32, r: Rect) -> bool {
    rect_has(row_area(r, rank(ratings(cs), c)), x, y)
}

fn count_rank(cs: &Vec<CompanyInfo>, c: usize) -> (k: usize)
    requires
        c < cs@.len() <= 100_000_000,
    ensures
        k == rank(ratings(cs@), c as int),
        k <= 2 * cs@.len(),
{
    let ghost rs = ratings(cs@);
    let target = cs[c].rating;
    let mut above: usize = 0;
    let mut ties: usize = 0;
    let mut j: usize = 0;
    while j < cs.len()
        invariant
            j <= cs@.len() <= 100_000_000,
            c < cs@.len(),
            rs == ratings(cs@),
            target == rs[c as int],
            above == rs.take(j as int).filter(|r: u32| r > rs[c as int]).len(),
            ties == rs.take(if j < c { j as int } else { c as int }).filter(|r: u32| r == rs[c as int]).len(),
            above <= j,
            ties <= j,
        decreases cs@.len() - j,
    {
        let rj = cs[j].rating;
        proof {
            let gt = |r: u32| r > rs[c as int];
            let eq = |r: u32| r == rs[c as int];
            assert(rs.take(j + 1) == rs.take(j as int).push(rs[j as int]));
            rs.take(j as int).lemma_filter_push(rs[j as int], gt);
            if j < c {
                rs.take(j as int).lemma_filter_push(rs[j as int], eq);
            }
            rs.take(j as int).lemma_filter_len(gt);
            rs.take(j as int).lemma_filter_len(eq);
        }
        if rj > target {
            above = above + 1;
        }
        if j < c && rj == target {
            ties = ties + 1;
        }
        j = j + 1;
    }
    proof {
        assert(rs.take(cs@.len() as int) == rs);
    }
    above + ties
}

/// What a click in the league table asks for.
#[derive(Debug, Clone, PartialEq, Eq, Structural)]
pub enum WindowAction {
    Close,
    CompanySelected(u8),
}

/// What a click at `x`, `y` in the league table at `r` asks for: the close
/// box closes it; a company's row selects that company.
pub open spec fn league_click(cs: Seq<CompanyInfo>, x: i32, y: i32, r: Rect) -> Option<WindowAction> {
    let close = Rect { x: (r.x + (r.width as i32) - 25) as i32, y: (r.y + 5) as i32, width: 20, height: 20 };
    if rect_has(close, x, y) {
        Some(WindowAction::Close)
    } else if exists|c: int| 0 <= c < cs.len() && hit(cs, c, x, y, r) {
        let c = choose|c: int| 0 <= c < cs.len() && hit(cs, c, x, y, r) && forall|d: int| 0 <= d < c ==> !hit(cs, d, x, y, r);
        Some(WindowAction::CompanySelected(cs[c].id))
    } else {
        None
    }
}

impl LeagueWindow {
    /// Handles a click at `x`, `y` in the league table at `rect`; the rows
    /// list the companies best rated first.
    pub fn handle_click(&mut self, x: i32, y: i32, rect: Rect) -> (r: Option<WindowAction>)
        requires
            10 <= rect.width <= i32::MAX,
            i32::MIN + 25 <= rect.x + rect.width <= i32::MAX,
            56 * old(self).companies@.len() <= i32::MAX,
            rect.y + 70 + 56 * old(self).companies@.len() <= i32::MAX,
        ensures
            r == league_click(old(self).companies@, x, y, rect),
            final(self).companies@ == old(self).companies@,
            r matches Some(WindowAction::CompanySelected(id)) ==> final(self).selected_company == Some(id),
    {
        let close_rect = Rect::new(rect.x + rect.width as i32 - 25, rect.y + 5, 20, 20);
        if close_rect.contains_point(x, y) {
            return Some(WindowAction::Close);
        }
        let mut c: usize = 0;
        while c < self.companies.len()
            invariant
                c <= self.companies@.len(),
                self.companies@ == old(self).companies@,
                10 <= rect.width <= i32::MAX,
                i32::MIN + 25 <= rect.x + rect.width <= i32::MAX,
                56 * self.companies@.len() <= i32::MAX,
                rect.y + 70 + 56 * self.companies@.len() <= i32::MAX,
                forall|d: int| 0 <= d < c ==> !hit(self.companies@, d, x, y, rect),
            decreases self.companies@.len() - c,
        {
            let k = count_rank(&self.companies, c);
            assert(self.companies@.len() <= 100_000_000);
            assert(k as i32 as int == k);
            assert(rect.y + 70 + 28 * k <= i32::MAX);
            let row_y = rect.y + 70 + (k as i32) * 28;
            let row_rect = Rect::new(rect.x + 5, row_y - 4, rect.width - 10, 24);
            if row_rect.contains_point(x, y) {
                let id = self.companies[c].id;
                self.selected_company = Some(id);
                proof {
                    let cs = self.companies@;
                    assert(hit(cs, c as int, x, y, rect));
                    let w = choose|w: int| 0 <= w < cs.len() && hit(cs, w, x, y, rect) && forall|d: int| 0 <= d < w ==> !hit(cs, d, x, y, rect);
                    assert(w == c as int) by {
                        if w < c as int {
                        } else if w > c as int {
                        }
                    }
                }
                return Some(WindowAction::CompanySelected(id));
            }
            c = c + 1;
        }
        None
    }
}

/// The window with the details of one company's rating.
pub struct PerformanceDetailWindow {
    pub company_id: u8,
    pub company: CompanyInfo,
}

impl PerformanceDetailWindow {
    pub fn new(company: CompanyInfo) -> (r: Self)
        ensures
            r.company_id == company.id,
            r.company.id == company.id,
            r.company.rating == company.rating,
    {
        PerformanceDetailWindow { company_id: company.id, company }
    }
}

} // verus!
