//! Towns: their size, ratings per company and growth flags.
use vstd::prelude::*;

use crate::map::TileIndex;
use crate::types::{CargoType, CompanyMask, Owner, StationID, StringID, TownID, INVALID_STRING_ID};

verus! {

/// The size classes of towns.
#[derive(Debug, Clone, Copy, PartialEq, Eq, Structural)]
pub enum TownSize {
    Small,
    Medium,
    Large,
    /// A choice for the settings only.
    Random,
}

/// Whether players may found towns.
#[derive(Debug, Clone, Copy, PartialEq, Eq, Structural)]
pub enum TownFounding {
    Forbidden,
    Allowed,
    Custom,
}

/// The road layouts of towns.
#[derive(Debug, Clone, Copy, PartialEq, Eq, Structural)]
pub enum TownLayout {
    Original,
    Better,
    TwoByTwo,
    ThreeByThree,
    Random,
}

pub const RATING_MINIMUM: i16 = -1000;

pub const RATING_APPALLING: i16 = -400;

pub const RATING_VERYBAD: i16 = -200;

pub const RATING_BAD: i16 = 0;

pub const RATING_MEDIOCRE: i16 = 200;

pub const RATING_GOOD: i16 = 400;

pub const RATING_VERYGOOD: i16 = 600;

pub const RATING_EXCELLENT: i16 = 800;

pub const RATING_MAXIMUM: i16 = 1000;

/// The number of companies a town keeps ratings for.
pub const MAX_COMPANIES: usize = 15;

/// The zones of a town's houses.
#[derive(Debug, Clone, Copy, PartialEq, Eq, Structural)]
pub enum HouseZone {
    NoZone,
    Residential1,
    Residential2,
    Commercial,
    Industrial,
}

/// What a town needs to grow.
#[derive(Debug, Clone, Copy, PartialEq, Eq, Structural)]
pub enum TownGrowth {
    Normal,
    Desert,
    Arctic,
}

/// A set of town actions, one bit each.
pub type TownActions = u8;

pub const TACT_NONE: TownActions = 0x00;

pub const TACT_ADVERTISE_SMALL: TownActions = 0x01;

pub const TACT_ADVERTISE_MEDIUM: TownActions = 0x02;

pub const TACT_ADVERTISE_LARGE: TownActions = 0x04;

pub const TACT_ROAD_REBUILD: TownActions = 0x08;

pub const TACT_BUILD_STATUE: TownActions = 0x10;

pub const TACT_FUND_BUILDINGS: TownActions = 0x20;

pub const TACT_BUY_RIGHTS: TownActions = 0x40;

pub const TACT_BRIBE: TownActions = 0x80;

/// A set of town flags, one bit each.
pub type TownFlags = u8;

pub const TOWN_IS_GROWING: TownFlags = 0x01;

pub const TOWN_HAS_CATHEDRAL: TownFlags = 0x02;

pub const TOWN_HAS_STADIUM: TownFlags = 0x04;

pub const TOWN_CUSTOM_GROWTH: TownFlags = 0x08;

/// How much a town accepts of one cargo: 0 to 15, 8 being full acceptance.
#[derive(Debug, Clone, Copy, PartialEq, Eq, Structural)]
pub struct CargoAcceptance {
    pub cargo: CargoType,
    pub acceptance: u8,
}

/// A town's cargo counts, per cargo type.
#[derive(Debug, Clone, Copy, PartialEq, Eq)]
pub struct TownCargo {
    pub produced: [u32; 64],
    pub accepted: [u32; 64],
    pub received: [u32; 64],
}

impl Default for TownCargo {
    fn default() -> (r: Self)
        ensures
            forall|i: int|
                0 <= i < 64 ==> r.produced@[i] == 0 && r.accepted@[i] == 0 && r.received@[i] == 0,
    {
        TownCargo { produced: [0; 64], accepted: [0; 64], received: [0; 64] }
    }
}

/// A town.
#[derive(Debug, Clone)]
pub struct Town {
    pub index: TownID,
    pub xy: TileIndex,
    pub townnamegrfid: u32,
    pub townnametype: u16,
    pub townnameparts: u32,
    pub name: StringID,
    pub flags: TownFlags,
    pub church_count: u16,
    pub stadium_count: u16,
    pub population: u32,
    pub num_houses: u32,
    pub time_until_rebuild: u16,
    pub grow_counter: u16,
    /// Lower is faster.
    pub growth_rate: i16,
    /// Houses per zone.
    pub house_counts: [u32; 5],
    pub cargo: TownCargo,
    pub ratings: [i16; 15],
    pub test_ratings: [i16; 15],
    /// One bit per company that has a statue here.
    pub have_statue: CompanyMask,
    pub exclusive_counter: u8,
    pub exclusivity: Owner,
    pub fund_buildings_months: u8,
    pub road_build_months: u8,
    pub layout: TownLayout,
    pub larger_town: bool,
    pub label_style: u8,
    pub supplied_last_month: [u32; 64],
    pub received_last_month: [u32; 64],
    pub noise_reached: u16,
    pub stations_near: Vec<StationID>,
}

/// The size class of a town of `population` people.
pub open spec fn town_size_of(population: u32) -> TownSize {
    if population < 1000 {
        TownSize::Small
    } else if population < 3000 {
        TownSize::Medium
    } else {
        TownSize::Large
    }
}

impl Town {
    /// A new, empty town at `location`, without a custom name, with all
    /// ratings zero and no exclusive rights.
    pub fn new(index: TownID, location: TileIndex) -> (r: Self)
        ensures
            r.index == index,
            r.xy == location,
            r.name == INVALID_STRING_ID,
            r.flags == 0,
            r.population == 0,
            r.num_houses == 0,
            r.have_statue == 0,
            r.exclusivity == Owner::Nobody,
            r.layout == TownLayout::Original,
            !r.larger_town,
            r.stations_near@.len() == 0,
            forall|i: int| 0 <= i < 15 ==> #[trigger] r.ratings@[i] == 0,
    {
        Town {
            index,
            xy: location,
            townnamegrfid: 0,
            townnametype: 0,
            townnameparts: 0,
            name: INVALID_STRING_ID,
            flags: 0,
            church_count: 0,
            stadium_count: 0,
            population: 0,
            num_houses: 0,
            time_until_rebuild: 0,
            grow_counter: 0,
            growth_rate: 0,
            house_counts: [0; 5],
            cargo: TownCargo::default(),
            ratings: [0; 15],
            test_ratings: [0; 15],
            have_statue: 0,
            exclusive_counter: 0,
            exclusivity: Owner::Nobody,
            fund_buildings_months: 0,
            road_build_months: 0,
            layout: TownLayout::Original,
            larger_town: false,
            label_style: 0,
            supplied_last_month: [0; 64],
            received_last_month: [0; 64],
            noise_reached: 0,
            stations_near: Vec::new(),
        }
    }

    pub fn is_growing(&self) -> (r: bool)
        ensures
            r == (self.flags & TOWN_IS_GROWING != 0),
    {
        self.flags & TOWN_IS_GROWING != 0
    }

    /// The town's rating of `company`; zero for a number above fourteen.
    pub fn get_rating(&self, company: u8) -> (r: i16)
        ensures
            r == if company < 15 {
                self.ratings@[company as int]
            } else {
                0
            },
    {
        if company < 15 {
            self.ratings[company as usize]
        } else {
            0
        }
    }

    /// Whether `company` has a statue here; never for a number above fourteen.
    pub fn has_statue(&self, company: u8) -> (r: bool)
        ensures
            r == (company < 15 && self.have_statue & (1u16 << company) != 0),
    {
        if company < 15 {
            self.have_statue & (1u16 << company) != 0
        } else {
            false
        }
    }

    pub fn get_town_size(&self) -> (r: TownSize)
        ensures
            r == town_size_of(self.population),
    {
        if self.population < 1000 {
            TownSize::Small
        } else if self.population < 3000 {
            TownSize::Medium
        } else {
            TownSize::Large
        }
    }
}

} // verus!
