//! Stations: their facilities, cargo ratings and catchment.
use vstd::prelude::*;

use crate::map::TileIndex;
use crate::types::{
    CalendarDate, CargoType, EconomyDate, IndustryID, Owner, StationID, StringID, TownID,
    INVALID_STRING_ID,
};

verus! {

/// A set of station facilities, one bit each.
pub type StationFacility = u8;

pub const FACIL_NONE: StationFacility = 0;

pub const FACIL_TRAIN: StationFacility = 1;

pub const FACIL_TRUCK_STOP: StationFacility = 2;

pub const FACIL_BUS_STOP: StationFacility = 4;

pub const FACIL_AIRPORT: StationFacility = 8;

pub const FACIL_DOCK: StationFacility = 16;

pub const FACIL_WAYPOINT: StationFacility = 128;

/// The kinds of station.
#[derive(Debug, Clone, Copy, PartialEq, Eq, Structural)]
pub enum StationType {
    RailStation,
    AirportStation,
    TruckStation,
    BusStation,
    OilRig,
    DockStation,
    BuoyStation,
    WaypointStation,
}

/// Catchment radii per facility.
pub const CA_NONE: u8 = 0;

pub const CA_BUS: u8 = 3;

pub const CA_TRUCK: u8 = 3;

pub const CA_TRAIN: u8 = 4;

pub const CA_DOCK: u8 = 5;

/// The kinds of airport.
#[derive(Debug, Clone, Copy, PartialEq, Eq, Structural)]
pub enum AirportType {
    Small,
    Large,
    Heliport,
    Metropolitan,
    International,
    Commuter,
    Helidepot,
    Intercontinental,
    Helistation,
    Oilrig,
    Invalid,
}

/// The number of cargo slots of a station.
pub const NUM_CARGO: usize = 64;

/// Cargo waiting at a station.
#[derive(Debug, Clone, Copy, PartialEq, Eq, Structural)]
pub struct StationCargoWaiting {
    pub cargo: CargoType,
    pub amount: u16,
    pub source: StationID,
    pub days_in_transit: u16,
    pub rating: u8,
    pub last_speed: u8,
    pub last_age: u8,
    pub time_since_pickup: u8,
}

/// What a station knows of one cargo type.
#[derive(Debug, Clone, Copy, PartialEq, Eq, Structural)]
pub struct GoodsEntry {
    pub acceptance: bool,
    pub rating: u8,
    pub last_speed: u8,
    pub last_age: u8,
    pub amount_waiting: u16,
    pub time_since_pickup: u8,
    pub days_in_transit: u16,
    pub max_waiting_cargo: u16,
    pub from: StationID,
    pub via: StationID,
}

/// The entry of a cargo that has never been seen: all zero.
pub open spec fn empty_goods() -> GoodsEntry {
    GoodsEntry {
        acceptance: false,
        rating: 0,
        last_speed: 0,
        last_age: 0,
        amount_waiting: 0,
        time_since_pickup: 0,
        days_in_transit: 0,
        max_waiting_cargo: 0,
        from: StationID(0),
        via: StationID(0),
    }
}

impl Default for GoodsEntry {
    fn default() -> (r: Self)
        ensures
            r == empty_goods(),
    {
        GoodsEntry {
            acceptance: false,
            rating: 0,
            last_speed: 0,
            last_age: 0,
            amount_waiting: 0,
            time_since_pickup: 0,
            days_in_transit: 0,
            max_waiting_cargo: 0,
            from: StationID(0),
            via: StationID(0),
        }
    }
}

/// The custom station layout in use.
#[derive(Debug, Clone, Copy, PartialEq, Eq, Structural)]
pub struct StationSpec {
    pub cls_id: u32,
    pub spec_index: u8,
    pub grf_id: u32,
}

/// A rectangle of tiles, bounds included.
#[derive(Debug, Clone, Copy, PartialEq, Eq, Structural)]
pub struct StationRect {
    pub left: i32,
    pub top: i32,
    pub right: i32,
    pub bottom: i32,
}

impl Default for StationRect {
    fn default() -> (r: Self)
        ensures
            r == (StationRect { left: 0, top: 0, right: 0, bottom: 0 }),
    {
        StationRect { left: 0, top: 0, right: 0, bottom: 0 }
    }
}

impl StationRect {
    pub fn is_empty(&self) -> (r: bool)
        ensures
            r == (self.left > self.right || self.top > self.bottom),
    {
        self.left > self.right || self.top > self.bottom
    }

    /// The number of columns, zero for an empty rectangle; taken modulo 2^32.
    pub fn width(&self) -> (r: u32)
        ensures
            self.left > self.right || self.top > self.bottom ==> r == 0,
            !(self.left > self.right || self.top > self.bottom) ==> r == (self.right - self.left
                + 1) as u32,
    {
        if self.is_empty() {
            0
        } else {
            (self.right as i64 - self.left as i64 + 1) as u32
        }
    }

    /// The number of rows, zero for an empty rectangle; taken modulo 2^32.
    pub fn height(&self) -> (r: u32)
        ensures
            self.left > self.right || self.top > self.bottom ==> r == 0,
            !(self.left > self.right || self.top > self.bottom) ==> r == (self.bottom - self.top
                + 1) as u32,
    {
        if self.is_empty() {
            0
        } else {
            (self.bottom as i64 - self.top as i64 + 1) as u32
        }
    }
}

/// A station.
#[derive(Debug, Clone)]
pub struct Station {
    pub index: StationID,
    pub xy: TileIndex,
    pub rect: StationRect,
    pub name: StringID,
    pub string_id: StringID,
    pub town: TownID,
    pub owner: Owner,
    pub facilities: StationFacility,
    pub airport_type: AirportType,
    pub airport_flags: u64,
    pub airport_rotation: u8,
    pub dock_tile: TileIndex,
    pub train_station: StationRect,
    pub build_date: CalendarDate,
    pub bus_stop_status: u8,
    pub truck_stop_status: u8,
    pub had_vehicle_of_type: u8,
    pub goods: [GoodsEntry; 64],
    pub acceptance: [u32; 64],
    pub time_since_load: u8,
    pub time_since_unload: u8,
    pub sign: StationRect,
    pub cargo_waiting: Vec<StationCargoWaiting>,
    pub industries_near: Vec<IndustryID>,
    pub spec: StationSpec,
    pub last_pickup_date: [EconomyDate; 64],
}

/// The catchment radius of an airport of type `t`.
pub open spec fn airport_radius(t: AirportType) -> u8 {
    match t {
        AirportType::Small | AirportType::Heliport => 4,
        AirportType::Large | AirportType::Metropolitan => 6,
        AirportType::International => 8,
        AirportType::Intercontinental => 10,
        _ => 4,
    }
}

pub open spec fn max_u8(a: u8, b: u8) -> u8 {
    if a >= b {
        a
    } else {
        b
    }
}

/// The largest catchment radius among the facilities `f`, the airport
/// counted by its type `t`; zero without facilities.
pub open spec fn catchment_radius(f: u8, t: AirportType) -> u8 {
    let r0 = CA_NONE;
    let r1 = if f & FACIL_TRAIN != 0 { max_u8(r0, CA_TRAIN) } else { r0 };
    let r2 = if f & FACIL_DOCK != 0 { max_u8(r1, CA_DOCK) } else { r1 };
    let r3 = if f & FACIL_BUS_STOP != 0 { max_u8(r2, CA_BUS) } else { r2 };
    let r4 = if f & FACIL_TRUCK_STOP != 0 { max_u8(r3, CA_TRUCK) } else { r3 };
    if f & FACIL_AIRPORT != 0 { max_u8(r4, airport_radius(t)) } else { r4 }
}

fn max_of(a: u8, b: u8) -> (r: u8)
    ensures
        r == max_u8(a, b),
{
    if a >= b {
        a
    } else {
        b
    }
}

impl Station {
    /// A new station of `owner` at `location`, without facilities, name or
    /// town, with no cargo seen.
    pub fn new(index: StationID, location: TileIndex, owner: Owner) -> (r: Self)
        ensures
            r.index == index,
            r.xy == location,
            r.owner == owner,
            r.facilities == FACIL_NONE,
            r.name == INVALID_STRING_ID,
            r.string_id == INVALID_STRING_ID,
            r.town.0 == 0xFFFF,
            r.airport_type == AirportType::Invalid,
            r.dock_tile.0 == 0xFFFF_FFFF,
            r.time_since_load == 255,
            r.time_since_unload == 255,
            r.cargo_waiting@.len() == 0,
            r.industries_near@.len() == 0,
            forall|i: int| 0 <= i < 64 ==> #[trigger] r.goods@[i] == empty_goods(),
            forall|i: int| 0 <= i < 64 ==> #[trigger] r.acceptance@[i] == 0,
    {
        let goods = GoodsEntry::default();
        let rect = StationRect::default();
        Station {
            index,
            xy: location,
            rect,
            name: INVALID_STRING_ID,
            string_id: INVALID_STRING_ID,
            town: TownID::invalid(),
            owner,
            facilities: FACIL_NONE,
            airport_type: AirportType::Invalid,
            airport_flags: 0,
            airport_rotation: 0,
            dock_tile: TileIndex::invalid(),
            train_station: rect,
            build_date: CalendarDate(0),
            bus_stop_status: 0,
            truck_stop_status: 0,
            had_vehicle_of_type: 0,
            goods: [goods; 64],
            acceptance: [0; 64],
            time_since_load: 255,
            time_since_unload: 255,
            sign: rect,
            cargo_waiting: Vec::new(),
            industries_near: Vec::new(),
            spec: StationSpec { cls_id: 0, spec_index: 0, grf_id: 0 },
            last_pickup_date: [EconomyDate(0); 64],
        }
    }

    /// Whether the station has any of the facilities `facilities`.
    pub fn has_facilities(&self, facilities: StationFacility) -> (r: bool)
        ensures
            r == (self.facilities & facilities != 0),
    {
        self.facilities & facilities != 0
    }

    /// Whether the station is a waypoint and nothing else.
    pub fn is_waypoint(&self) -> (r: bool)
        ensures
            r == (self.facilities == FACIL_WAYPOINT),
    {
        self.facilities == FACIL_WAYPOINT
    }

    pub fn has_airport(&self) -> (r: bool)
        ensures
            r == (self.facilities & FACIL_AIRPORT != 0),
    {
        self.has_facilities(FACIL_AIRPORT)
    }

    pub fn has_dock(&self) -> (r: bool)
        ensures
            r == (self.facilities & FACIL_DOCK != 0),
    {
        self.has_facilities(FACIL_DOCK)
    }

    /// Whether the station accepts `cargo`; never for an invalid cargo.
    pub fn accepts_cargo(&self, cargo: CargoType) -> (r: bool)
        ensures
            r == (cargo.0 < 64 && self.goods@[cargo.0 as int].acceptance),
    {
        cargo.as_u16() < 64 && self.goods[cargo.as_usize()].acceptance
    }

    /// The amount of `cargo` waiting; zero for an invalid cargo.
    pub fn get_waiting_cargo(&self, cargo: CargoType) -> (r: u16)
        ensures
            r == if cargo.0 < 64 {
                self.goods@[cargo.0 as int].amount_waiting
            } else {
                0
            },
    {
        if cargo.as_u16() < 64 {
            self.goods[cargo.as_usize()].amount_waiting
        } else {
            0
        }
    }

    /// The rating of `cargo`; zero for an invalid cargo.
    pub fn get_rating(&self, cargo: CargoType) -> (r: u8)
        ensures
            r == if cargo.0 < 64 {
                self.goods@[cargo.0 as int].rating
            } else {
                0
            },
    {
        if cargo.as_u16() < 64 {
            self.goods[cargo.as_usize()].rating
        } else {
            0
        }
    }

    /// The largest catchment radius among the station's facilities.
    pub fn get_catchment_radius(&self) -> (r: u8)
        ensures
            r == catchment_radius(self.facilities, self.airport_type),
    {
        let mut radius = CA_NONE;
        if self.has_facilities(FACIL_TRAIN) {
            radius = max_of(radius, CA_TRAIN);
        }
        if self.has_facilities(FACIL_DOCK) {
            radius = max_of(radius, CA_DOCK);
        }
        if self.has_facilities(FACIL_BUS_STOP) {
            radius = max_of(radius, CA_BUS);
        }
        if self.has_facilities(FACIL_TRUCK_STOP) {
            radius = max_of(radius, CA_TRUCK);
        }
        if self.has_airport() {
            let airport: u8 = match self.airport_type {
                AirportType::Small | AirportType::Heliport => 4,
                AirportType::Large | AirportType::Metropolitan => 6,
                AirportType::International => 8,
                AirportType::Intercontinental => 10,
                _ => 4,
            };
            radius = max_of(radius, airport);
        }
        radius
    }
}

} // verus!
