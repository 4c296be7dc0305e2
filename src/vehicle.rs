//! Vehicles: the common record and the data of each vehicle kind.
use vstd::prelude::*;

use crate::map::TileIndex;
use crate::types::{
    CalendarDate, CalendarYear, CargoType, EconomyDate, EngineID, GroupID, Money, OwnerID,
    StationID, Tick, UnitID, VehicleID,
};

verus! {

pub const VEHICLE_LENGTH: u32 = 8;

pub const TILE_AXIAL_DISTANCE: u32 = 192;

pub const TILE_CORNER_DISTANCE: u32 = 128;

pub const GROUND_ACCELERATION: i32 = 9800;

/// The kinds of vehicle.
#[derive(Debug, Clone, Copy, PartialEq, Eq, Structural)]
pub enum VehicleType {
    Train,
    Road,
    Ship,
    Aircraft,
    Effect,
    Disaster,
    Invalid,
}

/// The number that stands for each variant on disk.
pub open spec fn vehicle_type_code(v: VehicleType) -> u8 {
    match v {
        VehicleType::Train => 0,
        VehicleType::Road => 1,
        VehicleType::Ship => 2,
        VehicleType::Aircraft => 3,
        VehicleType::Effect => 4,
        VehicleType::Disaster => 5,
        VehicleType::Invalid => 255,
    }
}

impl VehicleType {
    pub fn as_u8(self) -> (r: u8)
        ensures
            r == vehicle_type_code(self),
    {
        match self {
            VehicleType::Train => 0,
            VehicleType::Road => 1,
            VehicleType::Ship => 2,
            VehicleType::Aircraft => 3,
            VehicleType::Effect => 4,
            VehicleType::Disaster => 5,
            VehicleType::Invalid => 255,
        }
    }
}

/// The direction a vehicle faces.
#[derive(Debug, Clone, Copy, PartialEq, Eq, Structural)]
pub enum Direction {
    N,
    NE,
    E,
    SE,
    S,
    SW,
    W,
    NW,
    Invalid,
}

/// The number that stands for each variant on disk.
pub open spec fn direction_code(v: Direction) -> u8 {
    match v {
        Direction::N => 0,
        Direction::NE => 1,
        Direction::E => 2,
        Direction::SE => 3,
        Direction::S => 4,
        Direction::SW => 5,
        Direction::W => 6,
        Direction::NW => 7,
        Direction::Invalid => 255,
    }
}

impl Direction {
    pub fn as_u8(self) -> (r: u8)
        ensures
            r == direction_code(self),
    {
        match self {
            Direction::N => 0,
            Direction::NE => 1,
            Direction::E => 2,
            Direction::SE => 3,
            Direction::S => 4,
            Direction::SW => 5,
            Direction::W => 6,
            Direction::NW => 7,
            Direction::Invalid => 255,
        }
    }
}

/// The status flags of a vehicle.
#[derive(Debug, Clone, Copy, PartialEq, Eq, Structural)]
pub struct VehicleStates {
    pub bits: u8,
}

impl VehicleStates {
    pub fn hidden() -> (r: Self)
        ensures
            r.bits == 1,
    {
        VehicleStates { bits: 1 }
    }

    pub fn stopped() -> (r: Self)
        ensures
            r.bits == 2,
    {
        VehicleStates { bits: 2 }
    }

    pub fn unclickable() -> (r: Self)
        ensures
            r.bits == 4,
    {
        VehicleStates { bits: 4 }
    }

    pub fn default_palette() -> (r: Self)
        ensures
            r.bits == 8,
    {
        VehicleStates { bits: 8 }
    }

    pub fn train_slowing() -> (r: Self)
        ensures
            r.bits == 16,
    {
        VehicleStates { bits: 16 }
    }

    pub fn shadow() -> (r: Self)
        ensures
            r.bits == 32,
    {
        VehicleStates { bits: 32 }
    }

    pub fn aircraft_broken() -> (r: Self)
        ensures
            r.bits == 64,
    {
        VehicleStates { bits: 64 }
    }

    pub fn crashed() -> (r: Self)
        ensures
            r.bits == 128,
    {
        VehicleStates { bits: 128 }
    }

    pub fn empty() -> (r: Self)
        ensures
            r.bits == 0,
    {
        VehicleStates { bits: 0 }
    }

    pub fn bits(&self) -> (r: u8)
        ensures
            r == self.bits,
    {
        self.bits
    }

    pub fn is_empty(&self) -> (r: bool)
        ensures
            r == (self.bits == 0),
    {
        self.bits == 0
    }

    /// Whether every flag of `other` is set here.
    pub fn contains(&self, other: Self) -> (r: bool)
        ensures
            r == (self.bits & other.bits == other.bits),
    {
        self.bits & other.bits == other.bits
    }

    /// Sets the flags of `other`.
    pub fn insert(&mut self, other: Self)
        ensures
            final(self).bits == old(self).bits | other.bits,
    {
        self.bits = self.bits | other.bits;
    }

    /// Clears the flags of `other`.
    pub fn remove(&mut self, other: Self)
        ensures
            final(self).bits == old(self).bits & !other.bits,
    {
        self.bits = self.bits & !other.bits;
    }
}

/// The parts of a train or road vehicle.
#[derive(Debug, Clone, Copy, PartialEq, Eq, Structural)]
pub enum GroundVehicleSubtype {
    Front,
    ArticulatedPart,
    Wagon,
    Engine,
    FreeWagon,
    Multiheaded,
}

/// The number that stands for each variant on disk.
pub open spec fn ground_vehicle_subtype_code(v: GroundVehicleSubtype) -> u8 {
    match v {
        GroundVehicleSubtype::Front => 0,
        GroundVehicleSubtype::ArticulatedPart => 1,
        GroundVehicleSubtype::Wagon => 2,
        GroundVehicleSubtype::Engine => 3,
        GroundVehicleSubtype::FreeWagon => 4,
        GroundVehicleSubtype::Multiheaded => 5,
    }
}

impl GroundVehicleSubtype {
    pub fn as_u8(self) -> (r: u8)
        ensures
            r == ground_vehicle_subtype_code(self),
    {
        match self {
            GroundVehicleSubtype::Front => 0,
            GroundVehicleSubtype::ArticulatedPart => 1,
            GroundVehicleSubtype::Wagon => 2,
            GroundVehicleSubtype::Engine => 3,
            GroundVehicleSubtype::FreeWagon => 4,
            GroundVehicleSubtype::Multiheaded => 5,
        }
    }
}

/// The smoke or sparks a vehicle makes.
#[derive(Debug, Clone, Copy, PartialEq, Eq, Structural)]
pub enum VisualEffectSpawnModel {
    NoEffect,
    Steam,
    Diesel,
    Electric,
}

/// The number that stands for each variant on disk.
pub open spec fn visual_effect_spawn_model_code(v: VisualEffectSpawnModel) -> u8 {
    match v {
        VisualEffectSpawnModel::NoEffect => 0,
        VisualEffectSpawnModel::Steam => 1,
        VisualEffectSpawnModel::Diesel => 2,
        VisualEffectSpawnModel::Electric => 3,
    }
}

impl VisualEffectSpawnModel {
    pub fn as_u8(self) -> (r: u8)
        ensures
            r == visual_effect_spawn_model_code(self),
    {
        match self {
            VisualEffectSpawnModel::NoEffect => 0,
            VisualEffectSpawnModel::Steam => 1,
            VisualEffectSpawnModel::Diesel => 2,
            VisualEffectSpawnModel::Electric => 3,
        }
    }
}

/// How vehicles accelerate.
#[derive(Debug, Clone, Copy, PartialEq, Eq, Structural)]
pub enum AccelerationModel {
    Original,
    Realistic,
}

/// The number that stands for each variant on disk.
pub open spec fn acceleration_model_code(v: AccelerationModel) -> u8 {
    match v {
        AccelerationModel::Original => 0,
        AccelerationModel::Realistic => 1,
    }
}

impl AccelerationModel {
    pub fn as_u8(self) -> (r: u8)
        ensures
            r == acceleration_model_code(self),
    {
        match self {
            AccelerationModel::Original => 0,
            AccelerationModel::Realistic => 1,
        }
    }
}

/// Where an engine image is drawn.
#[derive(Debug, Clone, Copy, PartialEq, Eq, Structural)]
pub enum EngineImageType {
    OnMap,
    InDepot,
    InDetails,
    InList,
    Purchase,
    Preview,
}

/// The number that stands for each variant on disk.
pub open spec fn engine_image_type_code(v: EngineImageType) -> u8 {
    match v {
        EngineImageType::OnMap => 0,
        EngineImageType::InDepot => 16,
        EngineImageType::InDetails => 17,
        EngineImageType::InList => 18,
        EngineImageType::Purchase => 32,
        EngineImageType::Preview => 33,
    }
}

impl EngineImageType {
    pub fn as_u8(self) -> (r: u8)
        ensures
            r == engine_image_type_code(self),
    {
        match self {
            EngineImageType::OnMap => 0,
            EngineImageType::InDepot => 16,
            EngineImageType::InDetails => 17,
            EngineImageType::InList => 18,
            EngineImageType::Purchase => 32,
            EngineImageType::Preview => 33,
        }
    }
}

/// The triggers of a vehicle's random bits.
#[derive(Debug, Clone, Copy, PartialEq, Eq, Structural)]
pub struct VehicleRandomTriggers {
    pub bits: u8,
}

impl VehicleRandomTriggers {
    pub fn new_cargo() -> (r: Self)
        ensures
            r.bits == 1,
    {
        VehicleRandomTriggers { bits: 1 }
    }

    pub fn depot() -> (r: Self)
        ensures
            r.bits == 2,
    {
        VehicleRandomTriggers { bits: 2 }
    }

    pub fn on_empty() -> (r: Self)
        ensures
            r.bits == 4,
    {
        VehicleRandomTriggers { bits: 4 }
    }

    pub fn any_new_cargo() -> (r: Self)
        ensures
            r.bits == 8,
    {
        VehicleRandomTriggers { bits: 8 }
    }

    pub fn callback32() -> (r: Self)
        ensures
            r.bits == 16,
    {
        VehicleRandomTriggers { bits: 16 }
    }

    pub fn empty() -> (r: Self)
        ensures
            r.bits == 0,
    {
        VehicleRandomTriggers { bits: 0 }
    }

    pub fn bits(&self) -> (r: u8)
        ensures
            r == self.bits,
    {
        self.bits
    }

    pub fn is_empty(&self) -> (r: bool)
        ensures
            r == (self.bits == 0),
    {
        self.bits == 0
    }

    /// Whether every flag of `other` is set here.
    pub fn contains(&self, other: Self) -> (r: bool)
        ensures
            r == (self.bits & other.bits == other.bits),
    {
        self.bits & other.bits == other.bits
    }

    /// Sets the flags of `other`.
    pub fn insert(&mut self, other: Self)
        ensures
            final(self).bits == old(self).bits | other.bits,
    {
        self.bits = self.bits | other.bits;
    }

    /// Clears the flags of `other`.
    pub fn remove(&mut self, other: Self)
        ensures
            final(self).bits == old(self).bits & !other.bits,
    {
        self.bits = self.bits & !other.bits;
    }
}

/// Values of a vehicle cached for its graphics.
#[derive(Debug, Clone, Copy, PartialEq, Eq, Structural)]
pub struct NewGRFCache {
    pub position_consist_length: u32,
    pub position_same_id_length: u32,
    pub consist_cargo_information: u32,
    pub company_information: u32,
    pub position_in_vehicle: u32,
    pub cache_valid: u8,
}

/// Values of a vehicle cached for speed.
#[derive(Debug, Clone, Copy, PartialEq, Eq, Structural)]
pub struct VehicleCache {
    pub cached_max_speed: u16,
    pub cached_cargo_age_period: u16,
    pub cached_vis_effect: u8,
}

pub type SpriteID = u32;

pub type PaletteID = u32;

pub type TextEffectID = u16;

/// A sprite with its palette.
#[derive(Debug, Clone, Copy, PartialEq, Eq, Structural)]
pub struct PalSpriteID {
    pub sprite: SpriteID,
    pub pal: PaletteID,
}

/// Up to eight sprites that draw a vehicle.
#[derive(Debug, Clone, Copy, PartialEq, Eq)]
pub struct VehicleSpriteSeq {
    pub seq: [PalSpriteID; 8],
    pub count: u32,
}

impl Default for VehicleSpriteSeq {
    fn default() -> (r: Self)
        ensures
            r.count == 0,
            forall|i: int| 0 <= i < 8 ==> r.seq@[i] == (PalSpriteID { sprite: 0, pal: 0 }),
    {
        let blank = PalSpriteID { sprite: 0, pal: 0 };
        VehicleSpriteSeq { seq: [blank; 8], count: 0 }
    }
}

/// The bounds of a sprite.
#[derive(Debug, Clone, Copy, PartialEq, Eq, Structural)]
pub struct SpriteBounds {
    pub left: i16,
    pub top: i16,
    pub right: i16,
    pub bottom: i16,
}

/// A screen rectangle.
#[derive(Debug, Clone, Copy, PartialEq, Eq, Structural)]
pub struct Rect {
    pub left: i32,
    pub top: i32,
    pub right: i32,
    pub bottom: i32,
}

/// What was last drawn of a vehicle.
#[derive(Debug, Clone, Copy, PartialEq, Eq)]
pub struct MutableSpriteCache {
    pub last_direction: Direction,
    pub revalidate_before_draw: bool,
    pub is_viewport_candidate: bool,
    pub old_coord: Rect,
    pub sprite_seq: VehicleSpriteSeq,
}

impl Default for MutableSpriteCache {
    fn default() -> (r: Self)
        ensures
            r.last_direction == Direction::Invalid,
            !r.revalidate_before_draw,
            !r.is_viewport_candidate,
            r.sprite_seq.count == 0,
    {
        MutableSpriteCache {
            last_direction: Direction::Invalid,
            revalidate_before_draw: false,
            is_viewport_candidate: false,
            old_coord: Rect { left: 0, top: 0, right: 0, bottom: 0 },
            sprite_seq: VehicleSpriteSeq::default(),
        }
    }
}

/// An order of a vehicle.
#[derive(Debug, Clone, Copy, PartialEq, Eq, Structural)]
pub struct Order {
    pub type_flags: u8,
    pub dest: u16,
    pub flags: u8,
    pub refit_cargo: u8,
    pub wait_time: u16,
    pub travel_time: u16,
    pub max_speed: u16,
}

/// A vehicle.
#[derive(Debug, Clone)]
pub struct Vehicle {
    pub index: VehicleID,
    pub type_: VehicleType,
    pub next: Option<VehicleID>,
    pub first: Option<VehicleID>,
    pub next_shared: Option<VehicleID>,
    pub tile: TileIndex,
    pub dest_tile: TileIndex,
    pub x_pos: i32,
    pub y_pos: i32,
    pub z_pos: i32,
    pub direction: Direction,
    pub profit_this_year: Money,
    pub profit_last_year: Money,
    pub value: Money,
    pub build_year: CalendarYear,
    pub age: CalendarDate,
    pub economy_age: EconomyDate,
    pub max_age: CalendarDate,
    pub date_of_last_service: EconomyDate,
    pub date_of_last_service_newgrf: CalendarDate,
    pub reliability: u16,
    pub reliability_spd_dec: u16,
    pub breakdown_ctr: u8,
    pub breakdown_delay: u8,
    pub breakdowns_since_last_service: u8,
    pub breakdown_chance: u8,
    pub owner: OwnerID,
    pub spritenum: u8,
    pub bounds: SpriteBounds,
    pub engine_type: EngineID,
    pub unitnumber: UnitID,
    pub group_id: GroupID,
    pub cur_speed: u16,
    pub subspeed: u8,
    pub acceleration: u8,
    pub motion_counter: u32,
    pub progress: u8,
    pub cargo_type: CargoType,
    pub cargo_subtype: u8,
    pub cargo_cap: u16,
    pub refit_cap: u16,
    pub cargo_age_counter: u16,
    pub last_station_visited: StationID,
    pub last_loading_station: StationID,
    pub last_loading_tick: Tick,
    pub waiting_random_triggers: VehicleRandomTriggers,
    pub random_bits: u16,
    pub vehstatus: VehicleStates,
    pub subtype: u8,
    pub current_order: Order,
    pub day_counter: u8,
    pub tick_counter: u8,
    pub running_ticks: u8,
    pub load_unload_ticks: u16,
    pub grf_cache: NewGRFCache,
    pub vcache: VehicleCache,
    pub sprite_cache: MutableSpriteCache,
    pub fill_percent_te_id: TextEffectID,
    pub type_data: VehicleTypeData,
}

/// The kind of type data that a vehicle of type `t` carries.
pub open spec fn type_data_matches(t: VehicleType, d: VehicleTypeData) -> bool {
    match t {
        VehicleType::Train => d is Train,
        VehicleType::Road => d is RoadVehicle,
        VehicleType::Ship => d is Ship,
        VehicleType::Aircraft => d is Aircraft,
        _ => d is NoData,
    }
}

impl Vehicle {
    /// A new vehicle of type `type_`, with no owner, place, engine or cargo,
    /// not stopped or crashed, carrying the type data of its kind.
    pub fn new(index: VehicleID, type_: VehicleType) -> (r: Self)
        ensures
            r.index == index,
            r.type_ == type_,
            r.next is None && r.first is None && r.next_shared is None,
            r.tile.0 == 0xFFFF_FFFF,
            r.dest_tile.0 == 0xFFFF_FFFF,
            r.direction == Direction::Invalid,
            r.owner == OwnerID::Invalid,
            r.engine_type.0 == 0xFFFF,
            r.group_id.0 == 0xFFFF,
            r.cargo_type.0 == 0xFF,
            r.last_station_visited.0 == 0xFFFF,
            r.last_loading_station.0 == 0xFFFF,
            r.vehstatus.bits == 0,
            r.waiting_random_triggers.bits == 0,
            r.subtype == 0,
            r.fill_percent_te_id == 0xFFFF,
            type_data_matches(type_, r.type_data),
    {
        Vehicle {
            index,
            type_,
            next: None,
            first: None,
            next_shared: None,
            tile: TileIndex::invalid(),
            dest_tile: TileIndex::invalid(),
            x_pos: 0,
            y_pos: 0,
            z_pos: 0,
            direction: Direction::Invalid,
            profit_this_year: 0,
            profit_last_year: 0,
            value: 0,
            build_year: CalendarYear(0),
            age: CalendarDate(0),
            economy_age: EconomyDate(0),
            max_age: CalendarDate(0),
            date_of_last_service: EconomyDate(0),
            date_of_last_service_newgrf: CalendarDate(0),
            reliability: 0,
            reliability_spd_dec: 0,
            breakdown_ctr: 0,
            breakdown_delay: 0,
            breakdowns_since_last_service: 0,
            breakdown_chance: 0,
            owner: OwnerID::Invalid,
            spritenum: 0,
            bounds: SpriteBounds { left: 0, top: 0, right: 0, bottom: 0 },
            engine_type: EngineID::invalid(),
            unitnumber: 0,
            group_id: GroupID::invalid(),
            cur_speed: 0,
            subspeed: 0,
            acceleration: 0,
            motion_counter: 0,
            progress: 0,
            cargo_type: CargoType::invalid(),
            cargo_subtype: 0,
            cargo_cap: 0,
            refit_cap: 0,
            cargo_age_counter: 0,
            last_station_visited: StationID::invalid(),
            last_loading_station: StationID::invalid(),
            last_loading_tick: 0,
            waiting_random_triggers: VehicleRandomTriggers::empty(),
            random_bits: 0,
            vehstatus: VehicleStates::empty(),
            subtype: 0,
            current_order: Order {
                type_flags: 0,
                dest: 0,
                flags: 0,
                refit_cargo: 0,
                wait_time: 0,
                travel_time: 0,
                max_speed: 0,
            },
            day_counter: 0,
            tick_counter: 0,
            running_ticks: 0,
            load_unload_ticks: 0,
            grf_cache: NewGRFCache {
                position_consist_length: 0,
                position_same_id_length: 0,
                consist_cargo_information: 0,
                company_information: 0,
                position_in_vehicle: 0,
                cache_valid: 0,
            },
            vcache: VehicleCache { cached_max_speed: 0, cached_cargo_age_period: 0, cached_vis_effect: 0 },
            sprite_cache: MutableSpriteCache::default(),
            fill_percent_te_id: 0xFFFF,
            type_data: VehicleTypeData::new(type_),
        }
    }

    /// Whether this is the front part of its vehicle.
    pub fn is_front(&self) -> (r: bool)
        ensures
            r == (self.subtype == 0),
    {
        self.subtype == GroundVehicleSubtype::Front.as_u8()
    }

    pub fn is_crashed(&self) -> (r: bool)
        ensures
            r == (self.vehstatus.bits & 128 == 128),
    {
        self.vehstatus.contains(VehicleStates::crashed())
    }

    pub fn is_stopped(&self) -> (r: bool)
        ensures
            r == (self.vehstatus.bits & 2 == 2),
    {
        self.vehstatus.contains(VehicleStates::stopped())
    }
}

/// The track pieces on a tile, as a vehicle sees them.
#[derive(Debug, Clone, Copy, PartialEq, Eq, Structural)]
pub enum TrackBits {
    NoTrack,
    X,
    Y,
    Upper,
    Lower,
    Left,
    Right,
    Cross,
    Depot,
    Wormhole,
}

/// The number that stands for each variant on disk.
pub open spec fn track_bits_code(v: TrackBits) -> u8 {
    match v {
        TrackBits::NoTrack => 0,
        TrackBits::X => 1,
        TrackBits::Y => 2,
        TrackBits::Upper => 4,
        TrackBits::Lower => 8,
        TrackBits::Left => 16,
        TrackBits::Right => 32,
        TrackBits::Cross => 64,
        TrackBits::Depot => 128,
        TrackBits::Wormhole => 255,
    }
}

impl TrackBits {
    pub fn as_u8(self) -> (r: u8)
        ensures
            r == track_bits_code(self),
    {
        match self {
            TrackBits::NoTrack => 0,
            TrackBits::X => 1,
            TrackBits::Y => 2,
            TrackBits::Upper => 4,
            TrackBits::Lower => 8,
            TrackBits::Left => 16,
            TrackBits::Right => 32,
            TrackBits::Cross => 64,
            TrackBits::Depot => 128,
            TrackBits::Wormhole => 255,
        }
    }
}

/// The flags of a train.
#[derive(Debug, Clone, Copy, PartialEq, Eq, Structural)]
pub struct VehicleRailFlags {
    pub bits: u16,
}

impl VehicleRailFlags {
    pub fn reversing() -> (r: Self)
        ensures
            r.bits == 1,
    {
        VehicleRailFlags { bits: 1 }
    }

    pub fn powered_wagon() -> (r: Self)
        ensures
            r.bits == 8,
    {
        VehicleRailFlags { bits: 8 }
    }

    pub fn flipped() -> (r: Self)
        ensures
            r.bits == 16,
    {
        VehicleRailFlags { bits: 16 }
    }

    pub fn allowed_on_normal_rail() -> (r: Self)
        ensures
            r.bits == 64,
    {
        VehicleRailFlags { bits: 64 }
    }

    pub fn reversed() -> (r: Self)
        ensures
            r.bits == 128,
    {
        VehicleRailFlags { bits: 128 }
    }

    pub fn stuck() -> (r: Self)
        ensures
            r.bits == 256,
    {
        VehicleRailFlags { bits: 256 }
    }

    pub fn leaving_station() -> (r: Self)
        ensures
            r.bits == 512,
    {
        VehicleRailFlags { bits: 512 }
    }

    pub fn empty() -> (r: Self)
        ensures
            r.bits == 0,
    {
        VehicleRailFlags { bits: 0 }
    }

    pub fn bits(&self) -> (r: u16)
        ensures
            r == self.bits,
    {
        self.bits
    }

    pub fn is_empty(&self) -> (r: bool)
        ensures
            r == (self.bits == 0),
    {
        self.bits == 0
    }

    /// Whether every flag of `other` is set here.
    pub fn contains(&self, other: Self) -> (r: bool)
        ensures
            r == (self.bits & other.bits == other.bits),
    {
        self.bits & other.bits == other.bits
    }

    /// Sets the flags of `other`.
    pub fn insert(&mut self, other: Self)
        ensures
            final(self).bits == old(self).bits | other.bits,
    {
        self.bits = self.bits | other.bits;
    }

    /// Clears the flags of `other`.
    pub fn remove(&mut self, other: Self)
        ensures
            final(self).bits == old(self).bits & !other.bits,
    {
        self.bits = self.bits & !other.bits;
    }
}

/// Why a train may pass a red signal.
#[derive(Debug, Clone, Copy, PartialEq, Eq, Structural)]
pub enum TrainForceProceeding {
    NoForce,
    Stuck,
    Signal,
}

/// The number that stands for each variant on disk.
pub open spec fn train_force_proceeding_code(v: TrainForceProceeding) -> u8 {
    match v {
        TrainForceProceeding::NoForce => 0,
        TrainForceProceeding::Stuck => 1,
        TrainForceProceeding::Signal => 2,
    }
}

impl TrainForceProceeding {
    pub fn as_u8(self) -> (r: u8)
        ensures
            r == train_force_proceeding_code(self),
    {
        match self {
            TrainForceProceeding::NoForce => 0,
            TrainForceProceeding::Stuck => 1,
            TrainForceProceeding::Signal => 2,
        }
    }
}

/// Values of a train cached for speed.
#[derive(Debug, Clone, Copy, PartialEq, Eq, Structural)]
pub struct TrainCache {
    pub cached_tilt: bool,
    pub user_def_data: u8,
    pub cached_curve_speed_mod: i16,
    pub cached_max_curve_speed: u16,
}

/// The data of a train.
#[derive(Debug, Clone)]
pub struct TrainData {
    pub flags: VehicleRailFlags,
    pub crash_anim_pos: u16,
    pub wait_counter: u16,
    pub tcache: TrainCache,
    pub other_multiheaded_part: Option<VehicleID>,
    /// One bit per rail type.
    pub compatible_railtypes: u32,
    pub railtypes: u32,
    pub track: TrackBits,
    pub force_proceed: TrainForceProceeding,
}

impl Default for TrainData {
    fn default() -> (r: Self)
        ensures
            r.flags.bits == 0,
            r.crash_anim_pos == 0,
            r.wait_counter == 0,
            r.other_multiheaded_part is None,
            r.track == TrackBits::NoTrack,
            r.force_proceed == TrainForceProceeding::NoForce,
    {
        TrainData {
            flags: VehicleRailFlags::empty(),
            crash_anim_pos: 0,
            wait_counter: 0,
            tcache: TrainCache {
                cached_tilt: false,
                user_def_data: 0,
                cached_curve_speed_mod: 0,
                cached_max_curve_speed: 0,
            },
            other_multiheaded_part: None,
            compatible_railtypes: 0,
            railtypes: 0,
            track: TrackBits::NoTrack,
            force_proceed: TrainForceProceeding::NoForce,
        }
    }
}

/// Special states of a road vehicle.
#[derive(Debug, Clone, Copy, PartialEq, Eq, Structural)]
pub enum RoadVehicleStates {
    InDepot,
    Wormhole,
}

/// One step of a road vehicle's cached path.
#[derive(Debug, Clone, Copy, PartialEq, Eq, Structural)]
pub struct RoadVehPathElement {
    pub trackdir: u8,
    pub tile: TileIndex,
}

/// The data of a road vehicle.
#[derive(Debug, Clone)]
pub struct RoadVehicleData {
    pub path: Vec<RoadVehPathElement>,
    pub state: u8,
    pub frame: u8,
    pub blocked_ctr: u16,
    pub overtaking: u8,
    pub overtaking_ctr: u8,
    pub crashed_ctr: u16,
    pub reverse_ctr: u8,
    /// `0xFF` is no road type.
    pub roadtype: u8,
    pub disaster_vehicle: Option<VehicleID>,
    pub compatible_roadtypes: u64,
}

impl Default for RoadVehicleData {
    fn default() -> (r: Self)
        ensures
            r.path@.len() == 0,
            r.state == 0,
            r.overtaking == 0,
            r.roadtype == 0xFF,
            r.disaster_vehicle is None,
    {
        RoadVehicleData {
            path: Vec::new(),
            state: 0,
            frame: 0,
            blocked_ctr: 0,
            overtaking: 0,
            overtaking_ctr: 0,
            crashed_ctr: 0,
            reverse_ctr: 0,
            roadtype: 0xFF,
            disaster_vehicle: None,
            compatible_roadtypes: 0,
        }
    }
}

/// One step of a ship's cached path.
#[derive(Debug, Clone, Copy, PartialEq, Eq, Structural)]
pub struct ShipPathElement {
    pub trackdir: u8,
}

/// The data of a ship.
#[derive(Debug, Clone)]
pub struct ShipData {
    pub path: Vec<ShipPathElement>,
    pub state: TrackBits,
    pub rotation: Direction,
    pub rotation_x_pos: i16,
    pub rotation_y_pos: i16,
}

impl Default for ShipData {
    fn default() -> (r: Self)
        ensures
            r.path@.len() == 0,
            r.state == TrackBits::NoTrack,
            r.rotation == Direction::Invalid,
    {
        ShipData {
            path: Vec::new(),
            state: TrackBits::NoTrack,
            rotation: Direction::Invalid,
            rotation_x_pos: 0,
            rotation_y_pos: 0,
        }
    }
}

/// The parts of an aircraft.
#[derive(Debug, Clone, Copy, PartialEq, Eq, Structural)]
pub enum AircraftSubType {
    Helicopter,
    Aircraft,
    Shadow,
    Rotor,
}

/// The number that stands for each variant on disk.
pub open spec fn aircraft_sub_type_code(v: AircraftSubType) -> u8 {
    match v {
        AircraftSubType::Helicopter => 0,
        AircraftSubType::Aircraft => 2,
        AircraftSubType::Shadow => 4,
        AircraftSubType::Rotor => 6,
    }
}

impl AircraftSubType {
    pub fn as_u8(self) -> (r: u8)
        ensures
            r == aircraft_sub_type_code(self),
    {
        match self {
            AircraftSubType::Helicopter => 0,
            AircraftSubType::Aircraft => 2,
            AircraftSubType::Shadow => 4,
            AircraftSubType::Rotor => 6,
        }
    }
}

/// The flags of an aircraft.
#[derive(Debug, Clone, Copy, PartialEq, Eq, Structural)]
pub struct VehicleAirFlags {
    pub bits: u8,
}

impl VehicleAirFlags {
    pub fn destination_too_far() -> (r: Self)
        ensures
            r.bits == 1,
    {
        VehicleAirFlags { bits: 1 }
    }

    pub fn in_maximum_height_correction() -> (r: Self)
        ensures
            r.bits == 2,
    {
        VehicleAirFlags { bits: 2 }
    }

    pub fn in_minimum_height_correction() -> (r: Self)
        ensures
            r.bits == 4,
    {
        VehicleAirFlags { bits: 4 }
    }

    pub fn helicopter_direct_descent() -> (r: Self)
        ensures
            r.bits == 8,
    {
        VehicleAirFlags { bits: 8 }
    }

    pub fn empty() -> (r: Self)
        ensures
            r.bits == 0,
    {
        VehicleAirFlags { bits: 0 }
    }

    pub fn bits(&self) -> (r: u8)
        ensures
            r == self.bits,
    {
        self.bits
    }

    pub fn is_empty(&self) -> (r: bool)
        ensures
            r == (self.bits == 0),
    {
        self.bits == 0
    }

    /// Whether every flag of `other` is set here.
    pub fn contains(&self, other: Self) -> (r: bool)
        ensures
            r == (self.bits & other.bits == other.bits),
    {
        self.bits & other.bits == other.bits
    }

    /// Sets the flags of `other`.
    pub fn insert(&mut self, other: Self)
        ensures
            final(self).bits == old(self).bits | other.bits,
    {
        self.bits = self.bits | other.bits;
    }

    /// Clears the flags of `other`.
    pub fn remove(&mut self, other: Self)
        ensures
            final(self).bits == old(self).bits & !other.bits,
    {
        self.bits = self.bits & !other.bits;
    }
}

/// Values of an aircraft cached for speed.
#[derive(Debug, Clone, Copy, PartialEq, Eq, Structural)]
pub struct AircraftCache {
    pub cached_max_range_sqr: u32,
    pub cached_max_range: u16,
}

/// The data of an aircraft.
#[derive(Debug, Clone, Copy, PartialEq, Eq)]
pub struct AircraftData {
    pub crashed_counter: u16,
    pub pos: u8,
    pub previous_pos: u8,
    pub targetairport: StationID,
    pub state: u8,
    pub last_direction: Direction,
    pub number_consecutive_turns: u8,
    pub turn_counter: u8,
    pub flags: VehicleAirFlags,
    pub acache: AircraftCache,
}

impl Default for AircraftData {
    fn default() -> (r: Self)
        ensures
            r.crashed_counter == 0,
            r.targetairport.0 == 0xFFFF,
            r.flags.bits == 0,
            r.last_direction == Direction::Invalid,
    {
        AircraftData {
            crashed_counter: 0,
            pos: 0,
            previous_pos: 0,
            targetairport: StationID::invalid(),
            state: 0,
            last_direction: Direction::Invalid,
            number_consecutive_turns: 0,
            turn_counter: 0,
            flags: VehicleAirFlags::empty(),
            acache: AircraftCache { cached_max_range_sqr: 0, cached_max_range: 0 },
        }
    }
}

/// The data of each vehicle kind.
#[derive(Debug, Clone)]
pub enum VehicleTypeData {
    NoData,
    Train(TrainData),
    RoadVehicle(RoadVehicleData),
    Ship(ShipData),
    Aircraft(AircraftData),
}

impl Default for VehicleTypeData {
    fn default() -> (r: Self)
        ensures
            r is NoData,
    {
        VehicleTypeData::NoData
    }
}

impl VehicleTypeData {
    /// The default data of a vehicle of type `vehicle_type`; none for the
    /// kinds without data of their own.
    pub fn new(vehicle_type: VehicleType) -> (r: Self)
        ensures
            type_data_matches(vehicle_type, r),
    {
        match vehicle_type {
            VehicleType::Train => VehicleTypeData::Train(TrainData::default()),
            VehicleType::Road => VehicleTypeData::RoadVehicle(RoadVehicleData::default()),
            VehicleType::Ship => VehicleTypeData::Ship(ShipData::default()),
            VehicleType::Aircraft => VehicleTypeData::Aircraft(AircraftData::default()),
            _ => VehicleTypeData::NoData,
        }
    }
}

} // verus!
