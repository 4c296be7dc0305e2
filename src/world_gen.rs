//! The world generation settings: climate, map size, terrain and the other
//! choices made before a new game is generated.
use vstd::prelude::*;

use vstd::string::StringSliceAdditionalSpecFns;

use crate::text_format::decimal;

verus! {

/// The identifier of the world generation window.
pub const WORLD_GEN_WINDOW_ID: u32 = 6000;

/// The widgets of the world generation window.
#[derive(Debug, Clone, Copy, PartialEq, Eq, Structural)]
pub enum WorldGenWidgets {
    Window,
    Panel,
    ClimateTemperate,
    ClimateArctic,
    ClimateTropical,
    ClimateToyland,
    MapSizeLabel,
    MapSizeXDropdown,
    MapSizeYDropdown,
    TerrainTypeLabel,
    TerrainTypeDropdown,
    SeaLevelLabel,
    SeaLevelDropdown,
    NumTownsLabel,
    NumTownsDropdown,
    NumIndustriesLabel,
    NumIndustriesDropdown,
    StartDateLabel,
    StartDateText,
    StartDateDown,
    StartDateUp,
    GenerateButton,
    CancelButton,
    RandomSeedLabel,
    RandomSeedText,
}

pub open spec fn world_gen_widget_id(w: WorldGenWidgets) -> u32 {
    match w {
        WorldGenWidgets::Window => 6000,
        WorldGenWidgets::Panel => 6001,
        WorldGenWidgets::ClimateTemperate => 6010,
        WorldGenWidgets::ClimateArctic => 6011,
        WorldGenWidgets::ClimateTropical => 6012,
        WorldGenWidgets::ClimateToyland => 6013,
        WorldGenWidgets::MapSizeLabel => 6020,
        WorldGenWidgets::MapSizeXDropdown => 6021,
        WorldGenWidgets::MapSizeYDropdown => 6022,
        WorldGenWidgets::TerrainTypeLabel => 6030,
        WorldGenWidgets::TerrainTypeDropdown => 6031,
        WorldGenWidgets::SeaLevelLabel => 6040,
        WorldGenWidgets::SeaLevelDropdown => 6041,
        WorldGenWidgets::NumTownsLabel => 6050,
        WorldGenWidgets::NumTownsDropdown => 6051,
        WorldGenWidgets::NumIndustriesLabel => 6060,
        WorldGenWidgets::NumIndustriesDropdown => 6061,
        WorldGenWidgets::StartDateLabel => 6070,
        WorldGenWidgets::StartDateText => 6071,
        WorldGenWidgets::StartDateDown => 6072,
        WorldGenWidgets::StartDateUp => 6073,
        WorldGenWidgets::GenerateButton => 6100,
        WorldGenWidgets::CancelButton => 6101,
        WorldGenWidgets::RandomSeedLabel => 6110,
        WorldGenWidgets::RandomSeedText => 6111,
    }
}

impl WorldGenWidgets {
    /// The widget identifier.
    pub fn id(self) -> (r: u32)
        ensures
            r == world_gen_widget_id(self),
    {
        match self {
            WorldGenWidgets::Window => 6000,
            WorldGenWidgets::Panel => 6001,
            WorldGenWidgets::ClimateTemperate => 6010,
            WorldGenWidgets::ClimateArctic => 6011,
            WorldGenWidgets::ClimateTropical => 6012,
            WorldGenWidgets::ClimateToyland => 6013,
            WorldGenWidgets::MapSizeLabel => 6020,
            WorldGenWidgets::MapSizeXDropdown => 6021,
            WorldGenWidgets::MapSizeYDropdown => 6022,
            WorldGenWidgets::TerrainTypeLabel => 6030,
            WorldGenWidgets::TerrainTypeDropdown => 6031,
            WorldGenWidgets::SeaLevelLabel => 6040,
            WorldGenWidgets::SeaLevelDropdown => 6041,
            WorldGenWidgets::NumTownsLabel => 6050,
            WorldGenWidgets::NumTownsDropdown => 6051,
            WorldGenWidgets::NumIndustriesLabel => 6060,
            WorldGenWidgets::NumIndustriesDropdown => 6061,
            WorldGenWidgets::StartDateLabel => 6070,
            WorldGenWidgets::StartDateText => 6071,
            WorldGenWidgets::StartDateDown => 6072,
            WorldGenWidgets::StartDateUp => 6073,
            WorldGenWidgets::GenerateButton => 6100,
            WorldGenWidgets::CancelButton => 6101,
            WorldGenWidgets::RandomSeedLabel => 6110,
            WorldGenWidgets::RandomSeedText => 6111,
        }
    }
}

/// The climates of a new world.
#[derive(Debug, Clone, Copy, PartialEq, Eq, Structural)]
pub enum Climate {
    Temperate,
    Arctic,
    Tropical,
    Toyland,
}

pub open spec fn climate_name(v: Climate) -> Seq<char> {
    match v {
        Climate::Temperate => "Temperate"@,
        Climate::Arctic => "Arctic"@,
        Climate::Tropical => "Tropical"@,
        Climate::Toyland => "Toyland"@,
    }
}

impl Climate {
    pub fn name(&self) -> (r: &'static str)
        ensures
            r@ == climate_name(*self),
    {
        proof {
            reveal_strlit("Arctic");
            reveal_strlit("Temperate");
            reveal_strlit("Toyland");
            reveal_strlit("Tropical");
        }
        match self {
            Climate::Temperate => "Temperate",
            Climate::Arctic => "Arctic",
            Climate::Tropical => "Tropical",
            Climate::Toyland => "Toyland",
        }
    }
}

/// The sizes a side of the map can take.
#[derive(Debug, Clone, Copy, PartialEq, Eq, Structural)]
pub enum MapSize {
    Size64,
    Size128,
    Size256,
    Size512,
    Size1024,
    Size2048,
    Size4096,
}

/// The number of tiles along a side of size `s`.
pub open spec fn map_size_value(s: MapSize) -> u32 {
    match s {
        MapSize::Size64 => 64,
        MapSize::Size128 => 128,
        MapSize::Size256 => 256,
        MapSize::Size512 => 512,
        MapSize::Size1024 => 1024,
        MapSize::Size2048 => 2048,
        MapSize::Size4096 => 4096,
    }
}

impl MapSize {
    pub fn value(&self) -> (r: u32)
        ensures
            r == map_size_value(*self),
    {
        match self {
            MapSize::Size64 => 64,
            MapSize::Size128 => 128,
            MapSize::Size256 => 256,
            MapSize::Size512 => 512,
            MapSize::Size1024 => 1024,
            MapSize::Size2048 => 2048,
            MapSize::Size4096 => 4096,
        }
    }

    /// The number of tiles, in decimal.
    pub fn name(&self) -> (r: String)
        ensures
            r@ == decimal(map_size_value(*self) as nat),
    {
        proof {
            reveal_strlit("64");
            reveal_strlit("128");
            reveal_strlit("256");
            reveal_strlit("512");
            reveal_strlit("1024");
            reveal_strlit("2048");
            reveal_strlit("4096");
            reveal_with_fuel(decimal, 5);
        }
        match self {
            MapSize::Size64 => String::from_str("64"),
            MapSize::Size128 => String::from_str("128"),
            MapSize::Size256 => String::from_str("256"),
            MapSize::Size512 => String::from_str("512"),
            MapSize::Size1024 => String::from_str("1024"),
            MapSize::Size2048 => String::from_str("2048"),
            MapSize::Size4096 => String::from_str("4096"),
        }
    }
}

/// How rough the land is.
#[derive(Debug, Clone, Copy, PartialEq, Eq, Structural)]
pub enum TerrainType {
    VeryFlat,
    Flat,
    Hilly,
    Mountainous,
    Custom,
}

pub open spec fn terrain_type_name(v: TerrainType) -> Seq<char> {
    match v {
        TerrainType::VeryFlat => "Very Flat"@,
        TerrainType::Flat => "Flat"@,
        TerrainType::Hilly => "Hilly"@,
        TerrainType::Mountainous => "Mountainous"@,
        TerrainType::Custom => "Custom"@,
    }
}

impl TerrainType {
    pub fn name(&self) -> (r: &'static str)
        ensures
            r@ == terrain_type_name(*self),
    {
        proof {
            reveal_strlit("Custom");
            reveal_strlit("Flat");
            reveal_strlit("Hilly");
            reveal_strlit("Mountainous");
            reveal_strlit("Very Flat");
        }
        match self {
            TerrainType::VeryFlat => "Very Flat",
            TerrainType::Flat => "Flat",
            TerrainType::Hilly => "Hilly",
            TerrainType::Mountainous => "Mountainous",
            TerrainType::Custom => "Custom",
        }
    }
}

/// How much of the map is water.
#[derive(Debug, Clone, Copy, PartialEq, Eq, Structural)]
pub enum SeaLevel {
    VeryLow,
    Low,
    Medium,
    High,
    Custom,
}

pub open spec fn sea_level_name(v: SeaLevel) -> Seq<char> {
    match v {
        SeaLevel::VeryLow => "Very Low"@,
        SeaLevel::Low => "Low"@,
        SeaLevel::Medium => "Medium"@,
        SeaLevel::High => "High"@,
        SeaLevel::Custom => "Custom"@,
    }
}

impl SeaLevel {
    pub fn name(&self) -> (r: &'static str)
        ensures
            r@ == sea_level_name(*self),
    {
        proof {
            reveal_strlit("Custom");
            reveal_strlit("High");
            reveal_strlit("Low");
            reveal_strlit("Medium");
            reveal_strlit("Very Low");
        }
        match self {
            SeaLevel::VeryLow => "Very Low",
            SeaLevel::Low => "Low",
            SeaLevel::Medium => "Medium",
            SeaLevel::High => "High",
            SeaLevel::Custom => "Custom",
        }
    }
}

/// How many towns are placed.
#[derive(Debug, Clone, Copy, PartialEq, Eq, Structural)]
pub enum TownCount {
    VeryLow,
    Low,
    Normal,
    High,
    Custom,
}

pub open spec fn town_count_name(v: TownCount) -> Seq<char> {
    match v {
        TownCount::VeryLow => "Very Low"@,
        TownCount::Low => "Low"@,
        TownCount::Normal => "Normal"@,
        TownCount::High => "High"@,
        TownCount::Custom => "Custom"@,
    }
}

impl TownCount {
    pub fn name(&self) -> (r: &'static str)
        ensures
            r@ == town_count_name(*self),
    {
        proof {
            reveal_strlit("Custom");
            reveal_strlit("High");
            reveal_strlit("Low");
            reveal_strlit("Normal");
            reveal_strlit("Very Low");
        }
        match self {
            TownCount::VeryLow => "Very Low",
            TownCount::Low => "Low",
            TownCount::Normal => "Normal",
            TownCount::High => "High",
            TownCount::Custom => "Custom",
        }
    }
}

/// How many industries are placed.
#[derive(Debug, Clone, Copy, PartialEq, Eq, Structural)]
pub enum IndustryCount {
    NoIndustries,
    VeryLow,
    Low,
    Normal,
    High,
}

pub open spec fn industry_count_name(v: IndustryCount) -> Seq<char> {
    match v {
        IndustryCount::NoIndustries => "None"@,
        IndustryCount::VeryLow => "Very Low"@,
        IndustryCount::Low => "Low"@,
        IndustryCount::Normal => "Normal"@,
        IndustryCount::High => "High"@,
    }
}

impl IndustryCount {
    pub fn name(&self) -> (r: &'static str)
        ensures
            r@ == industry_count_name(*self),
    {
        proof {
            reveal_strlit("High");
            reveal_strlit("Low");
            reveal_strlit("None");
            reveal_strlit("Normal");
            reveal_strlit("Very Low");
        }
        match self {
            IndustryCount::NoIndustries => "None",
            IndustryCount::VeryLow => "Very Low",
            IndustryCount::Low => "Low",
            IndustryCount::Normal => "Normal",
            IndustryCount::High => "High",
        }
    }
}

/// The choices for a new world.
#[derive(Debug, Clone, Copy, PartialEq, Eq, Structural)]
pub struct WorldGenConfig {
    pub climate: Climate,
    pub map_size_x: MapSize,
    pub map_size_y: MapSize,
    pub terrain_type: TerrainType,
    pub sea_level: SeaLevel,
    pub town_count: TownCount,
    pub industry_count: IndustryCount,
    pub start_year: u32,
    /// Zero asks for a random seed.
    pub random_seed: u32,
}

/// The choices a new world starts from.
pub open spec fn default_world_gen() -> WorldGenConfig {
    WorldGenConfig {
        climate: Climate::Temperate,
        map_size_x: MapSize::Size512,
        map_size_y: MapSize::Size512,
        terrain_type: TerrainType::Hilly,
        sea_level: SeaLevel::Medium,
        town_count: TownCount::Normal,
        industry_count: IndustryCount::Normal,
        start_year: 1950,
        random_seed: 0,
    }
}

impl Default for WorldGenConfig {
    fn default() -> (r: Self)
        ensures
            r == default_world_gen(),
    {
        WorldGenConfig {
            climate: Climate::Temperate,
            map_size_x: MapSize::Size512,
            map_size_y: MapSize::Size512,
            terrain_type: TerrainType::Hilly,
            sea_level: SeaLevel::Medium,
            town_count: TownCount::Normal,
            industry_count: IndustryCount::Normal,
            start_year: 1950,
            random_seed: 0,
        }
    }
}

/// The option after `v`, the last wrapping round to the first.
pub open spec fn next_map_size_spec(v: MapSize) -> MapSize {
    match v {
        MapSize::Size64 => MapSize::Size128,
        MapSize::Size128 => MapSize::Size256,
        MapSize::Size256 => MapSize::Size512,
        MapSize::Size512 => MapSize::Size1024,
        MapSize::Size1024 => MapSize::Size2048,
        MapSize::Size2048 => MapSize::Size4096,
        MapSize::Size4096 => MapSize::Size64,
    }
}

fn next_map_size(v: MapSize) -> (r: MapSize)
    ensures
        r == next_map_size_spec(v),
{
    match v {
            MapSize::Size64 => MapSize::Size128,
            MapSize::Size128 => MapSize::Size256,
            MapSize::Size256 => MapSize::Size512,
            MapSize::Size512 => MapSize::Size1024,
            MapSize::Size1024 => MapSize::Size2048,
            MapSize::Size2048 => MapSize::Size4096,
            MapSize::Size4096 => MapSize::Size64,
    }
}

/// The option after `v`, the last wrapping round to the first.
pub open spec fn next_terrain_type_spec(v: TerrainType) -> TerrainType {
    match v {
        TerrainType::VeryFlat => TerrainType::Flat,
        TerrainType::Flat => TerrainType::Hilly,
        TerrainType::Hilly => TerrainType::Mountainous,
        TerrainType::Mountainous => TerrainType::Custom,
        TerrainType::Custom => TerrainType::VeryFlat,
    }
}

fn next_terrain_type(v: TerrainType) -> (r: TerrainType)
    ensures
        r == next_terrain_type_spec(v),
{
    match v {
            TerrainType::VeryFlat => TerrainType::Flat,
            TerrainType::Flat => TerrainType::Hilly,
            TerrainType::Hilly => TerrainType::Mountainous,
            TerrainType::Mountainous => TerrainType::Custom,
            TerrainType::Custom => TerrainType::VeryFlat,
    }
}

/// The option after `v`, the last wrapping round to the first.
pub open spec fn next_sea_level_spec(v: SeaLevel) -> SeaLevel {
    match v {
        SeaLevel::VeryLow => SeaLevel::Low,
        SeaLevel::Low => SeaLevel::Medium,
        SeaLevel::Medium => SeaLevel::High,
        SeaLevel::High => SeaLevel::Custom,
        SeaLevel::Custom => SeaLevel::VeryLow,
    }
}

fn next_sea_level(v: SeaLevel) -> (r: SeaLevel)
    ensures
        r == next_sea_level_spec(v),
{
    match v {
            SeaLevel::VeryLow => SeaLevel::Low,
            SeaLevel::Low => SeaLevel::Medium,
            SeaLevel::Medium => SeaLevel::High,
            SeaLevel::High => SeaLevel::Custom,
            SeaLevel::Custom => SeaLevel::VeryLow,
    }
}

/// The option after `v`, the last wrapping round to the first.
pub open spec fn next_town_count_spec(v: TownCount) -> TownCount {
    match v {
        TownCount::VeryLow => TownCount::Low,
        TownCount::Low => TownCount::Normal,
        TownCount::Normal => TownCount::High,
        TownCount::High => TownCount::Custom,
        TownCount::Custom => TownCount::VeryLow,
    }
}

fn next_town_count(v: TownCount) -> (r: TownCount)
    ensures
        r == next_town_count_spec(v),
{
    match v {
            TownCount::VeryLow => TownCount::Low,
            TownCount::Low => TownCount::Normal,
            TownCount::Normal => TownCount::High,
            TownCount::High => TownCount::Custom,
            TownCount::Custom => TownCount::VeryLow,
    }
}

/// The option after `v`, the last wrapping round to the first.
pub open spec fn next_industry_count_spec(v: IndustryCount) -> IndustryCount {
    match v {
        IndustryCount::NoIndustries => IndustryCount::VeryLow,
        IndustryCount::VeryLow => IndustryCount::Low,
        IndustryCount::Low => IndustryCount::Normal,
        IndustryCount::Normal => IndustryCount::High,
        IndustryCount::High => IndustryCount::NoIndustries,
    }
}

fn next_industry_count(v: IndustryCount) -> (r: IndustryCount)
    ensures
        r == next_industry_count_spec(v),
{
    match v {
            IndustryCount::NoIndustries => IndustryCount::VeryLow,
            IndustryCount::VeryLow => IndustryCount::Low,
            IndustryCount::Low => IndustryCount::Normal,
            IndustryCount::Normal => IndustryCount::High,
            IndustryCount::High => IndustryCount::NoIndustries,
    }
}

/// Whether two byte strings are equal.
fn bytes_eq(a: &[u8], b: &[u8]) -> (r: bool)
    ensures
        r == (a@ == b@),
{
    if a.len() != b.len() {
        return false;
    }
    let mut i: usize = 0;
    while i < a.len()
        invariant
            i <= a@.len() == b@.len(),
            forall|k: int| 0 <= k < i ==> a@[k] == b@[k],
        decreases a@.len() - i,
    {
        if a[i] != b[i] {
            return false;
        }
        i = i + 1;
    }
    proof {
        assert(a@ =~= b@);
    }
    true
}

/// Whether the action text `a` is the word `w`.
pub open spec fn is_action(a: &str, w: &str) -> bool {
    a.spec_bytes() == w.spec_bytes()
}

/// What the action `a` does to the choices `c`, or `None` for an unknown
/// action.
pub open spec fn world_gen_after(c: WorldGenConfig, a: &str) -> Option<WorldGenConfig> {
    if is_action(a, "CLIMATE_TEMPERATE") {
        Some(WorldGenConfig { climate: Climate::Temperate, ..c })
    } else if is_action(a, "CLIMATE_ARCTIC") {
        Some(WorldGenConfig { climate: Climate::Arctic, ..c })
    } else if is_action(a, "CLIMATE_TROPICAL") {
        Some(WorldGenConfig { climate: Climate::Tropical, ..c })
    } else if is_action(a, "CLIMATE_TOYLAND") {
        Some(WorldGenConfig { climate: Climate::Toyland, ..c })
    } else if is_action(a, "CYCLE_MAP_SIZE_X") {
        Some(WorldGenConfig { map_size_x: next_map_size_spec(c.map_size_x), ..c })
    } else if is_action(a, "CYCLE_MAP_SIZE_Y") {
        Some(WorldGenConfig { map_size_y: next_map_size_spec(c.map_size_y), ..c })
    } else if is_action(a, "CYCLE_TERRAIN_TYPE") {
        Some(WorldGenConfig { terrain_type: next_terrain_type_spec(c.terrain_type), ..c })
    } else if is_action(a, "CYCLE_SEA_LEVEL") {
        Some(WorldGenConfig { sea_level: next_sea_level_spec(c.sea_level), ..c })
    } else if is_action(a, "CYCLE_NUM_TOWNS") {
        Some(WorldGenConfig { town_count: next_town_count_spec(c.town_count), ..c })
    } else if is_action(a, "CYCLE_NUM_INDUSTRIES") {
        Some(WorldGenConfig { industry_count: next_industry_count_spec(c.industry_count), ..c })
    } else if is_action(a, "YEAR_UP") {
        Some(
            WorldGenConfig {
                start_year: if c.start_year < u32::MAX { (c.start_year + 1) as u32 } else { c.start_year },
                ..c
            },
        )
    } else if is_action(a, "YEAR_DOWN") {
        Some(
            WorldGenConfig {
                start_year: if c.start_year > 0 { (c.start_year - 1) as u32 } else { 0 },
                ..c
            },
        )
    } else {
        None
    }
}

/// The world generation window and the choices made in it.
pub struct WorldGenWindow {
    pub config: WorldGenConfig,
}

impl WorldGenWindow {
    pub fn new() -> (r: Self)
        ensures
            r.config == default_world_gen(),
    {
        WorldGenWindow { config: WorldGenConfig::default() }
    }

    /// Carries out a button's action: picks a climate, moves a choice on to
    /// its next option, or steps the start year (saturating). Gives `false`
    /// and changes nothing for an unknown action.
    pub fn apply_action(&mut self, action: &str) -> (r: bool)
        ensures
            r == world_gen_after(old(self).config, action) is Some,
            r ==> final(self).config == world_gen_after(old(self).config, action)->0,
            !r ==> final(self).config == old(self).config,
    {
        let a = action.as_bytes();
        let c = self.config;
        if bytes_eq(a, "CLIMATE_TEMPERATE".as_bytes()) {
            self.config = WorldGenConfig { climate: Climate::Temperate, ..c };
        } else if bytes_eq(a, "CLIMATE_ARCTIC".as_bytes()) {
            self.config = WorldGenConfig { climate: Climate::Arctic, ..c };
        } else if bytes_eq(a, "CLIMATE_TROPICAL".as_bytes()) {
            self.config = WorldGenConfig { climate: Climate::Tropical, ..c };
        } else if bytes_eq(a, "CLIMATE_TOYLAND".as_bytes()) {
            self.config = WorldGenConfig { climate: Climate::Toyland, ..c };
        } else if bytes_eq(a, "CYCLE_MAP_SIZE_X".as_bytes()) {
            self.config = WorldGenConfig { map_size_x: next_map_size(c.map_size_x), ..c };
        } else if bytes_eq(a, "CYCLE_MAP_SIZE_Y".as_bytes()) {
            self.config = WorldGenConfig { map_size_y: next_map_size(c.map_size_y), ..c };
        } else if bytes_eq(a, "CYCLE_TERRAIN_TYPE".as_bytes()) {
            self.config = WorldGenConfig { terrain_type: next_terrain_type(c.terrain_type), ..c };
        } else if bytes_eq(a, "CYCLE_SEA_LEVEL".as_bytes()) {
            self.config = WorldGenConfig { sea_level: next_sea_level(c.sea_level), ..c };
        } else if bytes_eq(a, "CYCLE_NUM_TOWNS".as_bytes()) {
            self.config = WorldGenConfig { town_count: next_town_count(c.town_count), ..c };
        } else if bytes_eq(a, "CYCLE_NUM_INDUSTRIES".as_bytes()) {
            self.config = WorldGenConfig {
                industry_count: next_industry_count(c.industry_count),
                ..c
            };
        } else if bytes_eq(a, "YEAR_UP".as_bytes()) {
            let y = if c.start_year < u32::MAX { c.start_year + 1 } else { c.start_year };
            self.config = WorldGenConfig { start_year: y, ..c };
        } else if bytes_eq(a, "YEAR_DOWN".as_bytes()) {
            let y = if c.start_year > 0 { c.start_year - 1 } else { 0 };
            self.config = WorldGenConfig { start_year: y, ..c };
        } else {
            return false;
        }
        true
    }
}

} // verus!
