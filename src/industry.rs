//! Industries: the cargo they accept and produce, and how much of their
//! production is carried away.
use vstd::prelude::*;

use crate::map::TileIndex;
use crate::sums::{sum_of, sum_u16, u16_values};
use crate::types::{CalendarDate, CargoType, EconomyDate, IndustryID, Owner, StationID, TownID};

verus! {

pub const INDUSTRYTYPE_COAL_MINE: u16 = 0;

pub const INDUSTRYTYPE_POWER_STATION: u16 = 1;

pub const INDUSTRYTYPE_SAWMILL: u16 = 2;

pub const INDUSTRYTYPE_FOREST: u16 = 3;

pub const INDUSTRYTYPE_OIL_REFINERY: u16 = 4;

pub const INDUSTRYTYPE_OIL_RIG: u16 = 5;

pub const INDUSTRYTYPE_FACTORY: u16 = 6;

pub const INDUSTRYTYPE_PRINTING_WORKS: u16 = 7;

pub const INDUSTRYTYPE_STEEL_MILL: u16 = 8;

pub const INDUSTRYTYPE_FARM: u16 = 9;

pub const INDUSTRYTYPE_COPPER_ORE_MINE: u16 = 10;

pub const INDUSTRYTYPE_OIL_WELLS: u16 = 11;

pub const INDUSTRYTYPE_BANK: u16 = 12;

pub const INDUSTRYTYPE_FOOD_PROCESSING: u16 = 13;

pub const INDUSTRYTYPE_PAPER_MILL: u16 = 14;

pub const INDUSTRYTYPE_GOLD_MINE: u16 = 15;

pub const INDUSTRYTYPE_BANK_TROPIC: u16 = 16;

pub const INDUSTRYTYPE_DIAMOND_MINE: u16 = 17;

pub const INDUSTRYTYPE_IRON_ORE_MINE: u16 = 18;

pub const INDUSTRYTYPE_WATER_SUPPLY: u16 = 19;

pub const INDUSTRYTYPE_WATER_TOWER: u16 = 20;

pub const INDUSTRYTYPE_INVALID: u16 = 0xFFFF;

pub type IndustryType = u16;

/// A set of industry behaviours, one bit each.
pub type IndustryBehaviour = u32;

pub const INDUSTRYBEH_NONE: IndustryBehaviour = 0;

pub const INDUSTRYBEH_PLANT_FIELDS: IndustryBehaviour = 1;

pub const INDUSTRYBEH_CUT_TREES: IndustryBehaviour = 2;

pub const INDUSTRYBEH_BUILT_ONWATER: IndustryBehaviour = 4;

pub const INDUSTRYBEH_TOWN_REQUIRED: IndustryBehaviour = 8;

pub const INDUSTRYBEH_ONLY_NEARTOWN: IndustryBehaviour = 16;

pub const INDUSTRYBEH_ONLY_INTOWN: IndustryBehaviour = 32;

pub const INDUSTRYBEH_NO_PRODUCTION: IndustryBehaviour = 64;

pub const INDUSTRYBEH_BEFORE_1950: IndustryBehaviour = 128;

pub const INDUSTRYBEH_AFTER_1960: IndustryBehaviour = 256;

pub const INDUSTRYBEH_HELICOPTER_STATION: IndustryBehaviour = 512;

pub const INDUSTRYBEH_CAN_SUBSIDENCE: IndustryBehaviour = 1024;

/// What the game may not do to an industry's production.
#[derive(Debug, Clone, Copy, PartialEq, Eq, Structural)]
pub enum IndustryControlFlags {
    Unrestricted,
    NoProductionIncrease,
    NoProductionDecrease,
    NoClosing,
}

/// The production callback an industry uses.
#[derive(Debug, Clone, Copy, PartialEq, Eq, Structural)]
pub enum ProductionCallbackVersion {
    Original,
    Version1,
    Version2,
}

pub const INDUSTRY_NUM_INPUTS: usize = 16;

pub const INDUSTRY_NUM_OUTPUTS: usize = 16;

/// One input or output cargo of an industry.
#[derive(Debug, Clone, Copy, PartialEq, Eq, Structural)]
pub struct IndustryCargo {
    pub cargo: CargoType,
    /// Amount waiting, for inputs.
    pub waiting: u16,
    /// Production rate, for outputs.
    pub production_rate: u8,
    /// Amount last accepted, for inputs.
    pub last_accepted: u32,
}

impl Default for IndustryCargo {
    fn default() -> (r: Self)
        ensures
            r == (IndustryCargo {
                cargo: CargoType(0),
                waiting: 0,
                production_rate: 0,
                last_accepted: 0,
            }),
    {
        IndustryCargo { cargo: CargoType(0), waiting: 0, production_rate: 0, last_accepted: 0 }
    }
}

/// An industry's production per output.
#[derive(Debug, Clone, Copy, PartialEq, Eq)]
pub struct IndustryProduction {
    pub produced: [u16; 16],
    pub transported: [u16; 16],
    /// Monthly production history.
    pub history: [[u8; 12]; 16],
}

impl Default for IndustryProduction {
    fn default() -> (r: Self)
        ensures
            forall|i: int| 0 <= i < 16 ==> r.produced@[i] == 0 && r.transported@[i] == 0,
    {
        let month: [u8; 12] = [0; 12];
        IndustryProduction { produced: [0; 16], transported: [0; 16], history: [month; 16] }
    }
}

/// An industry.
#[derive(Debug, Clone)]
pub struct Industry {
    pub index: IndustryID,
    pub location: TileIndex,
    pub width: u8,
    pub height: u8,
    pub industry_type: IndustryType,
    pub town: TownID,
    pub owner: Owner,
    pub prod_level: u8,
    pub random: u16,
    pub accepts_cargo: [IndustryCargo; 16],
    pub produced_cargo: [IndustryCargo; 16],
    pub production: IndustryProduction,
    pub last_month_production: IndustryProduction,
    pub counter: u16,
    pub type_at_last_rating: IndustryType,
    pub construction_date: CalendarDate,
    pub random_colour: u8,
    pub last_serviced_year: EconomyDate,
    pub was_cargo_delivered: bool,
    pub callback_mask: u32,
    pub control_flags: IndustryControlFlags,
    pub last_text_message: u16,
    pub construction_type: u8,
    pub selected_layout: u8,
    pub exclusive_supplier: Owner,
    pub exclusive_consumer: Owner,
    pub stations_near: Vec<StationID>,
}

/// Whether one of the slots `cs` holds `cargo`.
pub open spec fn lists_cargo(cs: Seq<IndustryCargo>, cargo: CargoType) -> bool {
    exists|i: int| 0 <= i < cs.len() && (#[trigger] cs[i]).cargo == cargo
}

/// The share of `produced` that `transported` is, in whole percent, at most
/// 100; zero where nothing was produced.
pub open spec fn transport_percentage(transported: int, produced: int) -> int {
    if produced == 0 {
        0
    } else if transported * 100 / produced < 100 {
        transported * 100 / produced
    } else {
        100
    }
}

fn any_cargo(cs: &[IndustryCargo; 16], cargo: CargoType) -> (r: bool)
    ensures
        r == lists_cargo(cs@, cargo),
{
    let mut i: usize = 0;
    while i < 16
        invariant
            i <= 16,
            cs@.len() == 16,
            forall|k: int| 0 <= k < i ==> (#[trigger] cs@[k]).cargo != cargo,
        decreases 16 - i,
    {
        if cs[i].cargo == cargo {
            return true;
        }
        i = i + 1;
    }
    false
}

impl Industry {
    /// A new industry of type `industry_type` at `location`, owned by nobody,
    /// with no town and no cargo.
    pub fn new(index: IndustryID, location: TileIndex, industry_type: IndustryType) -> (r: Self)
        ensures
            r.index == index,
            r.location == location,
            r.industry_type == industry_type,
            r.type_at_last_rating == industry_type,
            r.town.0 == 0xFFFF,
            r.owner == Owner::Nobody,
            r.control_flags == IndustryControlFlags::Unrestricted,
            r.exclusive_supplier == Owner::Nobody,
            r.exclusive_consumer == Owner::Nobody,
            r.stations_near@.len() == 0,
            forall|i: int|
                0 <= i < 16 ==> r.production.produced@[i] == 0 && r.production.transported@[i]
                    == 0,
    {
        let cargo = IndustryCargo::default();
        let production = IndustryProduction::default();
        Industry {
            index,
            location,
            width: 0,
            height: 0,
            industry_type,
            town: TownID::invalid(),
            owner: Owner::Nobody,
            prod_level: 0,
            random: 0,
            accepts_cargo: [cargo; 16],
            produced_cargo: [cargo; 16],
            production,
            last_month_production: production,
            counter: 0,
            type_at_last_rating: industry_type,
            construction_date: CalendarDate(0),
            random_colour: 0,
            last_serviced_year: EconomyDate(0),
            was_cargo_delivered: false,
            callback_mask: 0,
            control_flags: IndustryControlFlags::Unrestricted,
            last_text_message: 0,
            construction_type: 0,
            selected_layout: 0,
            exclusive_supplier: Owner::Nobody,
            exclusive_consumer: Owner::Nobody,
            stations_near: Vec::new(),
        }
    }

    /// Whether one of the input slots holds `cargo`.
    pub fn accepts(&self, cargo: CargoType) -> (r: bool)
        ensures
            r == lists_cargo(self.accepts_cargo@, cargo),
    {
        any_cargo(&self.accepts_cargo, cargo)
    }

    /// Whether one of the output slots holds `cargo`.
    pub fn produces(&self, cargo: CargoType) -> (r: bool)
        ensures
            r == lists_cargo(self.produced_cargo@, cargo),
    {
        any_cargo(&self.produced_cargo, cargo)
    }

    /// The production of all outputs together.
    pub fn get_total_production(&self) -> (r: u32)
        ensures
            r == sum_of(u16_values(self.production.produced@)),
    {
        sum_u16(self.production.produced.as_slice())
    }

    /// The amount transported of all outputs together.
    pub fn get_total_transported(&self) -> (r: u32)
        ensures
            r == sum_of(u16_values(self.production.transported@)),
    {
        sum_u16(self.production.transported.as_slice())
    }

    /// The share of the production that was transported, in percent, at most
    /// 100; zero where nothing was produced.
    pub fn get_transport_percentage(&self) -> (r: u8)
        ensures
            r == transport_percentage(
                sum_of(u16_values(self.production.transported@)),
                sum_of(u16_values(self.production.produced@)),
            ),
    {
        let production = self.get_total_production();
        if production == 0 {
            return 0;
        }
        let transported = self.get_total_transported();
        proof {
            crate::sums::lemma_sum_u16_bound(self.production.transported@);
        }
        let pct = transported * 100 / production;
        if pct < 100 {
            pct as u8
        } else {
            100
        }
    }
}

} // verus!
