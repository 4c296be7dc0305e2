//! Companies: their money, liveries, economy history and infrastructure.
use vstd::prelude::*;
use vstd::slice::slice_subrange;

use crate::map::TileIndex;
use crate::sums::{sum_of, sum_u32, u32_values};
use crate::types::{
    owner_code, CalendarYear, Colours, CompanyMask, EconomyYear, Money, Owner, StringID,
    INVALID_STRING_ID,
};

verus! {

/// The loan limit that stands for "the default limit".
pub const COMPANY_MAX_LOAN_DEFAULT: Money = i64::MIN;

/// The number of quarters of economy history kept.
pub const MAX_HISTORY_QUARTERS: usize = 24;

/// The kinds of vehicle that can each have their own livery.
#[derive(Debug, Clone, Copy, PartialEq, Eq, Structural)]
pub enum LiveryScheme {
    Default,
    SteamEngine,
    DieselEngine,
    ElectricEngine,
    MonorailEngine,
    MaglevEngine,
    DMU,
    EMU,
    PassengerWagon,
    FreightWagon,
    Bus,
    Truck,
    PassengerShip,
    FreightShip,
    Helicopter,
    SmallPlane,
    LargePlane,
    PassengerTram,
    FreightTram,
    RoadVehicle,
    End,
}

/// The slot of `s` in a company's livery table; `End` is one past the last.
pub open spec fn livery_index(s: LiveryScheme) -> nat {
    match s {
        LiveryScheme::Default => 0,
        LiveryScheme::SteamEngine => 1,
        LiveryScheme::DieselEngine => 2,
        LiveryScheme::ElectricEngine => 3,
        LiveryScheme::MonorailEngine => 4,
        LiveryScheme::MaglevEngine => 5,
        LiveryScheme::DMU => 6,
        LiveryScheme::EMU => 7,
        LiveryScheme::PassengerWagon => 8,
        LiveryScheme::FreightWagon => 9,
        LiveryScheme::Bus => 10,
        LiveryScheme::Truck => 11,
        LiveryScheme::PassengerShip => 12,
        LiveryScheme::FreightShip => 13,
        LiveryScheme::Helicopter => 14,
        LiveryScheme::SmallPlane => 15,
        LiveryScheme::LargePlane => 16,
        LiveryScheme::PassengerTram => 17,
        LiveryScheme::FreightTram => 18,
        LiveryScheme::RoadVehicle => 19,
        LiveryScheme::End => 20,
    }
}

impl LiveryScheme {
    pub fn index(self) -> (r: usize)
        ensures
            r == livery_index(self),
    {
        match self {
            LiveryScheme::Default => 0,
            LiveryScheme::SteamEngine => 1,
            LiveryScheme::DieselEngine => 2,
            LiveryScheme::ElectricEngine => 3,
            LiveryScheme::MonorailEngine => 4,
            LiveryScheme::MaglevEngine => 5,
            LiveryScheme::DMU => 6,
            LiveryScheme::EMU => 7,
            LiveryScheme::PassengerWagon => 8,
            LiveryScheme::FreightWagon => 9,
            LiveryScheme::Bus => 10,
            LiveryScheme::Truck => 11,
            LiveryScheme::PassengerShip => 12,
            LiveryScheme::FreightShip => 13,
            LiveryScheme::Helicopter => 14,
            LiveryScheme::SmallPlane => 15,
            LiveryScheme::LargePlane => 16,
            LiveryScheme::PassengerTram => 17,
            LiveryScheme::FreightTram => 18,
            LiveryScheme::RoadVehicle => 19,
            LiveryScheme::End => 20,
        }
    }
}

/// The number of livery schemes.
pub const LS_END: usize = 20;

/// The colours of one livery scheme.
#[derive(Debug, Clone, Copy, PartialEq, Eq, Structural)]
pub struct Livery {
    /// 0 when the scheme is not used, 1 when it is.
    pub in_use: u8,
    pub colour1: u8,
    pub colour2: u8,
}

impl Default for Livery {
    fn default() -> (r: Self)
        ensures
            r == (Livery { in_use: 0, colour1: 0, colour2: 0 }),
    {
        Livery { in_use: 0, colour1: 0, colour2: 0 }
    }
}

/// A company's economy over one quarter.
#[derive(Debug, Clone, Copy, PartialEq, Eq)]
pub struct CompanyEconomyEntry {
    pub income: Money,
    pub expenses: Money,
    /// Cargo delivered, per cargo type.
    pub delivered_cargo: [u32; 64],
    /// The company score, 0 to 1000.
    pub performance_history: i32,
    pub company_value: Money,
}

impl Default for CompanyEconomyEntry {
    fn default() -> (r: Self)
        ensures
            r.income == 0 && r.expenses == 0 && r.performance_history == 0 && r.company_value == 0,
            forall|i: int| 0 <= i < 64 ==> r.delivered_cargo@[i] == 0,
    {
        CompanyEconomyEntry {
            income: 0,
            expenses: 0,
            delivered_cargo: [0; 64],
            performance_history: 0,
            company_value: 0,
        }
    }
}

pub type RailTypes = u16;

pub type RoadTypes = u64;

/// A company's infrastructure counts: per rail type, per road type (the
/// first 32 road types are roads, the last 32 tramways), and the rest.
#[derive(Debug, Clone, PartialEq, Eq)]
pub struct CompanyInfrastructure {
    pub rail: [u32; 16],
    pub road: [u32; 64],
    pub signal: u32,
    pub water: u32,
    pub station: u32,
    pub airport: u32,
}

impl Default for CompanyInfrastructure {
    fn default() -> (r: Self)
        ensures
            forall|i: int| 0 <= i < 16 ==> r.rail@[i] == 0,
            forall|i: int| 0 <= i < 64 ==> r.road@[i] == 0,
            r.signal == 0 && r.water == 0 && r.station == 0 && r.airport == 0,
    {
        CompanyInfrastructure {
            rail: [0; 16],
            road: [0; 64],
            signal: 0,
            water: 0,
            station: 0,
            airport: 0,
        }
    }
}

impl CompanyInfrastructure {
    /// The number of rail pieces of all rail types.
    pub fn get_rail_total(&self) -> (r: u32)
        requires
            sum_of(u32_values(self.rail@)) <= u32::MAX,
        ensures
            r == sum_of(u32_values(self.rail@)),
    {
        sum_u32(self.rail.as_slice())
    }

    /// The number of road pieces: road types 0 to 31.
    pub fn get_road_total(&self) -> (r: u32)
        requires
            sum_of(u32_values(self.road@.take(32))) <= u32::MAX,
        ensures
            r == sum_of(u32_values(self.road@.take(32))),
    {
        let s = slice_subrange(self.road.as_slice(), 0, 32);
        proof {
            assert(s@ =~= self.road@.take(32));
        }
        sum_u32(s)
    }

    /// The number of tramway pieces: road types 32 to 63.
    pub fn get_tram_total(&self) -> (r: u32)
        requires
            sum_of(u32_values(self.road@.skip(32))) <= u32::MAX,
        ensures
            r == sum_of(u32_values(self.road@.skip(32))),
    {
        let s = slice_subrange(self.road.as_slice(), 32, 64);
        proof {
            assert(s@ =~= self.road@.skip(32));
        }
        sum_u32(s)
    }
}

pub type CompanyManagerFace = u32;

/// The categories of company expenses.
#[derive(Debug, Clone, Copy, PartialEq, Eq, Structural)]
pub enum ExpensesType {
    Construction,
    NewVehicles,
    TrainRunCost,
    RoadVehRunCost,
    AircraftRunCost,
    ShipRunCost,
    PropertyMaint,
    TrainIncome,
    RoadVehIncome,
    AircraftIncome,
    ShipIncome,
    LoanInt,
    Other,
    End,
}

/// One year of expenses, per category.
pub type Expenses = [Money; 13];

/// A company's vehicle settings.
#[derive(Debug, Clone, PartialEq, Eq, Structural)]
pub struct CompanySettings {
    pub engine_renew: bool,
    pub engine_renew_months: i16,
    pub engine_renew_money: Money,
    pub renew_keep_length: bool,
    pub vehicle_breakdowns: u8,
    pub servint_ispercent: bool,
    pub servint_trains: u16,
    pub servint_roadveh: u16,
    pub servint_aircraft: u16,
    pub servint_ships: u16,
}

impl Default for CompanySettings {
    fn default() -> (r: Self)
        ensures
            r == (CompanySettings {
                engine_renew: false,
                engine_renew_months: 0,
                engine_renew_money: 0,
                renew_keep_length: false,
                vehicle_breakdowns: 0,
                servint_ispercent: false,
                servint_trains: 0,
                servint_roadveh: 0,
                servint_aircraft: 0,
                servint_ships: 0,
            }),
    {
        CompanySettings {
            engine_renew: false,
            engine_renew_months: 0,
            engine_renew_money: 0,
            renew_keep_length: false,
            vehicle_breakdowns: 0,
            servint_ispercent: false,
            servint_trains: 0,
            servint_roadveh: 0,
            servint_aircraft: 0,
            servint_ships: 0,
        }
    }
}

/// A company.
#[derive(Debug, Clone)]
pub struct Company {
    /// The company number.
    pub index: u8,
    pub name_2: u32,
    pub name_1: StringID,
    pub name: String,
    pub president_name_1: StringID,
    pub president_name_2: u32,
    pub president_name: String,
    pub face: CompanyManagerFace,
    pub colour: Colours,
    pub money: Money,
    pub money_fraction: u8,
    pub current_loan: Money,
    pub max_loan: Money,
    pub location_of_hq: TileIndex,
    pub last_build_coordinate: TileIndex,
    pub inaugurated_year: EconomyYear,
    pub inaugurated_year_calendar: CalendarYear,
    pub months_of_bankruptcy: u8,
    pub bankrupt_asked: CompanyMask,
    pub bankrupt_timeout: i16,
    pub bankrupt_value: Money,
    pub terraform_limit: u32,
    pub clear_limit: u32,
    pub tree_limit: u32,
    pub build_object_limit: u32,
    pub is_ai: bool,
    pub yearly_expenses: [Expenses; 3],
    pub cur_economy: CompanyEconomyEntry,
    pub old_economy: [CompanyEconomyEntry; 24],
    pub num_valid_stat_ent: u8,
    pub livery: [Livery; 20],
    pub settings: CompanySettings,
    pub infrastructure: CompanyInfrastructure,
    pub avail_railtypes: RailTypes,
    pub avail_roadtypes: RoadTypes,
    pub block_preview: u8,
    pub months_empty: u8,
}

impl Company {
    /// A new human company with the starting money and loan, the default
    /// loan limit, no headquarters and nothing built.
    pub fn new(index: u8, name_1: StringID) -> (r: Self)
        ensures
            r.index == index,
            r.name_1 == name_1,
            r.name@ == Seq::<char>::empty(),
            r.president_name_1 == INVALID_STRING_ID,
            r.colour == Colours::Red,
            r.money == 100000,
            r.current_loan == 100000,
            r.max_loan == COMPANY_MAX_LOAN_DEFAULT,
            r.location_of_hq.0 == 0xFFFF_FFFF,
            r.last_build_coordinate.0 == 0,
            r.inaugurated_year.0 == 0,
            !r.is_ai,
            r.num_valid_stat_ent == 0,
            forall|i: int| 0 <= i < 20 ==> #[trigger] r.livery@[i] == (Livery { in_use: 0, colour1: 0, colour2: 0 }),
    {
        let livery = Livery::default();
        let entry = CompanyEconomyEntry::default();
        let no_expenses: Expenses = [0; 13];
        Company {
            index,
            name_2: 0,
            name_1,
            name: String::new(),
            president_name_1: INVALID_STRING_ID,
            president_name_2: 0,
            president_name: String::new(),
            face: 0,
            colour: Colours::Red,
            money: 100000,
            money_fraction: 0,
            current_loan: 100000,
            max_loan: COMPANY_MAX_LOAN_DEFAULT,
            location_of_hq: TileIndex::invalid(),
            last_build_coordinate: TileIndex(0),
            inaugurated_year: EconomyYear(0),
            inaugurated_year_calendar: CalendarYear(0),
            months_of_bankruptcy: 0,
            bankrupt_asked: 0,
            bankrupt_timeout: 0,
            bankrupt_value: 0,
            terraform_limit: 0,
            clear_limit: 0,
            tree_limit: 0,
            build_object_limit: 0,
            is_ai: false,
            yearly_expenses: [no_expenses; 3],
            cur_economy: entry,
            old_economy: [entry; 24],
            num_valid_stat_ent: 0,
            livery: [livery; 20],
            settings: CompanySettings::default(),
            infrastructure: CompanyInfrastructure::default(),
            avail_railtypes: 0,
            avail_roadtypes: 0,
            block_preview: 0,
            months_empty: 0,
        }
    }

    pub fn is_ai_company(&self) -> (r: bool)
        ensures
            r == self.is_ai,
    {
        self.is_ai
    }

    pub fn is_human_company(&self) -> (r: bool)
        ensures
            r == !self.is_ai,
    {
        !self.is_ai
    }

    /// The owner that stands for this company; `Invalid` for a number above
    /// fourteen.
    pub fn as_owner(&self) -> (r: Owner)
        ensures
            self.index <= 14 ==> owner_code(r) == self.index,
            self.index > 14 ==> r == Owner::Invalid,
    {
        if self.index <= 14 {
            Owner::from_company_id(self.index)
        } else {
            Owner::Invalid
        }
    }

    /// The recolour offset of a livery: its first colour, plus sixteen
    /// times its second colour where `use_secondary` is set.
    pub fn get_company_recolour_offset(&self, livery_scheme: LiveryScheme, use_secondary: bool) -> (r: u8)
        requires
            livery_scheme != LiveryScheme::End,
            use_secondary ==> self.livery@[livery_index(livery_scheme) as int].colour1
                + self.livery@[livery_index(livery_scheme) as int].colour2 * 16 <= u8::MAX,
        ensures
            ({
                let l = self.livery@[livery_index(livery_scheme) as int];
                r == if use_secondary {
                    l.colour1 + l.colour2 * 16
                } else {
                    l.colour1 as int
                }
            }),
    {
        let livery = self.livery[livery_scheme.index()];
        if use_secondary {
            livery.colour1 + livery.colour2 * 16
        } else {
            livery.colour1
        }
    }

    /// The loan limit: 500000 while the default stands, else the set limit.
    pub fn get_max_loan(&self) -> (r: Money)
        ensures
            r == if self.max_loan == COMPANY_MAX_LOAN_DEFAULT {
                500000
            } else {
                self.max_loan
            },
    {
        if self.max_loan == COMPANY_MAX_LOAN_DEFAULT {
            500000
        } else {
            self.max_loan
        }
    }
}

} // verus!
