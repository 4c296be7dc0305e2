use vstd::prelude::*;

verus! {

/// How the chunk stream that follows the file header is compressed.
#[derive(Debug, Clone, Copy, PartialEq, Eq, Structural)]
pub enum CompressionType {
    /// Stored as is (`OTTN`).
    Uncompressed,
    /// zlib stream (`OTTZ`).
    Zlib,
    /// XZ container holding LZMA2 data (`OTTX`).
    Lzma,
    /// LZO (`OTTD`); recognised, but neither read nor written.
    Lzo,
}

} // verus!

verus! {

/// The owner of a tile or an object: one of fifteen companies, or one of a
/// few special owners.
#[derive(Debug, Clone, Copy, PartialEq, Eq, Hash, Structural)]
pub enum Owner {
    Company0,
    Company1,
    Company2,
    Company3,
    Company4,
    Company5,
    Company6,
    Company7,
    Company8,
    Company9,
    Company10,
    Company11,
    Company12,
    Company13,
    Company14,
    /// Owned by a town (`0x0F`).
    Town,
    /// Owned by nobody (`0x10`).
    Nobody,
    /// Owned by the water (`0x11`).
    Water,
    /// Owned by the game script (`0x12`).
    Deity,
    /// No valid owner (`0xFF`).
    Invalid,
}

/// The number that stands for `o` on disk.
pub open spec fn owner_code(o: Owner) -> u8 {
    match o {
        Owner::Company0 => 0,
        Owner::Company1 => 1,
        Owner::Company2 => 2,
        Owner::Company3 => 3,
        Owner::Company4 => 4,
        Owner::Company5 => 5,
        Owner::Company6 => 6,
        Owner::Company7 => 7,
        Owner::Company8 => 8,
        Owner::Company9 => 9,
        Owner::Company10 => 10,
        Owner::Company11 => 11,
        Owner::Company12 => 12,
        Owner::Company13 => 13,
        Owner::Company14 => 14,
        Owner::Town => 0x0F,
        Owner::Nobody => 0x10,
        Owner::Water => 0x11,
        Owner::Deity => 0x12,
        Owner::Invalid => 0xFF,
    }
}

impl Owner {
    /// The number that stands for this owner on disk.
    pub fn as_u8(&self) -> (r: u8)
        ensures
            r == owner_code(*self),
    {
        match self {
            Owner::Company0 => 0,
            Owner::Company1 => 1,
            Owner::Company2 => 2,
            Owner::Company3 => 3,
            Owner::Company4 => 4,
            Owner::Company5 => 5,
            Owner::Company6 => 6,
            Owner::Company7 => 7,
            Owner::Company8 => 8,
            Owner::Company9 => 9,
            Owner::Company10 => 10,
            Owner::Company11 => 11,
            Owner::Company12 => 12,
            Owner::Company13 => 13,
            Owner::Company14 => 14,
            Owner::Town => 0x0F,
            Owner::Nobody => 0x10,
            Owner::Water => 0x11,
            Owner::Deity => 0x12,
            Owner::Invalid => 0xFF,
        }
    }

    /// Whether this owner is one of the fifteen companies.
    pub fn is_company(&self) -> (r: bool)
        ensures
            r == (owner_code(*self) < 15),
    {
        self.as_u8() < 15
    }

    /// The company number of a company owner.
    pub fn company_id(&self) -> (r: Option<u8>)
        ensures
            owner_code(*self) < 15 ==> r == Some(owner_code(*self)),
            owner_code(*self) >= 15 ==> r is None,
    {
        if self.is_company() {
            Some(self.as_u8())
        } else {
            None
        }
    }

    /// The owner for company number `id`.
    pub fn from_company_id(id: u8) -> (r: Self)
        requires
            id <= 14,
        ensures
            owner_code(r) == id,
    {
        match id {
            0 => Owner::Company0,
            1 => Owner::Company1,
            2 => Owner::Company2,
            3 => Owner::Company3,
            4 => Owner::Company4,
            5 => Owner::Company5,
            6 => Owner::Company6,
            7 => Owner::Company7,
            8 => Owner::Company8,
            9 => Owner::Company9,
            10 => Owner::Company10,
            11 => Owner::Company11,
            12 => Owner::Company12,
            13 => Owner::Company13,
            _ => Owner::Company14,
        }
    }
}

impl Default for Owner {
    fn default() -> (r: Self)
        ensures
            r == Owner::Nobody,
    {
        Owner::Nobody
    }
}

/// Company numbers are owners.
pub type CompanyID = Owner;

/// A station number; `0xFFFF` is none.
#[derive(Debug, Clone, Copy, PartialEq, Eq, Hash, Structural)]
pub struct StationID(pub u16);

impl StationID {
    pub fn invalid() -> (r: StationID)
        ensures
            r.0 == 0xFFFF,
    {
        StationID(0xFFFF)
    }

    pub const MAX_STATIONS: usize = 64000;

    pub fn is_valid(&self) -> (r: bool)
        ensures
            r == (self.0 != 0xFFFF && self.0 < 64000),
    {
        self.0 != 0xFFFF && self.0 < 64000
    }
}

impl Default for StationID {
    fn default() -> (r: Self)
        ensures
            r.0 == 0xFFFF,
    {
        StationID(0xFFFF)
    }
}

/// A town number; `0xFFFF` is none.
#[derive(Debug, Clone, Copy, PartialEq, Eq, Hash, Structural)]
pub struct TownID(pub u16);

impl TownID {
    pub fn invalid() -> (r: TownID)
        ensures
            r.0 == 0xFFFF,
    {
        TownID(0xFFFF)
    }

    pub const MAX_TOWNS: usize = 64000;

    pub fn is_valid(&self) -> (r: bool)
        ensures
            r == (self.0 != 0xFFFF && self.0 < 64000),
    {
        self.0 != 0xFFFF && self.0 < 64000
    }
}

impl Default for TownID {
    fn default() -> (r: Self)
        ensures
            r.0 == 0xFFFF,
    {
        TownID(0xFFFF)
    }
}

/// An industry number; `0xFFFF` is none.
#[derive(Debug, Clone, Copy, PartialEq, Eq, Hash, Structural)]
pub struct IndustryID(pub u16);

impl IndustryID {
    pub fn invalid() -> (r: IndustryID)
        ensures
            r.0 == 0xFFFF,
    {
        IndustryID(0xFFFF)
    }

    pub const MAX_INDUSTRIES: usize = 64000;

    pub fn is_valid(&self) -> (r: bool)
        ensures
            r == (self.0 != 0xFFFF && self.0 < 64000),
    {
        self.0 != 0xFFFF && self.0 < 64000
    }
}

impl Default for IndustryID {
    fn default() -> (r: Self)
        ensures
            r.0 == 0xFFFF,
    {
        IndustryID(0xFFFF)
    }
}

/// A vehicle number; `0xFFFFF` is none.
#[derive(Debug, Clone, Copy, PartialEq, Eq, Hash, Structural)]
pub struct VehicleID(pub u32);

impl VehicleID {
    pub fn invalid() -> (r: VehicleID)
        ensures
            r.0 == 0xFFFFF,
    {
        VehicleID(0xFFFFF)
    }

    pub fn new_id() -> (r: VehicleID)
        ensures
            r.0 == 0xFF000,
    {
        VehicleID(0xFF000)
    }

    pub const MAX_VEHICLES: usize = 0xFFFFF;

    pub fn is_valid(&self) -> (r: bool)
        ensures
            r == (self.0 < 0xFFFFF),
    {
        self.0 < 0xFFFFF
    }
}

impl Default for VehicleID {
    fn default() -> (r: Self)
        ensures
            r.0 == 0xFFFFF,
    {
        VehicleID(0xFFFFF)
    }
}

/// An engine number; `0xFFFF` is none.
#[derive(Debug, Clone, Copy, PartialEq, Eq, Hash, Structural)]
pub struct EngineID(pub u16);

impl EngineID {
    pub fn invalid() -> (r: EngineID)
        ensures
            r.0 == 0xFFFF,
    {
        EngineID(0xFFFF)
    }
}

/// The unit number of a vehicle.
pub type UnitID = u16;

/// A vehicle group number.
#[derive(Debug, Clone, Copy, PartialEq, Eq, Hash, Structural)]
pub struct GroupID(pub u16);

impl GroupID {
    pub fn invalid() -> (r: GroupID)
        ensures
            r.0 == 0xFFFF,
    {
        GroupID(0xFFFF)
    }

    pub fn default_group() -> (r: GroupID)
        ensures
            r.0 == 0xFFFE,
    {
        GroupID(0xFFFE)
    }

    pub fn all() -> (r: GroupID)
        ensures
            r.0 == 0xFFFD,
    {
        GroupID(0xFFFD)
    }
}

/// A cargo type; there are 64, and `0xFF` is none.
#[derive(Debug, Clone, Copy, PartialEq, Eq, Hash, Structural)]
pub struct CargoType(pub u8);

impl CargoType {
    pub fn invalid() -> (r: CargoType)
        ensures
            r.0 == 0xFF,
    {
        CargoType(0xFF)
    }

    pub const NUM_CARGO: usize = 64;

    pub fn is_valid(&self) -> (r: bool)
        ensures
            r == (self.0 < 64),
    {
        self.0 < 64
    }

    pub fn as_u16(&self) -> (r: u16)
        ensures
            r == self.0,
    {
        self.0 as u16
    }

    pub fn as_usize(&self) -> (r: usize)
        ensures
            r == self.0,
    {
        self.0 as usize
    }
}

impl Default for CargoType {
    fn default() -> (r: Self)
        ensures
            r.0 == 0xFF,
    {
        CargoType(0xFF)
    }
}

/// An amount of money.
pub type Money = i64;

/// A reference to a game string.
pub type StringID = u16;

pub const INVALID_STRING_ID: StringID = 0xFFFF;

/// One bit per company.
pub type CompanyMask = u16;

/// A calendar date, in days since year zero.
#[derive(Debug, Clone, Copy, PartialEq, Eq, Hash, Structural)]
pub struct CalendarDate(pub i32);

/// A calendar year.
#[derive(Debug, Clone, Copy, PartialEq, Eq, Hash, Structural)]
pub struct CalendarYear(pub i32);

/// An economy date, in days since the economy started.
#[derive(Debug, Clone, Copy, PartialEq, Eq, Hash, Structural)]
pub struct EconomyDate(pub i32);

/// An economy year.
#[derive(Debug, Clone, Copy, PartialEq, Eq, Hash, Structural)]
pub struct EconomyYear(pub i32);

pub const INVALID_DATE: i32 = -1;

impl EconomyYear {
    pub fn new(year: i32) -> (r: Self)
        ensures
            r.0 == year,
    {
        EconomyYear(year)
    }
}

impl CalendarYear {
    pub fn new(year: i32) -> (r: Self)
        ensures
            r.0 == year,
    {
        CalendarYear(year)
    }
}

/// A count of game ticks.
pub type Tick = u64;

/// The destination of an order.
pub type DestinationID = u16;

pub type OwnerID = Owner;

/// The company colours.
#[derive(Debug, Clone, Copy, PartialEq, Eq, Structural)]
pub enum Colours {
    DarkBlue,
    PaleGreen,
    Pink,
    Yellow,
    Red,
    LightBlue,
    Green,
    DarkGreen,
    Blue,
    Cream,
    Mauve,
    Purple,
    Orange,
    Brown,
    Grey,
    White,
    End,
    Invalid,
}

} // verus!
