//! The map: a grid of tiles whose sides are powers of two.
use vstd::prelude::*;

verus! {

/// The number of a tile, counted row by row; `0xFFFF_FFFF` is none.
#[derive(Debug, Clone, Copy, PartialEq, Eq, Hash, Structural)]
pub struct TileIndex(pub u32);

impl TileIndex {
    pub fn invalid() -> (r: TileIndex)
        ensures
            r.0 == 0xFFFF_FFFF,
    {
        TileIndex(0xFFFF_FFFF)
    }

    pub fn is_valid(self) -> (r: bool)
        ensures
            r == (self.0 != 0xFFFF_FFFF),
    {
        self.0 != 0xFFFF_FFFF
    }
}

impl Default for TileIndex {
    fn default() -> (r: Self)
        ensures
            r.0 == 0xFFFF_FFFF,
    {
        TileIndex(0xFFFF_FFFF)
    }
}

/// What stands on a tile.
#[derive(Debug, Clone, Copy, PartialEq, Eq, Structural)]
pub enum TileType {
    Clear,
    Railway,
    Road,
    House,
    Trees,
    Station,
    Water,
    Void,
    Industry,
    TunnelBridge,
    Object,
}

/// The tile type stored as `n`; codes above ten read as `Object`.
pub open spec fn tile_type_of(n: nat) -> TileType {
    if n == 0 {
        TileType::Clear
    } else if n == 1 {
        TileType::Railway
    } else if n == 2 {
        TileType::Road
    } else if n == 3 {
        TileType::House
    } else if n == 4 {
        TileType::Trees
    } else if n == 5 {
        TileType::Station
    } else if n == 6 {
        TileType::Water
    } else if n == 7 {
        TileType::Void
    } else if n == 8 {
        TileType::Industry
    } else if n == 9 {
        TileType::TunnelBridge
    } else {
        TileType::Object
    }
}

/// The code that stores `t`.
pub open spec fn tile_type_code(t: TileType) -> u8 {
    match t {
        TileType::Clear => 0,
        TileType::Railway => 1,
        TileType::Road => 2,
        TileType::House => 3,
        TileType::Trees => 4,
        TileType::Station => 5,
        TileType::Water => 6,
        TileType::Void => 7,
        TileType::Industry => 8,
        TileType::TunnelBridge => 9,
        TileType::Object => 10,
    }
}

impl TileType {
    pub fn code(self) -> (r: u8)
        ensures
            r == tile_type_code(self),
    {
        match self {
            TileType::Clear => 0,
            TileType::Railway => 1,
            TileType::Road => 2,
            TileType::House => 3,
            TileType::Trees => 4,
            TileType::Station => 5,
            TileType::Water => 6,
            TileType::Void => 7,
            TileType::Industry => 8,
            TileType::TunnelBridge => 9,
            TileType::Object => 10,
        }
    }
}

/// The climate zone of a tile in the tropic climate.
#[derive(Debug, Clone, Copy, PartialEq, Eq, Structural)]
pub enum TropicZone {
    Normal,
    Desert,
    Rainforest,
}

/// The zone stored as `n`; codes above two read as `Rainforest`.
pub open spec fn tropic_zone_of(n: nat) -> TropicZone {
    if n == 0 {
        TropicZone::Normal
    } else if n == 1 {
        TropicZone::Desert
    } else {
        TropicZone::Rainforest
    }
}

pub open spec fn tropic_zone_code(z: TropicZone) -> u8 {
    match z {
        TropicZone::Normal => 0,
        TropicZone::Desert => 1,
        TropicZone::Rainforest => 2,
    }
}

/// The eight compass directions.
#[derive(Debug, Clone, Copy, PartialEq, Eq, Structural)]
pub enum Direction {
    North,
    NorthEast,
    East,
    SouthEast,
    South,
    SouthWest,
    West,
    NorthWest,
    Invalid,
}

/// The common part of a tile. `type_height` packs the tile type (bits 4 to
/// 7), the bridge above (bits 2 and 3) and the tropic zone (bits 0 and 1).
#[derive(Debug, Clone, Copy)]
pub struct TileBase {
    pub type_height: u8,
    pub height: u8,
    pub m2: u16,
    pub m1: u8,
    pub m3: u8,
    pub m4: u8,
    pub m5: u8,
}

impl TileBase {
    pub fn tile_type(&self) -> (r: TileType)
        ensures
            r == tile_type_of((self.type_height / 16) as nat),
    {
        match self.type_height / 16 {
            0 => TileType::Clear,
            1 => TileType::Railway,
            2 => TileType::Road,
            3 => TileType::House,
            4 => TileType::Trees,
            5 => TileType::Station,
            6 => TileType::Water,
            7 => TileType::Void,
            8 => TileType::Industry,
            9 => TileType::TunnelBridge,
            _ => TileType::Object,
        }
    }

    /// Stores `tile_type` in the high four bits and keeps the rest.
    pub fn set_tile_type(&mut self, tile_type: TileType)
        ensures
            final(self).type_height == old(self).type_height % 16 + tile_type_code(tile_type) * 16,
            final(self).height == old(self).height,
            final(self).m1 == old(self).m1,
            final(self).m2 == old(self).m2,
            final(self).m3 == old(self).m3,
            final(self).m4 == old(self).m4,
            final(self).m5 == old(self).m5,
    {
        self.type_height = self.type_height % 16 + tile_type.code() * 16;
    }

    pub fn bridge_above(&self) -> (r: u8)
        ensures
            r == self.type_height / 4 % 4,
    {
        self.type_height / 4 % 4
    }

    /// Stores the low two bits of `bridge` in bits 2 and 3 and keeps the rest.
    pub fn set_bridge_above(&mut self, bridge: u8)
        ensures
            final(self).type_height == old(self).type_height - (old(self).type_height / 4 % 4) * 4
                + (bridge % 4) * 4,
            final(self).height == old(self).height,
            final(self).m1 == old(self).m1,
            final(self).m2 == old(self).m2,
            final(self).m3 == old(self).m3,
            final(self).m4 == old(self).m4,
            final(self).m5 == old(self).m5,
    {
        self.type_height = self.type_height - (self.type_height / 4 % 4) * 4 + (bridge % 4) * 4;
    }

    pub fn climate_zone(&self) -> (r: TropicZone)
        ensures
            r == tropic_zone_of((self.type_height % 4) as nat),
    {
        match self.type_height % 4 {
            0 => TropicZone::Normal,
            1 => TropicZone::Desert,
            _ => TropicZone::Rainforest,
        }
    }

    /// Stores `zone` in the low two bits and keeps the rest.
    pub fn set_climate_zone(&mut self, zone: TropicZone)
        ensures
            final(self).type_height == old(self).type_height - old(self).type_height % 4
                + tropic_zone_code(zone),
            final(self).height == old(self).height,
            final(self).m1 == old(self).m1,
            final(self).m2 == old(self).m2,
            final(self).m3 == old(self).m3,
            final(self).m4 == old(self).m4,
            final(self).m5 == old(self).m5,
    {
        let code: u8 = match zone {
            TropicZone::Normal => 0,
            TropicZone::Desert => 1,
            TropicZone::Rainforest => 2,
        };
        self.type_height = self.type_height - self.type_height % 4 + code;
    }
}

/// The extra bytes of a tile.
#[derive(Debug, Clone, Copy)]
pub struct TileExtended {
    pub m6: u8,
    pub m7: u8,
    pub m8: u16,
}

/// One tile of the map.
#[derive(Debug, Clone, Copy)]
pub struct Tile {
    pub base: TileBase,
    pub extended: TileExtended,
}

/// A tile of type `t` at height `height` with every other byte zero.
pub open spec fn blank_tile(t: TileType, height: u8) -> Tile {
    Tile {
        base: TileBase {
            type_height: (tile_type_code(t) * 16) as u8,
            height,
            m2: 0,
            m1: 0,
            m3: 0,
            m4: 0,
            m5: 0,
        },
        extended: TileExtended { m6: 0, m7: 0, m8: 0 },
    }
}

impl Tile {
    pub fn new_void() -> (r: Self)
        ensures
            r == blank_tile(TileType::Void, 0),
    {
        Tile {
            base: TileBase { type_height: 7 * 16, height: 0, m2: 0, m1: 0, m3: 0, m4: 0, m5: 0 },
            extended: TileExtended { m6: 0, m7: 0, m8: 0 },
        }
    }

    pub fn new_clear(height: u8) -> (r: Self)
        ensures
            r == blank_tile(TileType::Clear, height),
    {
        Tile {
            base: TileBase { type_height: 0, height, m2: 0, m1: 0, m3: 0, m4: 0, m5: 0 },
            extended: TileExtended { m6: 0, m7: 0, m8: 0 },
        }
    }
}

/// `2` raised to the power `n`.
pub open spec fn pow2(n: nat) -> nat
    decreases n,
{
    if n == 0 {
        1
    } else {
        2 * pow2((n - 1) as nat)
    }
}

/// The map: `size_x` by `size_y` tiles, each side a power of two from 64 to
/// 4096, stored row by row.
pub struct GameMap {
    pub log_x: u32,
    pub log_y: u32,
    pub size_x: u32,
    pub size_y: u32,
    pub size: u32,
    pub tile_mask: u32,
    pub tiles: Vec<Tile>,
}

/// Whether a map side of `2^log` tiles is allowed.
pub open spec fn valid_log(log: u32) -> bool {
    6 <= log <= 12
}

impl GameMap {
    /// The sizes agree with the logarithms and the tiles fill the map.
    pub open spec fn wf(&self) -> bool {
        &&& valid_log(self.log_x)
        &&& valid_log(self.log_y)
        &&& self.size_x == pow2(self.log_x as nat)
        &&& self.size_y == pow2(self.log_y as nat)
        &&& self.size == self.size_x * self.size_y
        &&& self.tile_mask == self.size - 1
        &&& self.tiles@.len() == self.size
    }

    /// A map of `2^log_x` by `2^log_y` void tiles; each side must be 64 to
    /// 4096 tiles.
    pub fn new(log_x: u32, log_y: u32) -> (r: Result<Self, String>)
        ensures
            valid_log(log_x) && valid_log(log_y) ==> r is Ok && r->Ok_0.wf() && r->Ok_0.log_x
                == log_x && r->Ok_0.log_y == log_y && forall|i: int|
                0 <= i < r->Ok_0.tiles@.len() ==> #[trigger] r->Ok_0.tiles@[i] == blank_tile(
                TileType::Void,
                0,
            ),
            !(valid_log(log_x) && valid_log(log_y)) ==> r is Err,
    {
        if log_x < 6 || log_x > 12 || log_y < 6 || log_y > 12 {
            return Err(String::from_str("Invalid map dimensions"));
        }
        let size_x = power_of_two(log_x);
        let size_y = power_of_two(log_y);
        proof {
            lemma_pow2_mono(log_x as nat, 12);
            lemma_pow2_mono(log_y as nat, 12);
            reveal_with_fuel(pow2, 13);
            assert(size_x * size_y <= 4096 * 4096) by (nonlinear_arith)
                requires
                    size_x <= 4096,
                    size_y <= 4096,
            ;
            assert(size_x * size_y >= 1) by (nonlinear_arith)
                requires
                    size_x >= 1,
                    size_y >= 1,
            ;
        }
        let size = size_x * size_y;
        let tile_mask = size - 1;
        let mut tiles: Vec<Tile> = Vec::new();
        let mut i: u32 = 0;
        while i < size
            invariant
                i <= size,
                tiles@.len() == i,
                forall|k: int| 0 <= k < i ==> #[trigger] tiles@[k] == blank_tile(TileType::Void, 0),
            decreases size - i,
        {
            tiles.push(Tile::new_void());
            i = i + 1;
        }
        Ok(GameMap { log_x, log_y, size_x, size_y, size, tile_mask, tiles })
    }

    /// The tile at `index`, if the index lies on the map.
    pub fn get_tile(&self, index: TileIndex) -> (r: Option<&Tile>)
        requires
            self.wf(),
        ensures
            index.0 != 0xFFFF_FFFF && index.0 < self.size ==> r is Some && *r->0
                == self.tiles@[index.0 as int],
            !(index.0 != 0xFFFF_FFFF && index.0 < self.size) ==> r is None,
    {
        if index.is_valid() && index.0 < self.size {
            Some(&self.tiles[index.0 as usize])
        } else {
            None
        }
    }

    /// The tile at `index` for writing, if the index lies on the map; the
    /// other tiles and the sizes stay as they are.
    pub fn get_tile_mut(&mut self, index: TileIndex) -> (r: Option<&mut Tile>)
        requires
            old(self).wf(),
        ensures
            index.0 != 0xFFFF_FFFF && index.0 < old(self).size ==> r is Some && *r->0
                == old(self).tiles@[index.0 as int] && final(self).tiles@ == old(self).tiles@.update(
                index.0 as int,
                *final(r->0),
            ),
            !(index.0 != 0xFFFF_FFFF && index.0 < old(self).size) ==> r is None && *final(self)
                == *old(self),
            final(self).log_x == old(self).log_x,
            final(self).log_y == old(self).log_y,
            final(self).size_x == old(self).size_x,
            final(self).size_y == old(self).size_y,
            final(self).size == old(self).size,
            final(self).tile_mask == old(self).tile_mask,
    {
        if index.is_valid() && index.0 < self.size {
            Some(&mut self.tiles[index.0 as usize])
        } else {
            None
        }
    }

    /// The tile at `x`, `y`, or none where the point lies off the map.
    pub fn tile_xy(&self, x: u32, y: u32) -> (r: TileIndex)
        requires
            self.wf(),
        ensures
            x < self.size_x && y < self.size_y ==> r.0 == y * self.size_x + x,
            !(x < self.size_x && y < self.size_y) ==> r.0 == 0xFFFF_FFFF,
    {
        if x < self.size_x && y < self.size_y {
            proof {
                assert(y * self.size_x + x < self.size_x * self.size_y) by (nonlinear_arith)
                    requires
                        x < self.size_x,
                        y < self.size_y,
                ;
            }
            TileIndex(y * self.size_x + x)
        } else {
            TileIndex(0xFFFF_FFFF)
        }
    }

    /// The column of `index`.
    pub fn tile_x(&self, index: TileIndex) -> (r: u32)
        requires
            self.wf(),
        ensures
            r == index.0 % self.size_x,
    {
        proof {
            lemma_pow2_pos(self.log_x as nat);
        }
        index.0 % self.size_x
    }

    /// The row of `index`.
    pub fn tile_y(&self, index: TileIndex) -> (r: u32)
        requires
            self.wf(),
        ensures
            r == index.0 / self.size_x,
    {
        proof {
            lemma_pow2_pos(self.log_x as nat);
        }
        index.0 / self.size_x
    }
}

/// `2^n` for `n` of at most 12.
fn power_of_two(n: u32) -> (r: u32)
    requires
        n <= 12,
    ensures
        r == pow2(n as nat),
{
    let mut v: u32 = 1;
    let mut i: u32 = 0;
    while i < n
        invariant
            i <= n <= 12,
            v == pow2(i as nat),
        decreases n - i,
    {
        proof {
            lemma_pow2_mono(i as nat, 11);
            reveal_with_fuel(pow2, 12);
        }
        v = v * 2;
        i = i + 1;
    }
    v
}

proof fn lemma_pow2_mono(a: nat, b: nat)
    requires
        a <= b,
    ensures
        pow2(a) <= pow2(b),
    decreases b,
{
    if a < b {
        lemma_pow2_mono(a, (b - 1) as nat);
    }
}

proof fn lemma_pow2_pos(a: nat)
    ensures
        pow2(a) >= 1,
    decreases a,
{
    if a > 0 {
        lemma_pow2_pos((a - 1) as nat);
    }
}

} // verus!
