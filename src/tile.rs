use vstd::prelude::*;

verus! {

/// The kinds of tile that a cell of the world can hold.
#[derive(Clone, Copy, Debug, PartialEq, Eq, Structural)]
pub enum ChunkType {
    Air,
    Dirt,
    Grass,
    CheckPoint,
    Spikes,
    TallGrass,
    Stone,
    Planks,
    CrackedStone,
}

/// The storage code of a tile: Air is 0, CrackedStone is 8.
pub open spec fn code_of(t: ChunkType) -> u8 {
    match t {
        ChunkType::Air => 0,
        ChunkType::Dirt => 1,
        ChunkType::Grass => 2,
        ChunkType::CheckPoint => 3,
        ChunkType::Spikes => 4,
        ChunkType::TallGrass => 5,
        ChunkType::Stone => 6,
        ChunkType::Planks => 7,
        ChunkType::CrackedStone => 8,
    }
}

/// The tile that a storage code stands for; a code above 8 stands for Air.
pub open spec fn tile_of(n: u8) -> ChunkType {
    if n == 1 {
        ChunkType::Dirt
    } else if n == 2 {
        ChunkType::Grass
    } else if n == 3 {
        ChunkType::CheckPoint
    } else if n == 4 {
        ChunkType::Spikes
    } else if n == 5 {
        ChunkType::TallGrass
    } else if n == 6 {
        ChunkType::Stone
    } else if n == 7 {
        ChunkType::Planks
    } else if n == 8 {
        ChunkType::CrackedStone
    } else {
        ChunkType::Air
    }
}

/// Tiles through which the background stays visible and paintable.
pub open spec fn is_passthrough(t: ChunkType) -> bool {
    t == ChunkType::Air || t == ChunkType::CheckPoint || t == ChunkType::Spikes
        || t == ChunkType::TallGrass
}

impl ChunkType {
    /// The storage code of this tile.
    pub fn code(self) -> (r: u8)
        ensures
            r == code_of(self),
            r <= 8,
    {
        match self {
            ChunkType::Air => 0,
            ChunkType::Dirt => 1,
            ChunkType::Grass => 2,
            ChunkType::CheckPoint => 3,
            ChunkType::Spikes => 4,
            ChunkType::TallGrass => 5,
            ChunkType::Stone => 6,
            ChunkType::Planks => 7,
            ChunkType::CrackedStone => 8,
        }
    }

    /// Whether this tile lets the background through.
    pub fn is_passthrough(self) -> (r: bool)
        ensures
            r == is_passthrough(self),
    {
        match self {
            ChunkType::Air | ChunkType::CheckPoint | ChunkType::Spikes | ChunkType::TallGrass => true,
            _ => false,
        }
    }
}

impl From<u8> for ChunkType {
    fn from(n: u8) -> (r: ChunkType)
        ensures
            r == tile_of(n),
    {
        match n {
            1 => ChunkType::Dirt,
            2 => ChunkType::Grass,
            3 => ChunkType::CheckPoint,
            4 => ChunkType::Spikes,
            5 => ChunkType::TallGrass,
            6 => ChunkType::Stone,
            7 => ChunkType::Planks,
            8 => ChunkType::CrackedStone,
            _ => ChunkType::Air,
        }
    }
}

impl vstd::std_specs::convert::FromSpecImpl<u8> for ChunkType {
    open spec fn obeys_from_spec() -> bool {
        true
    }

    open spec fn from_spec(n: u8) -> ChunkType {
        tile_of(n)
    }
}

/// Decoding the code of a tile gives the tile back, and every code outside
/// 0 to 8 decodes to Air.
pub proof fn lemma_code_round_trip(t: ChunkType, n: u8)
    ensures
        tile_of(code_of(t)) == t,
        code_of(t) <= 8,
        n > 8 ==> tile_of(n) == ChunkType::Air,
        n <= 8 ==> code_of(tile_of(n)) == n,
{
}

} // verus!
