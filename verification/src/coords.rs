//! Coordinates of tiles and chunks, and the mipmap parent mapping.

use vstd::prelude::*;

verus! {

/// Edge length of a chunk in blocks (and in tile pixels at the base level)
pub const BLOCKS_PER_CHUNK: usize = 16;

/// Edge length of a region in chunks
pub const CHUNKS_PER_REGION: usize = 32;

/// Number of chunk slots in one region
pub const CHUNKS_PER_REGION_SQUARED: usize = 1024;

/// Coordinate pair of a generated tile
///
/// Each tile corresponds to one region file of the world
#[derive(Clone, Copy, PartialEq, Eq, Structural, Hash, Debug)]
pub struct TileCoords {
    /// The X coordinate
    pub x: i32,
    /// The Z coordinate
    pub z: i32,
}

impl TileCoords {
    /// Total order by `(z, x)`, used for deterministic iteration
    pub open spec fn spec_le(self, other: TileCoords) -> bool {
        self.z < other.z || (self.z == other.z && self.x <= other.x)
    }

    /// Decides the `(z, x)` order on tile coordinates
    pub fn le(&self, other: &TileCoords) -> (r: bool)
        ensures
            r == self.spec_le(*other),
    {
        self.z < other.z || (self.z == other.z && self.x <= other.x)
    }
}

/// Position of a chunk slot within its region
#[derive(Clone, Copy, PartialEq, Eq, Structural, Hash, Debug)]
pub struct ChunkCoords {
    /// The X offset in chunks, less than `CHUNKS_PER_REGION`
    pub x: u8,
    /// The Z offset in chunks, less than `CHUNKS_PER_REGION`
    pub z: u8,
}

impl ChunkCoords {
    /// A chunk slot position lies within the fixed region grid
    pub open spec fn wf(self) -> bool {
        self.x < CHUNKS_PER_REGION && self.z < CHUNKS_PER_REGION
    }
}

/// Array slot of a chunk position: row-major over `(z, x)`
pub open spec fn spec_chunk_index(cx: int, cz: int) -> int {
    cz * CHUNKS_PER_REGION + cx
}

/// Computes the array slot of a chunk position within its region
pub fn chunk_index(coords: ChunkCoords) -> (r: usize)
    requires
        coords.wf(),
    ensures
        r == spec_chunk_index(coords.x as int, coords.z as int),
        r < CHUNKS_PER_REGION_SQUARED,
{
    coords.z as usize * CHUNKS_PER_REGION + coords.x as usize
}

/// Every chunk slot index comes from exactly one position of the grid
pub proof fn lemma_chunk_index_injective(a: ChunkCoords, b: ChunkCoords)
    requires
        a.wf(),
        b.wf(),
        spec_chunk_index(a.x as int, a.z as int) == spec_chunk_index(b.x as int, b.z as int),
    ensures
        a == b,
{
}

/// Floor of half of `x`, the per-axis mipmap parent mapping
pub open spec fn spec_half_floor(x: int) -> int {
    x / 2
}

/// Computes the floor of half of a coordinate (rounding toward negative infinity)
pub fn half_floor(x: i32) -> (r: i32)
    ensures
        r == spec_half_floor(x as int),
{
    if x >= 0 {
        x / 2
    } else if x % 2 == 0 {
        x / 2
    } else {
        x / 2 - 1
    }
}

impl TileCoords {
    /// The coordinate of the enclosing tile one mipmap level up
    pub open spec fn spec_parent(self) -> TileCoords {
        TileCoords { x: spec_half_floor(self.x as int) as i32, z: spec_half_floor(self.z as int) as i32 }
    }

    /// Computes the coordinate of the enclosing tile one mipmap level up
    pub fn parent(&self) -> (r: TileCoords)
        ensures
            r == self.spec_parent(),
    {
        TileCoords { x: half_floor(self.x), z: half_floor(self.z) }
    }
}

/// The child of a parent tile at quadrant offset `(dx, dz)`
pub open spec fn spec_child(p: TileCoords, dx: int, dz: int) -> TileCoords
    recommends
        0 <= dx < 2,
        0 <= dz < 2,
{
    TileCoords { x: (2 * p.x + dx) as i32, z: (2 * p.z + dz) as i32 }
}

/// All four children of a parent tile map back to that same parent
pub proof fn lemma_children_share_parent(p: TileCoords, dx: int, dz: int)
    requires
        0 <= dx < 2,
        0 <= dz < 2,
        i32::MIN / 2 <= p.x < i32::MAX / 2,
        i32::MIN / 2 <= p.z < i32::MAX / 2,
    ensures
        spec_child(p, dx, dz).spec_parent() == p,
{
}

/// The parent of any tile is the floor of half of each coordinate
pub proof fn lemma_parent_mapping(c: TileCoords)
    ensures
        c.spec_parent().x == (c.x as int) / 2,
        c.spec_parent().z == (c.z as int) / 2,
{
}

} // verus!
