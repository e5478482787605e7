use vstd::prelude::*;

verus! {

/// Width of one tile in world units.
pub const TILE_WIDTH: i64 = 22;

/// Height of one tile in world units.
pub const TILE_HEIGHT: i64 = 36;

/// A cell of the tile grid: column `x`, row `y` and layer `z`.
#[derive(Clone, Copy, Debug, PartialEq, Eq, Structural)]
pub struct TilePosition {
    pub x: i32,
    pub y: i32,
    pub z: i32,
}

/// The world-space offset of the tile `(x, y, z)`.
pub open spec fn world_offset(x: int, y: int, z: int) -> (int, int, int) {
    (x * TILE_WIDTH, y * TILE_HEIGHT, z)
}

impl TilePosition {
    pub fn new(x: i32, y: i32, z: i32) -> (r: TilePosition)
        ensures
            r == (TilePosition { x, y, z }),
    {
        TilePosition { x, y, z }
    }

    /// Where the tile lies in world space: its column and row scaled by the
    /// tile size, its layer as the depth.
    pub fn to_world_offset(&self) -> (r: (i64, i64, i64))
        ensures
            (r.0 as int, r.1 as int, r.2 as int) == world_offset(
                self.x as int,
                self.y as int,
                self.z as int,
            ),
    {
        (self.x as i64 * TILE_WIDTH, self.y as i64 * TILE_HEIGHT, self.z as i64)
    }
}

} // verus!
