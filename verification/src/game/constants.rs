use vstd::prelude::*;

verus! {

/// Tiles in one row of the terrain, and columns of the tile sheet.
pub const TILES_PCS_W: usize = 32;

/// Rows of the terrain.
pub const TILES_PCS_H: usize = 32;

/// Number of tiles of the terrain.
pub const TILEMAP_BUF_LENGTH: usize = 1024;

/// Width of the zombie sprite sheet, in pixels.
pub const ZOMBIESHEET_TOTAL_WIDTH: u32 = 9184;

/// Gap between two cells of a sprite sheet, in pixels.
pub const SPRITE_OFFSET: u32 = 2;

/// Flat index of the first walking frame of the zombie sheet: its idle frames
/// come first.
pub const STILL_SPRITE_OFFSET: usize = 32;

} // verus!
