use vstd::prelude::*;
use crate::game::constants::{TILEMAP_BUF_LENGTH, TILES_PCS_H, TILES_PCS_W};
use crate::terrain::TileMapData;

verus! {

/// The tiles of the terrain, row by row.
#[derive(Debug)]
pub struct Terrain {
    pub tiles: Vec<TileMapData>,
}

/// Place of the tile in column `xpos` of row `ypos`.
pub open spec fn index_of(xpos: int, ypos: int) -> int {
    ypos * TILES_PCS_W as int + xpos
}

/// Column of the picture of the map value `map_val` on the tile sheet, plus
/// one.
pub open spec fn sheet_column(map_val: int) -> int {
    map_val % TILES_PCS_W as int
}

/// Row of the picture of the map value `map_val` on the tile sheet.
pub open spec fn sheet_row(map_val: int) -> int {
    (map_val - sheet_column(map_val)) / TILES_PCS_W as int
}

/// Whether a map can be turned into tiles: it has a value for every tile, and
/// every value names a picture in a column of the sheet.
pub open spec fn is_map(map: Seq<u32>) -> bool {
    &&& map.len() == TILEMAP_BUF_LENGTH
    &&& forall|i: int| 0 <= i < map.len() ==> sheet_column(#[trigger] map[i] as int) >= 1
}

/// Whether `tiles` are the tiles of `map`.
pub open spec fn tiles_of(tiles: Seq<TileMapData>, map: Seq<u32>) -> bool {
    &&& tiles.len() == map.len()
    &&& forall|i: int|
        0 <= i < tiles.len() ==> (#[trigger] tiles[i]).data@ == seq![
            (sheet_column(map[i] as int) - 1) as u32,
            sheet_row(map[i] as int) as u32,
            0u32,
            0u32,
        ]
}

/// Place of the tile in column `xpos` of row `ypos`, as a machine integer.
pub fn calc_index(xpos: usize, ypos: usize) -> (idx: usize)
    requires
        xpos < TILES_PCS_W,
        ypos < TILES_PCS_H,
    ensures
        idx == index_of(xpos as int, ypos as int),
        idx < TILEMAP_BUF_LENGTH,
{
    (ypos * TILES_PCS_W) + xpos
}

/// Exec test of `is_map`.
pub fn check_map(map: &Vec<u32>) -> (b: bool)
    ensures
        b == is_map(map@),
{
    if map.len() != TILEMAP_BUF_LENGTH {
        return false;
    }
    let mut i: usize = 0;
    while i < map.len()
        invariant
            i <= map.len(),
            map.len() == TILEMAP_BUF_LENGTH,
            forall|j: int| 0 <= j < i ==> sheet_column(#[trigger] map@[j] as int) >= 1,
        decreases map.len() - i,
    {
        if map[i] % (TILES_PCS_W as u32) == 0 {
            assert(sheet_column(map@[i as int] as int) == 0);
            return false;
        }
        i += 1;
    }
    true
}

/// Fills the first tiles of `tiles` with the tiles of `map`, which holds the
/// map value of every tile, row by row. Tiles beyond the terrain stay as they
/// are.
pub fn populate_tilemap(mut tiles: Vec<TileMapData>, map: &Vec<u32>) -> (filled: Vec<
    TileMapData,
>)
    requires
        tiles@.len() >= TILEMAP_BUF_LENGTH,
        is_map(map@),
    ensures
        filled@.len() == tiles@.len(),
        tiles_of(filled@.take(TILEMAP_BUF_LENGTH as int), map@),
        forall|i: int| TILEMAP_BUF_LENGTH <= i < tiles@.len() ==> filled@[i] == tiles@[i],
{
    let ghost given = tiles@;
    let mut ypos: usize = 0;
    while ypos < TILES_PCS_H
        invariant
            ypos <= TILES_PCS_H,
            tiles@.len() == given.len(),
            given.len() >= TILEMAP_BUF_LENGTH,
            forall|i: int| TILEMAP_BUF_LENGTH <= i < given.len() ==> tiles@[i] == given[i],
            is_map(map@),
            forall|i: int|
                0 <= i < ypos * TILES_PCS_W ==> (#[trigger] tiles@[i]).data@ == seq![
                    (sheet_column(map@[i] as int) - 1) as u32,
                    sheet_row(map@[i] as int) as u32,
                    0u32,
                    0u32,
                ],
        decreases TILES_PCS_H - ypos,
    {
        let mut xpos: usize = 0;
        while xpos < TILES_PCS_W
            invariant
                xpos <= TILES_PCS_W,
                ypos < TILES_PCS_H,
                tiles@.len() == given.len(),
                given.len() >= TILEMAP_BUF_LENGTH,
                forall|i: int| TILEMAP_BUF_LENGTH <= i < given.len() ==> tiles@[i] == given[i],
                is_map(map@),
                forall|i: int|
                    0 <= i < ypos * TILES_PCS_W + xpos ==> (#[trigger] tiles@[i]).data@ == seq![
                        (sheet_column(map@[i] as int) - 1) as u32,
                        sheet_row(map@[i] as int) as u32,
                        0u32,
                        0u32,
                    ],
            decreases TILES_PCS_W - xpos,
        {
            let idx: usize = calc_index(xpos, ypos);
            let map_val: u32 = map[idx];
            let tex_x: u32 = map_val % (TILES_PCS_W as u32);
            let tex_y: u32 = (map_val - tex_x) / (TILES_PCS_W as u32);
            assert(sheet_column(map@[idx as int] as int) >= 1);
            let tile = TileMapData::new([tex_x - 1, tex_y, 0, 0]);
            assert(tile.data@ =~= seq![
                (sheet_column(map@[idx as int] as int) - 1) as u32,
                sheet_row(map@[idx as int] as int) as u32,
                0u32,
                0u32,
            ]);
            tiles.set(idx, tile);
            xpos += 1;
        }
        ypos += 1;
    }
    tiles
}

/// The terrain of `map`.
pub fn generate(map: &Vec<u32>) -> (t: Terrain)
    requires
        is_map(map@),
    ensures
        tiles_of(t.tiles@, map@),
{
    let mut charmap_data: Vec<TileMapData> = Vec::with_capacity(TILEMAP_BUF_LENGTH);
    let mut i: usize = 0;
    while i < TILEMAP_BUF_LENGTH
        invariant
            i <= TILEMAP_BUF_LENGTH,
            charmap_data@.len() == i,
        decreases TILEMAP_BUF_LENGTH - i,
    {
        charmap_data.push(TileMapData::new_empty());
        i += 1;
    }
    let tiles = populate_tilemap(charmap_data, map);
    assert(tiles@.take(TILEMAP_BUF_LENGTH as int) =~= tiles@);
    Terrain { tiles }
}

} // verus!
