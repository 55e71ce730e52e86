//! The tile map: a grid of square tiles laid out once over the window.

use crate::Position;
use vstd::arithmetic::div_mod::{lemma_fundamental_div_mod, lemma_fundamental_div_mod_converse};
use vstd::prelude::*;

verus! {

/// The side of a tile, in world units.
pub const DEFAULT_TILE_SIZE: u32 = 64;

/// One cell of the map.
#[derive(Clone, Copy, Debug, PartialEq, Eq, Structural)]
pub struct MapChunk {
    /// The cell's place on the grid, in tiles.
    pub position: Position,
    pub is_walkable: bool,
    /// The identifier of the cell's texture, if it has one.
    pub texture: Option<u64>,
}

impl Default for MapChunk {
    /// A cell at the grid's origin that cannot be walked on and has no
    /// texture.
    fn default() -> (chunk: Self)
        ensures
            chunk == (MapChunk { position: Position { x: 0, y: 0 }, is_walkable: false, texture: None }),
    {
        MapChunk { position: Position { x: 0, y: 0 }, is_walkable: false, texture: None }
    }
}

/// The square that shows a tile: where it is drawn, in world units, and its
/// side.
#[derive(Clone, Copy, Debug, PartialEq, Eq, Structural)]
pub struct TileSprite {
    pub position: Position,
    pub size: u32,
}

/// A world coordinate in tiles: `v / 64` rounded to the nearest whole
/// number, a half rounded away from zero.
pub open spec fn spec_chunk_coordinate(v: int) -> int {
    if v >= 0 {
        (v + 32) / 64
    } else {
        -((32 - v) / 64)
    }
}

/// The tile and the map cell that belong at `position`.
pub open spec fn spec_create_map_chunk(position: Position) -> (TileSprite, MapChunk) {
    (
        TileSprite { position, size: DEFAULT_TILE_SIZE },
        MapChunk {
            position: Position {
                x: spec_chunk_coordinate(position.x as int) as i64,
                y: spec_chunk_coordinate(position.y as int) as i64,
            },
            is_walkable: true,
            texture: None,
        },
    )
}

/// The number of tiles in a full row: `floor(width / 64) + 1`.
pub open spec fn spec_width_tiles_count(width: u32) -> int {
    width as int / 64 + 1
}

/// The number of tiles that span `extent` and one tile more, a started tile
/// counted whole: `ceil((extent + 64) / 64)`.
pub open spec fn spec_tiles_across(extent: u32) -> int {
    (extent as int + 64 + 63) / 64
}

/// `spec_tiles_across` is the ceiling it is named after: the least number
/// of tiles whose sides together reach `extent + 64`.
pub proof fn lemma_tiles_across_is_ceiling(extent: u32)
    ensures
        64 * spec_tiles_across(extent) >= extent + 64,
        64 * (spec_tiles_across(extent) - 1) < extent + 64,
{
}

/// The number of tiles of the map.
pub open spec fn spec_tiles_count(width: u32, height: u32) -> int {
    spec_tiles_across(height) * spec_tiles_across(width)
}

/// The column of the `i`-th tile.
pub open spec fn spec_tile_column(width: u32, i: int) -> int {
    i % spec_width_tiles_count(width)
}

/// The row of the `i`-th tile.
pub open spec fn spec_tile_row(width: u32, i: int) -> int {
    i / spec_width_tiles_count(width)
}

/// Where the `i`-th tile is drawn: the tiles run left to right from
/// `(-width / 2, -height / 2)`, one tile side apart, and a new row starts
/// above the last whenever a row is full.
pub open spec fn spec_tile_position(width: u32, height: u32, i: int) -> Position {
    Position {
        x: (-(width as int / 2) + 64 * spec_tile_column(width, i)) as i64,
        y: (-(height as int / 2) + 64 * spec_tile_row(width, i)) as i64,
    }
}

/// Converts a world coordinate to tiles.
pub fn chunk_coordinate(v: i64) -> (tiles: i64)
    ensures
        tiles == spec_chunk_coordinate(v as int),
        -32 <= v - 64 * tiles <= 32,
{
    if v >= 0 {
        let m: u64 = v as u64;
        ((m + 32) / 64) as i64
    } else {
        let m: u64 = (-(v + 1)) as u64 + 1;
        let q: u64 = (m + 32) / 64;
        -(q as i64)
    }
}

/// Makes the tile that is drawn at `position` and the walkable,
/// untextured map cell under it.
pub fn create_map_chunk(position: Position) -> (made: (TileSprite, MapChunk))
    ensures
        made == spec_create_map_chunk(position),
{
    (
        TileSprite { position, size: DEFAULT_TILE_SIZE },
        MapChunk {
            position: Position { x: chunk_coordinate(position.x), y: chunk_coordinate(position.y) },
            is_walkable: true,
            texture: None,
        },
    )
}

/// The tile count of any window stays far below what a `u64` holds.
pub proof fn lemma_tiles_count_bound(width: u32, height: u32)
    ensures
        0 <= spec_tiles_count(width, height) <= 0x400_0002 * 0x400_0002,
{
    let across = spec_tiles_across(width);
    let up = spec_tiles_across(height);
    assert(0 <= up * across <= 0x400_0002 * 0x400_0002) by (nonlinear_arith)
        requires
            0 <= up <= 0x400_0002,
            0 <= across <= 0x400_0002,
    ;
}

/// The number of tiles in a full row of a window `width` units wide.
pub fn width_tiles_count(width: u32) -> (count: u32)
    ensures
        count == spec_width_tiles_count(width),
        count >= 1,
{
    width / DEFAULT_TILE_SIZE + 1
}

/// The number of tiles of the map of a `width` by `height` window.
pub fn tiles_count(width: u32, height: u32) -> (count: u64)
    ensures
        count == spec_tiles_count(width, height),
        count <= 0x400_0002 * 0x400_0002,
{
    let across: u64 = (width as u64 + 127) / 64;
    let up: u64 = (height as u64 + 127) / 64;
    proof {
        lemma_tiles_count_bound(width, height);
    }
    up * across
}

/// The tile after a given one sits one place to the right in the same row,
/// or, when that row is full, at the start of the next row.
pub proof fn lemma_next_tile(i: int, per_row: int)
    requires
        i >= 0,
        per_row > 0,
    ensures
        0 <= i % per_row < per_row,
        0 <= i / per_row <= i,
        i % per_row + 1 < per_row ==> (i + 1) % per_row == i % per_row + 1 && (i + 1) / per_row == i
            / per_row,
        i % per_row + 1 == per_row ==> (i + 1) % per_row == 0 && (i + 1) / per_row == i / per_row + 1,
{
    lemma_fundamental_div_mod(i, per_row);
    let q = i / per_row;
    let r = i % per_row;
    assert(0 <= q <= i) by (nonlinear_arith)
        requires
            i == per_row * q + r,
            0 <= r < per_row,
            i >= 0,
    ;
    if r + 1 < per_row {
        assert(i + 1 == q * per_row + (r + 1)) by (nonlinear_arith)
            requires
                i == per_row * q + r,
        ;
        lemma_fundamental_div_mod_converse(i + 1, per_row, q, r + 1);
    } else {
        assert(i + 1 == (q + 1) * per_row + 0) by (nonlinear_arith)
            requires
                i == per_row * q + r,
                r + 1 == per_row,
        ;
        lemma_fundamental_div_mod_converse(i + 1, per_row, q + 1, 0);
    }
}

/// Lays out the map for a window of `width` by `height` units: one tile and
/// one map cell for each index below the tile count, in order.
pub fn setup(width: u32, height: u32) -> (placed: Vec<(TileSprite, MapChunk)>)
    requires
        spec_tiles_count(width, height) <= usize::MAX,
    ensures
        placed@.len() == spec_tiles_count(width, height),
        forall|i: int|
            0 <= i < placed@.len() ==> #[trigger] placed@[i] == spec_create_map_chunk(
                spec_tile_position(width, height, i),
            ),
{
    let count: u64 = tiles_count(width, height);
    let per_row: u32 = width_tiles_count(width);
    let left: i64 = -((width / 2) as i64);
    let bottom: i64 = -((height / 2) as i64);
    let mut placed: Vec<(TileSprite, MapChunk)> = Vec::new();
    let mut x: i64 = left;
    let mut y: i64 = bottom;
    let mut column: u32 = 0;
    let mut i: u64 = 0;
    while i < count
        invariant
            i <= count,
            count == spec_tiles_count(width, height),
            count <= 0x400_0002 * 0x400_0002,
            per_row == spec_width_tiles_count(width),
            left == -(width as int / 2),
            bottom == -(height as int / 2),
            column == spec_tile_column(width, i as int),
            x == left + 64 * spec_tile_column(width, i as int),
            y == bottom + 64 * spec_tile_row(width, i as int),
            placed@.len() == i,
            forall|k: int|
                0 <= k < placed@.len() ==> #[trigger] placed@[k] == spec_create_map_chunk(
                    spec_tile_position(width, height, k),
                ),
        decreases count - i,
    {
        proof {
            lemma_next_tile(i as int, per_row as int);
        }
        placed.push(create_map_chunk(Position { x, y }));
        i += 1;
        column += 1;
        if column == per_row {
            column = 0;
            x = left;
            y += 64;
        } else {
            x += 64;
        }
    }
    placed
}

/// No two tiles of a map are drawn at the same place.
pub proof fn lemma_tiles_do_not_overlap(width: u32, height: u32, i: int, j: int)
    requires
        0 <= i < spec_tiles_count(width, height),
        0 <= j < spec_tiles_count(width, height),
        i != j,
    ensures
        spec_tile_position(width, height, i) != spec_tile_position(width, height, j),
{
    let per_row = spec_width_tiles_count(width);
    lemma_tiles_count_bound(width, height);
    lemma_next_tile(i, per_row);
    lemma_next_tile(j, per_row);
    lemma_fundamental_div_mod(i, per_row);
    lemma_fundamental_div_mod(j, per_row);
    if spec_tile_position(width, height, i) == spec_tile_position(width, height, j) {
        assert(i % per_row == j % per_row);
        assert(i / per_row == j / per_row);
        assert(false);
    }
}

/// The tiles stand in rows of `spec_width_tiles_count` tiles: each tile is
/// in a column below that count, the tile after it is drawn one tile side to
/// its right in the same row, or, after the last column, at the left edge
/// one tile side higher.
pub proof fn lemma_tiles_fill_rows(width: u32, height: u32, i: int)
    requires
        0 <= i,
        i + 1 < spec_tiles_count(width, height),
    ensures
        0 <= spec_tile_column(width, i) < spec_width_tiles_count(width),
        ({
            let here = spec_tile_position(width, height, i);
            let next = spec_tile_position(width, height, i + 1);
            if spec_tile_column(width, i) + 1 < spec_width_tiles_count(width) {
                next.x == here.x + 64 && next.y == here.y
            } else {
                next.x == -(width as int / 2) && next.y == here.y + 64
            }
        }),
{
    let per_row = spec_width_tiles_count(width);
    lemma_tiles_count_bound(width, height);
    lemma_next_tile(i, per_row);
    lemma_next_tile(i + 1, per_row);
}

} // verus!
