//! Tiling and centering arithmetic on a window's pixel grid.
//!
//! A window of `width` by `height` pixels is covered, from its top left
//! corner, by square tiles of `tile` pixels. Tiles are numbered row by row.
//! Only whole tiles count: a strip narrower than one tile stays uncovered at
//! the right and at the bottom.

use vstd::prelude::*;
use vstd::arithmetic::div_mod::lemma_fundamental_div_mod_converse;

verus! {

/// Offset that centers a span of `inner` pixels inside one of `outer` pixels.
///
/// The offset is negative when the inner span is the wider one, and an odd
/// difference is rounded towards negative infinity.
pub open spec fn centered(outer: int, inner: int) -> int {
    (outer - inner) / 2
}

/// Number of whole tiles that fit into the window.
pub open spec fn tile_total(width: int, height: int, tile: int) -> int {
    (width / tile) * (height / tile)
}

/// Horizontal position of tile `i`.
pub open spec fn tile_x(i: int, width: int, tile: int) -> int {
    (i % (width / tile)) * tile
}

/// Vertical position of tile `i`.
pub open spec fn tile_y(i: int, width: int, tile: int) -> int {
    (i / (width / tile)) * tile
}

/// Whole tiles never reach past the extent they are cut from.
pub proof fn lemma_whole_tiles_fit(extent: int, tile: int)
    by (nonlinear_arith)
    requires
        0 <= extent,
        0 < tile,
    ensures
        0 <= extent / tile <= extent,
        (extent / tile) * tile <= extent,
{
}

/// Splits a tile's number into its column and its row.
pub proof fn lemma_column_and_row(i: int, across: int, down: int)
    by (nonlinear_arith)
    requires
        0 <= i,
        0 < across,
        0 <= down,
    ensures
        0 <= i % across < across,
        0 <= i / across,
        i == (i / across) * across + i % across,
        i < across * down <==> i / across < down,
{
}

/// The number of a tile of the grid names a column and a row of the grid:
/// the grid has a column, the remainder by the number of columns is one of
/// them, and the quotient is one of the rows.
pub proof fn lemma_tile_in_grid(i: int, width: int, height: int, tile: int)
    requires
        0 <= width,
        0 <= height,
        0 < tile,
        0 <= i < tile_total(width, height, tile),
    ensures
        0 < width / tile,
        (width / tile) * tile <= width,
        (height / tile) * tile <= height,
        0 <= i % (width / tile) < width / tile,
        0 <= i / (width / tile) < height / tile,
        i == (i / (width / tile)) * (width / tile) + i % (width / tile),
{
    let across = width / tile;
    let down = height / tile;
    lemma_whole_tiles_fit(width, tile);
    lemma_whole_tiles_fit(height, tile);
    assert(across > 0) by (nonlinear_arith)
        requires
            0 <= across,
            0 <= i < across * down,
    ;
    lemma_column_and_row(i, across, down);
}

/// Every tile of the grid lies inside the window: its left and top edges are
/// not negative, and its right and bottom edges do not pass the window's.
pub proof fn lemma_tile_inside_window(i: int, width: int, height: int, tile: int)
    requires
        0 <= width,
        0 <= height,
        0 < tile,
        0 <= i < tile_total(width, height, tile),
    ensures
        0 <= tile_x(i, width, tile),
        tile_x(i, width, tile) + tile <= width,
        0 <= tile_y(i, width, tile),
        tile_y(i, width, tile) + tile <= height,
{
    let across = width / tile;
    let down = height / tile;
    lemma_tile_in_grid(i, width, height, tile);
    let column = i % across;
    let row = i / across;
    assert(0 <= column * tile && column * tile + tile <= across * tile) by (nonlinear_arith)
        requires
            0 <= column < across,
            0 < tile,
    ;
    assert(0 <= row * tile && row * tile + tile <= down * tile) by (nonlinear_arith)
        requires
            0 <= row < down,
            0 < tile,
    ;
}

/// Pixel (`px`, `py`) belongs to tile `i`.
pub open spec fn tile_holds(i: int, width: int, tile: int, px: int, py: int) -> bool {
    &&& tile_x(i, width, tile) <= px < tile_x(i, width, tile) + tile
    &&& tile_y(i, width, tile) <= py < tile_y(i, width, tile) + tile
}

/// A pixel of tile `i` tells the tile's column and row, and with them `i`.
proof fn lemma_pixel_tells_tile(i: int, width: int, height: int, tile: int, px: int, py: int)
    requires
        0 <= width,
        0 <= height,
        0 < tile,
        0 <= i < tile_total(width, height, tile),
        tile_holds(i, width, tile, px, py),
    ensures
        0 < width / tile,
        i == (py / tile) * (width / tile) + px / tile,
{
    let across = width / tile;
    let down = height / tile;
    lemma_tile_in_grid(i, width, height, tile);
    let column = i % across;
    let row = i / across;
    lemma_fundamental_div_mod_converse(px, tile, column, px - column * tile);
    lemma_fundamental_div_mod_converse(py, tile, row, py - row * tile);
}

/// The tiles fill the grid: every pixel left of the last whole column and
/// above the last whole row belongs to a tile, and the tile is the one in
/// the pixel's column and row.
pub proof fn lemma_tiles_cover_grid(px: int, py: int, width: int, height: int, tile: int)
    requires
        0 <= width,
        0 <= height,
        0 < tile,
        0 <= px < (width / tile) * tile,
        0 <= py < (height / tile) * tile,
    ensures
        ({
            let i = (py / tile) * (width / tile) + px / tile;
            &&& 0 <= i < tile_total(width, height, tile)
            &&& tile_holds(i, width, tile, px, py)
        }),
{
    let across = width / tile;
    let down = height / tile;
    lemma_column_and_row(px, tile, across);
    lemma_column_and_row(py, tile, down);
    let column = px / tile;
    let row = py / tile;
    assert(column < across) by (nonlinear_arith)
        requires
            px < tile * across <==> column < across,
            px < across * tile,
    ;
    assert(row < down) by (nonlinear_arith)
        requires
            py < tile * down <==> row < down,
            py < down * tile,
    ;
    let i = row * across + column;
    lemma_fundamental_div_mod_converse(i, across, row, column);
    assert(0 <= i < across * down) by (nonlinear_arith)
        requires
            i == row * across + column,
            0 <= row < down,
            0 <= column < across,
    ;
}

/// No two tiles overlap: a pixel belongs to one tile at most.
pub proof fn lemma_tiles_do_not_overlap(
    i: int,
    j: int,
    width: int,
    height: int,
    tile: int,
    px: int,
    py: int,
)
    requires
        0 <= width,
        0 <= height,
        0 < tile,
        0 <= i < tile_total(width, height, tile),
        0 <= j < tile_total(width, height, tile),
        tile_holds(i, width, tile, px, py),
        tile_holds(j, width, tile, px, py),
    ensures
        i == j,
{
    lemma_pixel_tells_tile(i, width, height, tile, px, py);
    lemma_pixel_tells_tile(j, width, height, tile, px, py);
}

/// A centered span leaves the same room on both sides, but for the one pixel
/// of an odd difference, which goes to the far side.
pub proof fn lemma_centered_margins(outer: int, inner: int)
    ensures
        ({
            let near = centered(outer, inner);
            let far = outer - inner - near;
            near <= far <= near + 1
        }),
{
}

/// Centers a span of `inner` pixels inside a span of `outer` pixels.
pub fn centered_offset(outer: u32, inner: u32) -> (offset: i32)
    ensures
        offset == centered(outer as int, inner as int),
{
    if outer >= inner {
        ((outer - inner) / 2) as i32
    } else {
        let excess: u32 = inner - outer;
        let half: u32 = excess / 2 + excess % 2;
        if half > 0x7fff_ffff {
            i32::MIN
        } else {
            0 - (half as i32)
        }
    }
}

/// Top left corner at which a texture of `texture_width` by `texture_height`
/// pixels sits centered in a window of `width` by `height` pixels.
pub fn centered_position(
    width: u32,
    height: u32,
    texture_width: u32,
    texture_height: u32,
) -> (position: (i32, i32))
    ensures
        position.0 == (width - texture_width) / 2,
        position.1 == (height - texture_height) / 2,
        position.0 == centered(width as int, texture_width as int),
        position.1 == centered(height as int, texture_height as int),
{
    (centered_offset(width, texture_width), centered_offset(height, texture_height))
}

/// Counts the whole tiles of `tile` pixels that fit into a window of `width`
/// by `height` pixels.
pub fn tile_count(width: u32, height: u32, tile: u32) -> (count: u64)
    requires
        tile > 0,
    ensures
        count == (width / tile) * (height / tile),
        count == tile_total(width as int, height as int, tile as int),
{
    let across: u64 = (width / tile) as u64;
    let down: u64 = (height / tile) as u64;
    assert(across * down <= 0xffff_ffff * 0xffff_ffff) by (nonlinear_arith)
        requires
            across <= 0xffff_ffff,
            down <= 0xffff_ffff,
    ;
    across * down
}

/// Position of tile `i`, or `None` when the grid has no tile of that number.
pub fn tile_position(i: u64, width: u32, height: u32, tile: u32) -> (position: Option<
    (u32, u32),
>)
    requires
        tile > 0,
    ensures
        position is Some <==> i < tile_total(width as int, height as int, tile as int),
        position matches Some(p) ==> {
            &&& p.0 == (i % (width / tile) as u64) * tile
            &&& p.1 == (i / (width / tile) as u64) * tile
            &&& p.0 == tile_x(i as int, width as int, tile as int)
            &&& p.1 == tile_y(i as int, width as int, tile as int)
        },
{
    let across: u64 = (width / tile) as u64;
    let down: u64 = (height / tile) as u64;
    if across == 0 {
        assert(tile_total(width as int, height as int, tile as int) == 0) by (nonlinear_arith)
            requires
                width as int / tile as int == 0,
        ;
        return None;
    }
    let column: u64 = i % across;
    let row: u64 = i / across;
    proof {
        lemma_column_and_row(i as int, across as int, down as int);
    }
    if row >= down {
        return None;
    }
    proof {
        lemma_tile_inside_window(i as int, width as int, height as int, tile as int);
    }
    let x: u64 = column * (tile as u64);
    let y: u64 = row * (tile as u64);
    Some((x as u32, y as u32))
}

} // verus!
