//! The arithmetic of splitting an image into fixed-size tiles.
//!
//! An image of `width` by `height` pixels is covered by a row-major grid of
//! tiles: tile origins are the multiples of the tile size, and a tile at the
//! right or bottom edge is cut down to what is left of the image. This
//! module fixes that grid as spec functions and proves that it assigns
//! every pixel of the image to exactly one tile.

use vstd::prelude::*;
#[allow(unused_imports)]
use vstd::arithmetic::div_mod::{
    lemma_fundamental_div_mod,
    lemma_fundamental_div_mod_converse_div,
    lemma_fundamental_div_mod_converse_mod,
    lemma_mod_bound,
};

verus! {

/// How many tiles of `tile_size` pixels it takes to cover `extent` pixels:
/// the ceiling of `extent / tile_size`.
pub open spec fn tiles_across(extent: u32, tile_size: u32) -> int
    recommends
        tile_size > 0,
{
    (extent + tile_size - 1) / (tile_size as int)
}

/// How many tiles the grid over a `width` by `height` image holds.
pub open spec fn grid_count(width: u32, height: u32, tile_size: u32) -> int {
    tiles_across(width, tile_size) * tiles_across(height, tile_size)
}

/// The extent of a tile that starts at `origin`: a full tile, or what is
/// left of the image before its edge.
pub open spec fn span(origin: int, extent: u32, tile_size: u32) -> int {
    if origin + tile_size <= extent {
        tile_size as int
    } else {
        extent - origin
    }
}

/// The rectangle `(x, y, width, height)` of the grid's `i`-th tile, row-major.
pub open spec fn grid_rect(width: u32, height: u32, tile_size: u32, i: int) -> (int, int, int, int)
    recommends
        tile_size > 0,
        width > 0,
{
    let cols = tiles_across(width, tile_size);
    let x = (i % cols) * tile_size;
    let y = (i / cols) * tile_size;
    (x, y, span(x, width, tile_size), span(y, height, tile_size))
}

/// Bounds of the tile count over one dimension: the tiles reach the edge of
/// the image, and the last tile starts before it.
pub proof fn lemma_tiles_across_bounds(extent: u32, tile_size: u32)
    requires
        tile_size > 0,
    ensures
        tiles_across(extent, tile_size) >= 0,
        tiles_across(extent, tile_size) * tile_size >= extent,
        extent > 0 ==> (tiles_across(extent, tile_size) - 1) * tile_size < extent,
        extent > 0 ==> tiles_across(extent, tile_size) >= 1,
        extent == 0 ==> tiles_across(extent, tile_size) == 0,
{
    let ts = tile_size as int;
    let e = extent as int;
    let q = tiles_across(extent, tile_size);
    lemma_fundamental_div_mod(e + ts - 1, ts);
    lemma_mod_bound(e + ts - 1, ts);
    assert(e + ts - 1 == ts * q + ((e + ts - 1) % ts));
    assert(ts * q >= e + ts - 1 - (ts - 1));
    assert(ts * q <= e + ts - 1);
    assert((q - 1) * ts == ts * q - ts) by (nonlinear_arith);
    assert(q * ts == ts * q) by (nonlinear_arith);
    if extent == 0 {
        assert(ts * q >= 0);
        assert(ts * q <= ts - 1);
        assert(q == 0) by (nonlinear_arith)
            requires
                ts > 0,
                ts * q >= 0,
                ts * q <= ts - 1,
        ;
    } else {
        assert(q >= 1) by (nonlinear_arith)
            requires
                ts > 0,
                e > 0,
                ts * q >= e,
        ;
    }
}

/// The row-major index of the tile at grid position (`col`, `row`) decomposes
/// back into that position.
pub proof fn lemma_grid_index(width: u32, height: u32, tile_size: u32, row: int, col: int)
    requires
        tile_size > 0,
        0 <= col < tiles_across(width, tile_size),
        0 <= row < tiles_across(height, tile_size),
    ensures
        0 <= row * tiles_across(width, tile_size) + col < grid_count(width, height, tile_size),
        grid_rect(width, height, tile_size, row * tiles_across(width, tile_size) + col) == (
            (
                col * tile_size,
                row * tile_size,
                span(col * tile_size, width, tile_size),
                span(row * tile_size, height, tile_size),
            )
        ),
{
    let cols = tiles_across(width, tile_size);
    let rows = tiles_across(height, tile_size);
    let i = row * cols + col;
    lemma_fundamental_div_mod_converse_div(i, cols, row, col);
    lemma_fundamental_div_mod_converse_mod(i, cols, row, col);
    assert(i >= 0) by (nonlinear_arith)
        requires
            row >= 0,
            cols > 0,
            col >= 0,
            i == row * cols + col,
    ;
    assert(i < rows * cols) by (nonlinear_arith)
        requires
            row < rows,
            0 <= col < cols,
            i == row * cols + col,
    ;
    assert(grid_count(width, height, tile_size) == cols * rows);
    assert(cols * rows == rows * cols) by (nonlinear_arith);
}

/// A tile origin at grid column `col` lies inside the image, and the tile's
/// span from it is positive and stays inside the image.
pub proof fn lemma_origin_in_range(extent: u32, tile_size: u32, col: int)
    requires
        tile_size > 0,
        0 <= col < tiles_across(extent, tile_size),
    ensures
        0 <= col * tile_size < extent,
        0 < span(col * tile_size, extent, tile_size) <= tile_size,
        col * tile_size + span(col * tile_size, extent, tile_size) <= extent,
{
    let ts = tile_size as int;
    let e = extent as int;
    let cols = tiles_across(extent, tile_size);
    lemma_tiles_across_bounds(extent, tile_size);
    assert(col * ts >= 0) by (nonlinear_arith)
        requires
            col >= 0,
            ts > 0,
    ;
    assert(col * ts <= (cols - 1) * ts) by (nonlinear_arith)
        requires
            col <= cols - 1,
            ts > 0,
    ;
}

/// Every pixel `(px, py)` of the image lies inside the tile the grid assigns
/// it: tile `(py / tile_size) * cols + px / tile_size`, row-major.
pub proof fn lemma_grid_covers(width: u32, height: u32, tile_size: u32, px: int, py: int)
    requires
        tile_size > 0,
        0 <= px < width,
        0 <= py < height,
    ensures
        ({
            let cols = tiles_across(width, tile_size);
            let i = (py / (tile_size as int)) * cols + px / (tile_size as int);
            let rect = grid_rect(width, height, tile_size, i);
            &&& 0 <= i < grid_count(width, height, tile_size)
            &&& rect.0 <= px < rect.0 + rect.2
            &&& rect.1 <= py < rect.1 + rect.3
        }),
{
    let ts = tile_size as int;
    let cols = tiles_across(width, tile_size);
    let rows = tiles_across(height, tile_size);
    let col = px / ts;
    let row = py / ts;
    lemma_fundamental_div_mod(px, ts);
    lemma_mod_bound(px, ts);
    lemma_fundamental_div_mod(py, ts);
    lemma_mod_bound(py, ts);
    assert(col >= 0 && ts * col <= px) by {
        assert(px == ts * col + px % ts);
    }
    assert(row >= 0 && ts * row <= py) by {
        assert(py == ts * row + py % ts);
    }
    lemma_tiles_across_bounds(width, tile_size);
    lemma_tiles_across_bounds(height, tile_size);
    assert(col < cols) by (nonlinear_arith)
        requires
            ts > 0,
            cols * ts >= width,
            px < width,
            px == ts * col + px % ts,
            0 <= px % ts < ts,
            col >= 0,
            cols >= 1,
    ;
    assert(row < rows) by (nonlinear_arith)
        requires
            ts > 0,
            rows * ts >= height,
            py < height,
            py == ts * row + py % ts,
            0 <= py % ts < ts,
            row >= 0,
            rows >= 1,
    ;
    lemma_grid_index(width, height, tile_size, row, col);
    assert(col * ts == ts * col) by (nonlinear_arith);
    assert(row * ts == ts * row) by (nonlinear_arith);
    assert(px < ts * col + ts);
    assert(py < ts * row + ts);
}

/// No pixel lies in two tiles: a tile of the grid that contains `(px, py)`
/// is the tile that `lemma_grid_covers` assigns that pixel.
pub proof fn lemma_grid_unique(width: u32, height: u32, tile_size: u32, px: int, py: int, i: int)
    requires
        tile_size > 0,
        0 <= px < width,
        0 <= py < height,
        0 <= i < grid_count(width, height, tile_size),
        ({
            let rect = grid_rect(width, height, tile_size, i);
            &&& rect.0 <= px < rect.0 + rect.2
            &&& rect.1 <= py < rect.1 + rect.3
        }),
    ensures
        i == (py / (tile_size as int)) * tiles_across(width, tile_size) + px / (tile_size as int),
{
    let ts = tile_size as int;
    let cols = tiles_across(width, tile_size);
    let rows = tiles_across(height, tile_size);
    lemma_tiles_across_bounds(width, tile_size);
    lemma_tiles_across_bounds(height, tile_size);
    let col = i % cols;
    let row = i / cols;
    lemma_fundamental_div_mod(i, cols);
    lemma_mod_bound(i, cols);
    assert(row >= 0 && row < rows) by (nonlinear_arith)
        requires
            cols > 0,
            rows > 0,
            i == cols * row + col,
            0 <= col < cols,
            0 <= i < cols * rows,
    ;
    let rect = grid_rect(width, height, tile_size, i);
    assert(rect.0 == col * ts && rect.1 == row * ts);
    assert(rect.2 <= ts && rect.3 <= ts);
    assert(col * ts <= px < col * ts + ts);
    assert(row * ts <= py < row * ts + ts);
    assert(px / ts == col) by {
        lemma_fundamental_div_mod_converse_div(px, ts, col, px - col * ts);
    }
    assert(py / ts == row) by {
        lemma_fundamental_div_mod_converse_div(py, ts, row, py - row * ts);
    }
    assert(i == row * cols + col) by (nonlinear_arith)
        requires
            i == cols * row + col,
    ;
}

} // verus!
