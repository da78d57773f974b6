//! Fixed geometry of the demo: the window, the sprite sheet, and the
//! rectangles that cut one glyph out of the sheet or place one tile on
//! the screen grid.
//!
//! The sheet holds the glyphs in a 16 x 16 grid of 18 x 28 pixel cells;
//! the 800 x 600 window is covered by a grid of tiles of the same size,
//! one extra column and row spilling over the right and bottom edges.

use vstd::prelude::*;

verus! {

/// Width of the window in pixels.
pub const SCREEN_W: u32 = 800;

/// Height of the window in pixels.
pub const SCREEN_H: u32 = 600;

/// Width of one glyph cell on the sprite sheet, in pixels.
pub const SPRITE_W: u32 = 18;

/// Height of one glyph cell on the sprite sheet, in pixels.
pub const SPRITE_H: u32 = 28;

/// Number of glyph columns on the sprite sheet.
pub const SPRITE_COLS: u32 = 16;

/// Number of glyph rows on the sprite sheet.
pub const SPRITE_ROWS: u32 = 16;

/// Number of tile columns drawn on the screen: enough to cover its
/// width, the last column spilling past the right edge.
pub const GRID_COLS: u32 = SCREEN_W / SPRITE_W + 1;

/// Number of tile rows drawn on the screen: enough to cover its height,
/// the last row spilling past the bottom edge.
pub const GRID_ROWS: u32 = SCREEN_H / SPRITE_H + 1;

/// A rectangle in pixel coordinates: top-left corner, width and height.
#[derive(Clone, Copy, PartialEq, Eq, Structural, Debug)]
pub struct Rect {
    pub x: i32,
    pub y: i32,
    pub w: u32,
    pub h: u32,
}

/// The rectangle that cuts the glyph in column `col`, row `row` out of
/// the sprite sheet.
pub fn sprite_src_rect(col: u32, row: u32) -> (r: Rect)
    requires
        col < SPRITE_COLS,
        row < SPRITE_ROWS,
    ensures
        r.x == col * SPRITE_W,
        r.y == row * SPRITE_H,
        r.w == SPRITE_W,
        r.h == SPRITE_H,
{
    Rect { x: (col * SPRITE_W) as i32, y: (row * SPRITE_H) as i32, w: SPRITE_W, h: SPRITE_H }
}

/// The rectangle on the screen where the tile in grid column `i`,
/// grid row `j` is placed.
pub fn dest_rect(i: u32, j: u32) -> (r: Rect)
    requires
        i < GRID_COLS,
        j < GRID_ROWS,
    ensures
        r.x == i * SPRITE_W,
        r.y == j * SPRITE_H,
        r.w == SPRITE_W,
        r.h == SPRITE_H,
{
    Rect { x: (i * SPRITE_W) as i32, y: (j * SPRITE_H) as i32, w: SPRITE_W, h: SPRITE_H }
}

/// Whether a loaded sprite sheet has the size the glyph grid demands:
/// exactly `SPRITE_COLS` by `SPRITE_ROWS` cells of glyph-sized pixels.
pub fn sheet_dims_ok(width: u32, height: u32) -> (ok: bool)
    ensures
        ok == (width == SPRITE_W * SPRITE_COLS && height == SPRITE_H * SPRITE_ROWS),
{
    width == SPRITE_W * SPRITE_COLS && height == SPRITE_H * SPRITE_ROWS
}

} // verus!
