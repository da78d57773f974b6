//! What one frame shows: for every cell of the screen grid, a randomly
//! chosen glyph in randomly chosen colors, and the compositing plan
//! that draws it.
//!
//! Which glyph and which colors come out of the generator is not
//! pinned down — only their ranges are — so everything here is proved
//! for every choice the generator can make.

use vstd::prelude::*;
use crate::color::{Rgb, black};
use crate::compose::{
    BlendMode, SurfaceOp, raw_sprite, raw_sprite_ops, color_sprite, color_sprite_ops,
};
use crate::geom::{
    Rect, GRID_COLS, GRID_ROWS, SPRITE_W, SPRITE_H, SPRITE_COLS, SPRITE_ROWS, sprite_src_rect,
    dest_rect,
};
use crate::rng::random_in_range;

verus! {

/// The first glyph row that is ever drawn: the rows above it hold
/// control-character cells and blanks, not printable glyphs.
pub const GLYPH_ROW_MIN: u32 = 3;

/// The exclusive upper bound of every random color channel.
pub const CHANNEL_BOUND: u32 = 255;

/// The sprite sheet, loaded once, as the compositing plan numbers it.
pub const SHEET_SURFACE: u32 = 0;

/// The surface holding the raw glyph cut out of the sheet.
pub const RAW_SURFACE: u32 = 1;

/// The scratch surface on which the glyph is tinted.
pub const SCRATCH_SURFACE: u32 = 2;

/// The finished tile that is copied to the screen.
pub const TILE_SURFACE: u32 = 3;

/// One tile of a frame: which cell of the screen grid it covers, which
/// glyph of the sheet it shows, and in which colors.
#[derive(Clone, Copy, PartialEq, Eq, Structural, Debug)]
pub struct TileDraw {
    /// Column of the screen grid.
    pub cell_i: u32,
    /// Row of the screen grid.
    pub cell_j: u32,
    /// Column of the glyph on the sprite sheet.
    pub glyph_col: u32,
    /// Row of the glyph on the sprite sheet.
    pub glyph_row: u32,
    /// Foreground color the glyph is tinted with.
    pub fg: Rgb,
    /// Background color the glyph is composited over.
    pub bg: Rgb,
}

/// What holds of every tile a frame can show: the cell lies on the
/// grid, the glyph lies on the sheet below the blank rows, and every
/// random color channel lies below `CHANNEL_BOUND`.
pub open spec fn tile_draw_valid(t: TileDraw) -> bool {
    &&& t.cell_i < GRID_COLS
    &&& t.cell_j < GRID_ROWS
    &&& t.glyph_col < SPRITE_COLS
    &&& GLYPH_ROW_MIN <= t.glyph_row < SPRITE_ROWS
    &&& t.fg.r < CHANNEL_BOUND && t.fg.g < CHANNEL_BOUND && t.fg.b < CHANNEL_BOUND
    &&& t.bg.r < CHANNEL_BOUND && t.bg.g < CHANNEL_BOUND && t.bg.b < CHANNEL_BOUND
}

/// Decide `tile_draw_valid` at run time, for callers outside the
/// verifier's reach that must guard a tile before drawing it.
pub fn tile_draw_check(t: &TileDraw) -> (ok: bool)
    ensures
        ok == tile_draw_valid(*t),
{
    t.cell_i < GRID_COLS && t.cell_j < GRID_ROWS && t.glyph_col < SPRITE_COLS
        && GLYPH_ROW_MIN <= t.glyph_row && t.glyph_row < SPRITE_ROWS && t.fg.r < 255 && t.fg.g
        < 255 && t.fg.b < 255 && t.bg.r < 255 && t.bg.g < 255 && t.bg.b < 255
}

/// Draw one random color channel.
fn random_channel(rng: &mut rand::rngs::ThreadRng) -> (c: u8)
    ensures
        c < CHANNEL_BOUND,
{
    let n = random_in_range(rng, 0, CHANNEL_BOUND);
    n as u8
}

/// Draw a random color: each channel uniform below `CHANNEL_BOUND`.
fn random_color(rng: &mut rand::rngs::ThreadRng) -> (c: Rgb)
    ensures
        c.r < CHANNEL_BOUND && c.g < CHANNEL_BOUND && c.b < CHANNEL_BOUND,
{
    let r = random_channel(rng);
    let g = random_channel(rng);
    let b = random_channel(rng);
    Rgb { r, g, b }
}

/// Choose what the cell in grid column `cell_i`, grid row `cell_j`
/// shows this frame: a random printable glyph, a random foreground and
/// a random background color.
pub fn random_tile(rng: &mut rand::rngs::ThreadRng, cell_i: u32, cell_j: u32) -> (t: TileDraw)
    requires
        cell_i < GRID_COLS,
        cell_j < GRID_ROWS,
    ensures
        tile_draw_valid(t),
        t.cell_i == cell_i,
        t.cell_j == cell_j,
{
    let glyph_col = random_in_range(rng, 0, SPRITE_COLS);
    let glyph_row = random_in_range(rng, GLYPH_ROW_MIN, SPRITE_ROWS);
    let fg = random_color(rng);
    let bg = random_color(rng);
    TileDraw { cell_i, cell_j, glyph_col, glyph_row, fg, bg }
}

/// Choose a whole frame: one tile for every cell of the grid, in
/// row-major order, grid column by grid column. The tile at position
/// `k` of the result covers grid column `k / GRID_ROWS`, grid row
/// `k % GRID_ROWS`.
pub fn frame_tiles(rng: &mut rand::rngs::ThreadRng) -> (tiles: Vec<TileDraw>)
    ensures
        tiles@.len() == GRID_COLS * GRID_ROWS,
        forall|k: int|
            0 <= k < tiles@.len() ==> tile_draw_valid(#[trigger] tiles@[k]),
        forall|k: int|
            0 <= k < tiles@.len() ==> (#[trigger] tiles@[k]).cell_i == k / (GRID_ROWS as int)
                && tiles@[k].cell_j == k % (GRID_ROWS as int),
{
    let mut tiles: Vec<TileDraw> = Vec::new();
    let mut i: u32 = 0;
    while i < GRID_COLS
        invariant
            i <= GRID_COLS,
            tiles@.len() == i * GRID_ROWS,
            forall|k: int|
                0 <= k < tiles@.len() ==> tile_draw_valid(#[trigger] tiles@[k]),
            forall|k: int|
                0 <= k < tiles@.len() ==> (#[trigger] tiles@[k]).cell_i == k / (GRID_ROWS as int)
                    && tiles@[k].cell_j == k % (GRID_ROWS as int),
        decreases GRID_COLS - i,
    {
        let mut j: u32 = 0;
        while j < GRID_ROWS
            invariant
                i < GRID_COLS,
                j <= GRID_ROWS,
                tiles@.len() == i * GRID_ROWS + j,
                forall|k: int|
                    0 <= k < tiles@.len() ==> tile_draw_valid(#[trigger] tiles@[k]),
                forall|k: int|
                    0 <= k < tiles@.len() ==> (#[trigger] tiles@[k]).cell_i == k / (
                    GRID_ROWS as int) && tiles@[k].cell_j == k % (GRID_ROWS as int),
            decreases GRID_ROWS - j,
        {
            let t = random_tile(rng, i, j);
            tiles.push(t);
            proof {
                assert((i as int * GRID_ROWS + j as int) / (GRID_ROWS as int) == i as int && (
                i as int * GRID_ROWS + j as int) % (GRID_ROWS as int) == j as int)
                    by (nonlinear_arith)
                    requires
                        0 <= i as int,
                        0 <= j as int,
                        (j as int) < (GRID_ROWS as int),
                ;
            }
            j = j + 1;
        }
        proof {
            assert((i as int + 1) * (GRID_ROWS as int) == i as int * (GRID_ROWS as int)
                + GRID_ROWS as int) by (nonlinear_arith);
        }
        i = i + 1;
    }
    tiles
}

/// How the sprite sheet is prepared once, after it is loaded: its
/// black pixels are made transparent, and its texture is set to blit
/// additively. Stated as operations on the sheet's surface number, in
/// the order they are performed.
pub fn sheet_prepare_ops() -> (ops: Vec<SurfaceOp>)
    ensures
        ops@ == seq![
            SurfaceOp::SetColorKey { src: SHEET_SURFACE, color: black() },
            SurfaceOp::SetBlend { src: SHEET_SURFACE, mode: BlendMode::Add },
        ],
{
    let mut ops: Vec<SurfaceOp> = Vec::new();
    ops.push(SurfaceOp::SetColorKey { src: SHEET_SURFACE, color: Rgb::black() });
    ops.push(SurfaceOp::SetBlend { src: SHEET_SURFACE, mode: BlendMode::Add });
    proof {
        assert(ops@ =~= seq![
            SurfaceOp::SetColorKey { src: SHEET_SURFACE, color: black() },
            SurfaceOp::SetBlend { src: SHEET_SURFACE, mode: BlendMode::Add },
        ]);
    }
    ops
}

/// The color the screen is cleared with before a frame's tiles are
/// drawn: blue.
pub fn clear_color() -> (c: Rgb)
    ensures
        c == (Rgb { r: 0, g: 0, b: 255 }),
{
    Rgb { r: 0, g: 0, b: 255 }
}

/// The screen rectangle the tile covers.
pub fn tile_dest_rect(t: &TileDraw) -> (r: Rect)
    requires
        tile_draw_valid(*t),
    ensures
        r.x == t.cell_i * SPRITE_W,
        r.y == t.cell_j * SPRITE_H,
        r.w == SPRITE_W,
        r.h == SPRITE_H,
{
    dest_rect(t.cell_i, t.cell_j)
}

/// The rectangle of the sprite sheet holding the tile's glyph.
pub fn tile_src_rect(t: &TileDraw) -> (r: Rect)
    requires
        tile_draw_valid(*t),
    ensures
        r.x == t.glyph_col * SPRITE_W,
        r.y == t.glyph_row * SPRITE_H,
        r.w == SPRITE_W,
        r.h == SPRITE_H,
{
    sprite_src_rect(t.glyph_col, t.glyph_row)
}

/// The full two-step compositing plan for one tile: cut the tile's
/// glyph out of the sheet with black keyed out, then tint it with the
/// tile's foreground color and composite it over the tile's background
/// color. The result is exactly the glyph-cutting operations followed
/// by the coloring operations, on the fixed surface numbers.
pub fn tile_compose_ops(t: &TileDraw) -> (ops: Vec<SurfaceOp>)
    requires
        tile_draw_valid(*t),
    ensures
        ops@ == raw_sprite_ops(
            SHEET_SURFACE,
            RAW_SURFACE,
            (Rect {
                x: (t.glyph_col * SPRITE_W) as i32,
                y: (t.glyph_row * SPRITE_H) as i32,
                w: SPRITE_W,
                h: SPRITE_H,
            }),
            Some(black()),
        ) + color_sprite_ops(
            RAW_SURFACE,
            TILE_SURFACE,
            SCRATCH_SURFACE,
            SPRITE_W,
            SPRITE_H,
            Some(t.fg),
            Some(t.bg),
        ),
{
    let src = sprite_src_rect(t.glyph_col, t.glyph_row);
    let mut ops = raw_sprite(SHEET_SURFACE, RAW_SURFACE, src, Some(Rgb::black()));
    let mut coloring = color_sprite(
        RAW_SURFACE,
        TILE_SURFACE,
        SCRATCH_SURFACE,
        SPRITE_W,
        SPRITE_H,
        Some(t.fg),
        Some(t.bg),
    );
    ops.append(&mut coloring);
    ops
}

} // verus!
