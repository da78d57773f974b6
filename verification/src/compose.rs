//! The fixed compositing procedure that turns one glyph of the sprite
//! sheet into a colored tile.
//!
//! The procedure is a short, fixed sequence of surface operations:
//! allocate a surface, fill it, blit, set a color key, a blend mode or a
//! color tint. This module states that sequence exactly, as data: each
//! builder returns the operations to perform, in the order the renderer
//! must perform them, and its contract pins the whole sequence down.
//! An interpreter outside this crate carries the operations out.

use vstd::prelude::*;
use crate::color::{Rgb, black, or_black, unwrap_or_black};
use crate::geom::Rect;

verus! {

/// How a surface's pixels combine with the destination when it is
/// blitted: copied over it, alpha-blended, added, or multiplied.
#[derive(Clone, Copy, PartialEq, Eq, Structural, Debug)]
pub enum BlendMode {
    NoBlend,
    Blend,
    Add,
    Mod,
}

/// One step of the compositing procedure. Surfaces are numbered; each
/// operation names the surfaces it acts on.
#[derive(Clone, Copy, PartialEq, Eq, Structural, Debug)]
pub enum SurfaceOp {
    /// Allocate surface `dst`, `w` by `h` pixels.
    Create { dst: u32, w: u32, h: u32 },
    /// Fill the whole of surface `dst` with `color`.
    Fill { dst: u32, color: Rgb },
    /// Make pixels of `color` transparent when surface `src` is blitted.
    SetColorKey { src: u32, color: Rgb },
    /// Set the blend mode used when surface `src` is blitted.
    SetBlend { src: u32, mode: BlendMode },
    /// Tint surface `src` with `color` on its later blits.
    SetColorMod { src: u32, color: Rgb },
    /// Blit the rectangle `area` of surface `from` onto surface `onto`.
    BlitRect { from: u32, area: Rect, onto: u32 },
    /// Blit the whole of surface `from` onto surface `onto`.
    BlitAll { from: u32, onto: u32 },
}

/// The operations that make a fresh tile: allocate a surface of the
/// given size and fill it with one color.
pub open spec fn create_tile_ops(dst: u32, w: u32, h: u32, color: Rgb) -> Seq<SurfaceOp> {
    seq![
        SurfaceOp::Create { dst, w, h },
        SurfaceOp::Fill { dst, color },
    ]
}

/// The operations that cut one glyph out of the sprite sheet: make a
/// tile of the glyph's size filled with the color key, blit the glyph's
/// rectangle of the sheet onto it, and make the key color transparent.
/// Where no key is given, black is keyed out.
pub open spec fn raw_sprite_ops(sheet: u32, tile: u32, sprite_rect: Rect, key: Option<Rgb>) -> Seq<
    SurfaceOp,
> {
    let alpha = or_black(key);
    create_tile_ops(tile, sprite_rect.w, sprite_rect.h, alpha) + seq![
        SurfaceOp::BlitRect { from: sheet, area: sprite_rect, onto: tile },
        SurfaceOp::SetColorKey { src: tile, color: alpha },
    ]
}

/// The operations that color a raw glyph: make a tile filled with the
/// background color (black where none is given), make a black scratch
/// surface, set it to alpha-blend, blit the glyph onto it, tint it with
/// the foreground color where one is given, and blit it onto the tile.
pub open spec fn color_sprite_ops(
    sprite: u32,
    tile: u32,
    scratch: u32,
    w: u32,
    h: u32,
    fg: Option<Rgb>,
    bg: Option<Rgb>,
) -> Seq<SurfaceOp> {
    let tint = if fg is Some {
        seq![SurfaceOp::SetColorMod { src: scratch, color: fg->0 }]
    } else {
        Seq::empty()
    };
    create_tile_ops(tile, w, h, or_black(bg)) + create_tile_ops(scratch, w, h, black()) + seq![
        SurfaceOp::SetBlend { src: scratch, mode: BlendMode::Blend },
        SurfaceOp::BlitAll { from: sprite, onto: scratch },
    ] + tint + seq![SurfaceOp::BlitAll { from: scratch, onto: tile }]
}

/// Build the tile-making operations of `create_tile_ops`.
pub fn create_tile(dst: u32, size: Rect, color: Rgb) -> (ops: Vec<SurfaceOp>)
    ensures
        ops@ == create_tile_ops(dst, size.w, size.h, color),
{
    let mut ops: Vec<SurfaceOp> = Vec::new();
    ops.push(SurfaceOp::Create { dst, w: size.w, h: size.h });
    ops.push(SurfaceOp::Fill { dst, color });
    proof {
        assert(ops@ =~= create_tile_ops(dst, size.w, size.h, color));
    }
    ops
}

/// Build the glyph-cutting operations of `raw_sprite_ops`: the glyph at
/// `sprite_rect` on surface `sheet` is extracted onto surface `tile`,
/// with `key` (black where absent) made transparent.
pub fn raw_sprite(sheet: u32, tile: u32, sprite_rect: Rect, key: Option<Rgb>) -> (ops: Vec<
    SurfaceOp,
>)
    ensures
        ops@ == raw_sprite_ops(sheet, tile, sprite_rect, key),
{
    let alpha = unwrap_or_black(key);
    let mut ops = create_tile(tile, sprite_rect, alpha);
    ops.push(SurfaceOp::BlitRect { from: sheet, area: sprite_rect, onto: tile });
    ops.push(SurfaceOp::SetColorKey { src: tile, color: alpha });
    proof {
        assert(ops@ =~= raw_sprite_ops(sheet, tile, sprite_rect, key));
    }
    ops
}

/// Build the coloring operations of `color_sprite_ops`: the raw glyph on
/// surface `sprite`, `w` by `h` pixels, is tinted with `fg` (left
/// untinted where absent) and composited over `bg` (black where absent)
/// onto surface `tile`, using surface `scratch` for the tinting step.
pub fn color_sprite(
    sprite: u32,
    tile: u32,
    scratch: u32,
    w: u32,
    h: u32,
    fg: Option<Rgb>,
    bg: Option<Rgb>,
) -> (ops: Vec<SurfaceOp>)
    ensures
        ops@ == color_sprite_ops(sprite, tile, scratch, w, h, fg, bg),
{
    let size = Rect { x: 0, y: 0, w, h };
    let backdrop = unwrap_or_black(bg);
    let mut ops = create_tile(tile, size, backdrop);
    let mut scratch_ops = create_tile(scratch, size, Rgb::black());
    ops.append(&mut scratch_ops);
    ops.push(SurfaceOp::SetBlend { src: scratch, mode: BlendMode::Blend });
    ops.push(SurfaceOp::BlitAll { from: sprite, onto: scratch });
    match fg {
        Some(color) => ops.push(SurfaceOp::SetColorMod { src: scratch, color }),
        None => (),
    }
    ops.push(SurfaceOp::BlitAll { from: scratch, onto: tile });
    proof {
        assert(ops@ =~= color_sprite_ops(sprite, tile, scratch, w, h, fg, bg));
    }
    ops
}

} // verus!
