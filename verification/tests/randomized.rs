use glyph_tiling::compose::SurfaceOp;
use glyph_tiling::geom::{GRID_COLS, GRID_ROWS};
use glyph_tiling::rng::{new_rng, random_in_range};
use glyph_tiling::scene::{
    clear_color, frame_tiles, random_tile, sheet_prepare_ops, tile_compose_ops, tile_dest_rect,
    tile_src_rect, RAW_SURFACE, SCRATCH_SURFACE, SHEET_SURFACE, TILE_SURFACE,
};

#[test]
fn random_draws_stay_in_their_range() {
    let mut rng = new_rng();
    for _ in 0..2000 {
        let n = random_in_range(&mut rng, 5, 9);
        assert!((5..9).contains(&n));
    }
}

#[test]
fn a_range_of_one_value_pins_the_draw() {
    let mut rng = new_rng();
    assert_eq!(random_in_range(&mut rng, 1000, 1001), 1000);
}

#[test]
fn random_tiles_are_valid() {
    let mut rng = new_rng();
    for _ in 0..500 {
        let t = random_tile(&mut rng, 7, 11);
        assert_eq!(t.cell_i, 7);
        assert_eq!(t.cell_j, 11);
        assert!(t.glyph_col < 16);
        assert!((3..16).contains(&t.glyph_row));
        for c in [t.fg.r, t.fg.g, t.fg.b, t.bg.r, t.bg.g, t.bg.b] {
            assert!(c < 255);
        }
    }
}

#[test]
fn a_frame_covers_every_cell_in_order() {
    let mut rng = new_rng();
    let tiles = frame_tiles(&mut rng);
    assert_eq!(tiles.len() as u32, GRID_COLS * GRID_ROWS);
    assert_eq!(tiles.len(), 990);
    for (k, t) in tiles.iter().enumerate() {
        assert_eq!(t.cell_i, k as u32 / GRID_ROWS);
        assert_eq!(t.cell_j, k as u32 % GRID_ROWS);
    }
}

#[test]
fn tile_rects_follow_the_tile() {
    let mut rng = new_rng();
    let t = random_tile(&mut rng, 3, 4);
    let d = tile_dest_rect(&t);
    assert_eq!((d.x, d.y, d.w, d.h), (54, 112, 18, 28));
    let s = tile_src_rect(&t);
    assert_eq!(s.x as u32, t.glyph_col * 18);
    assert_eq!(s.y as u32, t.glyph_row * 28);
    assert_eq!((s.w, s.h), (18, 28));
}

#[test]
fn tile_plan_cuts_then_colors() {
    let mut rng = new_rng();
    let t = random_tile(&mut rng, 0, 0);
    let ops = tile_compose_ops(&t);
    assert_eq!(ops.len(), 12);
    // The raw glyph is cut from the sheet first ...
    assert_eq!(ops[0], SurfaceOp::Create { dst: RAW_SURFACE, w: 18, h: 28 });
    assert!(matches!(
        ops[2],
        SurfaceOp::BlitRect { from, onto, .. } if from == SHEET_SURFACE && onto == RAW_SURFACE
    ));
    // ... then tinted with the tile's foreground on the scratch surface ...
    assert_eq!(ops[10], SurfaceOp::SetColorMod { src: SCRATCH_SURFACE, color: t.fg });
    // ... and composited onto the tile last.
    assert_eq!(ops[11], SurfaceOp::BlitAll { from: SCRATCH_SURFACE, onto: TILE_SURFACE });
}

#[test]
fn sheet_is_keyed_and_set_additive() {
    let ops = sheet_prepare_ops();
    assert_eq!(ops.len(), 2);
    assert!(matches!(ops[0], SurfaceOp::SetColorKey { src, color }
        if src == SHEET_SURFACE && (color.r, color.g, color.b) == (0, 0, 0)));
    assert!(matches!(ops[1], SurfaceOp::SetBlend { src, .. } if src == SHEET_SURFACE));
}

#[test]
fn screen_clears_to_blue() {
    let c = clear_color();
    assert_eq!((c.r, c.g, c.b), (0, 0, 255));
}
