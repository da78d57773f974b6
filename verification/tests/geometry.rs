use glyph_tiling::geom::{
    dest_rect, sheet_dims_ok, sprite_src_rect, GRID_COLS, GRID_ROWS, SCREEN_H, SCREEN_W,
    SPRITE_COLS, SPRITE_H, SPRITE_ROWS, SPRITE_W,
};

#[test]
fn grid_covers_the_screen() {
    assert_eq!(SCREEN_W, 800);
    assert_eq!(SCREEN_H, 600);
    assert_eq!(GRID_COLS, 45);
    assert_eq!(GRID_ROWS, 22);
    // The grid spills past the edges by less than one tile.
    assert!(GRID_COLS * SPRITE_W >= SCREEN_W);
    assert!((GRID_COLS - 1) * SPRITE_W < SCREEN_W);
    assert!(GRID_ROWS * SPRITE_H >= SCREEN_H);
    assert!((GRID_ROWS - 1) * SPRITE_H < SCREEN_H);
}

#[test]
fn src_rect_of_first_glyph() {
    let r = sprite_src_rect(0, 0);
    assert_eq!(r.x, 0);
    assert_eq!(r.y, 0);
    assert_eq!(r.w, 18);
    assert_eq!(r.h, 28);
}

#[test]
fn src_rect_of_inner_glyph() {
    let r = sprite_src_rect(2, 3);
    assert_eq!(r.x, 36);
    assert_eq!(r.y, 84);
    assert_eq!(r.w, 18);
    assert_eq!(r.h, 28);
}

#[test]
fn src_rect_of_last_glyph() {
    let r = sprite_src_rect(SPRITE_COLS - 1, SPRITE_ROWS - 1);
    assert_eq!(r.x, 270);
    assert_eq!(r.y, 420);
}

#[test]
fn dest_rect_of_cells() {
    let r = dest_rect(0, 0);
    assert_eq!((r.x, r.y, r.w, r.h), (0, 0, 18, 28));
    let r = dest_rect(44, 21);
    assert_eq!((r.x, r.y, r.w, r.h), (792, 588, 18, 28));
}

#[test]
fn sheet_dims_accept_the_expected_sheet() {
    assert!(sheet_dims_ok(288, 448));
    assert_eq!(SPRITE_W * SPRITE_COLS, 288);
    assert_eq!(SPRITE_H * SPRITE_ROWS, 448);
}

#[test]
fn sheet_dims_reject_other_sheets() {
    assert!(!sheet_dims_ok(287, 448));
    assert!(!sheet_dims_ok(288, 449));
    assert!(!sheet_dims_ok(0, 0));
}
