//! Logic of a bitmap-font tiling demo: a sprite sheet of ASCII glyphs is
//! cut into fixed-size tiles, each tile is recolored by a fixed two-step
//! compositing procedure, and a grid of randomly chosen, randomly colored
//! glyphs is redrawn on a timer until the user quits.
//!
//! The surface and texture operations themselves are carried out by a
//! renderer outside this crate; this crate decides, and proves, what is
//! drawn where, in which colors, and in which order.

pub mod color;
pub mod compose;
pub mod frame;
pub mod geom;
pub mod rng;
pub mod scene;
