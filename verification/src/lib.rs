//! A 2D sprite-rendering and game-loop engine core: sprite groups mirrored
//! to a GPU-side buffer model, indexed batch operations, collision queries,
//! and a per-frame game-state machine built on top of them.
//!
//! Coordinates are fixed-point integers: `COORD_SCALE` subunits stand for one
//! screen pixel in a `screen_region` and for the whole extent of a texture
//! (one normalized unit) in a `sheet_region`.  The scale is chosen so that the
//! pixel constants of the frame loop and the atlas cells of an 8x8-glyph font
//! sheet are all exact.

pub mod input;
pub mod sprite;
pub mod engine;
