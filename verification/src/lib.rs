//! Core logic of a small 2D cell-arena game prototype.
//!
//! The library covers the parts of the game that are plain computation: the
//! global time-scale control, the 2D camera controller, the arena layout
//! generator that places organelles inside a circular cell membrane, and the
//! procedural pixel-art texture synthesizer that paints each organelle.
//!
//! All world-space scalars (radii, distances, camera coordinates, zoom, time
//! scale) are carried as fixed-point integers in thousandths of a unit
//! ("milli-units"), so `75.0` world units is the value `75_000`. The texture
//! synthesizer's trigonometric pattern uses a second fixed-point scale of
//! 1/1024 ("Q10"); see the `trig` module. The host engine converts between
//! these integers and its own floating-point types at the boundary.

pub mod app_state;
pub mod arena;
pub mod camera;
pub mod fixed;
pub mod layout;
pub mod texture;
pub mod time_scale;
pub mod trig;
