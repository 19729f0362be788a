//! An exact core for an isometric 2.5D canvas.
//!
//! The world is a lattice of square cells. Everything here works in whole
//! numbers: cell addresses, whole world units, channel values of a colour, the
//! held-button mask of a pointer event. Placing a point on the drawing plane
//! needs the cosine of thirty degrees and is left to the renderer, which takes
//! the whole-number results of this crate as its input.
//!
//! - [`frames`]: cell addresses and lattice points, and the conversions between them.
//! - [`models`]: cuboid shapes, their seven visible corners and three visible faces.
//! - [`color`]: per-face shading of a hexadecimal colour.
//! - [`grid`]: which grid lines a viewport needs at a zoom factor, by index.
//! - [`events`]: when a drag pans the view and which way a wheel step zooms.

pub mod color;
pub mod events;
pub mod frames;
pub mod grid;
pub mod models;
