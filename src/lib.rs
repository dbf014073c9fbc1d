//! Map-rendering core of a terrain display: geographic primitives, an
//! equirectangular projection onto drawing-surface coordinates, drawable
//! layers, and a map that composes its layers into one ordered frame.
//!
//! Geographic coordinates are held in millionths of a degree and drawing
//! coordinates in whole drawing units, so that every formula is exact
//! integer arithmetic.

pub mod geo;
pub mod projection;
pub mod layer;
pub mod map;
pub mod display;
