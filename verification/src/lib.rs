//! Fits one picture over the whole virtual desktop.
//!
//! The monitors of a desktop occupy rectangles in one shared coordinate
//! space. This library computes the rectangle that encloses them all, plans a
//! uniform "cover" scaling of a source picture onto that rectangle, and crops
//! the scaled picture around its centre so that the result has exactly the
//! size of the rectangle.

pub mod apply;
pub mod driver;
pub mod engine;
pub mod fit;
pub mod geometry;
pub mod raster;
pub mod report;
