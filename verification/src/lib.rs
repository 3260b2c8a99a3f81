//! Circular annular progress indicator ("loader") rasterizer.
//!
//! A progress value in `[0, 1000]` is turned into a pair of directional
//! vectors bounding the active arc, every pixel of a bounding rectangle is
//! classified into a 4-bit antialiased intensity, an optional centered
//! monochrome icon is composited over the inner disk, and the result is
//! resolved through a 16-entry color gradient into a row-major pixel stream.
//! Two interchangeable backends produce that stream: a portable per-pixel
//! software rasterizer and a model of a double-buffered blit-engine pipeline.

use vstd::prelude::*;

pub mod accel;
pub mod arc;
pub mod classify;
pub mod color;
pub mod constant;
pub mod geometry;
pub mod icon;
pub mod render;
pub mod soft;

verus! {

/// Smallest progress value.
pub const LOADER_MIN: u16 = 0;
/// Largest progress value: a full circle.
pub const LOADER_MAX: u16 = 1000;

} // verus!
