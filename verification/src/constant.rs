//! Fixed display and loader configuration constants.

use vstd::prelude::*;

use crate::geometry::Rect;

verus! {

/// Display width in pixels.
pub const WIDTH: i32 = 240;

/// Display height in pixels.
pub const HEIGHT: i32 = 240;

/// Side of the loader's square bounding rectangle: twice the outer radius.
pub const LOADER_SIZE: i32 = 120;

/// Largest icon side that is composited; larger icons are silently dropped.
pub const ICON_MAX_SIZE: i32 = 64;

/// The visible screen rectangle.
pub open spec fn spec_screen() -> Rect {
    Rect { x0: 0, y0: 0, x1: WIDTH, y1: HEIGHT }
}

/// The visible screen rectangle.
pub fn screen() -> (r: Rect)
    ensures
        r == spec_screen(),
{
    Rect { x0: 0, y0: 0, x1: WIDTH, y1: HEIGHT }
}

} // verus!
