//! A fragment: one candidate pixel's interpolated attributes, built by the
//! rasterizer and consumed immediately by the fragment shader.

use vstd::prelude::*;
use crate::vectors::Vector3;

verus! {

/// One candidate pixel.  `screen_x` and `screen_y` are the fixed-point
/// pixel-center coordinates; `interpolated_color` is the Lambertian-shaded
/// color the rasterizer computed; `depth` is the barycentric depth.
#[derive(Clone, Copy, PartialEq, Eq, Structural, Debug)]
pub struct Fragment {
    pub screen_x: i64,
    pub screen_y: i64,
    pub interpolated_color: Vector3,
    pub depth: i64,
}

impl Fragment {
    /// Build a fragment from its parts.
    pub fn new(screen_x: i64, screen_y: i64, interpolated_color: Vector3, depth: i64) -> (r:
        Fragment)
        ensures
            r == (Fragment { screen_x, screen_y, interpolated_color, depth }),
    {
        Fragment { screen_x, screen_y, interpolated_color, depth }
    }
}

} // verus!
