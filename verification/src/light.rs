//! The light source every draw call reads: a position, a color, and the
//! intensity and screen-space range of its glow.

use vstd::prelude::*;
use crate::vectors::Vector3;

verus! {

/// One light source, written once per frame and read by every shader
/// invocation of that frame.
#[derive(Clone, Copy, PartialEq, Eq, Structural, Debug)]
pub struct Light {
    pub position: Vector3,
    pub color: Vector3,
    pub intensity: i64,
    pub range: i64,
}

impl Light {
    /// A warm default light at the given position: color `(1, 0.9, 0.8)`,
    /// unit intensity, a 200-pixel glow range.
    pub fn new(position: Vector3) -> (r: Light)
        ensures
            r == (Light {
                position,
                color: Vector3 { x: 65536i64, y: 58982i64, z: 52429i64 },
                intensity: 65536i64,
                range: 13107200i64,
            }),
    {
        Light {
            position,
            color: Vector3 { x: 65536, y: 58982, z: 52429 },
            intensity: 65536,
            range: 13107200,
        }
    }

    /// A light with every field supplied by the caller.
    pub fn new_with_params(position: Vector3, color: Vector3, intensity: i64, range: i64) -> (r:
        Light)
        ensures
            r == (Light { position, color, intensity, range }),
    {
        Light { position, color, intensity, range }
    }
}

} // verus!
