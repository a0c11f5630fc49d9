//! Per-vertex attributes: the immutable mesh data plus the two transformed
//! fields the vertex stage rewrites each draw call.

use vstd::prelude::*;
use crate::vectors::{Vector2, Vector3};

verus! {

/// One mesh vertex.  `position`, `normal`, `tex_coord` and `base_color`
/// come from the mesh; `transformed_position` (screen space) and
/// `transformed_normal` (model-rotated, normalized) are produced by the
/// vertex shader stage.
#[derive(Clone, Copy, PartialEq, Eq, Structural, Debug)]
pub struct Vertex {
    pub position: Vector3,
    pub normal: Vector3,
    pub tex_coord: Vector2,
    pub base_color: Vector3,
    pub transformed_position: Vector3,
    pub transformed_normal: Vector3,
}

impl Vertex {
    /// A vertex fresh from the mesh: the transformed fields start out as
    /// copies of the object-space data until the vertex stage runs.
    pub fn new(position: Vector3, normal: Vector3, tex_coord: Vector2, base_color: Vector3) -> (r:
        Vertex)
        ensures
            r == (Vertex {
                position,
                normal,
                tex_coord,
                base_color,
                transformed_position: position,
                transformed_normal: normal,
            }),
    {
        Vertex {
            position,
            normal,
            tex_coord,
            base_color,
            transformed_position: position,
            transformed_normal: normal,
        }
    }
}

} // verus!
