//! The per-draw-call parameter bundle: the four transform matrices and the
//! elapsed time, read-only for the duration of the call.

use vstd::prelude::*;
use crate::matrix::Mat4;

verus! {

/// The uniform state one draw call runs under.
#[derive(Clone, Copy, PartialEq, Eq, Structural, Debug)]
pub struct Uniforms {
    pub model_matrix: Mat4,
    pub view_matrix: Mat4,
    pub projection_matrix: Mat4,
    pub viewport_matrix: Mat4,
    pub time: i64,
}

impl Uniforms {
    /// Bundle the four matrices and the elapsed time.
    pub fn new(
        model_matrix: Mat4,
        view_matrix: Mat4,
        projection_matrix: Mat4,
        viewport_matrix: Mat4,
        time: i64,
    ) -> (r: Uniforms)
        ensures
            r == (Uniforms { model_matrix, view_matrix, projection_matrix, viewport_matrix, time }),
    {
        Uniforms { model_matrix, view_matrix, projection_matrix, viewport_matrix, time }
    }
}

} // verus!
