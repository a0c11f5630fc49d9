//! A 4x4 fixed-point transform matrix in column-major layout: field `mN`
//! holds entry `row + col * 4`, so `m0 m4 m8 m12` is the first row.  The
//! pipeline receives its matrices from the caller and only multiplies
//! vectors through them.

use vstd::prelude::*;
use crate::fx::{FX_ONE, fx_add_s, fx_mul_s, fx_add, fx_mul};
use crate::vectors::Vector4;

verus! {

/// A 4x4 fixed-point matrix, column-major.
#[derive(Clone, Copy, PartialEq, Eq, Structural, Debug)]
pub struct Mat4 {
    pub m0: i64,
    pub m1: i64,
    pub m2: i64,
    pub m3: i64,
    pub m4: i64,
    pub m5: i64,
    pub m6: i64,
    pub m7: i64,
    pub m8: i64,
    pub m9: i64,
    pub m10: i64,
    pub m11: i64,
    pub m12: i64,
    pub m13: i64,
    pub m14: i64,
    pub m15: i64,
}

/// One row of a matrix-vector product, summed left to right:
/// `a*x + b*y + c*z + d*w`.
pub open spec fn row_dot_s(a: int, b: int, c: int, d: int, v: Vector4) -> int {
    fx_add_s(
        fx_add_s(
            fx_add_s(fx_mul_s(a, v.x as int), fx_mul_s(b, v.y as int)),
            fx_mul_s(c, v.z as int),
        ),
        fx_mul_s(d, v.w as int),
    )
}

/// The matrix-vector product `(sum of col_i * component_i)`.
pub open spec fn mat_vec_mul_s(m: Mat4, v: Vector4) -> Vector4 {
    Vector4 {
        x: row_dot_s(m.m0 as int, m.m4 as int, m.m8 as int, m.m12 as int, v) as i64,
        y: row_dot_s(m.m1 as int, m.m5 as int, m.m9 as int, m.m13 as int, v) as i64,
        z: row_dot_s(m.m2 as int, m.m6 as int, m.m10 as int, m.m14 as int, v) as i64,
        w: row_dot_s(m.m3 as int, m.m7 as int, m.m11 as int, m.m15 as int, v) as i64,
    }
}

impl Mat4 {
    /// The identity transform.
    pub fn identity() -> (r: Mat4)
        ensures
            r == (Mat4 {
                m0: FX_ONE,
                m1: 0i64,
                m2: 0i64,
                m3: 0i64,
                m4: 0i64,
                m5: FX_ONE,
                m6: 0i64,
                m7: 0i64,
                m8: 0i64,
                m9: 0i64,
                m10: FX_ONE,
                m11: 0i64,
                m12: 0i64,
                m13: 0i64,
                m14: 0i64,
                m15: FX_ONE,
            }),
    {
        Mat4 {
            m0: FX_ONE,
            m1: 0,
            m2: 0,
            m3: 0,
            m4: 0,
            m5: FX_ONE,
            m6: 0,
            m7: 0,
            m8: 0,
            m9: 0,
            m10: FX_ONE,
            m11: 0,
            m12: 0,
            m13: 0,
            m14: 0,
            m15: FX_ONE,
        }
    }
}

/// Multiply a homogeneous vector by a matrix, row by row.
pub fn multiply_matrix_vector4(matrix: &Mat4, vector: &Vector4) -> (r: Vector4)
    ensures
        r == mat_vec_mul_s(*matrix, *vector),
{
    Vector4 {
        x: fx_add(
            fx_add(
                fx_add(fx_mul(matrix.m0, vector.x), fx_mul(matrix.m4, vector.y)),
                fx_mul(matrix.m8, vector.z),
            ),
            fx_mul(matrix.m12, vector.w),
        ),
        y: fx_add(
            fx_add(
                fx_add(fx_mul(matrix.m1, vector.x), fx_mul(matrix.m5, vector.y)),
                fx_mul(matrix.m9, vector.z),
            ),
            fx_mul(matrix.m13, vector.w),
        ),
        z: fx_add(
            fx_add(
                fx_add(fx_mul(matrix.m2, vector.x), fx_mul(matrix.m6, vector.y)),
                fx_mul(matrix.m10, vector.z),
            ),
            fx_mul(matrix.m14, vector.w),
        ),
        w: fx_add(
            fx_add(
                fx_add(fx_mul(matrix.m3, vector.x), fx_mul(matrix.m7, vector.y)),
                fx_mul(matrix.m11, vector.z),
            ),
            fx_mul(matrix.m15, vector.w),
        ),
    }
}

} // verus!
