//! Fixed-point vectors in two, three and four components, with the
//! componentwise operations the pipeline interpolates and shades with.

use vstd::prelude::*;
use crate::fx::{
    fx_add_s, fx_sub_s, fx_mul_s, fx_div_s, fx_add, fx_sub, fx_mul, fx_div, fx_sqrt, fx_sqrt_s,
    lemma_fx_square_nonneg,
};

verus! {

/// A two-component fixed-point vector.
#[derive(Clone, Copy, PartialEq, Eq, Structural, Debug)]
pub struct Vector2 {
    pub x: i64,
    pub y: i64,
}

/// A three-component fixed-point vector.
#[derive(Clone, Copy, PartialEq, Eq, Structural, Debug)]
pub struct Vector3 {
    pub x: i64,
    pub y: i64,
    pub z: i64,
}

/// A four-component fixed-point vector (homogeneous coordinates).
#[derive(Clone, Copy, PartialEq, Eq, Structural, Debug)]
pub struct Vector4 {
    pub x: i64,
    pub y: i64,
    pub z: i64,
    pub w: i64,
}

impl Vector2 {
    /// Build a vector from its components.
    pub fn new(x: i64, y: i64) -> (r: Vector2)
        ensures
            r == (Vector2 { x, y }),
    {
        Vector2 { x, y }
    }
}

impl Vector4 {
    /// Build a vector from its components.
    pub fn new(x: i64, y: i64, z: i64, w: i64) -> (r: Vector4)
        ensures
            r == (Vector4 { x, y, z, w }),
    {
        Vector4 { x, y, z, w }
    }
}

/// Componentwise saturating sum.
pub open spec fn vec3_add_s(a: Vector3, b: Vector3) -> Vector3 {
    Vector3 {
        x: fx_add_s(a.x as int, b.x as int) as i64,
        y: fx_add_s(a.y as int, b.y as int) as i64,
        z: fx_add_s(a.z as int, b.z as int) as i64,
    }
}

/// Componentwise saturating difference.
pub open spec fn vec3_sub_s(a: Vector3, b: Vector3) -> Vector3 {
    Vector3 {
        x: fx_sub_s(a.x as int, b.x as int) as i64,
        y: fx_sub_s(a.y as int, b.y as int) as i64,
        z: fx_sub_s(a.z as int, b.z as int) as i64,
    }
}

/// Componentwise saturating product.
pub open spec fn vec3_mul_s(a: Vector3, b: Vector3) -> Vector3 {
    Vector3 {
        x: fx_mul_s(a.x as int, b.x as int) as i64,
        y: fx_mul_s(a.y as int, b.y as int) as i64,
        z: fx_mul_s(a.z as int, b.z as int) as i64,
    }
}

/// Every component scaled by `s`.
pub open spec fn vec3_scale_s(a: Vector3, s: int) -> Vector3 {
    Vector3 {
        x: fx_mul_s(a.x as int, s) as i64,
        y: fx_mul_s(a.y as int, s) as i64,
        z: fx_mul_s(a.z as int, s) as i64,
    }
}

/// The dot product, summed left to right.
pub open spec fn vec3_dot_s(a: Vector3, b: Vector3) -> int {
    fx_add_s(
        fx_add_s(fx_mul_s(a.x as int, b.x as int), fx_mul_s(a.y as int, b.y as int)),
        fx_mul_s(a.z as int, b.z as int),
    )
}

/// The Euclidean length `sqrt(x^2 + y^2 + z^2)`.
pub open spec fn vec3_len_s(a: Vector3) -> int {
    fx_sqrt_s(vec3_dot_s(a, a))
}

/// The vector scaled to unit length, or unchanged when its length rounds
/// to zero (the pipeline's division-by-zero guard).
pub open spec fn vec3_normalize_s(a: Vector3) -> Vector3 {
    let len = vec3_len_s(a);
    if len > 0 {
        Vector3 {
            x: fx_div_s(a.x as int, len) as i64,
            y: fx_div_s(a.y as int, len) as i64,
            z: fx_div_s(a.z as int, len) as i64,
        }
    } else {
        a
    }
}

/// A vector's squared length never rounds negative.
pub proof fn lemma_vec3_dot_self_nonneg(a: Vector3)
    ensures
        vec3_dot_s(a, a) >= 0,
{
    lemma_fx_square_nonneg(a.x as int);
    lemma_fx_square_nonneg(a.y as int);
    lemma_fx_square_nonneg(a.z as int);
}

impl Vector3 {
    /// Build a vector from its components.
    pub fn new(x: i64, y: i64, z: i64) -> (r: Vector3)
        ensures
            r == (Vector3 { x, y, z }),
    {
        Vector3 { x, y, z }
    }

    /// The zero vector.
    pub fn zero() -> (r: Vector3)
        ensures
            r == (Vector3 { x: 0i64, y: 0i64, z: 0i64 }),
    {
        Vector3 { x: 0, y: 0, z: 0 }
    }

    /// Componentwise saturating sum.
    pub fn add(&self, o: &Vector3) -> (r: Vector3)
        ensures
            r == vec3_add_s(*self, *o),
    {
        Vector3 { x: fx_add(self.x, o.x), y: fx_add(self.y, o.y), z: fx_add(self.z, o.z) }
    }

    /// Componentwise saturating difference.
    pub fn sub(&self, o: &Vector3) -> (r: Vector3)
        ensures
            r == vec3_sub_s(*self, *o),
    {
        Vector3 { x: fx_sub(self.x, o.x), y: fx_sub(self.y, o.y), z: fx_sub(self.z, o.z) }
    }

    /// Componentwise saturating product.
    pub fn mul(&self, o: &Vector3) -> (r: Vector3)
        ensures
            r == vec3_mul_s(*self, *o),
    {
        Vector3 { x: fx_mul(self.x, o.x), y: fx_mul(self.y, o.y), z: fx_mul(self.z, o.z) }
    }

    /// Every component scaled by `s`.
    pub fn scale(&self, s: i64) -> (r: Vector3)
        ensures
            r == vec3_scale_s(*self, s as int),
    {
        Vector3 { x: fx_mul(self.x, s), y: fx_mul(self.y, s), z: fx_mul(self.z, s) }
    }

    /// The dot product, summed left to right.
    pub fn dot(&self, o: &Vector3) -> (r: i64)
        ensures
            r as int == vec3_dot_s(*self, *o),
    {
        fx_add(fx_add(fx_mul(self.x, o.x), fx_mul(self.y, o.y)), fx_mul(self.z, o.z))
    }

    /// The Euclidean length.
    pub fn len(&self) -> (r: i64)
        ensures
            r as int == vec3_len_s(*self),
            r >= 0,
    {
        proof {
            lemma_vec3_dot_self_nonneg(*self);
        }
        let d: i64 = self.dot(self);
        fx_sqrt(d)
    }

    /// The vector scaled to unit length, or unchanged when its length rounds
    /// to zero (the pipeline's division-by-zero guard).
    pub fn normalize_or_keep(&self) -> (r: Vector3)
        ensures
            r == vec3_normalize_s(*self),
    {
        let l: i64 = self.len();
        if l > 0 {
            Vector3 { x: fx_div(self.x, l), y: fx_div(self.y, l), z: fx_div(self.z, l) }
        } else {
            *self
        }
    }
}

} // verus!
