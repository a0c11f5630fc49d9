//! The rasterizer: for one triangle of shaded vertices it walks the
//! clamped screen bounding box, tests each pixel center against the
//! barycentric weights, interpolates normal, position and depth, computes
//! the Lambertian term, runs the fragment shader, and writes through the
//! framebuffer's depth-tested point primitive.
//!
//! The whole pass is summarized by [`raster_tri_s`]: every covered pixel
//! whose interpolated depth beats the stored depth takes the shader's
//! color and that depth; every other cell of the framebuffer is untouched.

use vstd::prelude::*;
use vstd::arithmetic::div_mod::{
    lemma_fundamental_div_mod_converse_div, lemma_fundamental_div_mod_converse_mod,
};
use crate::fx::{
    FX_ONE, fx_add_s, fx_sub_s, fx_mul_s, fx_div_s, sat64, div_down, clip_i32_s, fx_add, fx_sub,
    fx_mul, fx_div, fx_min, fx_max, fx_floor_rem, fx_clamp_i32,
};
use crate::vectors::{Vector3, vec3_sub_s, vec3_scale_s, vec3_normalize_s, vec3_dot_s};
use crate::vertex::Vertex;
use crate::fragment::Fragment;
use crate::light::Light;
use crate::uniforms::Uniforms;
use crate::framebuffer::{Framebuffer, FbView, fb_wf, color_of_vec3_s};
use crate::shaders::{FragmentShaderKind, apply_fragment_shader, apply_fragment_shader_s};

verus! {

// ------------------------------------------------------------------
// Exact barycentric geometry.  These spec functions carry no rounding:
// they are the mathematical reading of the rasterizer's inside test,
// and the partition law below is proved over them.
// ------------------------------------------------------------------

/// The doubled signed area of triangle `(a, b, c)`, exactly.
pub open spec fn exact_area_s(ax: int, ay: int, bx: int, by: int, cx: int, cy: int) -> int {
    (by - cy) * (ax - cx) + (cx - bx) * (ay - cy)
}

/// Point `p`'s exact barycentric numerator for vertex `a`; the weight of
/// `a` is this value divided by the doubled area.
pub open spec fn exact_w_num_s(
    px: int,
    py: int,
    ax: int,
    ay: int,
    bx: int,
    by: int,
    cx: int,
    cy: int,
) -> int {
    (by - cy) * (px - cx) + (cx - bx) * (py - cy)
}

/// Point `p`'s exact barycentric numerator for vertex `b`.
pub open spec fn exact_v_num_s(
    px: int,
    py: int,
    ax: int,
    ay: int,
    bx: int,
    by: int,
    cx: int,
    cy: int,
) -> int {
    (cy - ay) * (px - cx) + (ax - cx) * (py - cy)
}

/// Point `p`'s exact barycentric numerator for vertex `c`.
pub open spec fn exact_u_num_s(
    px: int,
    py: int,
    ax: int,
    ay: int,
    bx: int,
    by: int,
    cx: int,
    cy: int,
) -> int {
    (ay - by) * (px - bx) + (bx - ax) * (py - by)
}

/// The three barycentric numerators of any point partition the doubled
/// area: `n_a + n_b + n_c == area`, exactly.  Read over the rational
/// weights `n_a/area`, `n_b/area`, `n_c/area` of a nondegenerate
/// triangle, this says the weights of every point sum exactly to one.
#[verifier::rlimit(50)]
pub proof fn lemma_barycentric_partition(
    px: int,
    py: int,
    ax: int,
    ay: int,
    bx: int,
    by: int,
    cx: int,
    cy: int,
)
    ensures
        exact_w_num_s(px, py, ax, ay, bx, by, cx, cy) + exact_v_num_s(
            px,
            py,
            ax,
            ay,
            bx,
            by,
            cx,
            cy,
        ) + exact_u_num_s(px, py, ax, ay, bx, by, cx, cy) == exact_area_s(ax, ay, bx, by, cx, cy),
{
    assert((by - cy) * (px - cx) + (cx - bx) * (py - cy) + ((cy - ay) * (px - cx) + (ax - cx) * (py
        - cy)) + ((ay - by) * (px - bx) + (bx - ax) * (py - by)) == (by - cy) * (ax - cx) + (cx
        - bx) * (ay - cy)) by (nonlinear_arith);
}

/// For a triangle of positive doubled area, a point all of whose
/// numerators are nonnegative — the rasterizer's inside test — has every
/// rational weight in `[0, 1]` (each numerator lies between `0` and the
/// area) and the weights sum exactly to one; and whenever some numerator
/// is negative, the corresponding weight is negative, so no point
/// strictly outside is ever taken for inside.
pub proof fn lemma_inside_weights(
    px: int,
    py: int,
    ax: int,
    ay: int,
    bx: int,
    by: int,
    cx: int,
    cy: int,
)
    requires
        exact_area_s(ax, ay, bx, by, cx, cy) > 0,
        exact_w_num_s(px, py, ax, ay, bx, by, cx, cy) >= 0,
        exact_v_num_s(px, py, ax, ay, bx, by, cx, cy) >= 0,
        exact_u_num_s(px, py, ax, ay, bx, by, cx, cy) >= 0,
    ensures
        exact_w_num_s(px, py, ax, ay, bx, by, cx, cy) + exact_v_num_s(
            px,
            py,
            ax,
            ay,
            bx,
            by,
            cx,
            cy,
        ) + exact_u_num_s(px, py, ax, ay, bx, by, cx, cy) == exact_area_s(ax, ay, bx, by, cx, cy),
        exact_w_num_s(px, py, ax, ay, bx, by, cx, cy) <= exact_area_s(ax, ay, bx, by, cx, cy),
        exact_v_num_s(px, py, ax, ay, bx, by, cx, cy) <= exact_area_s(ax, ay, bx, by, cx, cy),
        exact_u_num_s(px, py, ax, ay, bx, by, cx, cy) <= exact_area_s(ax, ay, bx, by, cx, cy),
{
    lemma_barycentric_partition(px, py, ax, ay, bx, by, cx, cy);
}

// ------------------------------------------------------------------
// Rounded barycentric coordinates, exactly as the rasterizer computes
// them in fixed point.
// ------------------------------------------------------------------

/// The doubled signed area as the rasterizer rounds it.
pub open spec fn tri_area_s(a: Vector3, b: Vector3, c: Vector3) -> int {
    fx_add_s(
        fx_mul_s(fx_sub_s(b.y as int, c.y as int), fx_sub_s(a.x as int, c.x as int)),
        fx_mul_s(fx_sub_s(c.x as int, b.x as int), fx_sub_s(a.y as int, c.y as int)),
    )
}

/// The rounded numerator of vertex `a`'s weight.
pub open spec fn bary_w_num_s(px: int, py: int, a: Vector3, b: Vector3, c: Vector3) -> int {
    fx_add_s(
        fx_mul_s(fx_sub_s(b.y as int, c.y as int), fx_sub_s(px, c.x as int)),
        fx_mul_s(fx_sub_s(c.x as int, b.x as int), fx_sub_s(py, c.y as int)),
    )
}

/// The rounded numerator of vertex `b`'s weight.
pub open spec fn bary_v_num_s(px: int, py: int, a: Vector3, b: Vector3, c: Vector3) -> int {
    fx_add_s(
        fx_mul_s(fx_sub_s(c.y as int, a.y as int), fx_sub_s(px, c.x as int)),
        fx_mul_s(fx_sub_s(a.x as int, c.x as int), fx_sub_s(py, c.y as int)),
    )
}

/// The rounded barycentric weights `(w, v, u)` of a point: the first two
/// are quotients by the doubled area, the third is `1 - w - v`.  A
/// degenerate triangle (area rounding to zero, which in this fixed-point
/// scale is anything below one sub-pixel unit) yields the sentinel
/// `(-1, -1, -1)`, so all its pixels test as outside.
pub open spec fn bary_s(px: int, py: int, a: Vector3, b: Vector3, c: Vector3) -> (int, int, int) {
    let area = tri_area_s(a, b, c);
    if area == 0 {
        (-65536int, -65536int, -65536int)
    } else {
        let w = fx_div_s(bary_w_num_s(px, py, a, b, c), area);
        let v = fx_div_s(bary_v_num_s(px, py, a, b, c), area);
        let u = fx_sub_s(fx_sub_s(65536, w), v);
        (w, v, u)
    }
}

fn barycentric_coordinates(p_x: i64, p_y: i64, a: &Vertex, b: &Vertex, c: &Vertex) -> (r: (
    i64,
    i64,
    i64,
))
    ensures
        r.0 as int == bary_s(
            p_x as int,
            p_y as int,
            a.transformed_position,
            b.transformed_position,
            c.transformed_position,
        ).0,
        r.1 as int == bary_s(
            p_x as int,
            p_y as int,
            a.transformed_position,
            b.transformed_position,
            c.transformed_position,
        ).1,
        r.2 as int == bary_s(
            p_x as int,
            p_y as int,
            a.transformed_position,
            b.transformed_position,
            c.transformed_position,
        ).2,
{
    let a_x: i64 = a.transformed_position.x;
    let b_x: i64 = b.transformed_position.x;
    let c_x: i64 = c.transformed_position.x;
    let a_y: i64 = a.transformed_position.y;
    let b_y: i64 = b.transformed_position.y;
    let c_y: i64 = c.transformed_position.y;
    let area: i64 = fx_add(
        fx_mul(fx_sub(b_y, c_y), fx_sub(a_x, c_x)),
        fx_mul(fx_sub(c_x, b_x), fx_sub(a_y, c_y)),
    );
    if area == 0 {
        (-65536, -65536, -65536)
    } else {
        let w: i64 = fx_div(
            fx_add(
                fx_mul(fx_sub(b_y, c_y), fx_sub(p_x, c_x)),
                fx_mul(fx_sub(c_x, b_x), fx_sub(p_y, c_y)),
            ),
            area,
        );
        let v: i64 = fx_div(
            fx_add(
                fx_mul(fx_sub(c_y, a_y), fx_sub(p_x, c_x)),
                fx_mul(fx_sub(a_x, c_x), fx_sub(p_y, c_y)),
            ),
            area,
        );
        let u: i64 = fx_sub(fx_sub(FX_ONE, w), v);
        (w, v, u)
    }
}

// ------------------------------------------------------------------
// Per-pixel shading, mirrored exactly.
// ------------------------------------------------------------------

/// The fixed-point coordinate of a pixel's center.
pub open spec fn pixel_center_s(p: int) -> int {
    p * 65536 + 32768
}

/// The rounded weights of pixel `(x, y)`'s center against the triangle's
/// transformed positions.
#[verifier::opaque]
pub open spec fn pixel_weights_s(v1: Vertex, v2: Vertex, v3: Vertex, x: int, y: int) -> (
    int,
    int,
    int,
) {
    bary_s(
        pixel_center_s(x),
        pixel_center_s(y),
        v1.transformed_position,
        v2.transformed_position,
        v3.transformed_position,
    )
}

/// A pixel is covered when all three weights are nonnegative
/// (edge-inclusive: a weight of exactly zero counts as inside).
pub open spec fn pixel_covered_s(v1: Vertex, v2: Vertex, v3: Vertex, x: int, y: int) -> bool {
    let w = pixel_weights_s(v1, v2, v3, x, y);
    w.0 >= 0 && w.1 >= 0 && w.2 >= 0
}

/// A barycentric combination `w1*q1 + w2*q2 + w3*q3`, summed left to
/// right.
pub open spec fn interp3_s(w1: int, w2: int, w3: int, q1: int, q2: int, q3: int) -> int {
    fx_add_s(fx_add_s(fx_mul_s(w1, q1), fx_mul_s(w2, q2)), fx_mul_s(w3, q3))
}

fn interp3(w1: i64, w2: i64, w3: i64, q1: i64, q2: i64, q3: i64) -> (r: i64)
    ensures
        r as int == interp3_s(w1 as int, w2 as int, w3 as int, q1 as int, q2 as int, q3 as int),
{
    fx_add(fx_add(fx_mul(w1, q1), fx_mul(w2, q2)), fx_mul(w3, q3))
}

/// The interpolated depth of pixel `(x, y)`: the barycentric combination
/// of the vertices' screen-space `z`.
pub open spec fn pixel_depth_s(v1: Vertex, v2: Vertex, v3: Vertex, x: int, y: int) -> i64 {
    let w = pixel_weights_s(v1, v2, v3, x, y);
    interp3_s(
        w.0,
        w.1,
        w.2,
        v1.transformed_position.z as int,
        v2.transformed_position.z as int,
        v3.transformed_position.z as int,
    ) as i64
}

/// The fixed base color `(0.2, 0.9, 0.7)` of the built-in Lambertian
/// term.  The rasterizer deliberately shades this constant — not the
/// vertices' own colors — before handing the fragment to the shader.
pub open spec fn base_shade_color_s() -> Vector3 {
    Vector3 { x: 13107i64, y: 58982i64, z: 45875i64 }
}

/// The Lambertian-shaded color of pixel `(x, y)`: normal and world
/// position interpolated barycentrically, both normalizations guarded
/// against zero length, intensity `max(0, normal . light_dir)`, applied
/// to the fixed base color.
#[verifier::opaque]
pub open spec fn pixel_shaded_color_s(
    v1: Vertex,
    v2: Vertex,
    v3: Vertex,
    light: Light,
    x: int,
    y: int,
) -> Vector3 {
    let w = pixel_weights_s(v1, v2, v3, x, y);
    let normal = Vector3 {
        x: interp3_s(
            w.0,
            w.1,
            w.2,
            v1.transformed_normal.x as int,
            v2.transformed_normal.x as int,
            v3.transformed_normal.x as int,
        ) as i64,
        y: interp3_s(
            w.0,
            w.1,
            w.2,
            v1.transformed_normal.y as int,
            v2.transformed_normal.y as int,
            v3.transformed_normal.y as int,
        ) as i64,
        z: interp3_s(
            w.0,
            w.1,
            w.2,
            v1.transformed_normal.z as int,
            v2.transformed_normal.z as int,
            v3.transformed_normal.z as int,
        ) as i64,
    };
    let normalized = vec3_normalize_s(normal);
    let world_pos = Vector3 {
        x: interp3_s(
            w.0,
            w.1,
            w.2,
            v1.position.x as int,
            v2.position.x as int,
            v3.position.x as int,
        ) as i64,
        y: interp3_s(
            w.0,
            w.1,
            w.2,
            v1.position.y as int,
            v2.position.y as int,
            v3.position.y as int,
        ) as i64,
        z: interp3_s(
            w.0,
            w.1,
            w.2,
            v1.position.z as int,
            v2.position.z as int,
            v3.position.z as int,
        ) as i64,
    };
    let light_dir = vec3_normalize_s(vec3_sub_s(light.position, world_pos));
    let d = vec3_dot_s(normalized, light_dir);
    let intensity = if d <= 0 {
        0int
    } else {
        d
    };
    vec3_scale_s(base_shade_color_s(), intensity)
}

/// The fragment the rasterizer hands to the fragment shader for pixel
/// `(x, y)`.
pub open spec fn pixel_fragment_s(
    v1: Vertex,
    v2: Vertex,
    v3: Vertex,
    light: Light,
    x: int,
    y: int,
) -> Fragment {
    Fragment {
        screen_x: pixel_center_s(x) as i64,
        screen_y: pixel_center_s(y) as i64,
        interpolated_color: pixel_shaded_color_s(v1, v2, v3, light, x, y),
        depth: pixel_depth_s(v1, v2, v3, x, y),
    }
}

/// The final color the active fragment shader produces for pixel
/// `(x, y)`.
#[verifier::opaque]
pub open spec fn pixel_color_s(
    v1: Vertex,
    v2: Vertex,
    v3: Vertex,
    light: Light,
    uniforms: Uniforms,
    fs: FragmentShaderKind,
    x: int,
    y: int,
) -> Vector3 {
    apply_fragment_shader_s(fs, pixel_fragment_s(v1, v2, v3, light, x, y), uniforms, light)
}

// ------------------------------------------------------------------
// The bounding box, clamped to the framebuffer.
// ------------------------------------------------------------------

/// The smaller of two values.
pub open spec fn min2_s(a: int, b: int) -> int {
    if a <= b {
        a
    } else {
        b
    }
}

/// The larger of two values.
pub open spec fn max2_s(a: int, b: int) -> int {
    if a >= b {
        a
    } else {
        b
    }
}

/// The left edge of the triangle's pixel bounding box: the floor of the
/// smallest `x`, clamped below by `0`.
pub open spec fn bbox_min_x_s(v1: Vertex, v2: Vertex, v3: Vertex) -> int {
    max2_s(
        0,
        clip_i32_s(
            min2_s(
                min2_s(v1.transformed_position.x as int, v2.transformed_position.x as int),
                v3.transformed_position.x as int,
            ) / 65536,
        ),
    )
}

/// The right edge: the ceiling of the largest `x`, clamped above by
/// `width - 1`.
pub open spec fn bbox_max_x_s(v1: Vertex, v2: Vertex, v3: Vertex, width: int) -> int {
    min2_s(
        width - 1,
        clip_i32_s(
            fx_add_s(
                max2_s(
                    max2_s(v1.transformed_position.x as int, v2.transformed_position.x as int),
                    v3.transformed_position.x as int,
                ),
                65535,
            ) / 65536,
        ),
    )
}

/// The top edge: the floor of the smallest `y`, clamped below by `0`.
pub open spec fn bbox_min_y_s(v1: Vertex, v2: Vertex, v3: Vertex) -> int {
    max2_s(
        0,
        clip_i32_s(
            min2_s(
                min2_s(v1.transformed_position.y as int, v2.transformed_position.y as int),
                v3.transformed_position.y as int,
            ) / 65536,
        ),
    )
}

/// The bottom edge: the ceiling of the largest `y`, clamped above by
/// `height - 1`.
pub open spec fn bbox_max_y_s(v1: Vertex, v2: Vertex, v3: Vertex, height: int) -> int {
    min2_s(
        height - 1,
        clip_i32_s(
            fx_add_s(
                max2_s(
                    max2_s(v1.transformed_position.y as int, v2.transformed_position.y as int),
                    v3.transformed_position.y as int,
                ),
                65535,
            ) / 65536,
        ),
    )
}

// ------------------------------------------------------------------
// The whole pass, cell by cell.
// ------------------------------------------------------------------

/// Whether rasterizing the triangle writes cell `i` of the framebuffer:
/// its pixel lies in the clamped bounding box, is covered, and carries an
/// interpolated depth strictly nearer than the stored one.
pub open spec fn raster_hit_s(fb: FbView, v1: Vertex, v2: Vertex, v3: Vertex, i: int) -> bool {
    let x = i % fb.width;
    let y = i / fb.width;
    &&& bbox_min_x_s(v1, v2, v3) <= x <= bbox_max_x_s(v1, v2, v3, fb.width)
    &&& bbox_min_y_s(v1, v2, v3) <= y <= bbox_max_y_s(v1, v2, v3, fb.height)
    &&& pixel_covered_s(v1, v2, v3, x, y)
    &&& pixel_depth_s(v1, v2, v3, x, y) < fb.depths[i]
}

/// The framebuffer after rasterizing one triangle: every hit cell takes
/// the interpolated depth and the fragment shader's color; every other
/// cell is exactly as before.
pub open spec fn raster_tri_s(
    fb: FbView,
    v1: Vertex,
    v2: Vertex,
    v3: Vertex,
    light: Light,
    uniforms: Uniforms,
    fs: FragmentShaderKind,
) -> FbView {
    FbView {
        depths: Seq::new(
            fb.depths.len(),
            |i: int|
                if raster_hit_s(fb, v1, v2, v3, i) {
                    pixel_depth_s(v1, v2, v3, i % fb.width, i / fb.width)
                } else {
                    fb.depths[i]
                },
        ),
        colors: Seq::new(
            fb.colors.len(),
            |i: int|
                if raster_hit_s(fb, v1, v2, v3, i) {
                    color_of_vec3_s(
                        pixel_color_s(v1, v2, v3, light, uniforms, fs, i % fb.width, i / fb.width),
                    )
                } else {
                    fb.colors[i]
                },
        ),
        ..fb
    }
}

proof fn lemma_row_col(w: int, x: int, y: int)
    requires
        0 <= x < w,
        0 <= y,
    ensures
        (y * w + x) / w == y,
        (y * w + x) % w == x,
{
    lemma_fundamental_div_mod_converse_div(y * w + x, w, y, x);
    lemma_fundamental_div_mod_converse_mod(y * w + x, w, y, x);
}

/// Rasterize one triangle of shaded vertices into the framebuffer,
/// shading each covered pixel with the selected fragment shader under the
/// given light and uniforms.  The result is exactly [`raster_tri_s`] of
/// the starting state: no pixel outside the triangle is touched, and a
/// degenerate triangle touches nothing at all.
#[verifier::loop_isolation(false)]
#[verifier::rlimit(100)]
pub fn triangle(
    v1: &Vertex,
    v2: &Vertex,
    v3: &Vertex,
    light: &Light,
    uniforms: &Uniforms,
    framebuffer: &mut Framebuffer,
    fragment_shader: FragmentShaderKind,
)
    requires
        old(framebuffer).wf(),
    ensures
        final(framebuffer).wf(),
        final(framebuffer)@ =~= raster_tri_s(
            old(framebuffer)@,
            *v1,
            *v2,
            *v3,
            *light,
            *uniforms,
            fragment_shader,
        ),
{
    let ghost fb0: FbView = framebuffer@;
    let ghost target: FbView = raster_tri_s(
        fb0,
        *v1,
        *v2,
        *v3,
        *light,
        *uniforms,
        fragment_shader,
    );
    let ghost w: int = fb0.width;

    let base_color: Vector3 = Vector3 { x: 13107, y: 58982, z: 45875 };

    let tmin_x: i32 = fx_clamp_i32(
        fx_floor_rem(
            fx_min(fx_min(v1.transformed_position.x, v2.transformed_position.x),
                v3.transformed_position.x),
        ).0,
    );
    let min_x: i32 = if 0 >= tmin_x {
        0
    } else {
        tmin_x
    };
    let tmax_x: i32 = fx_clamp_i32(
        fx_floor_rem(
            fx_add(
                fx_max(fx_max(v1.transformed_position.x, v2.transformed_position.x),
                    v3.transformed_position.x),
                65535,
            ),
        ).0,
    );
    let wm1: i32 = framebuffer.width() - 1;
    let max_x: i32 = if wm1 <= tmax_x {
        wm1
    } else {
        tmax_x
    };
    let tmin_y: i32 = fx_clamp_i32(
        fx_floor_rem(
            fx_min(fx_min(v1.transformed_position.y, v2.transformed_position.y),
                v3.transformed_position.y),
        ).0,
    );
    let min_y: i32 = if 0 >= tmin_y {
        0
    } else {
        tmin_y
    };
    let tmax_y: i32 = fx_clamp_i32(
        fx_floor_rem(
            fx_add(
                fx_max(fx_max(v1.transformed_position.y, v2.transformed_position.y),
                    v3.transformed_position.y),
                65535,
            ),
        ).0,
    );
    let hm1: i32 = framebuffer.height() - 1;
    let max_y: i32 = if hm1 <= tmax_y {
        hm1
    } else {
        tmax_y
    };

    proof {
        assert(fb0.depths.len() > 0 ==> w > 0) by (nonlinear_arith)
            requires
                fb0.depths.len() == fb0.width * fb0.height,
                0 <= fb0.width,
                0 <= fb0.height,
                w == fb0.width,
        ;
        assert(min_x as int == bbox_min_x_s(*v1, *v2, *v3));
        assert(max_x as int == bbox_max_x_s(*v1, *v2, *v3, fb0.width));
        assert(min_y as int == bbox_min_y_s(*v1, *v2, *v3));
        assert(max_y as int == bbox_max_y_s(*v1, *v2, *v3, fb0.height));
    }

    let mut y: i32 = min_y;
    while y <= max_y
        invariant
            min_y <= y,
            framebuffer.wf(),
            framebuffer@.width == fb0.width,
            framebuffer@.height == fb0.height,
            framebuffer@.background == fb0.background,
            framebuffer@.current == fb0.current,
            framebuffer@.depths.len() == fb0.depths.len(),
            framebuffer@.colors.len() == fb0.colors.len(),
            forall|i: int|
                0 <= i < fb0.depths.len() ==> #[trigger] framebuffer@.depths[i] == if i / w
                    < y as int {
                    target.depths[i]
                } else {
                    fb0.depths[i]
                },
            forall|i: int|
                0 <= i < fb0.colors.len() ==> #[trigger] framebuffer@.colors[i] == if i / w
                    < y as int {
                    target.colors[i]
                } else {
                    fb0.colors[i]
                },
        decreases max_y - y + 1,
    {
        let mut x: i32 = min_x;
        while x <= max_x
            invariant
                min_x <= x,
                min_y <= y <= max_y,
                framebuffer.wf(),
                framebuffer@.width == fb0.width,
                framebuffer@.height == fb0.height,
                framebuffer@.background == fb0.background,
                framebuffer@.current == fb0.current,
                framebuffer@.depths.len() == fb0.depths.len(),
                framebuffer@.colors.len() == fb0.colors.len(),
                forall|i: int|
                    0 <= i < fb0.depths.len() ==> #[trigger] framebuffer@.depths[i] == if i / w
                        < y as int || (i / w == y as int && i % w < x as int) {
                        target.depths[i]
                    } else {
                        fb0.depths[i]
                    },
                forall|i: int|
                    0 <= i < fb0.colors.len() ==> #[trigger] framebuffer@.colors[i] == if i / w
                        < y as int || (i / w == y as int && i % w < x as int) {
                        target.colors[i]
                    } else {
                        fb0.colors[i]
                    },
            decreases max_x - x + 1,
        {
            let ghost icur: int = (y as int) * w + (x as int);
            proof {
                assert(0 <= icur && icur < fb0.width * fb0.height) by (nonlinear_arith)
                    requires
                        0 <= (x as int) < fb0.width,
                        0 <= (y as int) < fb0.height,
                        icur == (y as int) * fb0.width + (x as int),
                        w == fb0.width,
                ;
                lemma_row_col(w, x as int, y as int);
            }
            let p_x: i64 = (x as i64) * 65536 + 32768;
            let p_y: i64 = (y as i64) * 65536 + 32768;
            let wts: (i64, i64, i64) = barycentric_coordinates(p_x, p_y, v1, v2, v3);
            let w1: i64 = wts.0;
            let w2: i64 = wts.1;
            let w3: i64 = wts.2;
            if w1 >= 0 && w2 >= 0 && w3 >= 0 {
                let interpolated_normal: Vector3 = Vector3 {
                    x: interp3(
                        w1,
                        w2,
                        w3,
                        v1.transformed_normal.x,
                        v2.transformed_normal.x,
                        v3.transformed_normal.x,
                    ),
                    y: interp3(
                        w1,
                        w2,
                        w3,
                        v1.transformed_normal.y,
                        v2.transformed_normal.y,
                        v3.transformed_normal.y,
                    ),
                    z: interp3(
                        w1,
                        w2,
                        w3,
                        v1.transformed_normal.z,
                        v2.transformed_normal.z,
                        v3.transformed_normal.z,
                    ),
                };
                let normalized_normal: Vector3 = interpolated_normal.normalize_or_keep();
                let world_pos: Vector3 = Vector3 {
                    x: interp3(w1, w2, w3, v1.position.x, v2.position.x, v3.position.x),
                    y: interp3(w1, w2, w3, v1.position.y, v2.position.y, v3.position.y),
                    z: interp3(w1, w2, w3, v1.position.z, v2.position.z, v3.position.z),
                };
                let light_dir: Vector3 = light.position.sub(&world_pos).normalize_or_keep();
                let intensity: i64 = fx_max(0, normalized_normal.dot(&light_dir));
                let shaded_color: Vector3 = base_color.scale(intensity);
                let depth: i64 = interp3(
                    w1,
                    w2,
                    w3,
                    v1.transformed_position.z,
                    v2.transformed_position.z,
                    v3.transformed_position.z,
                );
                let fragment: Fragment = Fragment::new(p_x, p_y, shaded_color, depth);
                let final_color: Vector3 = apply_fragment_shader(
                    fragment_shader,
                    &fragment,
                    uniforms,
                    light,
                );
                proof {
                    reveal(pixel_weights_s);
                    reveal(pixel_shaded_color_s);
                    reveal(pixel_color_s);
                    assert(fragment == pixel_fragment_s(*v1, *v2, *v3, *light, x as int, y as int));
                    assert(final_color == pixel_color_s(
                        *v1,
                        *v2,
                        *v3,
                        *light,
                        *uniforms,
                        fragment_shader,
                        x as int,
                        y as int,
                    ));
                    assert(framebuffer@.depths[icur] == fb0.depths[icur]);
                }
                framebuffer.point(x, y, depth, final_color);
            }
            proof {
                reveal(pixel_weights_s);
                assert forall|i: int| 0 <= i < fb0.depths.len() implies #[trigger] framebuffer@
                    .depths[i] == if i / w < y as int || (i / w == y as int && i % w
                    < x as int + 1) {
                    target.depths[i]
                } else {
                    fb0.depths[i]
                } by {
                    if i != icur {
                        if i / w == y as int && i % w == x as int {
                            vstd::arithmetic::div_mod::lemma_fundamental_div_mod(i, w);
                            assert(w * (y as int) == (y as int) * w) by (nonlinear_arith);
                            assert(false);
                        }
                        assert(framebuffer@.depths[i] == if i / w < y as int || (i / w == y as int
                            && i % w < x as int) {
                            target.depths[i]
                        } else {
                            fb0.depths[i]
                        });
                    }
                };
                assert forall|i: int| 0 <= i < fb0.colors.len() implies #[trigger] framebuffer@
                    .colors[i] == if i / w < y as int || (i / w == y as int && i % w
                    < x as int + 1) {
                    target.colors[i]
                } else {
                    fb0.colors[i]
                } by {
                    if i != icur {
                        if i / w == y as int && i % w == x as int {
                            vstd::arithmetic::div_mod::lemma_fundamental_div_mod(i, w);
                            assert(w * (y as int) == (y as int) * w) by (nonlinear_arith);
                            assert(false);
                        }
                        assert(framebuffer@.colors[i] == if i / w < y as int || (i / w == y as int
                            && i % w < x as int) {
                            target.colors[i]
                        } else {
                            fb0.colors[i]
                        });
                    }
                };
            }
            x = x + 1;
        }
        proof {
            assert forall|i: int| 0 <= i < fb0.depths.len() implies #[trigger] framebuffer@
                .depths[i] == if i / w < y as int + 1 {
                target.depths[i]
            } else {
                fb0.depths[i]
            } by {
                if i / w == y as int && !(i % w < x as int) {
                    assert(!raster_hit_s(fb0, *v1, *v2, *v3, i));
                    assert(target.depths[i] == fb0.depths[i]);
                }
            };
            assert forall|i: int| 0 <= i < fb0.colors.len() implies #[trigger] framebuffer@
                .colors[i] == if i / w < y as int + 1 {
                target.colors[i]
            } else {
                fb0.colors[i]
            } by {
                if i / w == y as int && !(i % w < x as int) {
                    assert(!raster_hit_s(fb0, *v1, *v2, *v3, i));
                    assert(target.colors[i] == fb0.colors[i]);
                }
            };
        }
        y = y + 1;
    }
    proof {
        assert forall|i: int| 0 <= i < fb0.depths.len() implies framebuffer@.depths[i]
            == target.depths[i] by {
            if !(i / w < y as int) {
                assert(!raster_hit_s(fb0, *v1, *v2, *v3, i));
            }
        };
        assert forall|i: int| 0 <= i < fb0.colors.len() implies framebuffer@.colors[i]
            == target.colors[i] by {
            if !(i / w < y as int) {
                assert(!raster_hit_s(fb0, *v1, *v2, *v3, i));
            }
        };
        assert(framebuffer@.depths =~= target.depths);
        assert(framebuffer@.colors =~= target.colors);
    }
}

// ------------------------------------------------------------------
// Laws of the rasterizer.
// ------------------------------------------------------------------

/// Vertices that are exactly collinear in screen space — zero doubled
/// area in exact arithmetic — still have zero area after fixed-point
/// rounding, provided no coordinate difference saturates: rounding
/// toward zero is symmetric, so the two product terms cancel exactly.
pub proof fn lemma_collinear_zero_area(a: Vector3, b: Vector3, c: Vector3)
    requires
        (b.y - c.y) * (a.x - c.x) == (b.x - c.x) * (a.y - c.y),
        -(i64::MAX as int) <= b.y - c.y <= i64::MAX as int,
        -(i64::MAX as int) <= a.x - c.x <= i64::MAX as int,
        -(i64::MAX as int) <= b.x - c.x <= i64::MAX as int,
        -(i64::MAX as int) <= a.y - c.y <= i64::MAX as int,
    ensures
        tri_area_s(a, b, c) == 0,
{
    let p = (b.y - c.y) * (a.x - c.x);
    assert((c.x - b.x) * (a.y - c.y) == -p) by (nonlinear_arith)
        requires
            (b.y - c.y) * (a.x - c.x) == (b.x - c.x) * (a.y - c.y),
            p == (b.y - c.y) * (a.x - c.x),
    ;
    assert(fx_mul_s(fx_sub_s(b.y as int, c.y as int), fx_sub_s(a.x as int, c.x as int)) == sat64(
        div_down(p, 65536),
    ));
    assert(fx_mul_s(fx_sub_s(c.x as int, b.x as int), fx_sub_s(a.y as int, c.y as int)) == sat64(
        div_down(-p, 65536),
    ));
    assert(div_down(-p, 65536) == -div_down(p, 65536));
    assert(sat64(-div_down(p, 65536)) == -sat64(div_down(p, 65536)));
}

/// A degenerate triangle — its rounded doubled area is zero, which
/// covers every exactly collinear one — rasterizes no pixel at all: the
/// framebuffer after the pass is the framebuffer before it.
pub proof fn lemma_degenerate_triangle_draws_nothing(
    fb: FbView,
    v1: Vertex,
    v2: Vertex,
    v3: Vertex,
    light: Light,
    uniforms: Uniforms,
    fs: FragmentShaderKind,
)
    requires
        fb_wf(fb),
        tri_area_s(v1.transformed_position, v2.transformed_position, v3.transformed_position)
            == 0,
    ensures
        raster_tri_s(fb, v1, v2, v3, light, uniforms, fs) == fb,
{
    let r = raster_tri_s(fb, v1, v2, v3, light, uniforms, fs);
    assert forall|i: int| 0 <= i < fb.depths.len() implies !raster_hit_s(fb, v1, v2, v3, i) by {
        reveal(pixel_weights_s);
        assert(!pixel_covered_s(v1, v2, v3, i % fb.width, i / fb.width));
    };
    assert(r.depths =~= fb.depths);
    assert(r.colors =~= fb.colors);
    assert(r =~= fb);
}

} // verus!
