//! The two programmable pipeline stages: vertex shaders that take an
//! object-space vertex to screen space, and fragment shaders that turn an
//! interpolated fragment into a final color.  Several interchangeable
//! variants of each exist and are selected per draw call.
//!
//! Every shader here is proved equal to its spec mirror, so shading is a
//! pure function of the vertex or fragment, the uniforms and the light.

use vstd::prelude::*;
use crate::fx::{
    FX_ONE, fx_add_s, fx_sub_s, fx_mul_s, fx_div_s, fx_add, fx_sub, fx_mul, fx_div, fx_sqrt,
    fx_sqrt_s, lemma_fx_square_nonneg,
};
use crate::trig::{
    fx_sin_s, fx_cos_s, fx_tan_s, fx_atan_s, fx_exp_neg_s, fx_noise3_s, fx_sin, fx_cos, fx_tan,
    fx_atan, fx_exp_neg, fx_noise3, lemma_fx_mul_nonneg, lemma_fx_div_nonneg,
};
use crate::vectors::{Vector2, Vector3, Vector4, vec3_add_s, vec3_mul_s, vec3_scale_s,
    vec3_normalize_s};
use crate::matrix::{Mat4, mat_vec_mul_s, multiply_matrix_vector4};
use crate::vertex::Vertex;
use crate::fragment::Fragment;
use crate::light::Light;
use crate::uniforms::Uniforms;

verus! {

/// The seed of the noise field the glow shader samples.
pub const NOISE_SEED: u64 = 42;

/// The perspective divide, guarded against `w == 0`: clip coordinates are
/// passed through unchanged instead of dividing.
pub open spec fn perspective_divide_s(clip: Vector4) -> Vector3 {
    if clip.w != 0 {
        Vector3 {
            x: fx_div_s(clip.x as int, clip.w as int) as i64,
            y: fx_div_s(clip.y as int, clip.w as int) as i64,
            z: fx_div_s(clip.z as int, clip.w as int) as i64,
        }
    } else {
        Vector3 { x: clip.x, y: clip.y, z: clip.z }
    }
}

fn perspective_divide(clip: Vector4) -> (r: Vector3)
    ensures
        r == perspective_divide_s(clip),
{
    if clip.w != 0 {
        Vector3 {
            x: fx_div(clip.x, clip.w),
            y: fx_div(clip.y, clip.w),
            z: fx_div(clip.z, clip.w),
        }
    } else {
        Vector3 { x: clip.x, y: clip.y, z: clip.z }
    }
}

/// World space to screen space: view and projection matrices, the guarded
/// perspective divide, then the viewport matrix over the normalized-device
/// coordinates rebuilt with `w = 1`.
pub open spec fn world_to_screen_s(world: Vector4, uniforms: Uniforms) -> Vector3 {
    let view_pos = mat_vec_mul_s(uniforms.view_matrix, world);
    let clip = mat_vec_mul_s(uniforms.projection_matrix, view_pos);
    let ndc = perspective_divide_s(clip);
    let screen = mat_vec_mul_s(
        uniforms.viewport_matrix,
        Vector4 { x: ndc.x, y: ndc.y, z: ndc.z, w: 65536i64 },
    );
    Vector3 { x: screen.x, y: screen.y, z: screen.z }
}

fn world_to_screen(world: Vector4, uniforms: &Uniforms) -> (r: Vector3)
    ensures
        r == world_to_screen_s(world, *uniforms),
{
    let view_pos: Vector4 = multiply_matrix_vector4(&uniforms.view_matrix, &world);
    let clip: Vector4 = multiply_matrix_vector4(&uniforms.projection_matrix, &view_pos);
    let ndc: Vector3 = perspective_divide(clip);
    let ndc4: Vector4 = Vector4 { x: ndc.x, y: ndc.y, z: ndc.z, w: FX_ONE };
    let screen: Vector4 = multiply_matrix_vector4(&uniforms.viewport_matrix, &ndc4);
    Vector3 { x: screen.x, y: screen.y, z: screen.z }
}

/// A world position's screen pixel, used to project the light source for
/// the glow shader.
pub open spec fn project_world_to_screen_s(pos: Vector3, uniforms: Uniforms) -> Vector2 {
    let screen = world_to_screen_s(
        Vector4 { x: pos.x, y: pos.y, z: pos.z, w: 65536i64 },
        uniforms,
    );
    Vector2 { x: screen.x, y: screen.y }
}

/// Project a world position through view, projection and viewport to its
/// screen pixel.
pub fn project_world_to_screen(light_pos: Vector3, uniforms: &Uniforms) -> (r: Vector2)
    ensures
        r == project_world_to_screen_s(light_pos, *uniforms),
{
    let pos4: Vector4 = Vector4 { x: light_pos.x, y: light_pos.y, z: light_pos.z, w: FX_ONE };
    let screen: Vector3 = world_to_screen(pos4, uniforms);
    Vector2 { x: screen.x, y: screen.y }
}

/// Gaussian screen-space falloff `exp(-dist^2 / (2 r^2))`, with a
/// nonpositive range replaced by `1` before squaring.  A range so small
/// that its square rounds to zero yields no glow at all.
pub open spec fn screen_attenuation_s(dist: int, range: int) -> int {
    let r = if range <= 0 {
        65536int
    } else {
        range
    };
    let d2 = fx_mul_s(dist, dist);
    let den = fx_mul_s(131072, fx_mul_s(r, r));
    if den == 0 {
        0
    } else {
        fx_exp_neg_s(fx_div_s(d2, den))
    }
}

/// Gaussian screen-space glow falloff over the light's range.
pub fn screen_attenuation(dist: i64, range: i64) -> (r: i64)
    ensures
        r as int == screen_attenuation_s(dist as int, range as int),
{
    let rr: i64 = if range <= 0 {
        FX_ONE
    } else {
        range
    };
    let d2: i64 = fx_mul(dist, dist);
    proof {
        lemma_fx_square_nonneg(dist as int);
        lemma_fx_square_nonneg(rr as int);
        lemma_fx_mul_nonneg(131072, fx_mul_s(rr as int, rr as int));
    }
    let den: i64 = fx_mul(131072, fx_mul(rr, rr));
    if den == 0 {
        0
    } else {
        proof {
            lemma_fx_div_nonneg(d2 as int, den as int);
        }
        fx_exp_neg(fx_div(d2, den))
    }
}

/// The normal transformed as a direction (`w = 0`) by the model matrix and
/// then normalized; a zero-length result is left as-is.
pub open spec fn transform_normal_s(normal: Vector3, model_matrix: Mat4) -> Vector3 {
    let t = mat_vec_mul_s(
        model_matrix,
        Vector4 { x: normal.x, y: normal.y, z: normal.z, w: 0i64 },
    );
    vec3_normalize_s(Vector3 { x: t.x, y: t.y, z: t.z })
}

fn transform_normal(normal: &Vector3, model_matrix: &Mat4) -> (r: Vector3)
    ensures
        r == transform_normal_s(*normal, *model_matrix),
{
    let normal_vec4: Vector4 = Vector4 { x: normal.x, y: normal.y, z: normal.z, w: 0 };
    let t: Vector4 = multiply_matrix_vector4(model_matrix, &normal_vec4);
    let transformed: Vector3 = Vector3 { x: t.x, y: t.y, z: t.z };
    transformed.normalize_or_keep()
}

/// The plain vertex stage: position through model, view, projection,
/// perspective divide and viewport; normal rotated by the model matrix.
pub open spec fn vertex_shader_s(vertex: Vertex, uniforms: Uniforms) -> Vertex {
    let world = mat_vec_mul_s(
        uniforms.model_matrix,
        Vector4 { x: vertex.position.x, y: vertex.position.y, z: vertex.position.z, w: 65536i64 },
    );
    Vertex {
        transformed_position: world_to_screen_s(world, uniforms),
        transformed_normal: transform_normal_s(vertex.normal, uniforms.model_matrix),
        ..vertex
    }
}

/// Transform a vertex to screen space without distorting it.
pub fn vertex_shader(vertex: &Vertex, uniforms: &Uniforms) -> (r: Vertex)
    ensures
        r == vertex_shader_s(*vertex, *uniforms),
{
    let position_vec4: Vector4 = Vector4 {
        x: vertex.position.x,
        y: vertex.position.y,
        z: vertex.position.z,
        w: FX_ONE,
    };
    let world_position: Vector4 = multiply_matrix_vector4(&uniforms.model_matrix, &position_vec4);
    let transformed_position: Vector3 = world_to_screen(world_position, uniforms);
    Vertex {
        position: vertex.position,
        normal: vertex.normal,
        tex_coord: vertex.tex_coord,
        base_color: vertex.base_color,
        transformed_position,
        transformed_normal: transform_normal(&vertex.normal, &uniforms.model_matrix),
    }
}

/// Transform a vertex to screen space; a second registration of the plain
/// stage, kept so each planet selects its own shader pair.
pub fn vertex_shader2(vertex: &Vertex, uniforms: &Uniforms) -> (r: Vertex)
    ensures
        r == vertex_shader_s(*vertex, *uniforms),
{
    let position_vec4: Vector4 = Vector4 {
        x: vertex.position.x,
        y: vertex.position.y,
        z: vertex.position.z,
        w: FX_ONE,
    };
    let world_position: Vector4 = multiply_matrix_vector4(&uniforms.model_matrix, &position_vec4);
    let transformed_position: Vector3 = world_to_screen(world_position, uniforms);
    Vertex {
        position: vertex.position,
        normal: vertex.normal,
        tex_coord: vertex.tex_coord,
        base_color: vertex.base_color,
        transformed_position,
        transformed_normal: transform_normal(&vertex.normal, &uniforms.model_matrix),
    }
}

/// The warped vertex stage: the object-space `x` is bent by a tangent and
/// `y` by a cosine before the transform chain runs.
pub open spec fn vertex_shader3_s(vertex: Vertex, uniforms: Uniforms) -> Vertex {
    let world = mat_vec_mul_s(
        uniforms.model_matrix,
        Vector4 {
            x: fx_tan_s(vertex.position.x as int) as i64,
            y: fx_cos_s(vertex.position.y as int) as i64,
            z: vertex.position.z,
            w: 65536i64,
        },
    );
    Vertex {
        transformed_position: world_to_screen_s(world, uniforms),
        transformed_normal: transform_normal_s(vertex.normal, uniforms.model_matrix),
        ..vertex
    }
}

/// Transform a vertex whose coordinates are first distorted by
/// trigonometric warps, for stylized geometry.
pub fn vertex_shader3(vertex: &Vertex, uniforms: &Uniforms) -> (r: Vertex)
    ensures
        r == vertex_shader3_s(*vertex, *uniforms),
{
    let position_vec4: Vector4 = Vector4 {
        x: fx_tan(vertex.position.x),
        y: fx_cos(vertex.position.y),
        z: vertex.position.z,
        w: FX_ONE,
    };
    let world_position: Vector4 = multiply_matrix_vector4(&uniforms.model_matrix, &position_vec4);
    let transformed_position: Vector3 = world_to_screen(world_position, uniforms);
    Vertex {
        position: vertex.position,
        normal: vertex.normal,
        tex_coord: vertex.tex_coord,
        base_color: vertex.base_color,
        transformed_position,
        transformed_normal: transform_normal(&vertex.normal, &uniforms.model_matrix),
    }
}

/// The hero-object vertex stage: each axis of the input position is the
/// product of the three other stages' (undistorted) position outputs,
/// scaled by `3.5`, before the transform chain runs.  The multiplication
/// order is part of the effect.
pub open spec fn ultra_mega_vertex_shader_s(vertex: Vertex, uniforms: Uniforms) -> Vertex {
    let p1 = vertex_shader_s(vertex, uniforms).position;
    let p2 = vertex_shader_s(vertex, uniforms).position;
    let p3 = vertex_shader3_s(vertex, uniforms).position;
    let world = mat_vec_mul_s(
        uniforms.model_matrix,
        Vector4 {
            x: fx_mul_s(fx_mul_s(fx_mul_s(p1.x as int, p2.x as int), p3.x as int), 229376) as i64,
            y: fx_mul_s(fx_mul_s(fx_mul_s(p1.y as int, p2.y as int), p3.y as int), 229376) as i64,
            z: fx_mul_s(fx_mul_s(fx_mul_s(p1.z as int, p2.z as int), p3.z as int), 229376) as i64,
            w: 65536i64,
        },
    );
    Vertex {
        transformed_position: world_to_screen_s(world, uniforms),
        transformed_normal: transform_normal_s(vertex.normal, uniforms.model_matrix),
        ..vertex
    }
}

/// The multiplicative-distortion vertex stage used for the emphasized
/// central object.
pub fn ultra_mega_vertex_shader(vertex: &Vertex, uniforms: &Uniforms) -> (r: Vertex)
    ensures
        r == ultra_mega_vertex_shader_s(*vertex, *uniforms),
{
    let position_vec4: Vector4 = Vector4 {
        x: fx_mul(
            fx_mul(
                fx_mul(
                    vertex_shader(vertex, uniforms).position.x,
                    vertex_shader2(vertex, uniforms).position.x,
                ),
                vertex_shader3(vertex, uniforms).position.x,
            ),
            229376,
        ),
        y: fx_mul(
            fx_mul(
                fx_mul(
                    vertex_shader(vertex, uniforms).position.y,
                    vertex_shader2(vertex, uniforms).position.y,
                ),
                vertex_shader3(vertex, uniforms).position.y,
            ),
            229376,
        ),
        z: fx_mul(
            fx_mul(
                fx_mul(
                    vertex_shader(vertex, uniforms).position.z,
                    vertex_shader2(vertex, uniforms).position.z,
                ),
                vertex_shader3(vertex, uniforms).position.z,
            ),
            229376,
        ),
        w: FX_ONE,
    };
    let world_position: Vector4 = multiply_matrix_vector4(&uniforms.model_matrix, &position_vec4);
    let transformed_position: Vector3 = world_to_screen(world_position, uniforms);
    Vertex {
        position: vertex.position,
        normal: vertex.normal,
        tex_coord: vertex.tex_coord,
        base_color: vertex.base_color,
        transformed_position,
        transformed_normal: transform_normal(&vertex.normal, &uniforms.model_matrix),
    }
}

/// Every component raised by the same amount.
pub open spec fn vec3_offset_s(v: Vector3, s: int) -> Vector3 {
    Vector3 {
        x: fx_add_s(v.x as int, s) as i64,
        y: fx_add_s(v.y as int, s) as i64,
        z: fx_add_s(v.z as int, s) as i64,
    }
}

fn vec3_offset(v: Vector3, s: i64) -> (r: Vector3)
    ensures
        r == vec3_offset_s(v, s as int),
{
    Vector3 { x: fx_add(v.x, s), y: fx_add(v.y, s), z: fx_add(v.z, s) }
}

/// The first pattern shader: a linear ramp over `x`, a slow cosine over
/// `y`, blended `0.4 / 0.6` with the brightened fragment color.
pub open spec fn fragment_shader1_s(fragment: Fragment, uniforms: Uniforms, light: Light)
    -> Vector3 {
    let base_color = vec3_offset_s(fragment.interpolated_color, 13107);
    let x_pattern = fx_add_s(fx_mul_s(fx_div_s(fragment.screen_x as int, 1310720), 22938), 6554);
    let y_pattern = fx_add_s(
        fx_mul_s(fx_cos_s(fx_div_s(fragment.screen_y as int, 16384000)), 58982),
        6554,
    );
    let pattern_color = Vector3 {
        x: x_pattern as i64,
        y: y_pattern as i64,
        z: fx_sub_s(fx_cos_s(fx_add_s(x_pattern, y_pattern)), 58982) as i64,
    };
    vec3_add_s(vec3_scale_s(base_color, 26214), vec3_scale_s(pattern_color, 39322))
}

/// A pattern shader blending the fragment color with ramps and cosines of
/// the screen position.
pub fn fragment_shader1(fragment: &Fragment, uniforms: &Uniforms, light: &Light) -> (r: Vector3)
    ensures
        r == fragment_shader1_s(*fragment, *uniforms, *light),
{
    let base_color: Vector3 = vec3_offset(fragment.interpolated_color, 13107);
    let x_pattern: i64 = fx_add(fx_mul(fx_div(fragment.screen_x, 1310720), 22938), 6554);
    let y_pattern: i64 = fx_add(fx_mul(fx_cos(fx_div(fragment.screen_y, 16384000)), 58982), 6554);
    let pattern_color: Vector3 = Vector3 {
        x: x_pattern,
        y: y_pattern,
        z: fx_sub(fx_cos(fx_add(x_pattern, y_pattern)), 58982),
    };
    base_color.scale(26214).add(&pattern_color.scale(39322))
}

/// The second pattern shader: sine and cosine bands over the screen
/// position with an arc-tangent blue channel, blended half and half with
/// the darkened fragment color.
pub open spec fn fragment_shader2_s(fragment: Fragment, uniforms: Uniforms, light: Light)
    -> Vector3 {
    let base_color = vec3_offset_s(fragment.interpolated_color, -39322);
    let x_pattern = fx_add_s(
        fx_mul_s(fx_sin_s(fx_div_s(fragment.screen_x as int, 1310720)), 32768),
        32768,
    );
    let y_pattern = fx_add_s(
        fx_mul_s(fx_cos_s(fx_div_s(fragment.screen_y as int, 655360)), 6554),
        19661,
    );
    let pattern_color = Vector3 {
        x: x_pattern as i64,
        y: y_pattern as i64,
        z: fx_atan_s(fx_add_s(x_pattern, y_pattern)) as i64,
    };
    vec3_add_s(vec3_scale_s(base_color, 32768), vec3_scale_s(pattern_color, 32768))
}

/// A banded pattern shader over sine and cosine waves of the screen
/// position.
pub fn fragment_shader2(fragment: &Fragment, uniforms: &Uniforms, light: &Light) -> (r: Vector3)
    ensures
        r == fragment_shader2_s(*fragment, *uniforms, *light),
{
    let base_color: Vector3 = vec3_offset(fragment.interpolated_color, -39322);
    let x_pattern: i64 = fx_add(fx_mul(fx_sin(fx_div(fragment.screen_x, 1310720)), 32768), 32768);
    let y_pattern: i64 = fx_add(fx_mul(fx_cos(fx_div(fragment.screen_y, 655360)), 6554), 19661);
    let pattern_color: Vector3 = Vector3 {
        x: x_pattern,
        y: y_pattern,
        z: fx_atan(fx_add(x_pattern, y_pattern)),
    };
    base_color.scale(32768).add(&pattern_color.scale(32768))
}

/// The ripple shader: a turquoise base modulated by crossed sine and
/// cosine waves of the screen position; it ignores the fragment color.
pub open spec fn fragment_shader3_s(fragment: Fragment, uniforms: Uniforms, light: Light)
    -> Vector3 {
    let ripple = fx_add_s(
        fx_mul_s(
            fx_add_s(
                fx_sin_s(fx_mul_s(fragment.screen_x as int, 3277)),
                fx_cos_s(fx_mul_s(fragment.screen_y as int, 3277)),
            ),
            32768,
        ),
        32768,
    );
    Vector3 {
        x: 0i64,
        y: fx_mul_s(52429, ripple) as i64,
        z: fx_add_s(39322, fx_mul_s(13107, ripple)) as i64,
    }
}

/// A turquoise ripple shader over crossed waves of the screen position.
pub fn fragment_shader3(fragment: &Fragment, uniforms: &Uniforms, light: &Light) -> (r: Vector3)
    ensures
        r == fragment_shader3_s(*fragment, *uniforms, *light),
{
    let ripple: i64 = fx_add(
        fx_mul(
            fx_add(fx_sin(fx_mul(fragment.screen_x, 3277)), fx_cos(fx_mul(fragment.screen_y, 3277))),
            32768,
        ),
        32768,
    );
    Vector3 { x: 0, y: fx_mul(52429, ripple), z: fx_add(39322, fx_mul(13107, ripple)) }
}

/// The glow shader: magenta plus the two pattern shaders, an additive
/// Gaussian glow around the light's projected screen position, a clamp of
/// each channel at `1`, and a final modulation by the seeded noise field.
pub open spec fn ultra_mega_fragment_shader_s(fragment: Fragment, uniforms: Uniforms, light: Light)
    -> Vector3 {
    let xs = fx_mul_s(fragment.screen_x as int, 3277);
    let ys = fx_mul_s(fragment.screen_y as int, 3277);
    let ts = fx_mul_s(uniforms.time as int, 52429);
    let noise_val = fx_noise3_s(NOISE_SEED, xs, ys, ts);
    let color = vec3_add_s(
        vec3_add_s(
            Vector3 { x: 65536i64, y: 0i64, z: 65536i64 },
            fragment_shader2_s(fragment, uniforms, light),
        ),
        fragment_shader3_s(fragment, uniforms, light),
    );
    let light_screen = project_world_to_screen_s(light.position, uniforms);
    let dx = fx_sub_s(fragment.screen_x as int, light_screen.x as int);
    let dy = fx_sub_s(fragment.screen_y as int, light_screen.y as int);
    let dist = fx_sqrt_s(fx_add_s(fx_mul_s(dx, dx), fx_mul_s(dy, dy)));
    let att = fx_mul_s(
        fx_mul_s(screen_attenuation_s(dist, light.range as int), light.intensity as int),
        327680,
    );
    let color2 = vec3_add_s(color, vec3_scale_s(light.color, att));
    let clamped = Vector3 {
        x: if color2.x as int <= 65536 {
            color2.x
        } else {
            65536i64
        },
        y: if color2.y as int <= 65536 {
            color2.y
        } else {
            65536i64
        },
        z: if color2.z as int <= 65536 {
            color2.z
        } else {
            65536i64
        },
    };
    vec3_mul_s(clamped, Vector3 { x: noise_val as i64, y: noise_val as i64, z: noise_val as i64 })
}

/// The light-glow compositing shader for the central object.
pub fn ultra_mega_fragment_shader(fragment: &Fragment, uniforms: &Uniforms, light: &Light) -> (r:
    Vector3)
    ensures
        r == ultra_mega_fragment_shader_s(*fragment, *uniforms, *light),
{
    let xs: i64 = fx_mul(fragment.screen_x, 3277);
    let ys: i64 = fx_mul(fragment.screen_y, 3277);
    let ts: i64 = fx_mul(uniforms.time, 52429);
    let noise_val: i64 = fx_noise3(NOISE_SEED, xs, ys, ts);
    let magenta: Vector3 = Vector3 { x: FX_ONE, y: 0, z: FX_ONE };
    let color: Vector3 = magenta.add(&fragment_shader2(fragment, uniforms, light)).add(
        &fragment_shader3(fragment, uniforms, light),
    );
    let light_screen: Vector2 = project_world_to_screen(light.position, uniforms);
    let dx: i64 = fx_sub(fragment.screen_x, light_screen.x);
    let dy: i64 = fx_sub(fragment.screen_y, light_screen.y);
    proof {
        lemma_fx_square_nonneg(dx as int);
        lemma_fx_square_nonneg(dy as int);
    }
    let dist: i64 = fx_sqrt(fx_add(fx_mul(dx, dx), fx_mul(dy, dy)));
    let att: i64 = fx_mul(fx_mul(screen_attenuation(dist, light.range), light.intensity), 327680);
    let color2: Vector3 = color.add(&light.color.scale(att));
    let clamped: Vector3 = Vector3 {
        x: if color2.x <= FX_ONE {
            color2.x
        } else {
            FX_ONE
        },
        y: if color2.y <= FX_ONE {
            color2.y
        } else {
            FX_ONE
        },
        z: if color2.z <= FX_ONE {
            color2.z
        } else {
            FX_ONE
        },
    };
    clamped.mul(&Vector3 { x: noise_val, y: noise_val, z: noise_val })
}

/// The closed set of vertex-stage variants a draw call can select.
#[derive(Clone, Copy, PartialEq, Eq, Structural, Debug)]
pub enum VertexShaderKind {
    /// The plain transform.
    Standard,
    /// The second registration of the plain transform.
    Secondary,
    /// The trigonometric warp.
    Warped,
    /// The multiplicative hero-object distortion.
    UltraMega,
}

/// The closed set of fragment-stage variants a draw call can select.
#[derive(Clone, Copy, PartialEq, Eq, Structural, Debug)]
pub enum FragmentShaderKind {
    /// The ramp-and-cosine pattern.
    Pattern,
    /// The sine-and-cosine bands.
    Bands,
    /// The turquoise ripple.
    Ripple,
    /// The noise-modulated light glow.
    UltraMega,
}

/// What each vertex-stage variant computes.
#[verifier::opaque]
pub open spec fn apply_vertex_shader_s(kind: VertexShaderKind, vertex: Vertex, uniforms: Uniforms)
    -> Vertex {
    match kind {
        VertexShaderKind::Standard => vertex_shader_s(vertex, uniforms),
        VertexShaderKind::Secondary => vertex_shader_s(vertex, uniforms),
        VertexShaderKind::Warped => vertex_shader3_s(vertex, uniforms),
        VertexShaderKind::UltraMega => ultra_mega_vertex_shader_s(vertex, uniforms),
    }
}

/// Run the selected vertex-stage variant.
pub fn apply_vertex_shader(kind: VertexShaderKind, vertex: &Vertex, uniforms: &Uniforms) -> (r:
    Vertex)
    ensures
        r == apply_vertex_shader_s(kind, *vertex, *uniforms),
{
    proof {
        reveal(apply_vertex_shader_s);
    }
    match kind {
        VertexShaderKind::Standard => vertex_shader(vertex, uniforms),
        VertexShaderKind::Secondary => vertex_shader2(vertex, uniforms),
        VertexShaderKind::Warped => vertex_shader3(vertex, uniforms),
        VertexShaderKind::UltraMega => ultra_mega_vertex_shader(vertex, uniforms),
    }
}

/// What each fragment-stage variant computes.
#[verifier::opaque]
pub open spec fn apply_fragment_shader_s(
    kind: FragmentShaderKind,
    fragment: Fragment,
    uniforms: Uniforms,
    light: Light,
) -> Vector3 {
    match kind {
        FragmentShaderKind::Pattern => fragment_shader1_s(fragment, uniforms, light),
        FragmentShaderKind::Bands => fragment_shader2_s(fragment, uniforms, light),
        FragmentShaderKind::Ripple => fragment_shader3_s(fragment, uniforms, light),
        FragmentShaderKind::UltraMega => ultra_mega_fragment_shader_s(fragment, uniforms, light),
    }
}

/// Run the selected fragment-stage variant.
pub fn apply_fragment_shader(
    kind: FragmentShaderKind,
    fragment: &Fragment,
    uniforms: &Uniforms,
    light: &Light,
) -> (r: Vector3)
    ensures
        r == apply_fragment_shader_s(kind, *fragment, *uniforms, *light),
{
    proof {
        reveal(apply_fragment_shader_s);
    }
    match kind {
        FragmentShaderKind::Pattern => fragment_shader1(fragment, uniforms, light),
        FragmentShaderKind::Bands => fragment_shader2(fragment, uniforms, light),
        FragmentShaderKind::Ripple => fragment_shader3(fragment, uniforms, light),
        FragmentShaderKind::UltraMega => ultra_mega_fragment_shader(fragment, uniforms, light),
    }
}

/// Every fragment shader is a pure function of its three inputs: two
/// invocations on equal fragments, uniforms and lights produce identical
/// colors, bit for bit.
pub proof fn lemma_fragment_shader_pure(
    kind: FragmentShaderKind,
    f1: Fragment,
    u1: Uniforms,
    l1: Light,
    f2: Fragment,
    u2: Uniforms,
    l2: Light,
)
    requires
        f1 == f2,
        u1 == u2,
        l1 == l2,
    ensures
        apply_fragment_shader_s(kind, f1, u1, l1) == apply_fragment_shader_s(kind, f2, u2, l2),
{
}

} // verus!
