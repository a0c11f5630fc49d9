//! The render orchestrator: one call per mesh/material pair per frame.
//! It runs the selected vertex shader over the vertex buffer, assembles
//! consecutive triples into triangles (a trailing one or two vertices are
//! discarded), and rasterizes each triangle in submission order against
//! the shared framebuffer.

use vstd::prelude::*;
use crate::fx::{FX_ONE, FX_HALF, fx_add_s, fx_sub_s, fx_mul_s, fx_div_s, clip_i32_s, fx_add,
    fx_sub, fx_mul, fx_div, fx_floor_rem, fx_clamp_i32};
use crate::vectors::{Vector3, Vector4};
use crate::matrix::{Mat4, mat_vec_mul_s, multiply_matrix_vector4};
use crate::vertex::Vertex;
use crate::light::Light;
use crate::uniforms::Uniforms;
use crate::framebuffer::{Framebuffer, FbView, set_pixel_s};
use crate::shaders::{
    VertexShaderKind, FragmentShaderKind, apply_vertex_shader, apply_vertex_shader_s,
};
use crate::triangle::{triangle, raster_tri_s};

verus! {

/// The vertex stage over a whole buffer: every vertex through the
/// selected shader, in order.
pub open spec fn shaded_vertices_s(
    kind: VertexShaderKind,
    verts: Seq<Vertex>,
    uniforms: Uniforms,
) -> Seq<Vertex> {
    verts.map(|i: int, v: Vertex| apply_vertex_shader_s(kind, v, uniforms))
}

/// The framebuffer after rasterizing the first `k` assembled triangles of
/// the shaded vertex buffer, in order.
pub open spec fn render_rec_s(
    fb: FbView,
    sv: Seq<Vertex>,
    light: Light,
    uniforms: Uniforms,
    fs: FragmentShaderKind,
    k: nat,
) -> FbView
    decreases k,
{
    if k == 0 {
        fb
    } else {
        raster_tri_s(
            render_rec_s(fb, sv, light, uniforms, fs, (k - 1) as nat),
            sv[3 * (k - 1)],
            sv[3 * (k - 1) + 1],
            sv[3 * (k - 1) + 2],
            light,
            uniforms,
            fs,
        )
    }
}

/// One whole draw call: the vertex stage over the buffer, then every
/// assembled triangle rasterized in order.
pub open spec fn render_s(
    fb: FbView,
    verts: Seq<Vertex>,
    light: Light,
    uniforms: Uniforms,
    vs: VertexShaderKind,
    fs: FragmentShaderKind,
) -> FbView {
    render_rec_s(
        fb,
        shaded_vertices_s(vs, verts, uniforms),
        light,
        uniforms,
        fs,
        verts.len() / 3,
    )
}

/// Draw one mesh with one shader pair: vertex stage, triangle assembly,
/// rasterization.  The framebuffer afterwards is exactly [`render_s`] of
/// the framebuffer before: the fold, in submission order, of the
/// rasterizer over every complete vertex triple.
#[verifier::loop_isolation(false)]
#[verifier::rlimit(100)]
pub fn render(
    framebuffer: &mut Framebuffer,
    uniforms: &Uniforms,
    vertex_array: &Vec<Vertex>,
    light: &Light,
    vertex_shader_kind: VertexShaderKind,
    fragment_shader_kind: FragmentShaderKind,
)
    requires
        old(framebuffer).wf(),
    ensures
        final(framebuffer).wf(),
        final(framebuffer)@ =~= render_s(
            old(framebuffer)@,
            vertex_array@,
            *light,
            *uniforms,
            vertex_shader_kind,
            fragment_shader_kind,
        ),
{
    let ghost fb0: FbView = framebuffer@;
    let n: usize = vertex_array.len();

    let mut transformed_vertices: Vec<Vertex> = Vec::new();
    let mut i: usize = 0;
    while i < n
        invariant
            i <= n,
            transformed_vertices@.len() == i,
            forall|j: int|
                0 <= j < i ==> transformed_vertices@[j] == apply_vertex_shader_s(
                    vertex_shader_kind,
                    vertex_array@[j],
                    *uniforms,
                ),
        decreases n - i,
    {
        let transformed: Vertex = apply_vertex_shader(
            vertex_shader_kind,
            &vertex_array[i],
            uniforms,
        );
        transformed_vertices.push(transformed);
        i = i + 1;
    }
    let ghost sv: Seq<Vertex> = shaded_vertices_s(vertex_shader_kind, vertex_array@, *uniforms);
    proof {
        assert(transformed_vertices@ =~= sv);
    }

    let m: usize = n / 3;
    proof {
        vstd::arithmetic::div_mod::lemma_fundamental_div_mod(n as int, 3);
    }
    let mut k: usize = 0;
    while k < m
        invariant
            k <= m,
            framebuffer.wf(),
            framebuffer@ == render_rec_s(
                fb0,
                sv,
                *light,
                *uniforms,
                fragment_shader_kind,
                k as nat,
            ),
        decreases m - k,
    {
        triangle(
            &transformed_vertices[3 * k],
            &transformed_vertices[3 * k + 1],
            &transformed_vertices[3 * k + 2],
            light,
            uniforms,
            framebuffer,
            fragment_shader_kind,
        );
        k = k + 1;
    }
}

/// Where a background star lands on screen, if it does: the star is taken
/// through view and projection; a star behind the camera (`w <= 0`) or
/// outside the normalized `[-1, 1]` square is not drawn; otherwise the
/// normalized coordinates are mapped over the window, with `y` flipped.
#[verifier::opaque]
pub open spec fn star_screen_position_s(star: Vector3, view: Mat4, projection: Mat4, width: int,
    height: int) -> Option<(int, int)> {
    let view_pos = mat_vec_mul_s(view, Vector4 { x: star.x, y: star.y, z: star.z, w: 65536i64 });
    let proj_pos = mat_vec_mul_s(projection, view_pos);
    if proj_pos.w > 0 {
        let ndc_x = fx_div_s(proj_pos.x as int, proj_pos.w as int);
        let ndc_y = fx_div_s(proj_pos.y as int, proj_pos.w as int);
        if -65536 <= ndc_x && ndc_x <= 65536 && -65536 <= ndc_y && ndc_y <= 65536 {
            let sx = fx_mul_s(fx_mul_s(fx_add_s(ndc_x, 65536), 32768), width * 65536);
            let sy = fx_mul_s(fx_mul_s(fx_sub_s(65536, ndc_y), 32768), height * 65536);
            Some((clip_i32_s(sx / 65536), clip_i32_s(sy / 65536)))
        } else {
            None
        }
    } else {
        None
    }
}

/// Project one background star to its screen pixel, or `None` when it is
/// behind the camera or outside the view.
pub fn star_screen_position(star: &Vector3, view: &Mat4, projection: &Mat4, width: i32,
    height: i32) -> (r: Option<(i32, i32)>)
    requires
        0 <= width,
        0 <= height,
    ensures
        r is Some <==> star_screen_position_s(*star, *view, *projection, width as int,
            height as int) is Some,
        r is Some ==> {
            let p = star_screen_position_s(*star, *view, *projection, width as int,
                height as int)->Some_0;
            r->Some_0.0 == p.0 && r->Some_0.1 == p.1
        },
{
    proof {
        reveal(star_screen_position_s);
    }
    let vertex: Vector4 = Vector4 { x: star.x, y: star.y, z: star.z, w: FX_ONE };
    let view_pos: Vector4 = multiply_matrix_vector4(view, &vertex);
    let proj_pos: Vector4 = multiply_matrix_vector4(projection, &view_pos);
    if proj_pos.w > 0 {
        let ndc_x: i64 = fx_div(proj_pos.x, proj_pos.w);
        let ndc_y: i64 = fx_div(proj_pos.y, proj_pos.w);
        if -FX_ONE <= ndc_x && ndc_x <= FX_ONE && -FX_ONE <= ndc_y && ndc_y <= FX_ONE {
            let sx: i64 = fx_mul(fx_mul(fx_add(ndc_x, FX_ONE), FX_HALF), (width as i64) * 65536);
            let sy: i64 = fx_mul(fx_mul(fx_sub(FX_ONE, ndc_y), FX_HALF), (height as i64) * 65536);
            let px: i32 = fx_clamp_i32(fx_floor_rem(sx).0);
            let py: i32 = fx_clamp_i32(fx_floor_rem(sy).0);
            Some((px, py))
        } else {
            None
        }
    } else {
        None
    }
}

/// The framebuffer after overlaying the first `k` stars: each visible
/// star's pixel takes the current color, bypassing the depth test.
pub open spec fn starfield_rec_s(fb: FbView, stars: Seq<Vector3>, view: Mat4, projection: Mat4,
    k: nat) -> FbView
    decreases k,
{
    if k == 0 {
        fb
    } else {
        let prev = starfield_rec_s(fb, stars, view, projection, (k - 1) as nat);
        match star_screen_position_s(stars[k - 1], view, projection, fb.width, fb.height) {
            Some(p) => set_pixel_s(prev, p.0, p.1),
            None => prev,
        }
    }
}

/// Overlay the starfield: every star that projects onto the window is
/// drawn with the current color, ignoring and leaving the depth buffer,
/// so the stars always stay behind later geometry.
#[verifier::loop_isolation(false)]
#[verifier::rlimit(100)]
pub fn render_starfield(framebuffer: &mut Framebuffer, stars: &Vec<Vector3>, view: &Mat4,
    projection: &Mat4)
    requires
        old(framebuffer).wf(),
    ensures
        final(framebuffer).wf(),
        final(framebuffer)@ =~= starfield_rec_s(old(framebuffer)@, stars@, *view, *projection,
            stars@.len()),
{
    let ghost fb0: FbView = framebuffer@;
    let width: i32 = framebuffer.width();
    let height: i32 = framebuffer.height();
    let n: usize = stars.len();
    let mut i: usize = 0;
    while i < n
        invariant
            i <= n,
            framebuffer.wf(),
            framebuffer@ == starfield_rec_s(fb0, stars@, *view, *projection, i as nat),
        decreases n - i,
    {
        let pos: Option<(i32, i32)> = star_screen_position(&stars[i], view, projection, width,
            height);
        match pos {
            Some(p) => {
                framebuffer.set_pixel(p.0, p.1);
            },
            None => {},
        }
        i = i + 1;
    }
}

} // verus!
