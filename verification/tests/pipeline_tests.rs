//! End-to-end tests of the pipeline: the rasterizer over concrete
//! triangles, the vertex stage under identity transforms, shader purity,
//! whole draw calls and the starfield overlay.

use softrender::fragment::Fragment;
use softrender::framebuffer::{Color, Framebuffer};
use softrender::light::Light;
use softrender::matrix::Mat4;
use softrender::render::{render, render_starfield, star_screen_position};
use softrender::shaders::{
    fragment_shader1, fragment_shader2, fragment_shader3, ultra_mega_fragment_shader,
    vertex_shader, vertex_shader2, vertex_shader3, ultra_mega_vertex_shader, FragmentShaderKind,
    VertexShaderKind,
};
use softrender::triangle::triangle;
use softrender::uniforms::Uniforms;
use softrender::vectors::{Vector2, Vector3};
use softrender::vertex::Vertex;

const ONE: i64 = 65536;

fn identity_uniforms() -> Uniforms {
    Uniforms::new(Mat4::identity(), Mat4::identity(), Mat4::identity(), Mat4::identity(), 0)
}

fn some_light() -> Light {
    Light::new(Vector3::new(0, 0, -10 * ONE))
}

/// A vertex already in screen space, as the rasterizer receives it.
fn screen_vertex(x_px: i64, y_px: i64, depth: i64) -> Vertex {
    Vertex {
        position: Vector3::zero(),
        normal: Vector3::new(0, 0, ONE),
        tex_coord: Vector2::new(0, 0),
        base_color: Vector3::new(ONE, ONE, ONE),
        transformed_position: Vector3::new(x_px * ONE, y_px * ONE, depth),
        transformed_normal: Vector3::new(0, 0, ONE),
    }
}

#[test]
fn axis_aligned_triangle_covers_inside_not_outside() {
    // screen triangle (10,10) (50,10) (30,50), all at depth 0.5,
    // on a cleared 100x100 buffer
    let mut fb = Framebuffer::new(100, 100);
    fb.set_background_color(Color::new(35, 6, 48, 255));
    fb.clear();
    let v1 = screen_vertex(10, 10, 32768);
    let v2 = screen_vertex(50, 10, 32768);
    let v3 = screen_vertex(30, 50, 32768);
    let uniforms = identity_uniforms();
    let light = some_light();
    triangle(&v1, &v2, &v3, &light, &uniforms, &mut fb, FragmentShaderKind::Ripple);
    // an inside pixel was written (the ripple shader has a red channel of
    // zero, so it can never equal the background)
    let inside = fb.get_pixel_color(30, 20).unwrap();
    assert_ne!(inside, Color::new(35, 6, 48, 255));
    // an outside pixel still shows the background
    let outside = fb.get_pixel_color(5, 5).unwrap();
    assert_eq!(outside, Color::new(35, 6, 48, 255));
}

#[test]
fn nearer_triangle_wins_the_overlap() {
    let uniforms = identity_uniforms();
    let light = some_light();
    // the second triangle alone gives the expected color at (25,25)
    let mut alone = Framebuffer::new(60, 60);
    alone.clear();
    let t2a = screen_vertex(10, 10, 13107);
    let t2b = screen_vertex(45, 10, 13107);
    let t2c = screen_vertex(25, 45, 13107);
    triangle(&t2a, &t2b, &t2c, &light, &uniforms, &mut alone, FragmentShaderKind::Pattern);
    let expected = alone.get_pixel_color(25, 25).unwrap();
    // drawn after a farther triangle, it still decides the pixel
    let mut fb = Framebuffer::new(60, 60);
    fb.clear();
    let t1a = screen_vertex(0, 0, 58982);
    let t1b = screen_vertex(50, 0, 58982);
    let t1c = screen_vertex(25, 50, 58982);
    triangle(&t1a, &t1b, &t1c, &light, &uniforms, &mut fb, FragmentShaderKind::Ripple);
    triangle(&t2a, &t2b, &t2c, &light, &uniforms, &mut fb, FragmentShaderKind::Pattern);
    assert_eq!(fb.get_pixel_color(25, 25).unwrap(), expected);
}

#[test]
fn collinear_triangle_writes_no_pixel() {
    let mut fb = Framebuffer::new(40, 40);
    fb.clear();
    let before = fb.color_bytes();
    let v1 = screen_vertex(0, 0, 32768);
    let v2 = screen_vertex(10, 10, 32768);
    let v3 = screen_vertex(20, 20, 32768);
    let uniforms = identity_uniforms();
    let light = some_light();
    triangle(&v1, &v2, &v3, &light, &uniforms, &mut fb, FragmentShaderKind::Bands);
    assert_eq!(fb.color_bytes(), before);
}

#[test]
fn off_screen_triangle_is_clamped_away_without_a_crash() {
    let mut fb = Framebuffer::new(30, 30);
    fb.clear();
    let before = fb.color_bytes();
    let v1 = screen_vertex(-500, -500, 32768);
    let v2 = screen_vertex(-400, -500, 32768);
    let v3 = screen_vertex(-450, -400, 32768);
    let uniforms = identity_uniforms();
    let light = some_light();
    triangle(&v1, &v2, &v3, &light, &uniforms, &mut fb, FragmentShaderKind::Ripple);
    assert_eq!(fb.color_bytes(), before);
}

#[test]
fn origin_maps_to_the_identity_viewport_center() {
    // a vertex at the object-space origin under identity model, view,
    // projection and viewport matrices lands on the viewport's center,
    // which the identity viewport places at the origin
    let v = Vertex::new(
        Vector3 { x: 0, y: 0, z: 0 },
        Vector3 { x: 0, y: 0, z: ONE },
        Vector2 { x: 0, y: 0 },
        Vector3 { x: ONE, y: ONE, z: ONE },
    );
    let uniforms = identity_uniforms();
    let shaded = vertex_shader(&v, &uniforms);
    assert_eq!(shaded.transformed_position, Vector3 { x: 0, y: 0, z: 0 });
    // the normal comes out unit length, unchanged by the identity model
    assert_eq!(shaded.transformed_normal, Vector3 { x: 0, y: 0, z: ONE });
    // the second registration of the plain stage agrees with the first
    let shaded2 = vertex_shader2(&v, &uniforms);
    assert_eq!(shaded.transformed_position, shaded2.transformed_position);
}

#[test]
fn fragment_shaders_are_pure() {
    let uniforms = identity_uniforms();
    let light = some_light();
    let f = Fragment::new(12 * ONE + 32768, 34 * ONE + 32768, Vector3 { x: 9000, y: 20000, z: 30000 }, 4321);
    assert_eq!(fragment_shader1(&f, &uniforms, &light), fragment_shader1(&f, &uniforms, &light));
    assert_eq!(fragment_shader2(&f, &uniforms, &light), fragment_shader2(&f, &uniforms, &light));
    assert_eq!(fragment_shader3(&f, &uniforms, &light), fragment_shader3(&f, &uniforms, &light));
    assert_eq!(
        ultra_mega_fragment_shader(&f, &uniforms, &light),
        ultra_mega_fragment_shader(&f, &uniforms, &light),
    );
}

#[test]
fn warped_and_hero_vertex_shaders_are_pure() {
    let uniforms = identity_uniforms();
    let v = Vertex::new(
        Vector3 { x: 3 * ONE, y: -2 * ONE, z: ONE },
        Vector3 { x: 0, y: ONE, z: 0 },
        Vector2 { x: 0, y: 0 },
        Vector3 { x: ONE, y: 0, z: 0 },
    );
    assert_eq!(
        vertex_shader3(&v, &uniforms).transformed_position,
        vertex_shader3(&v, &uniforms).transformed_position,
    );
    assert_eq!(
        ultra_mega_vertex_shader(&v, &uniforms).transformed_position,
        ultra_mega_vertex_shader(&v, &uniforms).transformed_position,
    );
}

#[test]
fn render_draws_a_mesh_and_discards_the_leftover_vertex() {
    let uniforms = identity_uniforms();
    let light = some_light();
    // one triangle in screen coordinates (identity transforms take the
    // object positions straight to the screen)
    let tri = |x: i64, y: i64| {
        Vertex::new(
            Vector3 { x: x * ONE, y: y * ONE, z: 32768 },
            Vector3 { x: 0, y: 0, z: ONE },
            Vector2 { x: 0, y: 0 },
            Vector3 { x: ONE, y: ONE, z: ONE },
        )
    };
    let mesh = vec![tri(5, 5), tri(30, 5), tri(16, 30)];
    let mut fb = Framebuffer::new(40, 40);
    fb.set_background_color(Color::new(1, 2, 3, 255));
    fb.clear();
    render(&mut fb, &uniforms, &mesh, &light, VertexShaderKind::Standard,
        FragmentShaderKind::Ripple);
    let drawn = fb.color_bytes();
    assert_ne!(fb.get_pixel_color(16, 12).unwrap(), Color::new(1, 2, 3, 255));
    // a trailing fourth vertex assembles no second triangle
    let mut mesh4 = mesh.clone();
    mesh4.push(tri(100, 100));
    let mut fb4 = Framebuffer::new(40, 40);
    fb4.set_background_color(Color::new(1, 2, 3, 255));
    fb4.clear();
    render(&mut fb4, &uniforms, &mesh4, &light, VertexShaderKind::Standard,
        FragmentShaderKind::Ripple);
    assert_eq!(fb4.color_bytes(), drawn);
}

#[test]
fn whole_draw_calls_are_deterministic() {
    let uniforms = identity_uniforms();
    let light = some_light();
    let corner = |x: i64, y: i64| {
        Vertex::new(
            Vector3 { x: x * ONE, y: y * ONE, z: 40000 },
            Vector3 { x: 0, y: ONE, z: 0 },
            Vector2 { x: 0, y: 0 },
            Vector3 { x: ONE, y: ONE, z: ONE },
        )
    };
    let mesh = vec![corner(2, 2), corner(28, 4), corner(15, 27)];
    let mut first = Framebuffer::new(32, 32);
    first.clear();
    render(&mut first, &uniforms, &mesh, &light, VertexShaderKind::UltraMega,
        FragmentShaderKind::UltraMega);
    let mut second = Framebuffer::new(32, 32);
    second.clear();
    render(&mut second, &uniforms, &mesh, &light, VertexShaderKind::UltraMega,
        FragmentShaderKind::UltraMega);
    assert_eq!(first.color_bytes(), second.color_bytes());
}

#[test]
fn starfield_projects_to_the_window_center_and_bypasses_depth() {
    let view = Mat4::identity();
    let projection = Mat4::identity();
    // a star at the origin sits at the center of the normalized square,
    // which lands on the middle of the window
    let star = Vector3 { x: 0, y: 0, z: 0 };
    assert_eq!(star_screen_position(&star, &view, &projection, 100, 100), Some((50, 50)));
    let mut fb = Framebuffer::new(100, 100);
    fb.clear();
    // geometry already claimed the pixel at a near depth
    fb.point(50, 50, 1, Vector3 { x: ONE, y: 0, z: 0 });
    fb.set_current_color(Color::new(200, 200, 255, 255));
    let stars = vec![star];
    render_starfield(&mut fb, &stars, &view, &projection);
    // the star is drawn anyway: overlay writes ignore the depth buffer
    assert_eq!(fb.get_pixel_color(50, 50), Some(Color::new(200, 200, 255, 255)));
}

#[test]
fn light_screen_glow_center_is_brightest() {
    // under identity transforms the light at the origin projects to the
    // screen origin, so a fragment at the origin sees the strongest glow
    let uniforms = identity_uniforms();
    let light = Light::new_with_params(
        Vector3 { x: 0, y: 0, z: 0 },
        Vector3 { x: ONE, y: ONE, z: ONE },
        ONE,
        200 * ONE,
    );
    let near = Fragment::new(0, 0, Vector3 { x: 0, y: 0, z: 0 }, 100);
    let far = Fragment::new(150 * ONE, 150 * ONE, Vector3 { x: 0, y: 0, z: 0 }, 100);
    let near_color = ultra_mega_fragment_shader(&near, &uniforms, &light);
    let far_color = ultra_mega_fragment_shader(&far, &uniforms, &light);
    // the glow term only adds light, and it decays with distance; compare
    // the green channel, which the magenta base leaves at the glow's value
    assert!(near_color.y >= far_color.y);
}

#[test]
fn light_constructors_fill_the_documented_fields() {
    let l = Light::new(Vector3 { x: 1, y: 2, z: 3 });
    assert_eq!(l.position, Vector3 { x: 1, y: 2, z: 3 });
    assert_eq!(l.intensity, ONE);
    assert_eq!(l.range, 200 * ONE);
    let l2 = Light::new_with_params(
        Vector3 { x: 0, y: 0, z: 0 },
        Vector3 { x: ONE, y: 62259, z: 52429 },
        6 * ONE,
        400 * ONE,
    );
    assert_eq!(l2.color, Vector3 { x: ONE, y: 62259, z: 52429 });
    assert_eq!(l2.intensity, 6 * ONE);
}

#[test]
fn projecting_the_light_reuses_the_full_pipeline() {
    let uniforms = identity_uniforms();
    let p = softrender::shaders::project_world_to_screen(
        Vector3 { x: 2 * ONE, y: -3 * ONE, z: 0 },
        &uniforms,
    );
    assert_eq!(p, Vector2 { x: 2 * ONE, y: -3 * ONE });
}
