//! Tests of the framebuffer: the depth-tested point primitive, the two
//! clears, the overlay write, and the byte layout of the color grid.

use softrender::framebuffer::{Color, Framebuffer};
use softrender::vectors::Vector3;

const ONE: i64 = 65536;

fn red() -> Vector3 {
    Vector3 { x: ONE, y: 0, z: 0 }
}

fn blue() -> Vector3 {
    Vector3 { x: 0, y: 0, z: ONE }
}

#[test]
fn new_buffer_is_white_everywhere() {
    let mut fb = Framebuffer::new(4, 3);
    assert_eq!(fb.width(), 4);
    assert_eq!(fb.height(), 3);
    assert_eq!(fb.get_pixel_color(0, 0), Some(Color::white()));
    assert_eq!(fb.get_pixel_color(3, 2), Some(Color::white()));
    assert_eq!(fb.get_pixel_color(4, 0), None);
    assert_eq!(fb.get_pixel_color(0, 3), None);
    assert_eq!(fb.get_pixel_color(-1, 0), None);
}

#[test]
fn point_applies_the_depth_test() {
    let mut fb = Framebuffer::new(8, 8);
    fb.point(2, 2, 100, red());
    assert_eq!(fb.get_pixel_color(2, 2), Some(Color::new(255, 0, 0, 255)));
    // a farther write is rejected
    fb.point(2, 2, 200, blue());
    assert_eq!(fb.get_pixel_color(2, 2), Some(Color::new(255, 0, 0, 255)));
    // a nearer write lands
    fb.point(2, 2, 50, blue());
    assert_eq!(fb.get_pixel_color(2, 2), Some(Color::new(0, 0, 255, 255)));
    // out-of-bounds writes are ignored, not errors
    fb.point(-1, 0, 10, red());
    fb.point(8, 0, 10, red());
}

#[test]
fn point_clamps_color_channels() {
    let mut fb = Framebuffer::new(2, 2);
    fb.point(0, 0, 1, Vector3 { x: 2 * ONE, y: -ONE, z: 32768 });
    assert_eq!(fb.get_pixel_color(0, 0), Some(Color::new(255, 0, 127, 255)));
}

#[test]
fn writing_the_same_point_twice_equals_writing_it_once() {
    let mut once = Framebuffer::new(6, 6);
    let mut twice = Framebuffer::new(6, 6);
    once.point(3, 4, 77, red());
    twice.point(3, 4, 77, red());
    twice.point(3, 4, 77, red());
    assert_eq!(once.color_bytes(), twice.color_bytes());
}

#[test]
fn nearer_depth_decides_regardless_of_order() {
    let mut near_first = Framebuffer::new(6, 6);
    near_first.point(1, 1, 10, red());
    near_first.point(1, 1, 20, blue());
    let mut far_first = Framebuffer::new(6, 6);
    far_first.point(1, 1, 20, blue());
    far_first.point(1, 1, 10, red());
    assert_eq!(near_first.get_pixel_color(1, 1), Some(Color::new(255, 0, 0, 255)));
    assert_eq!(far_first.get_pixel_color(1, 1), Some(Color::new(255, 0, 0, 255)));
    assert_eq!(near_first.color_bytes(), far_first.color_bytes());
}

#[test]
fn clear_resets_colors_and_reopens_every_depth() {
    let mut fb = Framebuffer::new(5, 5);
    fb.set_background_color(Color::new(10, 20, 30, 255));
    fb.point(2, 2, 5, red());
    fb.clear();
    assert_eq!(fb.get_pixel_color(2, 2), Some(Color::new(10, 20, 30, 255)));
    // after the clear, a write at any finite depth lands, even a far one
    fb.point(2, 2, i64::MAX - 1, blue());
    assert_eq!(fb.get_pixel_color(2, 2), Some(Color::new(0, 0, 255, 255)));
}

#[test]
fn clear_depth_keeps_colors_and_lets_the_foreground_through() {
    let mut fb = Framebuffer::new(5, 5);
    fb.point(2, 2, 5, red());
    fb.clear_depth();
    // the color survives the depth clear
    assert_eq!(fb.get_pixel_color(2, 2), Some(Color::new(255, 0, 0, 255)));
    // and a write farther than the old geometry now lands anyway
    fb.point(2, 2, 1000, blue());
    assert_eq!(fb.get_pixel_color(2, 2), Some(Color::new(0, 0, 255, 255)));
}

#[test]
fn set_pixel_bypasses_the_depth_test() {
    let mut fb = Framebuffer::new(5, 5);
    fb.point(1, 1, 1, red());
    fb.set_current_color(Color::new(200, 200, 255, 255));
    // the depth written above would reject any ordinary write, but the
    // overlay write ignores depth entirely
    fb.set_pixel(1, 1);
    assert_eq!(fb.get_pixel_color(1, 1), Some(Color::new(200, 200, 255, 255)));
    fb.set_pixel(-3, 99);
}

#[test]
fn zero_sized_buffers_accept_every_operation() {
    let mut fb = Framebuffer::new(0, 0);
    assert_eq!(fb.get_pixel_color(0, 0), None);
    fb.clear();
    fb.clear_depth();
    fb.point(0, 0, 1, red());
    fb.set_pixel(0, 0);
    assert_eq!(fb.color_bytes().len(), 0);
}

#[test]
fn color_bytes_is_four_bytes_per_pixel_rgba() {
    let mut fb = Framebuffer::new(3, 2);
    fb.point(0, 0, 1, Vector3 { x: ONE, y: 0, z: 32768 });
    let bytes = fb.color_bytes();
    assert_eq!(bytes.len(), 4 * 3 * 2);
    assert_eq!(&bytes[0..4], &[255, 0, 127, 255]);
    // untouched pixels are the white the buffer was allocated with
    assert_eq!(&bytes[4..8], &[255, 255, 255, 255]);
}
