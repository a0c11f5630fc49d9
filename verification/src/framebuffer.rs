//! The framebuffer: a color buffer and a parallel depth buffer of the same
//! pixel count, with a depth-tested point primitive and the buffer
//! lifecycle (clear both, clear depth only, unconditional overlay writes).
//!
//! Depths are fixed-point values; `DEPTH_INFINITY` (the largest value)
//! plays the role of `+infinity`: a freshly cleared cell accepts any
//! smaller depth, and a stored color is replaced only by a strictly
//! nearer write.

use vstd::prelude::*;
use vstd::pervasive::VecAdditionalExecFns;
use crate::vectors::Vector3;

verus! {

/// The depth every cell is cleared to; no depth-tested write at this depth
/// ever lands (mirroring `NaN`-poisoned comparisons in floating-point
/// renderers, a write of `DEPTH_INFINITY` is silently discarded).
pub const DEPTH_INFINITY: i64 = i64::MAX;

/// One pixel, four bytes, RGBA order.
#[derive(Clone, Copy, PartialEq, Eq, Structural, Debug)]
pub struct Color {
    pub r: u8,
    pub g: u8,
    pub b: u8,
    pub a: u8,
}

/// Opaque white.
pub open spec fn color_white_s() -> Color {
    Color { r: 255u8, g: 255u8, b: 255u8, a: 255u8 }
}

impl Color {
    /// Build a color from its four channels.
    pub fn new(r: u8, g: u8, b: u8, a: u8) -> (c: Color)
        ensures
            c == (Color { r, g, b, a }),
    {
        Color { r, g, b, a }
    }

    /// Opaque white.
    pub fn white() -> (c: Color)
        ensures
            c == color_white_s(),
    {
        Color { r: 255, g: 255, b: 255, a: 255 }
    }
}

/// One fixed-point color channel as a byte: clamped to `[0, 1]`, then
/// scaled to `[0, 255]`.
pub open spec fn channel_byte_s(c: int) -> u8 {
    let cl = if c < 0 {
        0int
    } else if c > 65536 {
        65536int
    } else {
        c
    };
    ((cl * 255) / 65536) as u8
}

/// A fixed-point color vector as an opaque RGBA pixel.
pub open spec fn color_of_vec3_s(c: Vector3) -> Color {
    Color {
        r: channel_byte_s(c.x as int),
        g: channel_byte_s(c.y as int),
        b: channel_byte_s(c.z as int),
        a: 255u8,
    }
}

fn channel_byte(c: i64) -> (r: u8)
    ensures
        r == channel_byte_s(c as int),
{
    let cl: i64 = if c < 0 {
        0
    } else if c > 65536 {
        65536
    } else {
        c
    };
    let v: u64 = (cl as u64) * 255 / 65536;
    v as u8
}

fn color_of_vec3(c: Vector3) -> (r: Color)
    ensures
        r == color_of_vec3_s(c),
{
    Color { r: channel_byte(c.x), g: channel_byte(c.y), b: channel_byte(c.z), a: 255 }
}

/// The mathematical state of a framebuffer.
#[verifier::ext_equal]
pub ghost struct FbView {
    pub width: int,
    pub height: int,
    pub colors: Seq<Color>,
    pub depths: Seq<i64>,
    pub background: Color,
    pub current: Color,
}

/// Both buffers hold exactly `width * height` cells, and that pixel count
/// stays within the index arithmetic's range.
pub open spec fn fb_wf(v: FbView) -> bool {
    &&& 0 <= v.width
    &&& 0 <= v.height
    &&& v.width * v.height <= i32::MAX
    &&& v.colors.len() == v.width * v.height
    &&& v.depths.len() == v.width * v.height
}

/// The effect of the depth-tested point primitive: inside the buffer and
/// strictly nearer than the stored depth, both cells are replaced; on any
/// other input the framebuffer is untouched.
pub open spec fn point_s(fb: FbView, x: int, y: int, depth: i64, color: Vector3) -> FbView {
    if 0 <= x && x < fb.width && 0 <= y && y < fb.height {
        let idx = y * fb.width + x;
        if depth < fb.depths[idx] {
            FbView {
                colors: fb.colors.update(idx, color_of_vec3_s(color)),
                depths: fb.depths.update(idx, depth),
                ..fb
            }
        } else {
            fb
        }
    } else {
        fb
    }
}

/// The effect of the unconditional overlay write: inside the buffer the
/// color cell takes the current color and the depth cell is left alone.
pub open spec fn set_pixel_s(fb: FbView, x: int, y: int) -> FbView {
    if 0 <= x && x < fb.width && 0 <= y && y < fb.height {
        FbView { colors: fb.colors.update(y * fb.width + x, fb.current), ..fb }
    } else {
        fb
    }
}

/// The effect of `clear`: every color cell takes the background color and
/// every depth cell returns to `+infinity`.
pub open spec fn clear_s(fb: FbView) -> FbView {
    FbView {
        colors: Seq::new(fb.colors.len(), |i: int| fb.background),
        depths: Seq::new(fb.depths.len(), |i: int| DEPTH_INFINITY),
        ..fb
    }
}

/// The effect of `clear_depth`: every depth cell returns to `+infinity`
/// and the colors are untouched.
pub open spec fn clear_depth_s(fb: FbView) -> FbView {
    FbView { depths: Seq::new(fb.depths.len(), |i: int| DEPTH_INFINITY), ..fb }
}

/// A freshly allocated framebuffer: white everywhere, all depths at
/// `+infinity`.
pub open spec fn fb_new_s(width: int, height: int) -> FbView {
    FbView {
        width,
        height,
        colors: Seq::new((width * height) as nat, |i: int| color_white_s()),
        depths: Seq::new((width * height) as nat, |i: int| DEPTH_INFINITY),
        background: color_white_s(),
        current: color_white_s(),
    }
}

/// The color buffer and its parallel depth buffer.
pub struct Framebuffer {
    pub width: i32,
    pub height: i32,
    color_buffer: Vec<Color>,
    depth_buffer: Vec<i64>,
    background_color: Color,
    current_color: Color,
}

impl View for Framebuffer {
    type V = FbView;

    closed spec fn view(&self) -> FbView {
        FbView {
            width: self.width as int,
            height: self.height as int,
            colors: self.color_buffer@,
            depths: self.depth_buffer@,
            background: self.background_color,
            current: self.current_color,
        }
    }
}

impl Framebuffer {
    /// The buffers are well formed (see [`fb_wf`]).
    pub open spec fn wf(&self) -> bool {
        fb_wf(self@)
    }

    /// The buffer's width in pixels.
    pub fn width(&self) -> (r: i32)
        ensures
            r as int == self@.width,
    {
        self.width
    }

    /// The buffer's height in pixels.
    pub fn height(&self) -> (r: i32)
        ensures
            r as int == self@.height,
    {
        self.height
    }

    /// Allocate a framebuffer of the given dimensions, cleared to white
    /// with every depth at `+infinity`.
    pub fn new(width: i32, height: i32) -> (r: Framebuffer)
        requires
            0 <= width,
            0 <= height,
            width * height <= i32::MAX,
        ensures
            r.wf(),
            r@ =~= fb_new_s(width as int, height as int),
    {
        let n: usize = (width as usize) * (height as usize);
        let mut colors: Vec<Color> = Vec::new();
        let mut depths: Vec<i64> = Vec::new();
        let mut i: usize = 0;
        while i < n
            invariant
                i <= n,
                colors@.len() == i,
                depths@.len() == i,
                forall|j: int| 0 <= j < i ==> colors@[j] == color_white_s(),
                forall|j: int| 0 <= j < i ==> depths@[j] == DEPTH_INFINITY,
            decreases n - i,
        {
            colors.push(Color::white());
            depths.push(DEPTH_INFINITY);
            i = i + 1;
        }
        Framebuffer {
            width,
            height,
            color_buffer: colors,
            depth_buffer: depths,
            background_color: Color::white(),
            current_color: Color::white(),
        }
    }

    /// Reset every color cell to the background color and every depth cell
    /// to `+infinity`; any write with a finite depth then lands.
    pub fn clear(&mut self)
        requires
            old(self).wf(),
        ensures
            final(self).wf(),
            final(self)@ =~= clear_s(old(self)@),
    {
        let n: usize = self.color_buffer.len();
        let mut i: usize = 0;
        while i < n
            invariant
                i <= n,
                self.color_buffer@.len() == n,
                self.depth_buffer@.len() == old(self).depth_buffer@.len(),
                self.width == old(self).width,
                self.height == old(self).height,
                self.background_color == old(self).background_color,
                self.current_color == old(self).current_color,
                forall|j: int| 0 <= j < i ==> self.color_buffer@[j] == old(self).background_color,
                forall|j: int| 0 <= j < i ==> self.depth_buffer@[j] == DEPTH_INFINITY,
                forall|j: int|
                    i <= j < n ==> self.color_buffer@[j] == old(self).color_buffer@[j],
                n <= self.depth_buffer@.len(),
            decreases n - i,
        {
            let bg: Color = self.background_color;
            self.color_buffer.set(i, bg);
            self.depth_buffer.set(i, DEPTH_INFINITY);
            i = i + 1;
        }
    }

    /// Reset only the depth cells, leaving previously written colors in
    /// place; later depth-tested writes then land regardless of what depth
    /// had accumulated (the "always in front" layering step).
    pub fn clear_depth(&mut self)
        requires
            old(self).wf(),
        ensures
            final(self).wf(),
            final(self)@ =~= clear_depth_s(old(self)@),
    {
        let n: usize = self.depth_buffer.len();
        let mut i: usize = 0;
        while i < n
            invariant
                i <= n,
                self.depth_buffer@.len() == n,
                self.color_buffer == old(self).color_buffer,
                self.width == old(self).width,
                self.height == old(self).height,
                self.background_color == old(self).background_color,
                self.current_color == old(self).current_color,
                forall|j: int| 0 <= j < i ==> self.depth_buffer@[j] == DEPTH_INFINITY,
            decreases n - i,
        {
            self.depth_buffer.set(i, DEPTH_INFINITY);
            i = i + 1;
        }
    }

    /// Write the current color at `(x, y)` unconditionally, bypassing the
    /// depth test; out-of-bounds coordinates are ignored.
    pub fn set_pixel(&mut self, x: i32, y: i32)
        requires
            old(self).wf(),
        ensures
            final(self).wf(),
            final(self)@ =~= set_pixel_s(old(self)@, x as int, y as int),
    {
        if x >= 0 && x < self.width && y >= 0 && y < self.height {
            proof {
                let w = self@.width;
                let h = self@.height;
                assert(0 <= (y as int) * w && (y as int) * w + (x as int) < w * h)
                    by (nonlinear_arith)
                    requires
                        0 <= (x as int),
                        (x as int) < w,
                        0 <= (y as int),
                        (y as int) < h,
                ;
            }
            let index: usize = (y as usize) * (self.width as usize) + (x as usize);
            let cur: Color = self.current_color;
            self.color_buffer.set(index, cur);
        }
    }

    /// The depth-tested point primitive: write `color` at `(x, y)` if and
    /// only if the pixel is in bounds and `depth` is strictly nearer than
    /// the stored depth; both cells are then updated together.
    pub fn point(&mut self, x: i32, y: i32, depth: i64, color: Vector3)
        requires
            old(self).wf(),
        ensures
            final(self).wf(),
            final(self)@ =~= point_s(old(self)@, x as int, y as int, depth, color),
    {
        if x >= 0 && x < self.width && y >= 0 && y < self.height {
            proof {
                let w = self@.width;
                let h = self@.height;
                assert(0 <= (y as int) * w && (y as int) * w + (x as int) < w * h)
                    by (nonlinear_arith)
                    requires
                        0 <= (x as int),
                        (x as int) < w,
                        0 <= (y as int),
                        (y as int) < h,
                ;
            }
            let index: usize = (y as usize) * (self.width as usize) + (x as usize);
            if depth < self.depth_buffer[index] {
                self.depth_buffer.set(index, depth);
                let pixel_color: Color = color_of_vec3(color);
                self.color_buffer.set(index, pixel_color);
            }
        }
    }

    /// The stored color at `(x, y)`, or `None` outside the buffer.
    pub fn get_pixel_color(&mut self, x: i32, y: i32) -> (r: Option<Color>)
        requires
            old(self).wf(),
        ensures
            *final(self) == *old(self),
            r == if 0 <= x as int && (x as int) < old(self)@.width && 0 <= y as int && (y as int)
                < old(self)@.height {
                Some(old(self)@.colors[(y as int) * old(self)@.width + (x as int)])
            } else {
                None::<Color>
            },
    {
        if x >= 0 && x < self.width && y >= 0 && y < self.height {
            proof {
                let w = self@.width;
                let h = self@.height;
                assert(0 <= (y as int) * w && (y as int) * w + (x as int) < w * h)
                    by (nonlinear_arith)
                    requires
                        0 <= (x as int),
                        (x as int) < w,
                        0 <= (y as int),
                        (y as int) < h,
                ;
            }
            let index: usize = (y as usize) * (self.width as usize) + (x as usize);
            Some(self.color_buffer[index])
        } else {
            None
        }
    }

    /// Set the color `clear` restores.
    pub fn set_background_color(&mut self, color: Color)
        ensures
            final(self)@ =~= (FbView { background: color, ..old(self)@ }),
            final(self).wf() == old(self).wf(),
    {
        self.background_color = color;
    }

    /// Set the color `set_pixel` writes.
    pub fn set_current_color(&mut self, color: Color)
        ensures
            final(self)@ =~= (FbView { current: color, ..old(self)@ }),
            final(self).wf() == old(self).wf(),
    {
        self.current_color = color;
    }

    /// The color grid as a byte stream, four bytes per pixel in RGBA
    /// order, for a presentation collaborator to hand to a display
    /// surface.
    pub fn color_bytes(&self) -> (r: Vec<u8>)
        requires
            self.wf(),
        ensures
            r@.len() == 4 * self@.colors.len(),
            forall|i: int|
                0 <= i < self@.colors.len() ==> r@[4 * i] == self@.colors[i].r && r@[4 * i + 1]
                    == self@.colors[i].g && r@[4 * i + 2] == self@.colors[i].b && r@[4 * i + 3]
                    == self@.colors[i].a,
    {
        let n: usize = self.color_buffer.len();
        let mut bytes: Vec<u8> = Vec::new();
        let mut i: usize = 0;
        while i < n
            invariant
                i <= n,
                n == self.color_buffer@.len(),
                bytes@.len() == 4 * i,
                forall|j: int|
                    0 <= j < i ==> bytes@[4 * j] == self.color_buffer@[j].r && bytes@[4 * j + 1]
                        == self.color_buffer@[j].g && bytes@[4 * j + 2]
                        == self.color_buffer@[j].b && bytes@[4 * j + 3]
                        == self.color_buffer@[j].a,
            decreases n - i,
        {
            let c: Color = self.color_buffer[i];
            bytes.push(c.r);
            bytes.push(c.g);
            bytes.push(c.b);
            bytes.push(c.a);
            i = i + 1;
        }
        bytes
    }
}

/// Writing the same point twice in sequence leaves the framebuffer exactly
/// as writing it once: after the first write the stored depth equals the
/// new depth, and the strict depth test rejects the repeat.
pub proof fn lemma_point_idempotent(fb: FbView, x: int, y: int, depth: i64, color: Vector3)
    requires
        fb_wf(fb),
    ensures
        point_s(point_s(fb, x, y, depth, color), x, y, depth, color) == point_s(
            fb,
            x,
            y,
            depth,
            color,
        ),
{
    let once = point_s(fb, x, y, depth, color);
    let twice = point_s(once, x, y, depth, color);
    if 0 <= x && x < fb.width && 0 <= y && y < fb.height {
        let idx = y * fb.width + x;
        assert(0 <= y * fb.width + x && y * fb.width + x < fb.width * fb.height)
            by (nonlinear_arith)
            requires
                0 <= x < fb.width,
                0 <= y < fb.height,
        ;
        assert(0 <= idx < fb.depths.len());
        assert(twice =~= once);
    } else {
        assert(twice =~= once);
    }
}

/// For a pixel written at depths `d1 < d2`, in either order of arrival,
/// the nearer write `d1` decides the stored color: depth strictly
/// determines visibility, independent of submission order.
pub proof fn lemma_depth_orders_writes(
    fb: FbView,
    x: int,
    y: int,
    d1: i64,
    c1: Vector3,
    d2: i64,
    c2: Vector3,
)
    requires
        fb_wf(fb),
        0 <= x < fb.width,
        0 <= y < fb.height,
        d1 < d2,
    ensures
        point_s(point_s(fb, x, y, d1, c1), x, y, d2, c2) == point_s(
            point_s(fb, x, y, d2, c2),
            x,
            y,
            d1,
            c1,
        ),
        d1 < fb.depths[y * fb.width + x] ==> {
            let r = point_s(point_s(fb, x, y, d1, c1), x, y, d2, c2);
            r.depths[y * fb.width + x] == d1 && r.colors[y * fb.width + x] == color_of_vec3_s(c1)
        },
{
    let idx = y * fb.width + x;
    assert(0 <= y * fb.width + x && y * fb.width + x < fb.width * fb.height)
        by (nonlinear_arith)
        requires
            0 <= x < fb.width,
            0 <= y < fb.height,
    ;
    assert(0 <= idx < fb.depths.len() && idx < fb.colors.len());
    let a = point_s(point_s(fb, x, y, d1, c1), x, y, d2, c2);
    let b = point_s(point_s(fb, x, y, d2, c2), x, y, d1, c1);
    assert(a =~= b);
}

/// After `clear`, a depth-tested write at any finite depth lands: the
/// cleared depth is `+infinity` and every finite depth passes the test.
pub proof fn lemma_clear_then_write(fb: FbView, x: int, y: int, depth: i64, color: Vector3)
    requires
        fb_wf(fb),
        0 <= x < fb.width,
        0 <= y < fb.height,
        depth < DEPTH_INFINITY,
    ensures
        point_s(clear_s(fb), x, y, depth, color).depths[y * fb.width + x] == depth,
        point_s(clear_s(fb), x, y, depth, color).colors[y * fb.width + x] == color_of_vec3_s(
            color,
        ),
{
    let idx = y * fb.width + x;
    assert(0 <= y * fb.width + x && y * fb.width + x < fb.width * fb.height)
        by (nonlinear_arith)
        requires
            0 <= x < fb.width,
            0 <= y < fb.height,
    ;
    assert(0 <= idx < fb.depths.len());
}

/// After `clear_depth`, a depth-tested write at any finite depth lands on
/// a pixel while the other pixels' colors are untouched: previously
/// rendered geometry no longer shields the foreground.
pub proof fn lemma_clear_depth_then_write(fb: FbView, x: int, y: int, depth: i64, color: Vector3)
    requires
        fb_wf(fb),
        0 <= x < fb.width,
        0 <= y < fb.height,
        depth < DEPTH_INFINITY,
    ensures
        clear_depth_s(fb).colors == fb.colors,
        point_s(clear_depth_s(fb), x, y, depth, color).colors[y * fb.width + x]
            == color_of_vec3_s(color),
        forall|i: int|
            0 <= i < fb.colors.len() && i != y * fb.width + x ==> point_s(
                clear_depth_s(fb),
                x,
                y,
                depth,
                color,
            ).colors[i] == fb.colors[i],
{
    let idx = y * fb.width + x;
    assert(0 <= y * fb.width + x && y * fb.width + x < fb.width * fb.height)
        by (nonlinear_arith)
        requires
            0 <= x < fb.width,
            0 <= y < fb.height,
    ;
    assert(0 <= idx < fb.depths.len());
}

} // verus!
