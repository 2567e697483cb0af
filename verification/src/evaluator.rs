//! The sampling grid of a 2D view: its size in pixels and the rectangle of
//! the plane that it shows.
use vstd::prelude::*;
use glam::Vec2;
use crate::vector::{vec2_from_ints, vec2_of_ints};

verus! {

/// Samples a 2D shape over a rectangular region into RGBA pixel data.
pub struct Evaluator2D {
    width: u32,
    height: u32,
    pub view_min: Vec2,
    pub view_max: Vec2,
}

impl Evaluator2D {
    /// Pixel columns.
    pub closed spec fn spec_width(&self) -> u32 {
        self.width
    }

    /// Pixel rows.
    pub closed spec fn spec_height(&self) -> u32 {
        self.height
    }

    /// Lower corner of the view.
    pub closed spec fn spec_view_min(&self) -> Vec2 {
        self.view_min
    }

    /// Upper corner of the view.
    pub closed spec fn spec_view_max(&self) -> Vec2 {
        self.view_max
    }

    /// A `width` x `height` view of the square from (-5, -5) to (5, 5).
    pub fn new(width: u32, height: u32) -> (r: Self)
        ensures
            r.spec_width() == width,
            r.spec_height() == height,
            r.spec_view_min() == vec2_of_ints(-5i32, -5i32),
            r.spec_view_max() == vec2_of_ints(5i32, 5i32),
    {
        Self { width, height, view_min: vec2_from_ints(-5, -5), view_max: vec2_from_ints(5, 5) }
    }

    /// A `width` x `height` view of the rectangle from `min` to `max`.
    pub fn with_view(width: u32, height: u32, min: Vec2, max: Vec2) -> (r: Self)
        ensures
            r.spec_width() == width,
            r.spec_height() == height,
            r.spec_view_min() == min,
            r.spec_view_max() == max,
    {
        Self { width, height, view_min: min, view_max: max }
    }

    /// Show the rectangle from `min` to `max`; the size stays.
    pub fn set_view(&mut self, min: Vec2, max: Vec2)
        ensures
            final(self).spec_width() == old(self).spec_width(),
            final(self).spec_height() == old(self).spec_height(),
            final(self).spec_view_min() == min,
            final(self).spec_view_max() == max,
    {
        self.view_min = min;
        self.view_max = max;
    }

    /// Change the size in pixels; the view stays.
    pub fn resize(&mut self, width: u32, height: u32)
        ensures
            final(self).spec_width() == width,
            final(self).spec_height() == height,
            final(self).spec_view_min() == old(self).spec_view_min(),
            final(self).spec_view_max() == old(self).spec_view_max(),
    {
        self.width = width;
        self.height = height;
    }

    pub fn width(&self) -> (w: u32)
        ensures
            w == self.spec_width(),
    {
        self.width
    }

    pub fn height(&self) -> (h: u32)
        ensures
            h == self.spec_height(),
    {
        self.height
    }
}

/// The RGBA pixel an inside/outside sample shows as: white inside, opaque
/// black outside.
pub open spec fn binary_pixel(inside: bool) -> Seq<u8> {
    if inside {
        seq![255u8, 255u8, 255u8, 255u8]
    } else {
        seq![0u8, 0u8, 0u8, 255u8]
    }
}

/// The RGBA bytes of a colour.
pub open spec fn rgba_bytes(c: (u8, u8, u8, u8)) -> Seq<u8> {
    seq![c.0, c.1, c.2, c.3]
}

impl Evaluator2D {
    /// The number of pixels, as the pixel buffer is sized: it must fit in a `u32`
    /// four times over.
    pub open spec fn fits(&self) -> bool {
        self.spec_width() * self.spec_height() * 4 <= u32::MAX
    }

    /// The RGBA8 image of per-pixel colours given row by row, top row first:
    /// pixel `(x, y)` takes bytes `4 * (y * width + x)` to `4 * (y * width + x) + 3`.
    pub fn color_image(&self, colors: &Vec<(u8, u8, u8, u8)>) -> (pixels: Vec<u8>)
        requires
            self.fits(),
            colors@.len() == self.spec_width() * self.spec_height(),
        ensures
            pixels@.len() == 4 * colors@.len(),
            forall|i: int|
                0 <= i < colors@.len() ==> #[trigger] pixels@.subrange(4 * i, 4 * i + 4)
                    == rgba_bytes(colors@[i]),
    {
        let n = colors.len();
        let mut pixels: Vec<u8> = Vec::with_capacity(n * 4);
        let mut i: usize = 0;
        while i < n
            invariant
                n == colors@.len(),
                i <= n,
                pixels@.len() == 4 * i,
                forall|j: int|
                    0 <= j < i ==> #[trigger] pixels@.subrange(4 * j, 4 * j + 4) == rgba_bytes(
                        colors@[j],
                    ),
            decreases n - i,
        {
            let c = colors[i];
            let ghost before = pixels@;
            pixels.push(c.0);
            pixels.push(c.1);
            pixels.push(c.2);
            pixels.push(c.3);
            proof {
                assert(pixels@.subrange(4 * i, 4 * i + 4) =~= rgba_bytes(c));
                assert forall|j: int| 0 <= j < i implies #[trigger] pixels@.subrange(4 * j, 4 * j + 4)
                    == rgba_bytes(colors@[j]) by {
                    assert(pixels@.subrange(4 * j, 4 * j + 4) =~= before.subrange(4 * j, 4 * j + 4));
                }
            }
            i = i + 1;
        }
        pixels
    }

    /// The black-and-white RGBA8 image of per-pixel inside/outside samples given
    /// row by row: white where inside, opaque black elsewhere.
    pub fn binary_image(&self, inside: &Vec<bool>) -> (pixels: Vec<u8>)
        requires
            self.fits(),
            inside@.len() == self.spec_width() * self.spec_height(),
        ensures
            pixels@.len() == 4 * inside@.len(),
            forall|i: int|
                0 <= i < inside@.len() ==> #[trigger] pixels@.subrange(4 * i, 4 * i + 4)
                    == binary_pixel(inside@[i]),
    {
        let n = inside.len();
        let mut colors: Vec<(u8, u8, u8, u8)> = Vec::with_capacity(n);
        let mut i: usize = 0;
        while i < n
            invariant
                n == inside@.len(),
                i <= n,
                colors@.len() == i,
                forall|j: int| 0 <= j < i ==> rgba_bytes(#[trigger] colors@[j]) == binary_pixel(inside@[j]),
            decreases n - i,
        {
            let c = if inside[i] {
                (255u8, 255u8, 255u8, 255u8)
            } else {
                (0u8, 0u8, 0u8, 255u8)
            };
            colors.push(c);
            proof {
                assert(rgba_bytes(colors@[i as int]) =~= binary_pixel(inside@[i as int]));
            }
            i = i + 1;
        }
        self.color_image(&colors)
    }
}

} // verus!
