//! The pixel buffer a render writes into.

use vstd::prelude::*;
use crate::color::Color;
use crate::fixed::Fixed;

verus! {

pub struct Canvas {
    pub pixels: Vec<Color>,
    pub width: usize,
    pub height: usize,
}

impl Canvas {
    /// A canvas is well formed when it holds exactly one color per pixel.
    pub open spec fn wf(self) -> bool {
        self.pixels@.len() == self.width * self.height
    }

    /// The color stored for the pixel at column `x`, row `y`.
    pub open spec fn spec_pixel_at(self, x: int, y: int) -> Color {
        self.pixels@[self.width * y + x]
    }

    /// A canvas of the given size with every pixel black.
    pub fn new(width: usize, height: usize) -> (r: Canvas)
        requires
            width * height <= usize::MAX,
        ensures
            r.wf(),
            r.width == width,
            r.height == height,
            forall|x: int, y: int|
                0 <= x < width && 0 <= y < height ==> r.spec_pixel_at(x, y) == Color::spec_new(
                    Fixed { raw: 0 },
                    Fixed { raw: 0 },
                    Fixed { raw: 0 },
                ),
    {
        let mut pixels: Vec<Color> = Vec::new();
        let total = width * height;
        let mut i: usize = 0;
        while i < total
            invariant
                i <= total,
                pixels@.len() == i,
                forall|k: int| 0 <= k < i ==> pixels@[k] == Color::spec_new(
                    Fixed { raw: 0 },
                    Fixed { raw: 0 },
                    Fixed { raw: 0 },
                ),
            decreases total - i,
        {
            pixels.push(Color::black());
            i += 1;
        }
        let result = Canvas { pixels, width, height };
        proof {
            assert forall|x: int, y: int|
                0 <= x < width && 0 <= y < height implies result.spec_pixel_at(x, y)
                == Color::spec_new(
                Fixed { raw: 0 },
                Fixed { raw: 0 },
                Fixed { raw: 0 },
            ) by {
                lemma_pixel_index_in_range(width as int, height as int, x, y);
            }
        }
        result
    }

    /// Store a color at a pixel; the rest of the canvas is unchanged.
    pub fn write_pixel(&mut self, x: usize, y: usize, color: Color)
        requires
            old(self).wf(),
            x < old(self).width,
            y < old(self).height,
        ensures
            final(self).wf(),
            final(self).width == old(self).width,
            final(self).height == old(self).height,
            final(self).spec_pixel_at(x as int, y as int) == color,
            forall|a: int, b: int|
                0 <= a < old(self).width && 0 <= b < old(self).height && !(a == x && b == y)
                    ==> final(self).spec_pixel_at(a, b) == old(self).spec_pixel_at(a, b),
    {
        let n = self.pixels.len();
        proof {
            lemma_pixel_index_in_range(self.width as int, self.height as int, x as int, y as int);
            assert(self.width * y + x < n);
        }
        let idx = self.width * y + x;
        self.pixels.set(idx, color);
        proof {
            assert forall|a: int, b: int|
                0 <= a < self.width && 0 <= b < self.height && !(a == x && b == y) implies
                self.spec_pixel_at(a, b) == old(self).spec_pixel_at(a, b) by {
                lemma_pixel_index_in_range(self.width as int, self.height as int, a, b);
                lemma_pixel_index_injective(self.width as int, a, b, x as int, y as int);
            }
        }
    }

    pub fn pixel_at(&self, x: usize, y: usize) -> (r: Color)
        requires
            self.wf(),
            x < self.width,
            y < self.height,
        ensures
            r == self.spec_pixel_at(x as int, y as int),
    {
        let n = self.pixels.len();
        proof {
            lemma_pixel_index_in_range(self.width as int, self.height as int, x as int, y as int);
            assert(self.width * y + x < n);
        }
        self.pixels[self.width * y + x]
    }
}

/// Row-major pixel indices stay within the buffer.
proof fn lemma_pixel_index_in_range(width: int, height: int, x: int, y: int)
    requires
        0 <= x < width,
        0 <= y < height,
    ensures
        0 <= width * y + x < width * height,
{
    assert(width * y + x < width * (y + 1)) by (nonlinear_arith)
        requires 0 <= x < width;
    assert(width * (y + 1) <= width * height) by (nonlinear_arith)
        requires width >= 0 && y + 1 <= height;
    assert(width * y >= 0) by (nonlinear_arith)
        requires width >= 0 && y >= 0;
}

/// Distinct pixel coordinates give distinct row-major indices.
proof fn lemma_pixel_index_injective(width: int, a: int, b: int, x: int, y: int)
    requires
        0 <= a < width,
        0 <= x < width,
        0 <= b,
        0 <= y,
        !(a == x && b == y),
    ensures
        width * b + a != width * y + x,
{
    if b == y {
        assert(width * b == width * y);
    } else if b < y {
        assert(width * b + a < width * y + x) by (nonlinear_arith)
            requires 0 <= a < width && 0 <= x && b + 1 <= y;
    } else {
        assert(width * y + x < width * b + a) by (nonlinear_arith)
            requires 0 <= x < width && 0 <= a && y + 1 <= b;
    }
}

} // verus!
