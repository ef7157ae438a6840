use vstd::prelude::*;
use crate::color::Color;
use crate::scalar::UNIT;

verus! {

/// A pixel at column `x` of row `y` lives at row-major index
/// `y * width + x`, which addresses into a `width * height` buffer.
pub proof fn lemma_row_major_bound(x: int, y: int, width: int, height: int)
    requires
        0 <= x < width,
        0 <= y < height,
    ensures
        0 <= y * width + x < width * height,
{
    assert(y * width + x < width * height) by (nonlinear_arith)
        requires
            0 <= x < width,
            0 <= y < height,
    ;
    assert(0 <= y * width) by (nonlinear_arith)
        requires
            0 <= y,
            0 <= width,
    ;
}

/// The rectangular buffer of pixels a render produces: row-major, rows
/// of `width` pixels, `height` rows.
#[derive(Clone, Debug, PartialEq, Eq)]
pub struct Surface {
    pub width: usize,
    pub height: usize,
    pub pixels: Vec<Color>,
}

impl Surface {
    /// The buffer holds exactly one pixel per coordinate.
    pub open spec fn wf(self) -> bool {
        self.pixels@.len() == self.width * self.height
    }

    /// The pixel at column `x` of row `y`.
    pub open spec fn pixel_at(self, x: int, y: int) -> Color {
        self.pixels@[y * self.width + x]
    }

    /// A surface of opaque black pixels.
    pub fn new(width: usize, height: usize) -> (s: Surface)
        requires
            width >= 1,
            height >= 1,
            width * height <= usize::MAX,
        ensures
            s.wf(),
            s.width == width,
            s.height == height,
            forall|i: int|
                0 <= i < s.pixels@.len() ==> #[trigger] s.pixels@[i] == (Color {
                    r: 0,
                    g: 0,
                    b: 0,
                    a: UNIT as i64,
                }),
    {
        proof {
            assert(width * height <= usize::MAX);
        }
        let count: usize = width * height;
        let mut pixels: Vec<Color> = Vec::new();
        let mut i: usize = 0;
        while i < count
            invariant
                i <= count,
                pixels@.len() == i,
                forall|j: int|
                    0 <= j < i ==> #[trigger] pixels@[j] == (Color {
                        r: 0,
                        g: 0,
                        b: 0,
                        a: UNIT as i64,
                    }),
            decreases count - i,
        {
            pixels.push(Color { r: 0, g: 0, b: 0, a: UNIT });
            i = i + 1;
        }
        Surface { width, height, pixels }
    }

    /// A surface taking ownership of an existing pixel buffer, which
    /// must hold exactly one pixel per coordinate.
    pub fn from(width: usize, height: usize, pixels: Vec<Color>) -> (s: Surface)
        requires
            pixels@.len() == width * height,
        ensures
            s == (Surface { width, height, pixels }),
            s.wf(),
    {
        Surface { width, height, pixels }
    }

    pub fn get_width(&self) -> (r: usize)
        ensures
            r == self.width,
    {
        self.width
    }

    pub fn get_height(&self) -> (r: usize)
        ensures
            r == self.height,
    {
        self.height
    }

    pub fn get_pixel_count(&self) -> (r: usize)
        requires
            self.wf(),
        ensures
            r == self.width * self.height,
    {
        self.pixels.len()
    }

    /// Stores a pixel at column `x` of row `y`.
    pub fn set_pixel(&mut self, x: usize, y: usize, color: Color)
        requires
            old(self).wf(),
            x < old(self).width,
            y < old(self).height,
        ensures
            final(self).wf(),
            final(self).width == old(self).width,
            final(self).height == old(self).height,
            final(self).pixels@ == old(self).pixels@.update(
                y * old(self).width + x,
                color,
            ),
    {
        let buffer_len = self.pixels.len();
        proof {
            lemma_row_major_bound(x as int, y as int, self.width as int, self.height as int);
            assert(y * self.width + x < buffer_len);
        }
        let index: usize = y * self.width + x;
        self.pixels.set(index, color);
    }

    /// The pixel at column `x` of row `y`.
    pub fn get_pixel(&self, x: usize, y: usize) -> (c: Color)
        requires
            self.wf(),
            x < self.width,
            y < self.height,
        ensures
            c == self.pixel_at(x as int, y as int),
    {
        let buffer_len = self.pixels.len();
        proof {
            lemma_row_major_bound(x as int, y as int, self.width as int, self.height as int);
            assert(y * self.width + x < buffer_len);
        }
        let index: usize = y * self.width + x;
        self.pixels[index]
    }

    /// The whole row-major pixel buffer.
    pub fn as_pixel_slice(&self) -> (r: &Vec<Color>)
        ensures
            r@ == self.pixels@,
    {
        &self.pixels
    }
}

} // verus!
