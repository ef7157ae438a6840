use vstd::prelude::*;
use vstd::arithmetic::div_mod::lemma_fundamental_div_mod_converse;
use crate::color::Color;
use crate::scalar::UNIT;

verus! {

/// The stratified antialiasing grid: for `n` samples per axis, the
/// subpixel with index `i` sits at grid coordinates `(i / n, i % n)`,
/// which the front end scales by `1 / n` into offsets within the pixel.
pub fn antialias_kernel(n: u16) -> (k: Vec<(u16, u16)>)
    requires
        n >= 1,
    ensures
        k@.len() == n * n,
        forall|i: int|
            0 <= i < k@.len() ==> #[trigger] k@[i] == (((i / (n as int)) as u16), ((i % (
            n as int)) as u16)),
{
    let mut k: Vec<(u16, u16)> = Vec::new();
    let mut x: u16 = 0;
    while x < n
        invariant
            n >= 1,
            x <= n,
            k@.len() == x * n,
            forall|i: int|
                0 <= i < k@.len() ==> #[trigger] k@[i] == (((i / (n as int)) as u16), ((i % (
                n as int)) as u16)),
        decreases n - x,
    {
        let mut y: u16 = 0;
        while y < n
            invariant
                n >= 1,
                x < n,
                y <= n,
                k@.len() == x * n + y,
                forall|i: int|
                    0 <= i < k@.len() ==> #[trigger] k@[i] == (((i / (n as int)) as u16), ((i % (
                    n as int)) as u16)),
            decreases n - y,
        {
            proof {
                assert(x * n + y < n * n) by (nonlinear_arith)
                    requires
                        x < n,
                        y < n,
                ;
                lemma_fundamental_div_mod_converse(
                    x * n + y,
                    n as int,
                    x as int,
                    y as int,
                );
            }
            k.push((x, y));
            y = y + 1;
        }
        proof {
            assert(x * n + n == (x + 1) * n) by (nonlinear_arith);
        }
        x = x + 1;
    }
    k
}

/// The pixel a row-major index addresses: `x` runs along the row,
/// `y` counts rows.
pub fn pixel_coords(index: usize, width: usize) -> (xy: (usize, usize))
    requires
        width >= 1,
    ensures
        xy.0 == index % width,
        xy.1 == index / width,
        xy.0 < width,
{
    (index % width, index / width)
}

/// Averaging a single accumulated sample gives back that sample: in a
/// one-sample-per-pixel render each pixel is exactly its path's
/// contribution — the background gradient where the primary ray
/// misses, and the cut-off's attenuated black where it hits with the
/// scatter limit at zero.
pub proof fn lemma_single_sample_average(c: Color)
    requires
        c.nonneg(),
    ensures
        (Color { r: 0, g: 0, b: 0, a: 0 }).csum(c).cdiv(1) == c,
{
}

/// Accumulates the antialiasing subpixel samples of one pixel and
/// averages them.
///
/// Its invariant carries the final-image guarantee: every sample added
/// is in range and opaque, so the average has every color channel in
/// `[0, UNIT]` and an alpha of exactly `UNIT`. Gamma correction, which
/// the front end applies per color channel afterwards, maps `[0, 1]`
/// into `[0, 1]` and leaves alpha untouched.
pub struct PixelAccumulator {
    /// Samples accumulated so far.
    pub count: u32,
    /// Component-wise sum of the accumulated samples.
    pub sum: Color,
}

impl PixelAccumulator {
    /// Sums stay bounded by `count` full intensities per channel, and
    /// the alpha sum is exact: `count` times `UNIT`.
    pub open spec fn wf(self) -> bool {
        &&& 0 <= self.sum.r <= self.count * UNIT
        &&& 0 <= self.sum.g <= self.count * UNIT
        &&& 0 <= self.sum.b <= self.count * UNIT
        &&& self.sum.a == self.count * UNIT
    }

    /// An empty accumulator.
    pub fn new() -> (r: PixelAccumulator)
        ensures
            r.wf(),
            r.count == 0,
            r.sum == (Color { r: 0, g: 0, b: 0, a: 0 }),
    {
        PixelAccumulator { count: 0, sum: Color { r: 0, g: 0, b: 0, a: 0 } }
    }

    /// Adds one path sample's color.
    pub fn add_sample(&mut self, c: &Color)
        requires
            old(self).wf(),
            old(self).count < u32::MAX,
            c.in_unit(),
            c.opaque(),
        ensures
            final(self).wf(),
            final(self).count == old(self).count + 1,
            final(self).sum == old(self).sum.csum(*c),
    {
        proof {
            let n = old(self).count as int;
            assert(n * UNIT + UNIT == (n + 1) * UNIT) by (nonlinear_arith);
            assert((n + 1) * (UNIT as int) <= 0x1_0000_0000 * 1_000_000) by (nonlinear_arith)
                requires
                    n < u32::MAX,
            ;
        }
        self.sum = Color {
            r: self.sum.r + c.r,
            g: self.sum.g + c.g,
            b: self.sum.b + c.b,
            a: self.sum.a + c.a,
        };
        self.count = self.count + 1;
    }

    /// The average of the accumulated samples: every color channel in
    /// `[0, UNIT]`, alpha exactly `UNIT`.
    pub fn average(&self) -> (c: Color)
        requires
            self.wf(),
            self.count >= 1,
        ensures
            c == self.sum.cdiv(self.count as int),
            c.in_unit(),
            c.opaque(),
    {
        proof {
            let n = self.count as int;
            assert((n * UNIT) / n == UNIT) by (nonlinear_arith)
                requires
                    n >= 1,
            ;
            assert((self.sum.r as int) / n <= (n * UNIT) / n && (self.sum.g as int) / n <= (n
                * UNIT) / n && (self.sum.b as int) / n <= (n * UNIT) / n) by (nonlinear_arith)
                requires
                    n >= 1,
                    0 <= self.sum.r <= n * UNIT,
                    0 <= self.sum.g <= n * UNIT,
                    0 <= self.sum.b <= n * UNIT,
            ;
        }
        Color {
            r: self.sum.r / (self.count as i64),
            g: self.sum.g / (self.count as i64),
            b: self.sum.b / (self.count as i64),
            a: self.sum.a / (self.count as i64),
        }
    }
}

} // verus!
