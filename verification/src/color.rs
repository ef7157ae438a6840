use vstd::prelude::*;
use crate::scalar::{UNIT, unit_mul, unit_mul_exec, lemma_unit_mul_bounds};

verus! {

/// An RGBA color with fixed-point channels: `UNIT` stands for full
/// intensity, zero for none. Channels outside `[0, UNIT]` can arise
/// transiently (accumulation sums) and are brought back into range by
/// [`Color::clamped`] or by averaging.
#[derive(Clone, Copy, Debug, PartialEq, Eq, Structural)]
pub struct Color {
    pub r: i64,
    pub g: i64,
    pub b: i64,
    pub a: i64,
}

/// Saturating 8-bit quantization of one channel, mirroring a floor of
/// `255.99` times the real channel value (`25599 / 100` exactly).
pub open spec fn quantized_channel(c: int) -> int {
    if c <= 0 {
        0
    } else if c >= UNIT {
        255
    } else {
        c * 25599 / (100 * (UNIT as int))
    }
}

impl Color {
    /// Every channel lies in `[0, UNIT]`.
    pub open spec fn in_unit(self) -> bool {
        &&& 0 <= self.r <= UNIT
        &&& 0 <= self.g <= UNIT
        &&& 0 <= self.b <= UNIT
        &&& 0 <= self.a <= UNIT
    }

    /// Every channel is nonnegative.
    pub open spec fn nonneg(self) -> bool {
        &&& 0 <= self.r
        &&& 0 <= self.g
        &&& 0 <= self.b
        &&& 0 <= self.a
    }

    /// The alpha channel is exactly one.
    pub open spec fn opaque(self) -> bool {
        self.a == UNIT
    }

    /// Component-wise fixed-point product of two colors.
    pub open spec fn cmul(self, other: Color) -> Color {
        Color {
            r: unit_mul(self.r as int, other.r as int) as i64,
            g: unit_mul(self.g as int, other.g as int) as i64,
            b: unit_mul(self.b as int, other.b as int) as i64,
            a: unit_mul(self.a as int, other.a as int) as i64,
        }
    }

    /// Component-wise sum of two colors.
    pub open spec fn csum(self, other: Color) -> Color {
        Color {
            r: (self.r + other.r) as i64,
            g: (self.g + other.g) as i64,
            b: (self.b + other.b) as i64,
            a: (self.a + other.a) as i64,
        }
    }

    /// Component-wise quotient of a color by a positive count.
    pub open spec fn cdiv(self, n: int) -> Color {
        Color {
            r: (self.r as int / n) as i64,
            g: (self.g as int / n) as i64,
            b: (self.b as int / n) as i64,
            a: (self.a as int / n) as i64,
        }
    }

    pub fn new(r: i64, g: i64, b: i64, a: i64) -> (c: Color)
        ensures
            c == (Color { r, g, b, a }),
    {
        Color { r, g, b, a }
    }

    /// Fully transparent black: the value pixel accumulation starts from.
    pub fn zero() -> (c: Color)
        ensures
            c == (Color { r: 0, g: 0, b: 0, a: 0 }),
    {
        Color { r: 0, g: 0, b: 0, a: 0 }
    }

    pub fn white() -> (c: Color)
        ensures
            c == (Color { r: UNIT as i64, g: UNIT as i64, b: UNIT as i64, a: UNIT as i64 }),
    {
        Color { r: UNIT, g: UNIT, b: UNIT, a: UNIT }
    }

    /// Opaque black: the color of a path cut off at the scatter limit.
    pub fn black() -> (c: Color)
        ensures
            c == (Color { r: 0, g: 0, b: 0, a: UNIT as i64 }),
    {
        Color { r: 0, g: 0, b: 0, a: UNIT }
    }

    pub fn red() -> (c: Color)
        ensures
            c == (Color { r: UNIT as i64, g: 0, b: 0, a: UNIT as i64 }),
    {
        Color { r: UNIT, g: 0, b: 0, a: UNIT }
    }

    pub fn green() -> (c: Color)
        ensures
            c == (Color { r: 0, g: UNIT as i64, b: 0, a: UNIT as i64 }),
    {
        Color { r: 0, g: UNIT, b: 0, a: UNIT }
    }

    pub fn blue() -> (c: Color)
        ensures
            c == (Color { r: 0, g: 0, b: UNIT as i64, a: UNIT as i64 }),
    {
        Color { r: 0, g: 0, b: UNIT, a: UNIT }
    }

    /// Component-wise product, used to attenuate a path's color by a
    /// material's albedo at each bounce.
    pub fn attenuated(&self, other: &Color) -> (c: Color)
        requires
            self.in_unit(),
            other.in_unit(),
        ensures
            c == self.cmul(*other),
            c.in_unit(),
            self.opaque() && other.opaque() ==> c.opaque(),
    {
        proof {
            lemma_unit_mul_bounds(self.a as int, other.a as int);
        }
        Color {
            r: unit_mul_exec(self.r, other.r),
            g: unit_mul_exec(self.g, other.g),
            b: unit_mul_exec(self.b, other.b),
            a: unit_mul_exec(self.a, other.a),
        }
    }

    /// Component-wise sum, used to accumulate subpixel samples.
    pub fn added(&self, other: &Color) -> (c: Color)
        requires
            self.nonneg(),
            other.nonneg(),
            self.r + other.r <= i64::MAX,
            self.g + other.g <= i64::MAX,
            self.b + other.b <= i64::MAX,
            self.a + other.a <= i64::MAX,
        ensures
            c == self.csum(*other),
            c.nonneg(),
    {
        Color {
            r: self.r + other.r,
            g: self.g + other.g,
            b: self.b + other.b,
            a: self.a + other.a,
        }
    }

    /// Component-wise division by a positive count, used to average the
    /// accumulated subpixel samples.
    pub fn divided(&self, n: i64) -> (c: Color)
        requires
            self.nonneg(),
            n >= 1,
        ensures
            c == self.cdiv(n as int),
            c.nonneg(),
    {
        Color { r: self.r / n, g: self.g / n, b: self.b / n, a: self.a / n }
    }

    /// Every channel clamped into `[0, UNIT]`.
    pub fn clamped(&self) -> (c: Color)
        ensures
            c.r == if self.r < 0 { 0i64 } else if self.r > UNIT { UNIT as i64 } else { self.r },
            c.g == if self.g < 0 { 0i64 } else if self.g > UNIT { UNIT as i64 } else { self.g },
            c.b == if self.b < 0 { 0i64 } else if self.b > UNIT { UNIT as i64 } else { self.b },
            c.a == if self.a < 0 { 0i64 } else if self.a > UNIT { UNIT as i64 } else { self.a },
            c.in_unit(),
    {
        Color {
            r: clamp_channel(self.r),
            g: clamp_channel(self.g),
            b: clamp_channel(self.b),
            a: clamp_channel(self.a),
        }
    }

    /// Whether every channel lies in `[0, UNIT]`.
    pub fn is_valid(&self) -> (r: bool)
        ensures
            r == self.in_unit(),
    {
        0 <= self.r && self.r <= UNIT && 0 <= self.g && self.g <= UNIT && 0 <= self.b && self.b
            <= UNIT && 0 <= self.a && self.a <= UNIT
    }

    /// Quantizes the color to four 8-bit channels, saturating at the
    /// ends of the range.
    pub fn as_quantized_u8_array(&self) -> (q: [u8; 4])
        ensures
            q@ == seq![
                quantized_channel(self.r as int) as u8,
                quantized_channel(self.g as int) as u8,
                quantized_channel(self.b as int) as u8,
                quantized_channel(self.a as int) as u8,
            ],
    {
        [
            quantize_channel_exec(self.r),
            quantize_channel_exec(self.g),
            quantize_channel_exec(self.b),
            quantize_channel_exec(self.a),
        ]
    }
}

impl Default for Color {
    /// The default color is opaque black.
    fn default() -> (c: Color)
        ensures
            c == (Color { r: 0, g: 0, b: 0, a: UNIT as i64 }),
    {
        Color::black()
    }
}

fn clamp_channel(c: i64) -> (r: i64)
    ensures
        r == if c < 0 { 0i64 } else if c > UNIT { UNIT as i64 } else { c },
{
    if c < 0 {
        0
    } else if c > UNIT {
        UNIT
    } else {
        c
    }
}

fn quantize_channel_exec(c: i64) -> (q: u8)
    ensures
        q == quantized_channel(c as int),
{
    if c <= 0 {
        0
    } else if c >= UNIT {
        255
    } else {
        assert(0 <= c * 25599 / (100 * (UNIT as int)) <= 255) by (nonlinear_arith)
            requires
                0 < c < UNIT,
        ;
        (c * 25599 / (100 * UNIT)) as u8
    }
}

/// Component-wise multiplication of colors with channels in `[0, UNIT]`
/// keeps every channel in `[0, UNIT]`; if both factors are opaque the
/// product is opaque, and multiplying by white is exact.
pub proof fn lemma_cmul_in_unit(x: Color, y: Color)
    requires
        x.in_unit(),
        y.in_unit(),
    ensures
        x.cmul(y).in_unit(),
        x.opaque() && y.opaque() ==> x.cmul(y).opaque(),
{
    lemma_unit_mul_bounds(x.r as int, y.r as int);
    lemma_unit_mul_bounds(x.g as int, y.g as int);
    lemma_unit_mul_bounds(x.b as int, y.b as int);
    lemma_unit_mul_bounds(x.a as int, y.a as int);
}

} // verus!
