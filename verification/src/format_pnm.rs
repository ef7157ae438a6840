use vstd::prelude::*;
use crate::color::{Color, quantized_channel};
use crate::scalar::UNIT;
use crate::surface::Surface;

verus! {

/// The shortest decimal numeral of `n`, as ASCII digit bytes.
pub open spec fn dec_digits(n: nat) -> Seq<u8>
    decreases n,
{
    if n < 10 {
        seq![(48 + n) as u8]
    } else {
        dec_digits(n / 10).push((48 + n % 10) as u8)
    }
}

/// Writes `n` in decimal ASCII.
pub fn format_decimal(n: usize) -> (r: Vec<u8>)
    ensures
        r@ == dec_digits(n as nat),
    decreases n,
{
    if n < 10 {
        let mut v: Vec<u8> = Vec::new();
        v.push(48 + (n as u8));
        v
    } else {
        let mut v = format_decimal(n / 10);
        v.push(48 + ((n % 10) as u8));
        v
    }
}

/// A quantized channel is an 8-bit value.
pub proof fn lemma_quantized_channel_bounds(c: int)
    ensures
        0 <= quantized_channel(c) <= 255,
{
    if 0 < c < UNIT {
        assert(0 <= c * 25599 / (100 * (UNIT as int)) <= 255) by (nonlinear_arith)
            requires
                0 < c < UNIT,
        ;
    }
}

/// One pixel's line in the plain-text pixel map: the three quantized
/// color channels in decimal, separated by spaces, ended by a newline.
pub open spec fn pnm_pixel_line(c: Color) -> Seq<u8> {
    dec_digits(quantized_channel(c.r as int) as nat) + seq![32u8] + dec_digits(
        quantized_channel(c.g as int) as nat,
    ) + seq![32u8] + dec_digits(quantized_channel(c.b as int) as nat) + seq![10u8]
}

/// The pixel lines of row `y` from column `x` rightwards.
pub open spec fn pnm_row_from(s: Surface, y: int, x: int) -> Seq<u8>
    decreases s.width - x when 0 <= x <= s.width
{
    if x >= s.width {
        Seq::empty()
    } else {
        pnm_pixel_line(s.pixel_at(x, y)) + pnm_row_from(s, y, x + 1)
    }
}

/// The pixel lines of rows `y` down to row zero: the format stores the
/// image bottom row first.
pub open spec fn pnm_rows_down(s: Surface, y: int) -> Seq<u8>
    decreases y + 1 when y >= -1
{
    if y < 0 {
        Seq::empty()
    } else {
        pnm_row_from(s, y, 0) + pnm_rows_down(s, y - 1)
    }
}

/// The whole plain-text pixel map: the `P3` magic, the image width and
/// height, the maximum channel value 255, then every pixel bottom row
/// first, each as three decimal channel values.
pub open spec fn pnm_encoding(s: Surface) -> Seq<u8> {
    seq![80u8, 51u8, 10u8] + dec_digits(s.width as nat) + seq![32u8] + dec_digits(
        s.height as nat,
    ) + seq![10u8, 50u8, 53u8, 53u8, 10u8] + pnm_rows_down(s, s.height - 1)
}

/// The plain-text (PNM/PPM) image format.
#[derive(Clone, Copy, Debug, PartialEq, Eq, Structural)]
pub struct FormatPNM {
}

impl FormatPNM {
    pub fn new() -> (r: FormatPNM)
        ensures
            r == (FormatPNM {  }),
    {
        FormatPNM {  }
    }

    /// Encodes a surface as a plain-text pixel map.
    pub fn encode(surface: &Surface) -> (r: Vec<u8>)
        requires
            surface.wf(),
            surface.width >= 1,
            surface.height >= 1,
        ensures
            r@ == pnm_encoding(*surface),
    {
        let mut out: Vec<u8> = Vec::new();
        out.push(80);
        out.push(51);
        out.push(10);
        let mut wd = format_decimal(surface.get_width());
        out.append(&mut wd);
        out.push(32);
        let mut hd = format_decimal(surface.get_height());
        out.append(&mut hd);
        out.push(10);
        out.push(50);
        out.push(53);
        out.push(53);
        out.push(10);
        proof {
            assert(out@ + pnm_rows_down(*surface, surface.height as int - 1) =~= pnm_encoding(
                *surface,
            ));
        }
        let mut y: usize = surface.get_height();
        while y > 0
            invariant
                surface.wf(),
                surface.width >= 1,
                surface.height >= 1,
                y <= surface.height,
                out@ + pnm_rows_down(*surface, y as int - 1) == pnm_encoding(*surface),
            decreases y,
        {
            y = y - 1;
            let ghost out_before_row: Seq<u8> = out@;
            let mut x: usize = 0;
            while x < surface.get_width()
                invariant
                    surface.wf(),
                    surface.width >= 1,
                    surface.height >= 1,
                    y < surface.height,
                    x <= surface.width,
                    out@ + pnm_row_from(*surface, y as int, x as int) == out_before_row
                        + pnm_row_from(*surface, y as int, 0),
                decreases surface.width - x,
            {
                let ghost out_before_pixel: Seq<u8> = out@;
                let ghost c_spec = surface.pixel_at(x as int, y as int);
                let c = surface.get_pixel(x, y);
                let q = c.as_quantized_u8_array();
                proof {
                    lemma_quantized_channel_bounds(c.r as int);
                    lemma_quantized_channel_bounds(c.g as int);
                    lemma_quantized_channel_bounds(c.b as int);
                }
                let mut rd = format_decimal(q[0] as usize);
                out.append(&mut rd);
                out.push(32);
                let mut gd = format_decimal(q[1] as usize);
                out.append(&mut gd);
                out.push(32);
                let mut bd = format_decimal(q[2] as usize);
                out.append(&mut bd);
                out.push(10);
                proof {
                    assert(out@ =~= out_before_pixel + pnm_pixel_line(c_spec));
                    assert(pnm_row_from(*surface, y as int, x as int) == pnm_pixel_line(c_spec)
                        + pnm_row_from(*surface, y as int, x as int + 1));
                    assert(out@ + pnm_row_from(*surface, y as int, x as int + 1) =~=
                    out_before_pixel + pnm_row_from(*surface, y as int, x as int));
                }
                x = x + 1;
            }
            proof {
                assert(pnm_row_from(*surface, y as int, surface.width as int) =~= Seq::<
                    u8,
                >::empty());
                assert(out@ =~= out@ + pnm_row_from(*surface, y as int, surface.width as int));
                assert(pnm_rows_down(*surface, y as int) == pnm_row_from(*surface, y as int, 0)
                    + pnm_rows_down(*surface, y as int - 1));
                assert(out@ + pnm_rows_down(*surface, y as int - 1) =~= out_before_row
                    + pnm_rows_down(*surface, y as int));
            }
        }
        proof {
            assert(pnm_rows_down(*surface, -1) =~= Seq::<u8>::empty());
            assert(out@ =~= out@ + pnm_rows_down(*surface, -1));
        }
        out
    }
}

} // verus!
