use vstd::prelude::*;
use crate::color::Color;
use crate::surface::Surface;
use crate::writer::Error;

verus! {

/// The four quantized 8-bit channels of one pixel, in RGBA order.
pub open spec fn quantized_rgba(c: Color) -> Seq<u8> {
    seq![
        crate::color::quantized_channel(c.r as int) as u8,
        crate::color::quantized_channel(c.g as int) as u8,
        crate::color::quantized_channel(c.b as int) as u8,
        crate::color::quantized_channel(c.a as int) as u8,
    ]
}

/// The quantized bytes of row `y` from column `x` rightwards.
pub open spec fn rgba_row_from(s: Surface, y: int, x: int) -> Seq<u8>
    decreases s.width - x when 0 <= x <= s.width
{
    if x >= s.width {
        Seq::empty()
    } else {
        quantized_rgba(s.pixel_at(x, y)) + rgba_row_from(s, y, x + 1)
    }
}

/// The quantized bytes of rows `y` down to row zero: the raster hands
/// the image to the encoder bottom row first.
pub open spec fn rgba_rows_down(s: Surface, y: int) -> Seq<u8>
    decreases y + 1 when y >= -1
{
    if y < 0 {
        Seq::empty()
    } else {
        rgba_row_from(s, y, 0) + rgba_rows_down(s, y - 1)
    }
}

/// The raw raster the encoder receives: every pixel quantized to four
/// 8-bit channels, bottom row first.
pub open spec fn surface_raster(s: Surface) -> Seq<u8> {
    rgba_rows_down(s, s.height - 1)
}

/// What the PNG encoder produces for an 8-bit RGBA image of the given
/// dimensions and raster bytes: a pure function of its inputs.
pub uninterp spec fn png_encoding_of(width: int, height: int, data: Seq<u8>) -> Seq<u8>;

/// The png crate's encoding error, carried through opaquely.
#[verifier::external_type_specification]
#[verifier::external_body]
pub struct ExEncodingError(png::EncodingError);

/// Relies on png::Encoder, png::Writer::write_image_data and
/// png::Writer::finish: encodes an 8-bit RGBA image into an in-memory
/// PNG stream. The encoding depends on the dimensions and raster bytes
/// alone.
#[verifier::external_body]
fn png_encode_rgba(width: u32, height: u32, data: &Vec<u8>) -> (r: Result<
    Vec<u8>,
    png::EncodingError,
>)
    ensures
        r matches Ok(bytes) ==> bytes@ == png_encoding_of(width as int, height as int, data@),
{
    let mut out: Vec<u8> = Vec::new();
    let mut encoder = png::Encoder::new(&mut out, width, height);
    encoder.set_color(png::ColorType::Rgba);
    encoder.set_depth(png::BitDepth::Eight);
    let mut writer = match encoder.write_header() {
        Ok(w) => w,
        Err(e) => return Err(e),
    };
    if let Err(e) = writer.write_image_data(data.as_slice()) {
        return Err(e);
    }
    if let Err(e) = writer.finish() {
        return Err(e);
    }
    Ok(out)
}

/// The PNG image format.
#[derive(Clone, Copy, Debug, PartialEq, Eq, Structural)]
pub struct FormatPNG {
}

impl FormatPNG {
    pub fn new() -> (r: FormatPNG)
        ensures
            r == (FormatPNG {  }),
    {
        FormatPNG {  }
    }

    /// Quantizes a surface into the raw RGBA raster, bottom row first.
    pub fn raster(surface: &Surface) -> (r: Vec<u8>)
        requires
            surface.wf(),
        ensures
            r@ == surface_raster(*surface),
    {
        let mut out: Vec<u8> = Vec::new();
        proof {
            assert(out@ + rgba_rows_down(*surface, surface.height as int - 1) =~= surface_raster(
                *surface,
            ));
        }
        let mut y: usize = surface.get_height();
        while y > 0
            invariant
                surface.wf(),
                y <= surface.height,
                out@ + rgba_rows_down(*surface, y as int - 1) == surface_raster(*surface),
            decreases y,
        {
            y = y - 1;
            let ghost out_before_row: Seq<u8> = out@;
            let mut x: usize = 0;
            while x < surface.get_width()
                invariant
                    surface.wf(),
                    y < surface.height,
                    x <= surface.width,
                    out@ + rgba_row_from(*surface, y as int, x as int) == out_before_row
                        + rgba_row_from(*surface, y as int, 0),
                decreases surface.width - x,
            {
                let ghost out_before_pixel: Seq<u8> = out@;
                let ghost c_spec = surface.pixel_at(x as int, y as int);
                let c = surface.get_pixel(x, y);
                let q = c.as_quantized_u8_array();
                out.push(q[0]);
                out.push(q[1]);
                out.push(q[2]);
                out.push(q[3]);
                proof {
                    assert(out@ =~= out_before_pixel + quantized_rgba(c_spec));
                    assert(rgba_row_from(*surface, y as int, x as int) == quantized_rgba(c_spec)
                        + rgba_row_from(*surface, y as int, x as int + 1));
                    assert(out@ + rgba_row_from(*surface, y as int, x as int + 1) =~=
                    out_before_pixel + rgba_row_from(*surface, y as int, x as int));
                }
                x = x + 1;
            }
            proof {
                assert(rgba_row_from(*surface, y as int, surface.width as int) =~= Seq::<
                    u8,
                >::empty());
                assert(out@ =~= out@ + rgba_row_from(*surface, y as int, surface.width as int));
                assert(rgba_rows_down(*surface, y as int) == rgba_row_from(*surface, y as int, 0)
                    + rgba_rows_down(*surface, y as int - 1));
                assert(out@ + rgba_rows_down(*surface, y as int - 1) =~= out_before_row
                    + rgba_rows_down(*surface, y as int));
            }
        }
        proof {
            assert(rgba_rows_down(*surface, -1) =~= Seq::<u8>::empty());
            assert(out@ =~= out@ + rgba_rows_down(*surface, -1));
        }
        out
    }

    /// Encodes a surface as an in-memory PNG stream: the image is
    /// quantized to an 8-bit RGBA raster, bottom row first, and handed
    /// to the PNG encoder; an encoder failure is reported as a failed
    /// save.
    pub fn encode(surface: &Surface) -> (r: Result<Vec<u8>, Error>)
        requires
            surface.wf(),
            surface.width <= u32::MAX,
            surface.height <= u32::MAX,
        ensures
            r matches Ok(bytes) ==> bytes@ == png_encoding_of(
                surface.width as int,
                surface.height as int,
                surface_raster(*surface),
            ),
            r matches Err(e) ==> e == Error::SaveFailed,
    {
        let data = Self::raster(surface);
        match png_encode_rgba(surface.get_width() as u32, surface.get_height() as u32, &data) {
            Ok(bytes) => Ok(bytes),
            Err(_) => Err(Error::SaveFailed),
        }
    }
}

} // verus!
