use vstd::prelude::*;
use crate::format_png::{FormatPNG, png_encoding_of, surface_raster};
use crate::format_pnm::{FormatPNM, pnm_encoding};
use crate::surface::Surface;

verus! {

/// What can go wrong while saving an image.
#[derive(Clone, Copy, Debug, PartialEq, Eq, Structural)]
pub enum Error {
    /// No surface was handed to the writer.
    MissingInput,
    /// No output path was handed to the writer.
    MissingOutput,
    /// The output path has no parent directory.
    InvalidPath,
    /// Encoding or writing the image failed.
    SaveFailed,
}

/// The image formats a surface can be saved in.
#[derive(Clone, Copy, Debug, PartialEq, Eq, Structural)]
pub enum Format {
    Pnm(FormatPNM),
    Png(FormatPNG),
}

/// Encodes a surface in the chosen format: the computing half of
/// saving an image, with the file handling left to the caller. The
/// plain-text format always succeeds; a PNG encoder failure is a
/// failed save.
pub fn encode(format: &Format, surface: &Surface) -> (r: Result<Vec<u8>, Error>)
    requires
        surface.wf(),
        surface.width >= 1,
        surface.height >= 1,
        surface.width <= u32::MAX,
        surface.height <= u32::MAX,
    ensures
        *format is Pnm ==> (r matches Ok(bytes) && bytes@ == pnm_encoding(*surface)),
        *format is Png ==> (r matches Ok(bytes) ==> bytes@ == png_encoding_of(
            surface.width as int,
            surface.height as int,
            surface_raster(*surface),
        )),
        r matches Err(e) ==> e == Error::SaveFailed,
{
    match format {
        Format::Pnm(_) => Ok(FormatPNM::encode(surface)),
        Format::Png(_) => FormatPNG::encode(surface),
    }
}

} // verus!
