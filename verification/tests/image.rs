use raytracer::color::Color;
use raytracer::format_png::FormatPNG;
use raytracer::format_pnm::{FormatPNM, format_decimal};
use raytracer::surface::Surface;
use raytracer::writer::{Error, Format, encode};

fn uniform_surface(side: usize, color: Color) -> Surface {
    let mut pixels: Vec<Color> = Vec::with_capacity(side * side);
    for _x in 0..side {
        for _y in 0..side {
            pixels.push(color);
        }
    }
    Surface::from(side, side, pixels)
}

#[test]
fn decimal_formatting() {
    assert_eq!(format_decimal(0), b"0".to_vec());
    assert_eq!(format_decimal(7), b"7".to_vec());
    assert_eq!(format_decimal(10), b"10".to_vec());
    assert_eq!(format_decimal(255), b"255".to_vec());
    assert_eq!(format_decimal(1024), b"1024".to_vec());
    assert_eq!(format_decimal(usize::MAX), usize::MAX.to_string().into_bytes());
}

#[test]
fn write_pnm() {
    // A 16 by 16 all-red image: the header names the dimensions and
    // the 255 maximum, then one "255 0 0" line per pixel.
    let image = uniform_surface(16, Color::red());
    let bytes = FormatPNM::encode(&image);

    let mut expected: Vec<u8> = Vec::new();
    expected.extend_from_slice(b"P3\n16 16\n255\n");
    for _ in 0..(16 * 16) {
        expected.extend_from_slice(b"255 0 0\n");
    }
    assert_eq!(bytes, expected);
}

#[test]
fn pnm_rows_come_bottom_first() {
    // Two rows: the row with the higher index is written first, so the
    // surface's row zero ends the file.
    let mut surface = Surface::new(1, 2);
    surface.set_pixel(0, 0, Color::black());
    surface.set_pixel(0, 1, Color::white());
    let bytes = FormatPNM::encode(&surface);
    let expected = b"P3\n1 2\n255\n255 255 255\n0 0 0\n".to_vec();
    assert_eq!(bytes, expected);
}

#[test]
fn write_png() {
    // A 16 by 16 all-green image encodes to a PNG stream that decodes
    // back to the quantized raster.
    let image = uniform_surface(16, Color::green());
    let bytes = FormatPNG::encode(&image).expect("encoding failed");

    // The PNG signature.
    assert_eq!(&bytes[0..8], &[137u8, 80, 78, 71, 13, 10, 26, 10]);

    let decoder = png::Decoder::new(&bytes[..]);
    let mut reader = decoder.read_info().expect("invalid stream");
    let mut buffer = vec![0u8; reader.output_buffer_size()];
    let info = reader.next_frame(&mut buffer).expect("invalid frame");
    assert_eq!(info.width, 16);
    assert_eq!(info.height, 16);
    assert_eq!(info.color_type, png::ColorType::Rgba);
    assert_eq!(info.bit_depth, png::BitDepth::Eight);

    let mut expected: Vec<u8> = Vec::with_capacity(16 * 16 * 4);
    for _ in 0..(16 * 16) {
        expected.extend_from_slice(&[0u8, 255, 0, 255]);
    }
    assert_eq!(&buffer[..info.buffer_size()], &expected[..]);
}

#[test]
fn png_raster_is_quantized_bottom_up() {
    let mut surface = Surface::new(1, 2);
    surface.set_pixel(0, 0, Color::new(0, 250_000, 500_000, 1_000_000));
    surface.set_pixel(0, 1, Color::white());
    let raster = FormatPNG::raster(&surface);
    assert_eq!(raster, vec![255u8, 255, 255, 255, 0, 63, 127, 255]);
}

#[test]
fn encode_dispatches_by_format() {
    let image = uniform_surface(4, Color::blue());
    let pnm = encode(&Format::Pnm(FormatPNM::new()), &image).expect("plain text never fails");
    assert_eq!(&pnm[0..3], b"P3\n");
    let png_bytes = encode(&Format::Png(FormatPNG::new()), &image).expect("encoding failed");
    assert_eq!(&png_bytes[0..4], &[137u8, 80, 78, 71]);
    // A failed save is the only error the encoders report.
    assert_ne!(Error::SaveFailed, Error::MissingInput);
}
