use raytracer::color::Color;
use raytracer::renderer::{PixelAccumulator, antialias_kernel, pixel_coords};
use raytracer::scalar::UNIT;

#[test]
fn kernel_is_stratified_grid() {
    let k = antialias_kernel(2);
    assert_eq!(k.len(), 4);
    assert_eq!(k[0], (0, 0));
    assert_eq!(k[1], (0, 1));
    assert_eq!(k[2], (1, 0));
    assert_eq!(k[3], (1, 1));

    let k1 = antialias_kernel(1);
    assert_eq!(k1.len(), 1);
    assert_eq!(k1[0], (0, 0));

    let k4 = antialias_kernel(4);
    assert_eq!(k4.len(), 16);
    assert_eq!(k4[7], (1, 3));
    assert_eq!(k4[15], (3, 3));
}

#[test]
fn pixel_coords_row_major() {
    assert_eq!(pixel_coords(0, 1024), (0, 0));
    assert_eq!(pixel_coords(1023, 1024), (1023, 0));
    assert_eq!(pixel_coords(1024, 1024), (0, 1));
    assert_eq!(pixel_coords(1024 * 576 - 1, 1024), (1023, 575));
}

#[test]
fn accumulator_averages_and_keeps_alpha_one() {
    let mut acc = PixelAccumulator::new();
    acc.add_sample(&Color::new(UNIT, 0, 500_000, UNIT));
    acc.add_sample(&Color::new(0, UNIT, 500_000, UNIT));
    acc.add_sample(&Color::new(500_000, 500_000, 500_000, UNIT));
    acc.add_sample(&Color::new(500_000, 500_000, 500_000, UNIT));
    let average = acc.average();
    assert_eq!(average, Color::new(500_000, 500_000, 500_000, UNIT));
    assert!(average.is_valid());
    assert_eq!(average.a, UNIT);
}

#[test]
fn accumulator_single_sample_is_identity() {
    let mut acc = PixelAccumulator::new();
    let sample = Color::new(123_000, 456_000, 789_000, UNIT);
    acc.add_sample(&sample);
    assert_eq!(acc.average(), sample);
}
