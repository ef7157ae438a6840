use raytracer::color::Color;
use raytracer::materials::{Diffuse, Normals};
use raytracer::parameters::DebugMode;
use raytracer::sampler::{PathSampler, background_color};
use raytracer::scalar::UNIT;
use raytracer::statistics::Statistics;
use raytracer::vec3::Vec3;

#[test]
fn background_gradient_midpoint() {
    // A level ray (vertical component zero) blends white and the sky
    // color evenly: (0.75, 0.85, 1.0), opaque.
    let c = background_color(&None, 0);
    assert_eq!(c, Color::new(750_000, 850_000, UNIT, UNIT));
}

#[test]
fn background_gradient_ends() {
    // Straight down: pure white. Straight up: the sky color.
    assert_eq!(background_color(&None, -UNIT), Color::white());
    assert_eq!(background_color(&None, UNIT), Color::new(500_000, 700_000, UNIT, UNIT));
}

#[test]
fn background_debug_modes_are_flat() {
    assert_eq!(
        background_color(&Some(DebugMode::Diffuse), -250_000),
        Color::new(500_000, 500_000, 500_000, UNIT)
    );
    assert_eq!(
        background_color(&Some(DebugMode::Normals), 250_000),
        Color::new(500_000, 0, 500_000, UNIT)
    );
}

#[test]
fn background_depends_on_direction_alone() {
    // Two paths for different pixels, same ray direction: the same
    // background color on a miss.
    let z: i64 = 333_333;
    let mut first = PathSampler::new(8, None);
    let mut second = PathSampler::new(8, None);
    let mut stats_first = Statistics::new_pixel();
    let mut stats_second = Statistics::new_pixel();
    first.on_miss(z, &mut stats_first);
    second.on_miss(z, &mut stats_second);
    assert_eq!(first.color(), second.color());
}

#[test]
fn flat_scene_miss_reproduces_gradient() {
    // One-sample render, scatter limit zero: a primary ray that misses
    // contributes exactly the sky gradient.
    let mut path = PathSampler::new(0, None);
    let mut stats = Statistics::new_pixel();
    assert!(path.pending());
    assert!(!path.over_limit());
    path.on_miss(0, &mut stats);
    assert!(!path.pending());
    assert_eq!(path.color(), background_color(&None, 0));
    assert_eq!(stats.samples, 1);
    assert_eq!(stats.intersections, 0);
}

#[test]
fn limit_zero_hit_bounces_once_then_black() {
    // Scatter limit zero: a diffuse hit scatters, the next level is
    // over the limit and the path is cut off; the attenuated cut-off
    // color is black.
    let albedo = Color::new(500_000, 500_000, 500_000, UNIT);
    let material = Diffuse::new(albedo);
    let normal = Vec3::new(0, -UNIT, 0);
    let mut path = PathSampler::new(0, None);
    let mut stats = Statistics::new_pixel();

    let bounced = path.on_hit(&material, &normal, &mut stats);
    assert!(bounced);
    assert!(path.pending());
    assert!(path.over_limit());
    path.cut_off();
    assert_eq!(path.color(), Color::black());
    assert_eq!(stats.samples, 1);
    assert_eq!(stats.intersections, 1);
    assert_eq!(stats.scatters, 1);
    assert_eq!(stats.max_scatters, 0);
}

#[test]
fn attenuation_composes_through_bounces() {
    // Two diffuse bounces at albedo one half, then a miss straight up:
    // the sky color attenuated twice, alpha still exactly one.
    let albedo = Color::new(500_000, 500_000, 500_000, UNIT);
    let material = Diffuse::new(albedo);
    let normal = Vec3::new(0, -UNIT, 0);
    let mut path = PathSampler::new(8, None);
    let mut stats = Statistics::new_pixel();

    assert!(path.on_hit(&material, &normal, &mut stats));
    assert!(path.on_hit(&material, &normal, &mut stats));
    path.on_miss(UNIT, &mut stats);
    // Sky (0.5, 0.7, 1.0) times 0.25: (0.125, 0.175, 0.25), opaque.
    assert_eq!(path.color(), Color::new(125_000, 175_000, 250_000, UNIT));
    assert_eq!(stats.samples, 3);
    assert_eq!(stats.intersections, 2);
    assert_eq!(stats.scatters, 2);
    assert_eq!(stats.max_scatters, 1);
}

#[test]
fn recursion_is_depth_bounded() {
    // Scatter limit three: a chain of diffuse hits records at most
    // four levels and never a scatter deeper than the limit.
    let material = Diffuse::new(Color::new(800_000, 800_000, 800_000, UNIT));
    let normal = Vec3::new(0, -UNIT, 0);
    let limit: u16 = 3;
    let mut path = PathSampler::new(limit, None);
    let mut stats = Statistics::new_pixel();

    let mut levels: u32 = 0;
    while path.pending() {
        if path.over_limit() {
            path.cut_off();
        } else {
            levels += 1;
            path.on_hit(&material, &normal, &mut stats);
        }
    }
    assert_eq!(levels, (limit as u32) + 1);
    assert_eq!(stats.samples, (limit as usize) + 1);
    assert!(stats.max_scatters <= limit);
    assert_eq!(stats.max_scatters, limit);
    assert_eq!(path.color(), Color::black());
}

#[test]
fn normals_material_terminates_with_normal_color() {
    let material = Normals::new();
    let normal = Vec3::new(0, -UNIT, 0);
    let mut path = PathSampler::new(8, None);
    let mut stats = Statistics::new_pixel();

    let bounced = path.on_hit(&material, &normal, &mut stats);
    assert!(!bounced);
    // (0, -1, 0) maps to (0.5, 0, 0.5), opaque.
    assert_eq!(path.color(), Color::new(500_000, 0, 500_000, UNIT));
    assert_eq!(stats.scatters, 0);
}

#[test]
fn debug_normals_overrides_scene_material() {
    // Under the normals debug mode a metallic object is rendered as
    // its surface normal.
    let scene_material = raytracer::materials::Metallic::new(
        Color::new(900_000, 800_000, 700_000, UNIT),
        100_000,
    );
    let normal = Vec3::new(UNIT, 0, 0);
    let mut path = PathSampler::new(8, Some(DebugMode::Normals));
    let mut stats = Statistics::new_pixel();

    let bounced = path.on_hit(&scene_material, &normal, &mut stats);
    assert!(!bounced);
    assert_eq!(path.color(), Color::new(UNIT, 500_000, 500_000, UNIT));
}

#[test]
fn debug_diffuse_overrides_scene_material() {
    // Under the diffuse debug mode every hit attenuates by the fixed
    // gray, not by the object's own albedo.
    let scene_material = raytracer::materials::Refractive::new(Color::white(), 1_500_000);
    let normal = Vec3::new(0, 0, UNIT);
    let mut path = PathSampler::new(8, Some(DebugMode::Diffuse));
    let mut stats = Statistics::new_pixel();

    let bounced = path.on_hit(&scene_material, &normal, &mut stats);
    assert!(bounced);
    path.on_miss(0, &mut stats);
    // The debug background (0.5 gray) attenuated by the debug gray.
    assert_eq!(path.color(), Color::new(250_000, 250_000, 250_000, UNIT));
}
