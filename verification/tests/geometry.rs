use raytracer::geometry::{RootChoice, Sphere, select_root};
use raytracer::scalar::UNIT;
use raytracer::scene::closest_hit;
use raytracer::vec3::Vec3;

#[test]
fn vec3_new() {
    assert_eq!(Vec3::new(3_000_000, 2_000_000, 1_000_000), Vec3::new(3_000_000, 2_000_000, 1_000_000));
    assert_eq!(Vec3::zero(), Vec3::new(0, 0, 0));

    let vector = Vec3::new(1_000_000, 2_000_000, 3_000_000);
    assert_eq!(vector.x, 1_000_000);
    assert_eq!(vector.y, 2_000_000);
    assert_eq!(vector.z, 3_000_000);

    assert_eq!(Vec3::forward(), Vec3::new(0, UNIT, 0));
    assert_eq!(Vec3::right(), Vec3::new(UNIT, 0, 0));
    assert_eq!(Vec3::up(), Vec3::new(0, 0, UNIT));
}

#[test]
fn refract() {
}

#[test]
fn vec3_arithmetic() {
    let a = Vec3::new(1_000_000, -2_000_000, 3_000_000);
    let b = Vec3::new(500_000, 500_000, -500_000);
    assert_eq!(a.added(&b), Vec3::new(1_500_000, -1_500_000, 2_500_000));
    // Scaling by 1.5 in fixed point; products round toward zero.
    assert_eq!(a.scaled(1_500_000), Vec3::new(1_500_000, -3_000_000, 4_500_000));
    assert!(Vec3::zero().is_zero());
    assert!(!a.is_zero());
}

#[test]
fn sphere_new() {
    let s = Sphere::new(Vec3::new(0, 10_000_000, 0), 1_000_000);
    assert_eq!(s.center, Vec3::new(0, 10_000_000, 0));
    assert_eq!(s.radius, 1_000_000);
}

#[test]
fn select_root_prefers_nearer() {
    // A unit sphere centered ten ahead of a ray origin two ahead of the
    // world origin: roots at distances 7 and 9; the nearer wins.
    let min: i64 = 100; // 0.0001
    let max: i64 = i64::MAX;
    assert_eq!(select_root(7_000_000, 9_000_000, min, max), Some(RootChoice::Nearer));
}

#[test]
fn select_root_takes_farther_from_inside() {
    // From inside the sphere the nearer root is behind the origin.
    assert_eq!(select_root(-1_000_000, 1_000_000, 100, i64::MAX), Some(RootChoice::Farther));
}

#[test]
fn select_root_none_behind() {
    // A ray pointing away from the sphere: both roots behind the
    // origin, no hit whatever the upper bound.
    assert_eq!(select_root(-9_000_000, -7_000_000, 100, i64::MAX), None);
    assert_eq!(select_root(-9_000_000, -7_000_000, 100, 1_000), None);
}

#[test]
fn select_root_respects_bounds() {
    assert_eq!(select_root(7_000_000, 9_000_000, 100, 5_000_000), None);
    assert_eq!(
        select_root(7_000_000, 9_000_000, 8_000_000, 10_000_000),
        Some(RootChoice::Farther)
    );
    // Strict bounds: a root exactly on a bound does not count.
    assert_eq!(select_root(7_000_000, 9_000_000, 7_000_000, 9_000_000), None);
}

#[test]
fn closest_hit_picks_nearest() {
    let hits: Vec<Option<u64>> = vec![Some(900), None, Some(700), Some(800)];
    assert_eq!(closest_hit(&hits), Some(2));
}

#[test]
fn closest_hit_tie_keeps_first() {
    let hits: Vec<Option<u64>> = vec![None, Some(700), Some(700), Some(900)];
    assert_eq!(closest_hit(&hits), Some(1));
}

#[test]
fn closest_hit_all_missed() {
    let hits: Vec<Option<u64>> = vec![None, None, None];
    assert_eq!(closest_hit(&hits), None);
    let empty: Vec<Option<u64>> = vec![];
    assert_eq!(closest_hit(&empty), None);
}
