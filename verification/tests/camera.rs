use raytracer::camera::{InvalidParameter, Parameters};
use raytracer::scalar::UNIT;
use raytracer::vec3::Vec3;

#[test]
fn camera_defaults_are_valid() {
    let camera = Parameters::new();
    assert_eq!(camera.origin, Vec3::zero());
    assert_eq!(camera.up_direction, Vec3::up());
    assert_eq!(camera.look_at, None);
    assert_eq!(camera.field_of_view, 90 * UNIT);
    assert_eq!(camera.focus_distance, UNIT);
    assert_eq!(camera.aperture_radius, 0);
    assert_eq!(camera.shutter_open_time, 0);
    assert_eq!(camera.shutter_close_time, 0);
    assert!(camera.validate().is_ok());
}

#[test]
fn camera_rejects_field_of_view() {
    let camera = Parameters::new().set_field_of_view(0);
    assert!(matches!(camera.validate(), Err(InvalidParameter::FieldOfView)));
    let camera = Parameters::new().set_field_of_view(-45 * UNIT);
    assert!(matches!(camera.validate(), Err(InvalidParameter::FieldOfView)));
}

#[test]
fn camera_rejects_negative_aperture() {
    let camera = Parameters::new().set_aperture_size(-1);
    assert!(matches!(camera.validate(), Err(InvalidParameter::ApertureRadius)));
}

#[test]
fn camera_rejects_shutter_order() {
    let camera = Parameters::new()
        .set_shutter_open_time(2_000_000)
        .set_shutter_close_time(1_000_000);
    assert!(matches!(camera.validate(), Err(InvalidParameter::ShutterTime)));
}

#[test]
fn camera_error_priority() {
    // All three rules broken: the field of view is reported first.
    let camera = Parameters::new()
        .set_field_of_view(-UNIT)
        .set_aperture_size(-UNIT)
        .set_shutter_open_time(UNIT)
        .set_shutter_close_time(0);
    assert!(matches!(camera.validate(), Err(InvalidParameter::FieldOfView)));
}

#[test]
fn camera_builder_sets_fields() {
    let camera = Parameters::new()
        .set_origin(Vec3::new(0, -2_000_000, 0))
        .set_look_at(Some(Vec3::new(0, 10_000_000, 0)))
        .set_field_of_view(55 * UNIT)
        .set_focus_distance(12 * UNIT)
        .set_aperture_size(250_000)
        .set_shutter_open_time(0)
        .set_shutter_close_time(500_000);
    assert_eq!(camera.origin, Vec3::new(0, -2_000_000, 0));
    assert_eq!(camera.look_at, Some(Vec3::new(0, 10_000_000, 0)));
    assert_eq!(camera.field_of_view, 55 * UNIT);
    assert_eq!(camera.focus_distance, 12 * UNIT);
    assert_eq!(camera.aperture_radius, 250_000);
    assert_eq!(camera.shutter_close_time, 500_000);
    assert!(camera.validate().is_ok());
}
