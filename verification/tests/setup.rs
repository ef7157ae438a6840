use raytracer::color::Color;
use raytracer::materials::{Diffuse, Material, Metallic, Normals, Refractive};
use raytracer::parameters::{DebugMode, Parameters};
use raytracer::scene::{Object, Scene, Sphere};
use raytracer::setup::Setup;
use raytracer::vec3::Vec3;

#[test]
fn parameters_defaults() {
    let p = Parameters::default();
    assert_eq!(p.image_width, 1024);
    assert_eq!(p.image_height, 576);
    assert_eq!(p.antialias_samples, 4);
    assert_eq!(p.scatter_limit, 8);
    assert_eq!(p.debug_mode, None);
    assert!(p.is_renderable());
}

#[test]
fn parameters_renderable_checks() {
    let mut p = Parameters::default();
    p.image_width = 0;
    assert!(!p.is_renderable());
    p.image_width = 1024;
    p.antialias_samples = 0;
    assert!(!p.is_renderable());
    p.antialias_samples = 1;
    p.debug_mode = Some(DebugMode::Normals);
    assert!(p.is_renderable());
}

#[test]
fn materials_constructors() {
    let albedo = Color::new(800_000, 100_000, 100_000, 1_000_000);
    assert!(matches!(Diffuse::new(albedo), Material::Diffuse(_)));
    assert!(matches!(Normals::new(), Material::Normals(_)));
    assert!(matches!(Metallic::new(albedo, 300_000), Material::Metallic(_)));
    assert!(matches!(Refractive::new(Color::white(), 1_500_000), Material::Refractive(_)));
    assert!(Diffuse::new(albedo).is_wf());
}

#[test]
fn scene_objects_and_motion() {
    let material = Diffuse::new(Color::new(500_000, 500_000, 500_000, 1_000_000));
    let kind = Sphere::new(Vec3::new(0, 10_000_000, 0), 1_000_000, material);
    let still = Object::new(kind);
    assert!(still.velocity().is_zero());
    assert_eq!(*still.get_material(), material);
    assert!(still.is_wf());

    let mut moving = Object::new_moving(kind, Vec3::new(0, 0, -2_000_000));
    assert_eq!(moving.velocity(), Vec3::new(0, 0, -2_000_000));
    moving.set_velocity(Vec3::new(0, 0, 2_000_000));
    assert_eq!(moving.velocity(), Vec3::new(0, 0, 2_000_000));

    // The sphere's position half a time unit in: center plus half the
    // velocity; the radius is unchanged.
    if let raytracer::scene::ObjectKind::Sphere(sphere) = kind {
        let shifted = sphere.at_time(500_000, Vec3::new(0, 0, 2_000_000));
        assert_eq!(shifted.center, Vec3::new(0, 10_000_000, 1_000_000));
        assert_eq!(shifted.radius, 1_000_000);
    } else {
        unreachable!();
    }

    let scene = Scene::new().add_object(still).add_object(moving);
    assert_eq!(scene.objects.len(), 2);
    assert!(scene.is_wf());
}

#[test]
fn setup_defaults() {
    let setup = Setup::new();
    assert_eq!(setup.parameters.image_width, 1024);
    assert_eq!(setup.scene.objects.len(), 0);
    assert!(setup.is_wf());
}

#[test]
fn setup_detects_bad_camera() {
    let mut setup = Setup::new();
    setup.scene.camera = setup.scene.camera.set_field_of_view(0);
    assert!(!setup.is_wf());
}

#[test]
fn material_wf_rejects_out_of_range_scene_data() {
    // An albedo channel beyond one, a rough-beyond-one metal and a
    // transparent albedo are invalid scene data.
    let over = Material::Diffuse(raytracer::materials::Diffuse {
        albedo: Color::new(2_000_000, 0, 0, 1_000_000),
    });
    assert!(!over.is_wf());
    let rough = Material::Metallic(raytracer::materials::Metallic {
        albedo: Color::white(),
        roughness: 1_500_000,
    });
    assert!(!rough.is_wf());
    let transparent = Material::Diffuse(raytracer::materials::Diffuse {
        albedo: Color::new(500_000, 500_000, 500_000, 500_000),
    });
    assert!(!transparent.is_wf());
}
