use raytracer::image::{channel_byte, ppm_document, push_decimal, render_pixels};
use raytracer::intersect::intersect_sphere;
use raytracer::scene::{
    Camera, Material, Scene, Screen, Sphere, create_camera, create_ray_from_camera, create_scene,
};
use raytracer::shade::{render_pixel, trace_ray};
use raytracer::vec2::Vec2;
use raytracer::vec3::Vec3;

fn centered_camera() -> Camera {
    // fov 90 degrees, aspect 1: both viewport half-extents are exactly one.
    create_camera(
        Vec3::new(0, 0, 0),
        Vec3::new(0, 0, -1_000_000),
        1_000_000,
        1_000_000,
        Vec3::new(0, 1_000_000, 0),
    )
}

#[test]
fn camera_basis_is_the_expected_right_handed_frame() {
    let camera = centered_camera();
    assert_eq!(camera.forward, Vec3::new(0, 0, -1_000_000));
    assert_eq!(camera.right, Vec3::new(1_000_000, 0, 0));
    assert_eq!(camera.up, Vec3::new(0, 1_000_000, 0));
    assert_eq!(camera.size.width, 1_000_000);
    assert_eq!(camera.size.height, 1_000_000);
}

#[test]
fn center_pixel_ray_is_exactly_forward() {
    let camera = centered_camera();
    let ray = create_ray_from_camera(&camera, &Vec2::new(0, 0));
    assert_eq!(ray.origin, Vec3::new(0, 0, 0));
    assert_eq!(ray.direction, Vec3::new(0, 0, -1_000_000));
}

#[test]
fn offset_pixel_ray_mixes_in_the_basis_vectors() {
    let camera = centered_camera();
    let ray = create_ray_from_camera(&camera, &Vec2::new(500_000, -250_000));
    assert_eq!(ray.direction, Vec3::new(500_000, -250_000, -1_000_000));
}

#[test]
fn unlit_sphere_leaves_the_background_color() {
    // One dull sphere dead ahead and no lights: the center ray hits at t = 4,
    // every lighting term is zero, and the background color stands.
    let camera = centered_camera();
    let sphere = Sphere {
        position: Vec3::new(0, 0, -5_000_000),
        radius: 1_000_000,
        material: Material {
            color: Vec3::new(1_000_000, 0, 0),
            damping: 1,
            reflectivity: 0,
            refractivity: 0,
            ior: 1_520_000,
        },
    };
    let ray = create_ray_from_camera(&camera, &Vec2::new(0, 0));
    let hit = intersect_sphere(&ray, &sphere).ok().unwrap();
    assert_eq!(hit.t, 4_000_000);

    let scene = Scene { lights: vec![], spheres: vec![sphere], planes: vec![] };
    let color = trace_ray(ray, &scene);
    assert_eq!(color.r, 100_000);
    assert_eq!(color.g, 100_000);
    assert_eq!(color.b, 110_000);
}

#[test]
fn channel_byte_truncates_and_saturates() {
    assert_eq!(channel_byte(100_000), 25);
    assert_eq!(channel_byte(110_000), 28);
    assert_eq!(channel_byte(1_000_000), 255);
    assert_eq!(channel_byte(999_999), 254);
    assert_eq!(channel_byte(0), 0);
    assert_eq!(channel_byte(-5), 0);
    assert_eq!(channel_byte(2_000_000), 255);
}

#[test]
fn decimal_digits_render_most_significant_first() {
    let mut out: Vec<u8> = Vec::new();
    push_decimal(&mut out, 0);
    push_decimal(&mut out, 7);
    push_decimal(&mut out, 255);
    push_decimal(&mut out, 1_234_567);
    assert_eq!(out, b"072551234567".to_vec());
}

#[test]
fn two_by_two_background_render_serializes_exactly() {
    let camera = centered_camera();
    let scene = Scene { lights: vec![], spheres: vec![], planes: vec![] };
    let screen = Screen { width: 2, height: 2 };
    let pixels = render_pixels(&camera, &scene, &screen);
    let doc = ppm_document(&pixels, &screen);
    let expected = b"P3 2 2 255\n 25 25 28 25 25 28 25 25 28 25 25 28\n\n".to_vec();
    assert_eq!(String::from_utf8(doc).unwrap(), String::from_utf8(expected).unwrap());
}

#[test]
fn render_pixel_matches_trace_ray_through_the_camera() {
    let camera = centered_camera();
    let scene = Scene { lights: vec![], spheres: vec![], planes: vec![] };
    let color = render_pixel(Vec2::new(0, 0), &camera, &scene);
    assert_eq!((color.r, color.g, color.b), (100_000, 100_000, 110_000));
}

#[test]
fn showcase_scene_has_the_advertised_shape() {
    let scene = create_scene();
    assert_eq!(scene.lights.len(), 2);
    assert_eq!(scene.spheres.len(), 3);
    assert_eq!(scene.planes.len(), 6);
    assert_eq!(scene.spheres[0].radius, 900_000);
    assert_eq!(scene.spheres[2].material.reflectivity, 1_000_000);
    assert_eq!(scene.lights[0].force, 50_000_000);
    assert_eq!(scene.planes[1].material.refractivity, 1_000_000);
}

#[test]
fn showcase_scene_renders_a_lit_pixel() {
    // A one-pixel render of the showcase scene must produce some color with
    // every channel inside the byte range; this drives the full pipeline,
    // shadow rays and bounces included.
    let scene = create_scene();
    let camera = create_camera(
        Vec3::new(0, -600_000, 2_000_000),
        Vec3::new(0, 0, 0),
        552_284,
        414_213,
        Vec3::new(0, 1_000_000, 0),
    );
    let screen = Screen { width: 1, height: 1 };
    let pixels = render_pixels(&camera, &scene, &screen);
    let text = String::from_utf8(pixels).unwrap();
    let fields: Vec<&str> = text.split_whitespace().collect();
    assert_eq!(fields.len(), 3);
    for f in fields {
        let v: u32 = f.parse().unwrap();
        assert!(v <= 255);
    }
}
