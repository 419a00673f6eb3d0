use raytracer::intersect::{INFINITY, intersect_plane, intersect_sphere, trace};
use raytracer::scene::{Material, Plane, Ray, RayError, Scene, Sphere};
use raytracer::vec3::Vec3;

fn plain_material(color: Vec3) -> Material {
    Material { color, damping: 1, reflectivity: 0, refractivity: 0, ior: 1_520_000 }
}

#[test]
fn sphere_hit_from_outside_at_distance_minus_radius() {
    // Origin at distance 5 from the center along the ray: t = 5 - 1 = 4.
    let ray = Ray {
        origin: Vec3::new(0, 0, 0),
        direction: Vec3::new(0, 0, -1_000_000),
    };
    let sphere = Sphere {
        position: Vec3::new(0, 0, -5_000_000),
        radius: 1_000_000,
        material: plain_material(Vec3::new(1_000_000, 0, 0)),
    };
    let hit = intersect_sphere(&ray, &sphere).ok().unwrap();
    assert_eq!(hit.t, 4_000_000);
    assert_eq!(hit.normal, Vec3::new(0, 0, 1_000_000));
    assert_eq!(hit.material, sphere.material);
}

#[test]
fn sphere_hit_larger_distance_and_radius() {
    // Distance 10, radius 2: t = 8.
    let ray = Ray {
        origin: Vec3::new(0, 0, 0),
        direction: Vec3::new(0, 0, -1_000_000),
    };
    let sphere = Sphere {
        position: Vec3::new(0, 0, -10_000_000),
        radius: 2_000_000,
        material: plain_material(Vec3::new(0, 1_000_000, 0)),
    };
    let hit = intersect_sphere(&ray, &sphere).ok().unwrap();
    assert_eq!(hit.t, 8_000_000);
}

#[test]
fn sphere_missed_sideways_gives_no_intersection() {
    let ray = Ray {
        origin: Vec3::new(0, 0, 0),
        direction: Vec3::new(0, 1_000_000, 0),
    };
    let sphere = Sphere {
        position: Vec3::new(0, 0, -5_000_000),
        radius: 1_000_000,
        material: plain_material(Vec3::new(1_000_000, 0, 0)),
    };
    assert!(matches!(intersect_sphere(&ray, &sphere), Err(RayError::NoIntersections)));
}

#[test]
fn sphere_behind_ray_gives_no_intersection() {
    let ray = Ray {
        origin: Vec3::new(0, 0, 0),
        direction: Vec3::new(0, 0, 1_000_000),
    };
    let sphere = Sphere {
        position: Vec3::new(0, 0, -5_000_000),
        radius: 1_000_000,
        material: plain_material(Vec3::new(1_000_000, 0, 0)),
    };
    assert!(intersect_sphere(&ray, &sphere).is_err());
}

#[test]
fn plane_hit_at_exact_distance() {
    let ray = Ray {
        origin: Vec3::new(0, 0, 0),
        direction: Vec3::new(0, 0, -1_000_000),
    };
    let plane = Plane {
        position: Vec3::new(0, 0, -2_000_000),
        normal: Vec3::new(0, 0, 1_000_000),
        material: plain_material(Vec3::new(0, 0, 1_000_000)),
    };
    let hit = intersect_plane(&ray, &plane).ok().unwrap();
    assert_eq!(hit.t, 2_000_000);
    assert_eq!(hit.normal, plane.normal);
    assert_eq!(hit.material, plane.material);
}

#[test]
fn parallel_ray_never_intersects_plane() {
    let ray = Ray {
        origin: Vec3::new(0, 0, 0),
        direction: Vec3::new(1_000_000, 0, 0),
    };
    let plane = Plane {
        position: Vec3::new(0, 0, -2_000_000),
        normal: Vec3::new(0, 0, 1_000_000),
        material: plain_material(Vec3::new(0, 0, 1_000_000)),
    };
    assert!(matches!(intersect_plane(&ray, &plane), Err(RayError::NoIntersections)));
}

#[test]
fn plane_behind_ray_gives_no_intersection() {
    let ray = Ray {
        origin: Vec3::new(0, 0, 0),
        direction: Vec3::new(0, 0, 1_000_000),
    };
    let plane = Plane {
        position: Vec3::new(0, 0, -2_000_000),
        normal: Vec3::new(0, 0, 1_000_000),
        material: plain_material(Vec3::new(0, 0, 1_000_000)),
    };
    assert!(intersect_plane(&ray, &plane).is_err());
}

#[test]
fn trace_prefers_the_strictly_closer_hit() {
    let ray = Ray {
        origin: Vec3::new(0, 0, 0),
        direction: Vec3::new(0, 0, -1_000_000),
    };
    let sphere = Sphere {
        position: Vec3::new(0, 0, -3_000_000),
        radius: 1_000_000,
        material: plain_material(Vec3::new(1_000_000, 0, 0)),
    };
    let plane = Plane {
        position: Vec3::new(0, 0, -4_000_000),
        normal: Vec3::new(0, 0, 1_000_000),
        material: plain_material(Vec3::new(0, 0, 1_000_000)),
    };
    let sphere_t = intersect_sphere(&ray, &sphere).ok().unwrap().t;
    let plane_t = intersect_plane(&ray, &plane).ok().unwrap().t;
    assert!(sphere_t < plane_t);

    let scene = Scene { lights: vec![], spheres: vec![sphere], planes: vec![plane] };
    let hit = trace(&ray, &scene);
    assert_eq!(hit.t, sphere_t);
    assert_eq!(hit.t, 2_000_000);
    assert_eq!(hit.material, sphere.material);
}

#[test]
fn trace_of_empty_scene_is_the_miss_sentinel() {
    let ray = Ray {
        origin: Vec3::new(0, 0, 0),
        direction: Vec3::new(0, 0, -1_000_000),
    };
    let scene = Scene { lights: vec![], spheres: vec![], planes: vec![] };
    let hit = trace(&ray, &scene);
    assert_eq!(hit.t, INFINITY);
    assert_eq!(hit.normal, Vec3::new(0, 0, 0));
    assert_eq!(hit.material.reflectivity, 0);
    assert_eq!(hit.material.refractivity, 0);
}
