//! Scene description: materials, lights, primitives, camera, rays.
//!
//! All values are fixed-point scalars (see [`crate::fx`]); the structures are
//! plain data built once before rendering and read-only afterwards.

use vstd::prelude::*;
use crate::vec2::Vec2;
use crate::vec3::{V3, Vec3, spec_v3_add, spec_v3_cross, spec_v3_muls, spec_v3_sub, spec_v3_unit};

verus! {

/// Index of refraction of air (the medium rays start in).
pub const IOR_AIR: i64 = 1_000_000;

/// Index of refraction of glass, used by the showcase scene.
pub const IOR_GLASS: i64 = 1_520_000;

#[derive(Clone, Copy, PartialEq, Eq, Structural, Debug)]
pub struct Screen {
    pub width: u32,
    pub height: u32,
}

/// An RGB color; channels are fixed-point values, nominally in `[0, 1]`.
#[derive(Clone, Copy, PartialEq, Eq, Structural, Debug)]
pub struct Color {
    pub r: i64,
    pub g: i64,
    pub b: i64,
}

/// Surface description.  The continuation of a path is chosen by exclusive
/// priority: a positive `reflectivity` wins, `refractivity` applies only when
/// `reflectivity` is zero or less, and a surface with neither terminates the
/// path.
#[derive(Clone, Copy, PartialEq, Eq, Structural, Debug)]
pub struct Material {
    pub color: Vec3,
    /// Specular exponent; zero flattens the highlight to constant one.
    pub damping: u32,
    pub reflectivity: i64,
    pub refractivity: i64,
    /// Index of refraction of the medium behind the surface.
    pub ior: i64,
}

#[derive(Clone, Copy, PartialEq, Eq, Structural, Debug)]
pub struct Light {
    pub position: Vec3,
    /// Tint of the light; the shading terms do not read it.
    pub color: Vec3,
    /// Scalar intensity of the light.
    pub force: i64,
}

#[derive(Clone, Copy, PartialEq, Eq, Structural, Debug)]
pub struct Sphere {
    pub position: Vec3,
    pub radius: i64,
    pub material: Material,
}

/// A plane given by one point on it and its normal.
#[derive(Clone, Copy, PartialEq, Eq, Structural, Debug)]
pub struct Plane {
    pub position: Vec3,
    pub normal: Vec3,
    pub material: Material,
}

/// The ordered collections a ray is tested against.  Order only decides which
/// of two equally distant hits is kept (the earlier one; spheres first).
pub struct Scene {
    pub lights: Vec<Light>,
    pub spheres: Vec<Sphere>,
    pub planes: Vec<Plane>,
}

#[derive(Clone, Copy, PartialEq, Eq, Structural, Debug)]
pub struct CameraSize {
    pub width: i64,
    pub height: i64,
}

#[derive(Clone, Copy, PartialEq, Eq, Structural, Debug)]
pub struct Camera {
    pub origin: Vec3,
    pub target: Vec3,
    pub forward: Vec3,
    pub right: Vec3,
    pub up: Vec3,
    pub size: CameraSize,
}

/// A ray; the direction of a camera ray is deliberately not normalized.
#[derive(Clone, Copy, PartialEq, Eq, Structural, Debug)]
pub struct Ray {
    pub origin: Vec3,
    pub direction: Vec3,
}

/// Mathematical view of a ray.
pub ghost struct RayM {
    pub origin: V3,
    pub direction: V3,
}

impl View for Ray {
    type V = RayM;

    open spec fn view(&self) -> RayM {
        RayM { origin: self.origin@, direction: self.direction@ }
    }
}

/// A hit: parametric distance, surface normal and material at the point.
/// A miss is the sentinel of [`crate::intersect::spec_miss`].
#[derive(Clone, Copy, PartialEq, Eq, Structural, Debug)]
pub struct RayIntersection {
    pub t: i64,
    pub normal: Vec3,
    pub material: Material,
}

/// Mathematical view of a hit.
pub ghost struct HitM {
    pub t: int,
    pub normal: V3,
    pub material: Material,
}

impl View for RayIntersection {
    type V = HitM;

    open spec fn view(&self) -> HitM {
        HitM { t: self.t as int, normal: self.normal@, material: self.material }
    }
}

/// Why an intersection routine found nothing.
#[derive(Clone, Copy, PartialEq, Eq, Structural, Debug)]
pub enum RayError {
    NoIntersections,
}

/// Derive the orthonormal view basis from origin, target and an up guide.
pub fn create_camera(
    origin: Vec3,
    target: Vec3,
    half_width: i64,
    half_height: i64,
    up_guide: Vec3,
) -> (c: Camera)
    ensures
        c.origin == origin,
        c.target == target,
        c.forward@ == spec_v3_unit(spec_v3_sub(target@, origin@)),
        c.right@ == spec_v3_unit(spec_v3_cross(c.forward@, up_guide@)),
        c.up@ == spec_v3_unit(spec_v3_cross(c.right@, c.forward@)),
        c.size.width == half_width,
        c.size.height == half_height,
{
    let forward = target.sub(&origin).unit();
    let right = forward.cross(&up_guide).unit();
    let up = right.cross(&forward).unit();
    let size = CameraSize { width: half_width, height: half_height };
    Camera { origin, target, forward, right, up, size }
}

/// The primary ray through a normalized screen coordinate in `[-1, 1]^2`.
pub open spec fn spec_camera_ray(c: Camera, px: Vec2) -> RayM {
    RayM {
        origin: c.origin@,
        direction: spec_v3_add(
            spec_v3_add(
                c.forward@,
                spec_v3_muls(spec_v3_muls(c.right@, px.x as int), c.size.width as int),
            ),
            spec_v3_muls(spec_v3_muls(c.up@, px.y as int), c.size.height as int),
        ),
    }
}

pub fn create_ray_from_camera(camera: &Camera, px: &Vec2) -> (r: Ray)
    ensures
        r@ == spec_camera_ray(*camera, *px),
{
    let x_offset = camera.right.clone().mul_scalar(px.x).mul_scalar(camera.size.width);
    let y_offset = camera.up.clone().mul_scalar(px.y).mul_scalar(camera.size.height);
    let ray_direction = camera.forward.clone().add(&x_offset).add(&y_offset);
    Ray { origin: camera.origin.clone(), direction: ray_direction }
}

pub open spec fn spec_demo_lights() -> Seq<Light> {
    seq![
        Light {
            position: Vec3 { x: 2_200_000, y: -6_000_000i64, z: 0 },
            color: Vec3 { x: 1_000_000, y: 1_000_000, z: 1_000_000 },
            force: 50_000_000,
        },
        Light {
            position: Vec3 { x: -2_200_000i64, y: -6_000_000i64, z: 2_000_000 },
            color: Vec3 { x: 1_000_000, y: 1_000_000, z: 1_000_000 },
            force: 39_000_000,
        },
    ]
}

pub open spec fn spec_demo_spheres() -> Seq<Sphere> {
    seq![
        Sphere {
            position: Vec3 { x: 0, y: 1_000_000, z: -3_000_000i64 },
            radius: 900_000,
            material: Material {
                color: Vec3 { x: 1_000_000, y: 200_000, z: 200_000 },
                damping: 1,
                reflectivity: 0,
                refractivity: 0,
                ior: IOR_GLASS,
            },
        },
        Sphere {
            position: Vec3 { x: -1_000_000i64, y: 1_000_000, z: -2_000_000i64 },
            radius: 400_000,
            material: Material {
                color: Vec3 { x: 0, y: 700_000, z: 0 },
                damping: 1,
                reflectivity: 500_000,
                refractivity: 0,
                ior: IOR_GLASS,
            },
        },
        Sphere {
            position: Vec3 { x: 1_000_000, y: 1_200_000, z: -2_000_000i64 },
            radius: 600_000,
            material: Material {
                color: Vec3 { x: 500_000, y: 500_000, z: 500_000 },
                damping: 1,
                reflectivity: 1_000_000,
                refractivity: 1_000_000,
                ior: IOR_GLASS,
            },
        },
    ]
}

pub open spec fn spec_demo_wall_material() -> Material {
    Material {
        color: Vec3 { x: 200_000, y: 200_000, z: 200_000 },
        damping: 0,
        reflectivity: 0,
        refractivity: 0,
        ior: 0,
    }
}

pub open spec fn spec_demo_planes() -> Seq<Plane> {
    seq![
        Plane {
            position: Vec3 { x: 0, y: -6_500_000i64, z: 0 },
            normal: Vec3 { x: 0, y: 1_000_000, z: 0 },
            material: spec_demo_wall_material(),
        },
        Plane {
            position: Vec3 { x: 0, y: 1_900_000, z: 0 },
            normal: Vec3 { x: 0, y: -1_000_000i64, z: 0 },
            material: Material {
                color: Vec3 { x: 100_000, y: 100_000, z: 100_000 },
                damping: 1,
                reflectivity: 400_000,
                refractivity: 1_000_000,
                ior: IOR_GLASS,
            },
        },
        Plane {
            position: Vec3 { x: 0, y: 0, z: 4_000_000 },
            normal: Vec3 { x: 0, y: 0, z: -1_000_000i64 },
            material: spec_demo_wall_material(),
        },
        Plane {
            position: Vec3 { x: 0, y: 0, z: -3_500_000i64 },
            normal: Vec3 { x: 0, y: 0, z: 1_000_000 },
            material: spec_demo_wall_material(),
        },
        Plane {
            position: Vec3 { x: -2_300_000i64, y: 0, z: 0 },
            normal: Vec3 { x: -1_000_000i64, y: 0, z: 0 },
            material: spec_demo_wall_material(),
        },
        Plane {
            position: Vec3 { x: 2_300_000, y: 0, z: 0 },
            normal: Vec3 { x: 1_000_000, y: 0, z: 0 },
            material: spec_demo_wall_material(),
        },
    ]
}

/// The fixed showcase scene: three spheres inside a box of six planes, lit by
/// two point lights.
pub fn create_scene() -> (s: Scene)
    ensures
        s.lights@ == spec_demo_lights(),
        s.spheres@ == spec_demo_spheres(),
        s.planes@ == spec_demo_planes(),
{
    let sphere1 = Sphere {
        position: Vec3::new(0, 1_000_000, -3_000_000),
        radius: 900_000,
        material: Material {
            color: Vec3::new(1_000_000, 200_000, 200_000),
            damping: 1,
            reflectivity: 0,
            refractivity: 0,
            ior: IOR_GLASS,
        },
    };
    let sphere2 = Sphere {
        position: Vec3::new(-1_000_000, 1_000_000, -2_000_000),
        radius: 400_000,
        material: Material {
            color: Vec3::new(0, 700_000, 0),
            damping: 1,
            reflectivity: 500_000,
            refractivity: 0,
            ior: IOR_GLASS,
        },
    };
    let sphere3 = Sphere {
        position: Vec3::new(1_000_000, 1_200_000, -2_000_000),
        radius: 600_000,
        material: Material {
            color: Vec3::new(500_000, 500_000, 500_000),
            damping: 1,
            reflectivity: 1_000_000,
            refractivity: 1_000_000,
            ior: IOR_GLASS,
        },
    };
    let wall_material = Material {
        color: Vec3::new(200_000, 200_000, 200_000),
        damping: 0,
        reflectivity: 0,
        refractivity: 0,
        ior: 0,
    };
    let plane_floor = Plane {
        position: Vec3::new(0, 1_900_000, 0),
        normal: Vec3::new(0, -1_000_000, 0),
        material: Material {
            color: Vec3::new(100_000, 100_000, 100_000),
            damping: 1,
            reflectivity: 400_000,
            refractivity: 1_000_000,
            ior: IOR_GLASS,
        },
    };
    let plane_ceiling = Plane {
        position: Vec3::new(0, -6_500_000, 0),
        normal: Vec3::new(0, 1_000_000, 0),
        material: wall_material,
    };
    let plane_left = Plane {
        position: Vec3::new(-2_300_000, 0, 0),
        normal: Vec3::new(-1_000_000, 0, 0),
        material: wall_material,
    };
    let plane_right = Plane {
        position: Vec3::new(2_300_000, 0, 0),
        normal: Vec3::new(1_000_000, 0, 0),
        material: wall_material,
    };
    let plane_backwall = Plane {
        position: Vec3::new(0, 0, -3_500_000),
        normal: Vec3::new(0, 0, 1_000_000),
        material: wall_material,
    };
    let plane_wall = Plane {
        position: Vec3::new(0, 0, 4_000_000),
        normal: Vec3::new(0, 0, -1_000_000),
        material: wall_material,
    };

    let light1 = Light {
        position: Vec3::new(2_200_000, -6_000_000, 0),
        color: Vec3::new(1_000_000, 1_000_000, 1_000_000),
        force: 50_000_000,
    };
    let light2 = Light {
        position: Vec3::new(-2_200_000, -6_000_000, 2_000_000),
        color: Vec3::new(1_000_000, 1_000_000, 1_000_000),
        force: 39_000_000,
    };

    let lights = vec![light1, light2];
    let spheres = vec![sphere1, sphere2, sphere3];
    let planes = vec![
        plane_ceiling,
        plane_floor,
        plane_wall,
        plane_backwall,
        plane_left,
        plane_right,
    ];

    proof {
        assert(lights@ =~= spec_demo_lights());
        assert(spheres@ =~= spec_demo_spheres());
        assert(planes@ =~= spec_demo_planes());
    }

    Scene { lights, spheres, planes }
}

} // verus!
