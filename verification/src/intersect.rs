//! Ray/primitive intersection and closest-hit selection.

use vstd::prelude::*;
use crate::fx::{
    FX_MAX, fsub, fmul, fdiv, fsqrt, is_isqrt, lemma_isqrt_unique, spec_isqrt, spec_sub, spec_mul,
    spec_div, spec_sqrt,
};
use crate::scene::{HitM, Material, Plane, Ray, RayError, RayIntersection, RayM, Scene, Sphere};
use crate::vec3::{
    V3, Vec3, dot_exact, scale_exact, spec_v3_add, spec_v3_dot, spec_v3_muls, spec_v3_sub,
    spec_v3_unit, v3_zero,
};

verus! {

/// Hits at or below this parametric distance are rejected, so a bounced ray
/// cannot re-hit the surface it starts on at its origin.
pub const RAY_MIN_LENGTH: i64 = 0;

/// The miss sentinel distance: the largest representable scalar.
pub const INFINITY: i64 = FX_MAX;

/// Placeholder material carried by the miss sentinel.
pub open spec fn spec_miss_material() -> Material {
    Material {
        color: Vec3 { x: 0, y: 0, z: 0 },
        damping: 0,
        reflectivity: 0,
        refractivity: 0,
        ior: 0,
    }
}

/// The miss sentinel: an "infinitely" distant hit with a placeholder surface.
pub open spec fn spec_miss() -> HitM {
    HitM { t: INFINITY as int, normal: v3_zero(), material: spec_miss_material() }
}

/// Near-root intersection of a ray with a sphere: solve the quadratic in
/// sphere-local space and accept only the near root, and only at a positive
/// distance.  Rays starting inside the sphere get no exit hit.
pub open spec fn spec_intersect_sphere(ray: RayM, sphere: Sphere) -> Option<HitM> {
    let o = spec_v3_sub(ray.origin, sphere.position@);
    let d = ray.direction;
    let a = spec_v3_dot(d, d);
    let b = spec_mul(2_000_000, spec_v3_dot(d, o));
    let c = spec_sub(spec_v3_dot(o, o), spec_mul(sphere.radius as int, sphere.radius as int));
    let disc = spec_sub(spec_mul(b, b), spec_mul(spec_mul(4_000_000, a), c));
    if disc < 0 {
        None
    } else {
        let t1 = spec_div(spec_sub(spec_sub(0, b), spec_sqrt(disc)), spec_mul(2_000_000, a));
        if t1 > RAY_MIN_LENGTH as int {
            Some(
                HitM {
                    t: t1,
                    normal: spec_v3_unit(
                        spec_v3_sub(
                            spec_v3_add(ray.origin, spec_v3_muls(ray.direction, t1)),
                            sphere.position@,
                        ),
                    ),
                    material: sphere.material,
                },
            )
        } else {
            None
        }
    }
}

/// Intersection of a ray with a plane: a direction orthogonal to the normal
/// (parallel to the plane) never hits, and the solved distance must lie
/// strictly between the minimum length and the miss sentinel.
pub open spec fn spec_intersect_plane(ray: RayM, plane: Plane) -> Option<HitM> {
    let d_dot_n = spec_v3_dot(ray.direction, plane.normal@);
    if d_dot_n == 0 {
        None
    } else {
        let t = spec_div(
            spec_v3_dot(spec_v3_sub(plane.position@, ray.origin), plane.normal@),
            d_dot_n,
        );
        if t <= RAY_MIN_LENGTH as int || t >= INFINITY as int {
            None
        } else {
            Some(HitM { t, normal: plane.normal@, material: plane.material })
        }
    }
}

/// Keep the nearer of the best hit so far and a candidate.
pub open spec fn spec_better(best: HitM, cand: Option<HitM>) -> HitM {
    match cand {
        Some(h) => if h.t < best.t {
            h
        } else {
            best
        },
        None => best,
    }
}

pub open spec fn spec_trace_spheres(ray: RayM, spheres: Seq<Sphere>, best: HitM) -> HitM
    decreases spheres.len(),
{
    if spheres.len() == 0 {
        best
    } else {
        spec_trace_spheres(
            ray,
            spheres.drop_first(),
            spec_better(best, spec_intersect_sphere(ray, spheres.first())),
        )
    }
}

pub open spec fn spec_trace_planes(ray: RayM, planes: Seq<Plane>, best: HitM) -> HitM
    decreases planes.len(),
{
    if planes.len() == 0 {
        best
    } else {
        spec_trace_planes(
            ray,
            planes.drop_first(),
            spec_better(best, spec_intersect_plane(ray, planes.first())),
        )
    }
}

/// The globally closest valid hit: every sphere is tried, then every plane,
/// and the smallest parametric distance wins; the first candidate wins a tie.
pub open spec fn spec_trace(ray: RayM, spheres: Seq<Sphere>, planes: Seq<Plane>) -> HitM {
    spec_trace_planes(ray, planes, spec_trace_spheres(ray, spheres, spec_miss()))
}

pub fn intersect_sphere(ray: &Ray, sphere: &Sphere) -> (res: Result<RayIntersection, RayError>)
    ensures
        res is Ok <==> spec_intersect_sphere(ray@, *sphere) is Some,
        res matches Ok(hit) ==> spec_intersect_sphere(ray@, *sphere) == Some(hit@),
        res matches Ok(hit) ==> hit.t > RAY_MIN_LENGTH,
        res matches Err(e) ==> e == RayError::NoIntersections,
{
    let local_ray = Ray { origin: ray.origin.sub(&sphere.position), direction: ray.direction.clone() };

    let a = local_ray.direction.dot(&local_ray.direction);
    let b = fmul(2_000_000, local_ray.direction.dot(&local_ray.origin));
    let c = fsub(local_ray.origin.dot(&local_ray.origin), fmul(sphere.radius, sphere.radius));

    let discriminant = fsub(fmul(b, b), fmul(fmul(4_000_000, a), c));

    if discriminant < 0 {
        return Err(RayError::NoIntersections);
    }

    let t1 = fdiv(fsub(fsub(0, b), fsqrt(discriminant)), fmul(2_000_000, a));

    if t1 > RAY_MIN_LENGTH {
        Ok(
            RayIntersection {
                t: t1,
                normal: ray.origin.add(&ray.direction.mul_scalar(t1)).sub(&sphere.position).unit(),
                material: sphere.material,
            },
        )
    } else {
        Err(RayError::NoIntersections)
    }
}

pub fn intersect_plane(ray: &Ray, plane: &Plane) -> (res: Result<RayIntersection, RayError>)
    ensures
        res is Ok <==> spec_intersect_plane(ray@, *plane) is Some,
        res matches Ok(hit) ==> spec_intersect_plane(ray@, *plane) == Some(hit@),
        res matches Ok(hit) ==> RAY_MIN_LENGTH < hit.t < INFINITY,
        res matches Err(e) ==> e == RayError::NoIntersections,
        spec_v3_dot(ray@.direction, plane.normal@) == 0 ==> res is Err,
{
    let d_dot_n = ray.direction.dot(&plane.normal);

    if d_dot_n == 0 {
        return Err(RayError::NoIntersections);
    }

    let t = fdiv(plane.position.sub(&ray.origin).dot(&plane.normal), d_dot_n);

    if t <= RAY_MIN_LENGTH || t >= INFINITY {
        return Err(RayError::NoIntersections);
    }

    Ok(RayIntersection { t, normal: plane.normal.clone(), material: plane.material })
}

/// Test the ray against every sphere, then every plane, and keep the hit with
/// the smallest valid distance; the miss sentinel comes back when all miss.
pub fn trace(ray: &Ray, scene: &Scene) -> (r: RayIntersection)
    ensures
        r@ == spec_trace(ray@, scene.spheres@, scene.planes@),
        r.t <= INFINITY,
        forall|k: int|
            0 <= k < scene.spheres@.len() && spec_intersect_sphere(ray@, scene.spheres@[k])
                is Some ==> r.t as int <= spec_intersect_sphere(ray@, scene.spheres@[k])->0.t,
        forall|k: int|
            0 <= k < scene.planes@.len() && spec_intersect_plane(ray@, scene.planes@[k]) is Some
                ==> r.t as int <= spec_intersect_plane(ray@, scene.planes@[k])->0.t,
{
    proof {
        law_trace_closest(ray@, scene.spheres@, scene.planes@);
    }
    let mut closest_intersection = RayIntersection {
        t: INFINITY,
        normal: Vec3::new(0, 0, 0),
        material: Material {
            color: Vec3::new(0, 0, 0),
            damping: 0,
            reflectivity: 0,
            refractivity: 0,
            ior: 0,
        },
    };
    assert(closest_intersection@ == spec_miss());

    let ghost all_spheres = scene.spheres@;
    proof {
        assert(all_spheres.skip(0) =~= all_spheres);
    }
    let mut i: usize = 0;
    while i < scene.spheres.len()
        invariant
            i <= scene.spheres.len(),
            scene.spheres@ == all_spheres,
            spec_trace_spheres(ray@, all_spheres.skip(i as int), closest_intersection@)
                == spec_trace_spheres(ray@, all_spheres, spec_miss()),
        decreases scene.spheres.len() - i,
    {
        let ghost pre = closest_intersection@;
        let sphere = scene.spheres[i];
        match intersect_sphere(ray, &sphere) {
            Ok(intersection) => {
                if intersection.t < closest_intersection.t {
                    closest_intersection = intersection;
                }
            },
            _ => {},
        }
        proof {
            let rest = all_spheres.skip(i as int);
            assert(rest.first() == all_spheres[i as int]);
            assert(rest.drop_first() =~= all_spheres.skip(i as int + 1));
            assert(closest_intersection@
                == spec_better(pre, spec_intersect_sphere(ray@, all_spheres[i as int])));
        }
        i = i + 1;
    }
    proof {
        assert(all_spheres.skip(i as int) =~= Seq::<Sphere>::empty());
    }

    let ghost spheres_best = closest_intersection@;
    let ghost all_planes = scene.planes@;
    proof {
        assert(all_planes.skip(0) =~= all_planes);
    }
    let mut j: usize = 0;
    while j < scene.planes.len()
        invariant
            j <= scene.planes.len(),
            scene.planes@ == all_planes,
            spec_trace_planes(ray@, all_planes.skip(j as int), closest_intersection@)
                == spec_trace_planes(ray@, all_planes, spheres_best),
            spheres_best == spec_trace_spheres(ray@, all_spheres, spec_miss()),
            scene.spheres@ == all_spheres,
        decreases scene.planes.len() - j,
    {
        let ghost pre = closest_intersection@;
        let plane = scene.planes[j];
        match intersect_plane(ray, &plane) {
            Ok(intersection) => {
                if intersection.t < closest_intersection.t {
                    closest_intersection = intersection;
                }
            },
            _ => {},
        }
        proof {
            let rest = all_planes.skip(j as int);
            assert(rest.first() == all_planes[j as int]);
            assert(rest.drop_first() =~= all_planes.skip(j as int + 1));
            assert(closest_intersection@
                == spec_better(pre, spec_intersect_plane(ray@, all_planes[j as int])));
        }
        j = j + 1;
    }
    proof {
        assert(all_planes.skip(j as int) =~= Seq::<Plane>::empty());
    }

    closest_intersection
}

/// A ray parallel to a plane (direction orthogonal to the normal) never
/// intersects it.
pub proof fn lemma_parallel_ray_misses_plane(ray: RayM, plane: Plane)
    ensures
        spec_v3_dot(ray.direction, plane.normal@) == 0 ==> spec_intersect_plane(ray, plane)
            is None,
{
}

/// The selected hit is never farther than the best seen so far, nor than any
/// candidate hit of the remaining spheres, and is either the running best or
/// one of those candidates.
pub proof fn lemma_trace_spheres_min(ray: RayM, spheres: Seq<Sphere>, best: HitM)
    ensures
        spec_trace_spheres(ray, spheres, best).t <= best.t,
        forall|k: int|
            0 <= k < spheres.len() && spec_intersect_sphere(ray, spheres[k]) is Some
                ==> spec_trace_spheres(ray, spheres, best).t <= spec_intersect_sphere(
                ray,
                spheres[k],
            )->0.t,
        spec_trace_spheres(ray, spheres, best) == best || exists|k: int|
            0 <= k < spheres.len() && spec_intersect_sphere(ray, spheres[k]) == Some(
                spec_trace_spheres(ray, spheres, best),
            ),
    decreases spheres.len(),
{
    if spheres.len() > 0 {
        let stepped = spec_better(best, spec_intersect_sphere(ray, spheres.first()));
        lemma_trace_spheres_min(ray, spheres.drop_first(), stepped);
        let r = spec_trace_spheres(ray, spheres, best);
        assert forall|k: int|
            0 <= k < spheres.len() && spec_intersect_sphere(ray, spheres[k]) is Some implies r.t
            <= spec_intersect_sphere(ray, spheres[k])->0.t by {
            if k > 0 {
                assert(spheres.drop_first()[k - 1] == spheres[k]);
            }
        }
        if r != best {
            if r == stepped && stepped != best {
                assert(spec_intersect_sphere(ray, spheres[0]) == Some(r));
            } else {
                let k = choose|k: int|
                    0 <= k < spheres.drop_first().len() && spec_intersect_sphere(
                        ray,
                        spheres.drop_first()[k],
                    ) == Some(r);
                assert(spheres.drop_first()[k] == spheres[k + 1]);
            }
        }
    }
}

/// The same minimality statement for the plane pass.
pub proof fn lemma_trace_planes_min(ray: RayM, planes: Seq<Plane>, best: HitM)
    ensures
        spec_trace_planes(ray, planes, best).t <= best.t,
        forall|k: int|
            0 <= k < planes.len() && spec_intersect_plane(ray, planes[k]) is Some
                ==> spec_trace_planes(ray, planes, best).t <= spec_intersect_plane(
                ray,
                planes[k],
            )->0.t,
        spec_trace_planes(ray, planes, best) == best || exists|k: int|
            0 <= k < planes.len() && spec_intersect_plane(ray, planes[k]) == Some(
                spec_trace_planes(ray, planes, best),
            ),
    decreases planes.len(),
{
    if planes.len() > 0 {
        let stepped = spec_better(best, spec_intersect_plane(ray, planes.first()));
        lemma_trace_planes_min(ray, planes.drop_first(), stepped);
        let r = spec_trace_planes(ray, planes, best);
        assert forall|k: int|
            0 <= k < planes.len() && spec_intersect_plane(ray, planes[k]) is Some implies r.t
            <= spec_intersect_plane(ray, planes[k])->0.t by {
            if k > 0 {
                assert(planes.drop_first()[k - 1] == planes[k]);
            }
        }
        if r != best {
            if r == stepped && stepped != best {
                assert(spec_intersect_plane(ray, planes[0]) == Some(r));
            } else {
                let k = choose|k: int|
                    0 <= k < planes.drop_first().len() && spec_intersect_plane(
                        ray,
                        planes.drop_first()[k],
                    ) == Some(r);
                assert(planes.drop_first()[k] == planes[k + 1]);
            }
        }
    }
}

/// The traced hit is the global closest: no sphere or plane the ray validly
/// intersects lies nearer, and the result is the miss sentinel or one of the
/// candidates.
pub proof fn law_trace_closest(ray: RayM, spheres: Seq<Sphere>, planes: Seq<Plane>)
    ensures
        spec_trace(ray, spheres, planes).t <= INFINITY as int,
        forall|k: int|
            0 <= k < spheres.len() && spec_intersect_sphere(ray, spheres[k]) is Some
                ==> spec_trace(ray, spheres, planes).t <= spec_intersect_sphere(
                ray,
                spheres[k],
            )->0.t,
        forall|k: int|
            0 <= k < planes.len() && spec_intersect_plane(ray, planes[k]) is Some ==> spec_trace(
                ray,
                spheres,
                planes,
            ).t <= spec_intersect_plane(ray, planes[k])->0.t,
        spec_trace(ray, spheres, planes) == spec_miss() || (exists|k: int|
            0 <= k < spheres.len() && spec_intersect_sphere(ray, spheres[k]) == Some(
                spec_trace(ray, spheres, planes),
            )) || (exists|k: int|
            0 <= k < planes.len() && spec_intersect_plane(ray, planes[k]) == Some(
                spec_trace(ray, spheres, planes),
            )),
{
    let sb = spec_trace_spheres(ray, spheres, spec_miss());
    lemma_trace_spheres_min(ray, spheres, spec_miss());
    lemma_trace_planes_min(ray, planes, sb);
}

/// For the exact (unrounded) quadratic of the sphere test: a ray whose unit
/// direction points at the sphere's center from distance `d` meets a sphere
/// of radius `r < d` at the near root `d - r`.
pub proof fn lemma_sphere_hit_distance_exact(dir: V3, d: int, r: int)
    requires
        dot_exact(dir, dir) == 1,
        0 <= r < d,
    ensures
        ({
            let o = scale_exact(dir, -d);
            let b = 2 * dot_exact(dir, o);
            let c = dot_exact(o, o) - r * r;
            let disc = b * b - 4 * dot_exact(dir, dir) * c;
            disc == 4 * r * r && (0 - b - spec_isqrt(disc)) / (2 * dot_exact(dir, dir)) == d - r
        }),
{
    let o = scale_exact(dir, -d);
    assert(dot_exact(dir, o) == -d && dot_exact(o, o) == d * d) by (nonlinear_arith)
        requires
            o.x == dir.x * -d,
            o.y == dir.y * -d,
            o.z == dir.z * -d,
            dir.x * dir.x + dir.y * dir.y + dir.z * dir.z == 1,
    ;
    let b = 2 * dot_exact(dir, o);
    let c = dot_exact(o, o) - r * r;
    let disc = b * b - 4 * dot_exact(dir, dir) * c;
    assert(disc == 4 * r * r) by (nonlinear_arith)
        requires
            b == -2 * d,
            c == d * d - r * r,
            disc == b * b - 4 * c,
    ;
    assert(is_isqrt(disc, 2 * r)) by (nonlinear_arith)
        requires
            disc == 4 * r * r,
            r >= 0,
    ;
    assert(is_isqrt(disc, spec_isqrt(disc))) by {
        assert(exists|w: int| is_isqrt(disc, w)) by {
            assert(is_isqrt(disc, 2 * r));
        }
    }
    lemma_isqrt_unique(disc, 2 * r, spec_isqrt(disc));
    assert((2 * (d - r)) / 2 == d - r) by {
        vstd::arithmetic::div_mod::lemma_div_multiples_vanish(d - r, 2);
    }
}

/// Tie-break between one sphere and one plane both hit by the same ray: the
/// strictly smaller parametric distance wins, here the sphere's, so the
/// traced hit carries the sphere's material and normal.
pub proof fn law_trace_tiebreak(ray: RayM, sphere: Sphere, plane: Plane, hs: HitM, hp: HitM)
    requires
        spec_intersect_sphere(ray, sphere) == Some(hs),
        spec_intersect_plane(ray, plane) == Some(hp),
        hs.t < hp.t,
    ensures
        spec_trace(ray, seq![sphere], seq![plane]) == hs,
{
    let ss = seq![sphere];
    let ps = seq![plane];
    assert(ss.drop_first() =~= Seq::<Sphere>::empty());
    assert(ps.drop_first() =~= Seq::<Plane>::empty());
    assert(hs.t < INFINITY as int);
    assert(ss.first() == sphere);
    assert(spec_better(spec_miss(), spec_intersect_sphere(ray, ss.first())) == hs);
    assert(spec_trace_spheres(ray, Seq::<Sphere>::empty(), hs) == hs);
    assert(spec_trace_spheres(ray, ss, spec_miss()) == hs);
    assert(ps.first() == plane);
    assert(spec_better(hs, spec_intersect_plane(ray, ps.first())) == hs);
    assert(spec_trace_planes(ray, Seq::<Plane>::empty(), hs) == hs);
    assert(spec_trace_planes(ray, ps, hs) == hs);
}

} // verus!
