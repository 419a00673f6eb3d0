//! The recursive shading integrator: local lighting with shadow tests plus a
//! bounded reflection/refraction bounce loop.

use vstd::prelude::*;
use crate::fx::{
    SCALE, fadd, fmul, fdiv, fpow, fmax0, spec_add, spec_mul, spec_div, spec_pow, spec_max0,
};
use crate::intersect::{INFINITY, spec_trace, trace};
use crate::scene::{
    Camera, Color, HitM, IOR_AIR, Light, Plane, Ray, RayM, Scene, Sphere, create_ray_from_camera,
    spec_camera_ray,
};
use crate::vec2::Vec2;
use crate::vec3::{
    V3, Vec3, spec_v3_add, spec_v3_adds, spec_v3_dot, spec_v3_mix, spec_v3_muls, spec_v3_reflect,
    spec_v3_refract, spec_v3_sub, spec_v3_unit, v3, v3_zero,
};

verus! {

/// Background color each path starts from.
pub open spec fn spec_background() -> V3 {
    v3(100_000, 100_000, 110_000)
}

/// A path whose weight falls below this threshold is cut off.
pub const FRAC_CUTOFF: i64 = 10_000;

/// Most bounces a single path may take.
pub const MAX_BOUNCES: u32 = 6;

/// What one pass over the lights accumulates at a hit point.
pub ghost struct LightAcc {
    pub diffuse: V3,
    pub specular: V3,
    /// Weight the continuation ray would carry: the product over the lights
    /// of the chosen material coefficient.
    pub next_frac: int,
    pub next_ray: Option<RayM>,
    /// True when the material neither reflects nor refracts, ending the path.
    pub terminated: bool,
}

pub open spec fn spec_lights_start() -> LightAcc {
    LightAcc {
        diffuse: v3_zero(),
        specular: v3_zero(),
        next_frac: SCALE as int,
        next_ray: None,
        terminated: false,
    }
}

/// One light's contribution at a hit point, folded onto the running
/// accumulator: an ambient term faded by squared distance, a diffuse term
/// gated by a shadow ray, a specular term against the (unnormalized) viewing
/// direction, and the choice of the continuation ray — reflection wins over
/// refraction; neither terminates the path.
pub open spec fn spec_light_step(
    acc: LightAcc,
    light: Light,
    spheres: Seq<Sphere>,
    planes: Seq<Plane>,
    ray: RayM,
    isect: HitM,
    hit_point: V3,
) -> LightAcc {
    let to_light = spec_v3_sub(light.position@, hit_point);
    let light_dir = spec_v3_unit(to_light);
    let dst_sq = spec_v3_dot(to_light, to_light);
    let fade = spec_div(SCALE as int, dst_sq);
    let shadow_ray = RayM {
        origin: spec_v3_add(hit_point, spec_v3_muls(isect.normal, 1000)),
        direction: spec_v3_unit(light_dir),
    };
    let li = spec_trace(shadow_ray, spheres, planes);
    let base = spec_mul(200_000, fade);
    let brightness = if spec_mul(li.t, li.t) > dst_sq {
        spec_add(
            base,
            spec_mul(
                spec_mul(800_000, spec_max0(spec_v3_dot(isect.normal, light_dir))),
                spec_mul(light.force as int, fade),
            ),
        )
    } else {
        base
    };
    let diffuse = spec_v3_add(acc.diffuse, spec_v3_muls(isect.material.color@, brightness));
    let reflected_light = spec_v3_reflect(light_dir, isect.normal);
    let spec_factor = spec_max0(spec_v3_dot(reflected_light, ray.direction));
    let damped = spec_pow(spec_factor, isect.material.damping as nat);
    let specular = spec_v3_adds(acc.specular, spec_mul(damped, fade));
    if isect.material.reflectivity > 0 {
        LightAcc {
            diffuse,
            specular,
            next_frac: spec_mul(acc.next_frac, isect.material.reflectivity as int),
            next_ray: Some(
                RayM {
                    origin: hit_point,
                    direction: spec_v3_reflect(ray.direction, isect.normal),
                },
            ),
            terminated: acc.terminated,
        }
    } else if isect.material.refractivity > 0 {
        LightAcc {
            diffuse,
            specular,
            next_frac: spec_mul(acc.next_frac, isect.material.refractivity as int),
            next_ray: Some(
                RayM {
                    origin: spec_v3_add(hit_point, spec_v3_muls(ray.direction, 100)),
                    direction: spec_v3_refract(
                        ray.direction,
                        isect.normal,
                        spec_div(IOR_AIR as int, isect.material.ior as int),
                    ),
                },
            ),
            terminated: acc.terminated,
        }
    } else {
        LightAcc {
            diffuse,
            specular,
            next_frac: acc.next_frac,
            next_ray: acc.next_ray,
            terminated: true,
        }
    }
}

/// Fold [`spec_light_step`] over the lights in order.
pub open spec fn spec_lights(
    lights: Seq<Light>,
    spheres: Seq<Sphere>,
    planes: Seq<Plane>,
    ray: RayM,
    isect: HitM,
    hit_point: V3,
) -> LightAcc
    decreases lights.len(),
{
    if lights.len() == 0 {
        spec_lights_start()
    } else {
        spec_light_step(
            spec_lights(lights.drop_last(), spheres, planes, ray, isect, hit_point),
            lights.last(),
            spheres,
            planes,
            ray,
            isect,
            hit_point,
        )
    }
}

/// One bounce: trace the ray; on a miss the accumulated color stands.  On a
/// hit, shade it against every light, fade the lit color toward black by the
/// material's refractivity, add it weighted by the path's weight, and follow
/// the continuation ray while fuel remains, the weight stays above the
/// cutoff, and the material continues the path.
pub open spec fn spec_bounce(
    ray: RayM,
    lights: Seq<Light>,
    spheres: Seq<Sphere>,
    planes: Seq<Plane>,
    frac: int,
    acc: V3,
    fuel: nat,
) -> V3
    decreases fuel,
{
    if fuel == 0 {
        acc
    } else {
        let isect = spec_trace(ray, spheres, planes);
        if isect.t >= INFINITY as int {
            acc
        } else {
            let hit_point = spec_v3_add(ray.origin, spec_v3_muls(ray.direction, isect.t));
            let la = spec_lights(lights, spheres, planes, ray, isect, hit_point);
            let shaded = spec_v3_mix(
                spec_v3_add(la.diffuse, la.specular),
                v3_zero(),
                isect.material.refractivity as int,
            );
            let acc2 = spec_v3_add(acc, spec_v3_muls(shaded, frac));
            if la.terminated || frac < FRAC_CUTOFF as int {
                acc2
            } else {
                match la.next_ray {
                    Some(next) => spec_bounce(
                        next,
                        lights,
                        spheres,
                        planes,
                        la.next_frac,
                        acc2,
                        (fuel - 1) as nat,
                    ),
                    None => acc2,
                }
            }
        }
    }
}

pub open spec fn spec_clamp_channel(v: int) -> int {
    if v > SCALE as int {
        SCALE as int
    } else {
        v
    }
}

/// The final color of a primary ray: the bounce fold from the background,
/// each channel clamped to at most one.
pub open spec fn spec_trace_ray(
    ray: RayM,
    lights: Seq<Light>,
    spheres: Seq<Sphere>,
    planes: Seq<Plane>,
) -> V3 {
    let f = spec_bounce(
        ray,
        lights,
        spheres,
        planes,
        SCALE as int,
        spec_background(),
        MAX_BOUNCES as nat,
    );
    v3(spec_clamp_channel(f.x), spec_clamp_channel(f.y), spec_clamp_channel(f.z))
}

impl View for Color {
    type V = V3;

    open spec fn view(&self) -> V3 {
        v3(self.r as int, self.g as int, self.b as int)
    }
}

/// Shade one primary ray through up to [`MAX_BOUNCES`] bounces.
#[verifier::loop_isolation(false)]
#[verifier::rlimit(100)]
pub fn trace_ray(initial_ray: Ray, scene: &Scene) -> (c: Color)
    ensures
        c@ == spec_trace_ray(initial_ray@, scene.lights@, scene.spheres@, scene.planes@),
{
    let ghost lights = scene.lights@;
    let ghost spheres = scene.spheres@;
    let ghost planes = scene.planes@;
    let ghost goal = spec_bounce(
        initial_ray@,
        lights,
        spheres,
        planes,
        SCALE as int,
        spec_background(),
        MAX_BOUNCES as nat,
    );

    let mut final_color = Vec3::new(100_000, 100_000, 110_000);
    let mut frac: i64 = SCALE;
    let mut ray = initial_ray;
    let mut bounce: u32 = 0;
    let mut done = false;

    while !done && bounce < MAX_BOUNCES
        invariant
            bounce <= MAX_BOUNCES,
            !done ==> spec_bounce(
                ray@,
                lights,
                spheres,
                planes,
                frac as int,
                final_color@,
                (MAX_BOUNCES - bounce) as nat,
            ) == goal,
            done ==> final_color@ == goal,
        decreases MAX_BOUNCES - bounce,
    {
        let mut next_ray_opt: Option<Ray> = None;
        let mut next_frac: i64 = SCALE;
        let mut break_bounce_loop = false;
        let intersection = trace(&ray, scene);

        if intersection.t >= INFINITY {
            break_bounce_loop = true;
        } else {
            let ray_hit = ray.origin.add(&ray.direction.mul_scalar(intersection.t));
            let mut diffuse = Vec3::new(0, 0, 0);
            let mut specular = Vec3::new(0, 0, 0);
            let refraction = Vec3::new(0, 0, 0);

            proof {
                assert(lights.take(0) =~= Seq::<Light>::empty());
            }
            let mut l: usize = 0;
            while l < scene.lights.len()
                invariant
                    l <= scene.lights.len(),
                    ({
                        let la = spec_lights(
                            lights.take(l as int),
                            spheres,
                            planes,
                            ray@,
                            intersection@,
                            ray_hit@,
                        );
                        &&& diffuse@ == la.diffuse
                        &&& specular@ == la.specular
                        &&& next_frac as int == la.next_frac
                        &&& break_bounce_loop == la.terminated
                        &&& (match (next_ray_opt, la.next_ray) {
                            (Some(er), Some(mr)) => er@ == mr,
                            (None, None) => true,
                            _ => false,
                        })
                    }),
                decreases scene.lights.len() - l,
            {
                let ghost la_pre = spec_lights(
                    lights.take(l as int),
                    spheres,
                    planes,
                    ray@,
                    intersection@,
                    ray_hit@,
                );
                let light = scene.lights[l];

                let ray_hit_to_light = light.position.sub(&ray_hit);
                let light_direction = ray_hit_to_light.unit();
                let light_dst_sq = ray_hit_to_light.dot(&ray_hit_to_light);
                let distance_fade = fdiv(SCALE, light_dst_sq);

                let mut brightness = fmul(200_000, distance_fade);

                let light_ray = Ray {
                    origin: ray_hit.add(&intersection.normal.mul_scalar(1000)),
                    direction: light_direction.unit(),
                };
                let light_intersection = trace(&light_ray, scene);

                if fmul(light_intersection.t, light_intersection.t) > light_dst_sq {
                    let light_on_surface = fmax0(intersection.normal.dot(&light_direction));
                    brightness = fadd(
                        brightness,
                        fmul(
                            fmul(800_000, light_on_surface),
                            fmul(light.force, distance_fade),
                        ),
                    );
                }

                diffuse = diffuse.add(&intersection.material.color.mul_scalar(brightness));

                let reflected_light_direction = light_direction.reflect(&intersection.normal);
                let specular_factor = fmax0(reflected_light_direction.dot(&ray.direction));
                let damped_specular = fpow(specular_factor, intersection.material.damping);
                specular = specular.add_scalar(fmul(damped_specular, distance_fade));

                if intersection.material.reflectivity > 0 {
                    next_ray_opt = Some(
                        Ray {
                            origin: ray_hit.clone(),
                            direction: ray.direction.reflect(&intersection.normal),
                        },
                    );
                    next_frac = fmul(next_frac, intersection.material.reflectivity);
                } else if intersection.material.refractivity > 0 {
                    next_ray_opt = Some(
                        Ray {
                            origin: ray_hit.add(&ray.direction.mul_scalar(100)),
                            direction: ray.direction.refract(
                                &intersection.normal,
                                fdiv(IOR_AIR, intersection.material.ior),
                            ),
                        },
                    );
                    next_frac = fmul(next_frac, intersection.material.refractivity);
                } else {
                    break_bounce_loop = true;
                }

                proof {
                    assert(lights.take(l as int + 1).drop_last() =~= lights.take(l as int));
                    assert(lights.take(l as int + 1).last() == lights[l as int]);
                    assert(spec_lights(
                        lights.take(l as int + 1),
                        spheres,
                        planes,
                        ray@,
                        intersection@,
                        ray_hit@,
                    ) == spec_light_step(
                        la_pre,
                        lights[l as int],
                        spheres,
                        planes,
                        ray@,
                        intersection@,
                        ray_hit@,
                    ));
                }
                l = l + 1;
            }
            proof {
                assert(lights.take(l as int) =~= lights);
            }

            let diff_spec_refrac = diffuse.add(&specular).mix(
                &refraction,
                intersection.material.refractivity,
            );
            final_color = final_color.add(&diff_spec_refrac.mul_scalar(frac));
        }

        if break_bounce_loop || frac < FRAC_CUTOFF {
            done = true;
        } else {
            match next_ray_opt {
                Some(next_ray_safe) => {
                    frac = next_frac;
                    ray = next_ray_safe;
                },
                None => {
                    done = true;
                },
            }
        }
        bounce = bounce + 1;
    }

    let r = if final_color.x > SCALE {
        SCALE
    } else {
        final_color.x
    };
    let g = if final_color.y > SCALE {
        SCALE
    } else {
        final_color.y
    };
    let b = if final_color.z > SCALE {
        SCALE
    } else {
        final_color.z
    };
    Color { r, g, b }
}

/// The color a camera sees through one normalized screen coordinate.
pub open spec fn spec_render_pixel(
    camera: Camera,
    px: Vec2,
    lights: Seq<Light>,
    spheres: Seq<Sphere>,
    planes: Seq<Plane>,
) -> V3 {
    spec_trace_ray(spec_camera_ray(camera, px), lights, spheres, planes)
}

pub fn render_pixel(normalized_pixel: Vec2, camera: &Camera, scene: &Scene) -> (c: Color)
    ensures
        c@ == spec_render_pixel(
            *camera,
            normalized_pixel,
            scene.lights@,
            scene.spheres@,
            scene.planes@,
        ),
{
    let camera_ray = create_ray_from_camera(camera, &normalized_pixel);
    trace_ray(camera_ray, scene)
}

} // verus!
