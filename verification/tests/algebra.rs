use raytracer::fx::{FX_MAX, SCALE, fadd, fdiv, fmax0, fmul, fpow, fsqrt, fsub};
use raytracer::vec3::Vec3;

#[test]
fn scalar_add_sub_exact() {
    assert_eq!(fadd(1_500_000, 2_500_000), 4_000_000);
    assert_eq!(fsub(1_500_000, 2_500_000), -1_000_000);
}

#[test]
fn scalar_add_saturates_at_band_edge() {
    assert_eq!(fadd(FX_MAX, FX_MAX), FX_MAX);
    assert_eq!(fsub(-FX_MAX, FX_MAX), -FX_MAX);
    assert_eq!(fmul(FX_MAX, FX_MAX), FX_MAX);
}

#[test]
fn scalar_mul_rescales_and_truncates_toward_zero() {
    assert_eq!(fmul(1_500_000, 2_000_000), 3_000_000);
    assert_eq!(fmul(1, 1), 0);
    // -1.5 * 0.000333 = -0.0004995; toward zero gives -499, not -500.
    assert_eq!(fmul(-1_500_000, 333), -499);
}

#[test]
fn scalar_div_rescales_and_truncates_toward_zero() {
    assert_eq!(fdiv(1_000_000, 3_000_000), 333_333);
    assert_eq!(fdiv(-1_000_000, 3_000_000), -333_333);
    assert_eq!(fdiv(1_000_000, -3_000_000), -333_333);
    assert_eq!(fdiv(6_000_000, 2_000_000), 3_000_000);
}

#[test]
fn scalar_div_by_zero_saturates() {
    assert_eq!(fdiv(5, 0), FX_MAX);
    assert_eq!(fdiv(-5, 0), -FX_MAX);
    assert_eq!(fdiv(0, 0), 0);
}

#[test]
fn scalar_sqrt_exact_and_rounded() {
    assert_eq!(fsqrt(4_000_000), 2_000_000);
    assert_eq!(fsqrt(1_000_000), 1_000_000);
    assert_eq!(fsqrt(2_000_000), 1_414_213);
    assert_eq!(fsqrt(0), 0);
    assert_eq!(fsqrt(-5), 0);
}

#[test]
fn scalar_pow_by_repeated_multiplication() {
    assert_eq!(fpow(2_000_000, 10), 1_024_000_000);
    assert_eq!(fpow(123_456, 0), SCALE);
    assert_eq!(fpow(500_000, 2), 250_000);
    assert_eq!(fmax0(-7), 0);
    assert_eq!(fmax0(7), 7);
}

#[test]
fn vector_componentwise_ops() {
    let a = Vec3::new(1_000_000, 2_000_000, -3_000_000);
    let b = Vec3::new(500_000, -1_000_000, 2_000_000);
    assert_eq!(a.add(&b), Vec3::new(1_500_000, 1_000_000, -1_000_000));
    assert_eq!(a.sub(&b), Vec3::new(500_000, 3_000_000, -5_000_000));
    assert_eq!(a.mul(&b), Vec3::new(500_000, -2_000_000, -6_000_000));
    assert_eq!(a.div(&b), Vec3::new(2_000_000, -2_000_000, -1_500_000));
    assert_eq!(a.mul_scalar(2_000_000), Vec3::new(2_000_000, 4_000_000, -6_000_000));
    assert_eq!(a.div_scalar(2_000_000), Vec3::new(500_000, 1_000_000, -1_500_000));
    assert_eq!(a.add_scalar(1_000_000), Vec3::new(2_000_000, 3_000_000, -2_000_000));
    assert_eq!(a.sub_scalar(1_000_000), Vec3::new(0, 1_000_000, -4_000_000));
    assert_eq!(a.clone(), a);
}

#[test]
fn dot_and_cross_products() {
    let a = Vec3::new(1_000_000, 0, 0);
    let b = Vec3::new(0, 1_000_000, 0);
    assert_eq!(a.dot(&b), 0);
    assert_eq!(a.cross(&b), Vec3::new(0, 0, 1_000_000));
    let c = Vec3::new(600_000, 800_000, 0);
    assert_eq!(c.dot(&c), 1_000_000);
}

#[test]
fn unit_of_nonzero_vector_has_magnitude_one_within_tolerance() {
    // An exactly representable case: (3, 4, 0) / 5.
    let v = Vec3::new(3_000_000, 4_000_000, 0);
    let u = v.unit();
    assert_eq!(u, Vec3::new(600_000, 800_000, 0));
    assert_eq!(u.mag(), 1_000_000);

    // A case with rounding: the magnitude stays within tolerance of one.
    let w = Vec3::new(1_000_000, 1_000_000, 0);
    let uw = w.unit();
    let m = uw.mag();
    assert!((m - 1_000_000).abs() <= 10, "magnitude was {m}");
}

#[test]
fn unit_of_zero_vector_is_zero_vector() {
    let z = Vec3::new(0, 0, 0);
    assert_eq!(z.unit(), Vec3::new(0, 0, 0));
    assert_eq!(z.mag(), 0);
}

#[test]
fn reflect_preserves_incidence_angle_against_unit_normal() {
    let v = Vec3::new(600_000, 800_000, 0);
    let n = Vec3::new(0, 1_000_000, 0);
    let r = v.reflect(&n);
    assert_eq!(r, Vec3::new(600_000, -800_000, 0));
    assert_eq!(r.dot(&n), -v.dot(&n));
}

#[test]
fn refract_returns_zero_vector_at_total_internal_reflection() {
    // Grazing incidence with eta = 2: k = 1 - 4 < 0.
    let i = Vec3::new(1_000_000, 0, 0);
    let n = Vec3::new(0, 1_000_000, 0);
    assert_eq!(i.refract(&n, 2_000_000), Vec3::new(0, 0, 0));
}

#[test]
fn refract_bends_the_ray_when_no_total_internal_reflection() {
    // Head-on incidence: k = 1, the ray passes straight through.
    let i = Vec3::new(0, -1_000_000, 0);
    let n = Vec3::new(0, 1_000_000, 0);
    let r = i.refract(&n, 500_000);
    assert_eq!(r, Vec3::new(0, -1_000_000, 0));
    assert_ne!(r, Vec3::new(0, 0, 0));
}

#[test]
fn mix_interpolates_componentwise() {
    let a = Vec3::new(1_000_000, 0, 2_000_000);
    let b = Vec3::new(0, 1_000_000, 0);
    assert_eq!(a.mix(&b, 0), a);
    assert_eq!(a.mix(&b, 1_000_000), b);
    assert_eq!(a.mix(&b, 500_000), Vec3::new(500_000, 500_000, 1_000_000));
}

#[test]
fn magnitude_of_axis_scaled_vector() {
    let v = Vec3::new(0, 0, -5_000_000);
    assert_eq!(v.mag(), 5_000_000);
}
