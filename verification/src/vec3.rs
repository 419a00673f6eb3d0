//! Three-component fixed-point vectors and their algebra.
//!
//! Every executable operation is pinned to a spec-level counterpart over
//! [`V3`], the mathematical view of a vector: its raw components as
//! unbounded integers.

use vstd::prelude::*;
use crate::fx::{
    SCALE, fadd, fsub, fmul, fdiv, fsqrt, spec_add, spec_sub, spec_mul, spec_div, spec_sqrt,
};

verus! {

/// Mathematical view of a vector: the raw fixed-point components as integers.
pub ghost struct V3 {
    pub x: int,
    pub y: int,
    pub z: int,
}

pub open spec fn v3(x: int, y: int, z: int) -> V3 {
    V3 { x, y, z }
}

pub open spec fn v3_zero() -> V3 {
    v3(0, 0, 0)
}

pub open spec fn spec_v3_add(a: V3, b: V3) -> V3 {
    v3(spec_add(a.x, b.x), spec_add(a.y, b.y), spec_add(a.z, b.z))
}

pub open spec fn spec_v3_sub(a: V3, b: V3) -> V3 {
    v3(spec_sub(a.x, b.x), spec_sub(a.y, b.y), spec_sub(a.z, b.z))
}

pub open spec fn spec_v3_mul(a: V3, b: V3) -> V3 {
    v3(spec_mul(a.x, b.x), spec_mul(a.y, b.y), spec_mul(a.z, b.z))
}

pub open spec fn spec_v3_div(a: V3, b: V3) -> V3 {
    v3(spec_div(a.x, b.x), spec_div(a.y, b.y), spec_div(a.z, b.z))
}

pub open spec fn spec_v3_adds(a: V3, s: int) -> V3 {
    v3(spec_add(a.x, s), spec_add(a.y, s), spec_add(a.z, s))
}

pub open spec fn spec_v3_subs(a: V3, s: int) -> V3 {
    v3(spec_sub(a.x, s), spec_sub(a.y, s), spec_sub(a.z, s))
}

pub open spec fn spec_v3_muls(a: V3, s: int) -> V3 {
    v3(spec_mul(a.x, s), spec_mul(a.y, s), spec_mul(a.z, s))
}

pub open spec fn spec_v3_divs(a: V3, s: int) -> V3 {
    v3(spec_div(a.x, s), spec_div(a.y, s), spec_div(a.z, s))
}

/// Fixed-point dot product, summed left to right.
pub open spec fn spec_v3_dot(a: V3, b: V3) -> int {
    spec_add(spec_add(spec_mul(a.x, b.x), spec_mul(a.y, b.y)), spec_mul(a.z, b.z))
}

pub open spec fn spec_v3_cross(a: V3, b: V3) -> V3 {
    v3(
        spec_sub(spec_mul(a.y, b.z), spec_mul(a.z, b.y)),
        spec_sub(spec_mul(a.z, b.x), spec_mul(a.x, b.z)),
        spec_sub(spec_mul(a.x, b.y), spec_mul(a.y, b.x)),
    )
}

pub open spec fn spec_v3_mag(a: V3) -> int {
    spec_sqrt(spec_v3_dot(a, a))
}

/// Normalization: divide by the magnitude, or yield the zero vector when the
/// magnitude rounds to nothing, so no division by zero can arise.
pub open spec fn spec_v3_unit(a: V3) -> V3 {
    let m = spec_v3_mag(a);
    if m > 0 {
        spec_v3_divs(a, m)
    } else {
        v3_zero()
    }
}

/// Mirror the incident vector about the normal.
pub open spec fn spec_v3_reflect(v: V3, n: V3) -> V3 {
    spec_v3_sub(v, spec_v3_muls(spec_v3_muls(n, 2 * SCALE as int), spec_v3_dot(v, n)))
}

/// Snell's-law radicand: negative exactly at total internal reflection.
pub open spec fn spec_refract_k(i: V3, n: V3, eta: int) -> int {
    let ndi = spec_v3_dot(n, i);
    spec_sub(
        SCALE as int,
        spec_mul(spec_mul(eta, eta), spec_sub(SCALE as int, spec_mul(ndi, ndi))),
    )
}

/// Snell's-law refraction; total internal reflection yields the zero vector.
pub open spec fn spec_v3_refract(i: V3, n: V3, eta: int) -> V3 {
    let ndi = spec_v3_dot(n, i);
    let k = spec_refract_k(i, n, eta);
    if k < 0 {
        v3_zero()
    } else {
        spec_v3_sub(
            spec_v3_muls(i, eta),
            spec_v3_muls(n, spec_add(spec_mul(eta, ndi), spec_sqrt(k))),
        )
    }
}

/// Component-wise linear interpolation from `a` toward `b`.
pub open spec fn spec_v3_mix(a: V3, b: V3, ratio: int) -> V3 {
    v3(
        spec_add(a.x, spec_mul(spec_sub(b.x, a.x), ratio)),
        spec_add(a.y, spec_mul(spec_sub(b.y, a.y), ratio)),
        spec_add(a.z, spec_mul(spec_sub(b.z, a.z), ratio)),
    )
}

#[derive(Clone, Copy, PartialEq, Eq, Structural, Debug)]
pub struct Vec3 {
    pub x: i64,
    pub y: i64,
    pub z: i64,
}

impl View for Vec3 {
    type V = V3;

    open spec fn view(&self) -> V3 {
        v3(self.x as int, self.y as int, self.z as int)
    }
}

impl Vec3 {
    pub fn new(x: i64, y: i64, z: i64) -> (v: Vec3)
        ensures
            v@ == v3(x as int, y as int, z as int),
    {
        Vec3 { x, y, z }
    }

    pub fn clone(&self) -> (v: Vec3)
        ensures
            v == *self,
    {
        Vec3 { x: self.x, y: self.y, z: self.z }
    }

    pub fn add(&self, other: &Vec3) -> (r: Vec3)
        ensures
            r@ == spec_v3_add(self@, other@),
    {
        Vec3 { x: fadd(self.x, other.x), y: fadd(self.y, other.y), z: fadd(self.z, other.z) }
    }

    pub fn sub(&self, other: &Vec3) -> (r: Vec3)
        ensures
            r@ == spec_v3_sub(self@, other@),
    {
        Vec3 { x: fsub(self.x, other.x), y: fsub(self.y, other.y), z: fsub(self.z, other.z) }
    }

    pub fn mul(&self, other: &Vec3) -> (r: Vec3)
        ensures
            r@ == spec_v3_mul(self@, other@),
    {
        Vec3 { x: fmul(self.x, other.x), y: fmul(self.y, other.y), z: fmul(self.z, other.z) }
    }

    pub fn div(&self, other: &Vec3) -> (r: Vec3)
        ensures
            r@ == spec_v3_div(self@, other@),
    {
        Vec3 { x: fdiv(self.x, other.x), y: fdiv(self.y, other.y), z: fdiv(self.z, other.z) }
    }

    pub fn add_scalar(&self, s: i64) -> (r: Vec3)
        ensures
            r@ == spec_v3_adds(self@, s as int),
    {
        Vec3 { x: fadd(self.x, s), y: fadd(self.y, s), z: fadd(self.z, s) }
    }

    pub fn sub_scalar(&self, s: i64) -> (r: Vec3)
        ensures
            r@ == spec_v3_subs(self@, s as int),
    {
        Vec3 { x: fsub(self.x, s), y: fsub(self.y, s), z: fsub(self.z, s) }
    }

    pub fn mul_scalar(&self, s: i64) -> (r: Vec3)
        ensures
            r@ == spec_v3_muls(self@, s as int),
    {
        Vec3 { x: fmul(self.x, s), y: fmul(self.y, s), z: fmul(self.z, s) }
    }

    pub fn div_scalar(&self, s: i64) -> (r: Vec3)
        ensures
            r@ == spec_v3_divs(self@, s as int),
    {
        Vec3 { x: fdiv(self.x, s), y: fdiv(self.y, s), z: fdiv(self.z, s) }
    }

    pub fn dot(&self, other: &Vec3) -> (r: i64)
        ensures
            r as int == spec_v3_dot(self@, other@),
    {
        fadd(fadd(fmul(self.x, other.x), fmul(self.y, other.y)), fmul(self.z, other.z))
    }

    pub fn cross(&self, other: &Vec3) -> (r: Vec3)
        ensures
            r@ == spec_v3_cross(self@, other@),
    {
        Vec3 {
            x: fsub(fmul(self.y, other.z), fmul(self.z, other.y)),
            y: fsub(fmul(self.z, other.x), fmul(self.x, other.z)),
            z: fsub(fmul(self.x, other.y), fmul(self.y, other.x)),
        }
    }

    pub fn mag(&self) -> (r: i64)
        ensures
            r as int == spec_v3_mag(self@),
    {
        fsqrt(self.dot(self))
    }

    /// Normalize; a vector of zero magnitude yields the zero vector.
    pub fn unit(&self) -> (r: Vec3)
        ensures
            r@ == spec_v3_unit(self@),
            self@ == v3_zero() ==> r@ == v3_zero(),
    {
        let m = self.mag();
        if m > 0 {
            self.div_scalar(m)
        } else {
            Vec3 { x: 0, y: 0, z: 0 }
        }
    }

    pub fn reflect(&self, normal: &Vec3) -> (r: Vec3)
        ensures
            r@ == spec_v3_reflect(self@, normal@),
    {
        self.sub(&normal.mul_scalar(2_000_000).mul_scalar(self.dot(normal)))
    }

    /// Refract through a surface of the given relative index of refraction;
    /// returns the zero vector at total internal reflection.
    pub fn refract(&self, normal: &Vec3, eta: i64) -> (r: Vec3)
        ensures
            r@ == spec_v3_refract(self@, normal@, eta as int),
            spec_refract_k(self@, normal@, eta as int) < 0 ==> r@ == v3_zero(),
    {
        let n_dot_i = normal.dot(self);
        let k = fsub(SCALE, fmul(fmul(eta, eta), fsub(SCALE, fmul(n_dot_i, n_dot_i))));
        if k < 0 {
            Vec3 { x: 0, y: 0, z: 0 }
        } else {
            self.mul_scalar(eta).sub(&normal.mul_scalar(fadd(fmul(eta, n_dot_i), fsqrt(k))))
        }
    }

    pub fn mix(&self, other: &Vec3, ratio: i64) -> (r: Vec3)
        ensures
            r@ == spec_v3_mix(self@, other@, ratio as int),
    {
        Vec3 {
            x: fadd(self.x, fmul(fsub(other.x, self.x), ratio)),
            y: fadd(self.y, fmul(fsub(other.y, self.y), ratio)),
            z: fadd(self.z, fmul(fsub(other.z, self.z), ratio)),
        }
    }
}

/// Exact (unrounded) dot product of integer vectors.
pub open spec fn dot_exact(a: V3, b: V3) -> int {
    a.x * b.x + a.y * b.y + a.z * b.z
}

/// Exact (unrounded) scalar multiple of an integer vector.
pub open spec fn scale_exact(v: V3, s: int) -> V3 {
    v3(v.x * s, v.y * s, v.z * s)
}

/// Exact (unrounded) reflection of integer vectors about a normal.
pub open spec fn reflect_exact(v: V3, n: V3) -> V3 {
    let d = dot_exact(v, n);
    v3(v.x - 2 * d * n.x, v.y - 2 * d * n.y, v.z - 2 * d * n.z)
}

/// The angle of incidence equals the angle of reflection: for the exact
/// (unrounded) formulas and a normal of exact unit dot product, the
/// reflected vector's dot with the normal is the negated incident dot.
pub proof fn lemma_reflect_incidence_exact(v: V3, n: V3)
    requires
        dot_exact(n, n) == 1,
    ensures
        dot_exact(reflect_exact(v, n), n) == -dot_exact(v, n),
{
    let d = dot_exact(v, n);
    assert((v.x - 2 * d * n.x) * n.x + (v.y - 2 * d * n.y) * n.y + (v.z - 2 * d * n.z) * n.z
        == d - 2 * d * (n.x * n.x + n.y * n.y + n.z * n.z)) by (nonlinear_arith)
        requires
            d == v.x * n.x + v.y * n.y + v.z * n.z,
    ;
}

/// For the exact (unrounded) normalization: when the squared magnitude of a
/// vector is the perfect square `m * m` and `m` divides every component, the
/// normalized vector has squared magnitude exactly one.
pub proof fn lemma_unit_magnitude_exact(v: V3, u: V3, m: int)
    requires
        m > 0,
        dot_exact(v, v) == m * m,
        v.x == u.x * m,
        v.y == u.y * m,
        v.z == u.z * m,
    ensures
        dot_exact(u, u) == 1,
{
    assert(dot_exact(u, u) * (m * m) == m * m) by (nonlinear_arith)
        requires
            (u.x * m) * (u.x * m) + (u.y * m) * (u.y * m) + (u.z * m) * (u.z * m) == m * m,
            dot_exact(u, u) == u.x * u.x + u.y * u.y + u.z * u.z,
    ;
    assert(dot_exact(u, u) == 1) by (nonlinear_arith)
        requires
            dot_exact(u, u) * (m * m) == m * m,
            m > 0,
    ;
}

/// A negative Snell radicand (total internal reflection) always yields the
/// zero vector from refraction.
pub proof fn lemma_refract_total_internal(i: V3, n: V3, eta: int)
    ensures
        spec_refract_k(i, n, eta) < 0 ==> spec_v3_refract(i, n, eta) == v3_zero(),
{
}

} // verus!
