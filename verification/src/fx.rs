//! Fixed-point scalar arithmetic.
//!
//! A scalar is an `i64` whose real value is the raw integer divided by
//! [`SCALE`].  Results are rounded toward zero and saturated to the
//! representable band `[-FX_MAX, FX_MAX]`; [`FX_MAX`] doubles as the
//! "effectively infinite" distance of the intersection routines.

use vstd::prelude::*;

verus! {

/// Raw value of the scalar one: all fixed-point values carry this scale.
pub const SCALE: i64 = 1_000_000;

/// Largest representable raw magnitude; also the miss sentinel distance.
pub const FX_MAX: i64 = 100_000_000_000_000_000;

/// Saturate a mathematical integer into the representable band.
pub open spec fn spec_clip(v: int) -> int {
    if v > FX_MAX as int {
        FX_MAX as int
    } else if v < -(FX_MAX as int) {
        -(FX_MAX as int)
    } else {
        v
    }
}

pub open spec fn spec_abs(a: int) -> int {
    if a < 0 {
        -a
    } else {
        a
    }
}

/// Integer division rounding toward zero, as the hardware divides.
pub open spec fn spec_tdiv(a: int, b: int) -> int
    recommends
        b != 0,
{
    if (a < 0) == (b < 0) {
        spec_abs(a) / spec_abs(b)
    } else {
        -(spec_abs(a) / spec_abs(b))
    }
}

pub open spec fn spec_add(a: int, b: int) -> int {
    spec_clip(a + b)
}

pub open spec fn spec_sub(a: int, b: int) -> int {
    spec_clip(a - b)
}

/// Fixed-point product: rescale the double-width product, then saturate.
pub open spec fn spec_mul(a: int, b: int) -> int {
    spec_clip(spec_tdiv(a * b, SCALE as int))
}

/// Fixed-point quotient.  A zero divisor saturates to the signed band edge,
/// standing in for the infinities a division by zero would produce.
pub open spec fn spec_div(a: int, b: int) -> int {
    if b == 0 {
        if a > 0 {
            FX_MAX as int
        } else if a < 0 {
            -(FX_MAX as int)
        } else {
            0
        }
    } else {
        spec_clip(spec_tdiv(a * SCALE, b))
    }
}

/// `r` is the integer square root of `x`.
pub open spec fn is_isqrt(x: int, r: int) -> bool {
    0 <= r && r * r <= x && x < (r + 1) * (r + 1)
}

pub open spec fn spec_isqrt(x: int) -> int {
    choose|r: int| is_isqrt(x, r)
}

/// Fixed-point square root; nonpositive inputs yield zero.
pub open spec fn spec_sqrt(a: int) -> int {
    if a <= 0 {
        0
    } else {
        spec_isqrt(a * SCALE)
    }
}

/// Fixed-point power with a natural exponent; the empty product is one.
pub open spec fn spec_pow(b: int, e: nat) -> int
    decreases e,
{
    if e == 0 {
        SCALE as int
    } else {
        spec_mul(spec_pow(b, (e - 1) as nat), b)
    }
}

pub open spec fn spec_max0(a: int) -> int {
    if a < 0 {
        0
    } else {
        a
    }
}

pub proof fn lemma_isqrt_unique(x: int, r1: int, r2: int)
    requires
        is_isqrt(x, r1),
        is_isqrt(x, r2),
    ensures
        r1 == r2,
{
    if r1 < r2 {
        assert((r1 + 1) * (r1 + 1) <= r2 * r2) by (nonlinear_arith)
            requires
                0 <= r1 + 1 <= r2,
        ;
    }
    if r2 < r1 {
        assert((r2 + 1) * (r2 + 1) <= r1 * r1) by (nonlinear_arith)
            requires
                0 <= r2 + 1 <= r1,
        ;
    }
}

fn clip128(v: i128) -> (r: i64)
    ensures
        r as int == spec_clip(v as int),
{
    if v > FX_MAX as i128 {
        FX_MAX
    } else if v < -(FX_MAX as i128) {
        -FX_MAX
    } else {
        v as i64
    }
}

fn tdiv128(p: i128, d: i128) -> (q: i128)
    requires
        0 < d,
        i128::MIN < p,
    ensures
        q as int == spec_tdiv(p as int, d as int),
        spec_abs(q as int) <= spec_abs(p as int),
{
    if p >= 0 {
        let m: u128 = (p as u128) / (d as u128);
        assert(m <= p as u128) by {
            assert((p as u128) / (d as u128) <= p as u128) by (nonlinear_arith)
                requires
                    d as u128 >= 1,
            ;
        }
        m as i128
    } else {
        let m: u128 = ((-p) as u128) / (d as u128);
        assert(m <= (-p) as u128) by {
            assert(((-p) as u128) / (d as u128) <= (-p) as u128) by (nonlinear_arith)
                requires
                    d as u128 >= 1,
            ;
        }
        -(m as i128)
    }
}

/// Saturating fixed-point addition.
pub fn fadd(a: i64, b: i64) -> (r: i64)
    ensures
        r as int == spec_add(a as int, b as int),
{
    clip128(a as i128 + b as i128)
}

/// Saturating fixed-point subtraction.
pub fn fsub(a: i64, b: i64) -> (r: i64)
    ensures
        r as int == spec_sub(a as int, b as int),
{
    clip128(a as i128 - b as i128)
}

/// Saturating fixed-point multiplication, rounded toward zero.
pub fn fmul(a: i64, b: i64) -> (r: i64)
    ensures
        r as int == spec_mul(a as int, b as int),
{
    proof {
        lemma_i64_product_bound(a as int, b as int);
    }
    let p: i128 = (a as i128) * (b as i128);
    let q = tdiv128(p, SCALE as i128);
    clip128(q)
}

/// Saturating fixed-point division, rounded toward zero; a zero divisor
/// saturates to the signed band edge.
pub fn fdiv(a: i64, b: i64) -> (r: i64)
    ensures
        r as int == spec_div(a as int, b as int),
{
    if b == 0 {
        if a > 0 {
            FX_MAX
        } else if a < 0 {
            -FX_MAX
        } else {
            0
        }
    } else {
        proof {
            lemma_i64_product_bound(a as int, SCALE as int);
        }
        let p: i128 = (a as i128) * (SCALE as i128);
        if b > 0 {
            let q = tdiv128(p, b as i128);
            clip128(q)
        } else {
            let q = tdiv128(p, -(b as i128));
            assert(-q as int == spec_tdiv(p as int, b as int));
            clip128(-q)
        }
    }
}

/// Fixed-point square root: exact integer square root of the rescaled
/// radicand.  Nonpositive inputs yield zero.
pub fn fsqrt(a: i64) -> (r: i64)
    ensures
        r as int == spec_sqrt(a as int),
        a > 0 ==> is_isqrt(a as int * SCALE as int, r as int),
        a <= 0 ==> r == 0,
{
    if a <= 0 {
        0
    } else {
        assert((a as u128) * (SCALE as u128) <= 9_223_372_036_854_775_807_000_000) by (nonlinear_arith)
            requires
                a as u128 <= 9_223_372_036_854_775_807,
                SCALE as u128 == 1_000_000,
        ;
        let x: u128 = (a as u128) * (SCALE as u128);
        let r = isqrt128(x);
        proof {
            assert(is_isqrt(x as int, spec_isqrt(x as int))) by {
                assert(exists|w: int| is_isqrt(x as int, w)) by {
                    assert(is_isqrt(x as int, r as int));
                }
            }
            lemma_isqrt_unique(x as int, r as int, spec_isqrt(x as int));
            assert(r as int * r as int <= x as int);
            assert(r as int <= 3_100_000_000_000) by (nonlinear_arith)
                requires
                    0 <= r as int,
                    r as int * r as int <= 9_223_372_036_854_775_807_000_000,
            ;
        }
        r as i64
    }
}

/// Integer square root by binary search on `[0, 2^63]`.
fn isqrt128(x: u128) -> (r: u128)
    requires
        x < 0x4000_0000_0000_0000_0000_0000_0000_0000,
    ensures
        is_isqrt(x as int, r as int),
        r < 0x8000_0000_0000_0000u128,
{
    let mut lo: u128 = 0;
    let mut hi: u128 = 0x8000_0000_0000_0000;
    assert(hi * hi == 0x4000_0000_0000_0000_0000_0000_0000_0000) by (nonlinear_arith)
        requires
            hi == 0x8000_0000_0000_0000u128,
    ;
    while lo + 1 < hi
        invariant
            lo < hi,
            hi <= 0x8000_0000_0000_0000u128,
            lo * lo <= x,
            x < hi * hi,
        decreases hi - lo,
    {
        let mid = lo + (hi - lo) / 2;
        assert(lo < mid < hi);
        assert(mid * mid < 0x1_0000_0000_0000_0000_0000_0000_0000_0000) by (nonlinear_arith)
            requires
                mid < 0x8000_0000_0000_0000u128,
        ;
        if mid * mid <= x {
            lo = mid;
        } else {
            hi = mid;
        }
    }
    assert(hi == lo + 1);
    lo
}

/// Fixed-point power by repeated multiplication.
pub fn fpow(b: i64, e: u32) -> (r: i64)
    ensures
        r as int == spec_pow(b as int, e as nat),
{
    let mut acc: i64 = SCALE;
    let mut i: u32 = 0;
    while i < e
        invariant
            i <= e,
            acc as int == spec_pow(b as int, i as nat),
        decreases e - i,
    {
        acc = fmul(acc, b);
        i = i + 1;
    }
    acc
}

/// Clamp a scalar to at most zero from below.
pub fn fmax0(a: i64) -> (r: i64)
    ensures
        r as int == spec_max0(a as int),
{
    if a < 0 {
        0
    } else {
        a
    }
}

proof fn lemma_i64_product_bound(a: int, b: int)
    requires
        -0x8000_0000_0000_0000 <= a <= 0x7fff_ffff_ffff_ffff,
        -0x8000_0000_0000_0000 <= b <= 0x7fff_ffff_ffff_ffff,
    ensures
        -0x4000_0000_0000_0000_0000_0000_0000_0000 <= a * b
            <= 0x4000_0000_0000_0000_0000_0000_0000_0000,
{
    assert(-0x4000_0000_0000_0000_0000_0000_0000_0000 <= a * b
        <= 0x4000_0000_0000_0000_0000_0000_0000_0000) by (nonlinear_arith)
        requires
            -0x8000_0000_0000_0000 <= a <= 0x8000_0000_0000_0000,
            -0x8000_0000_0000_0000 <= b <= 0x8000_0000_0000_0000,
    ;
}

} // verus!

