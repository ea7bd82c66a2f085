//! Integer vectors and saturating arithmetic.
//!
//! Positions and normals are measured in micro-units (1_000_000 per world
//! unit), angles in microradians, durations in milliseconds. Saturating
//! addition and multiplication keep every per-tick update total: a tick can
//! never abort on arithmetic, it can only pin a runaway coordinate at the
//! representable extreme.

use vstd::prelude::*;

verus! {

/// A 2D integer vector (movement intent, accumulated aim delta).
#[derive(Clone, Copy, PartialEq, Eq, Structural, Debug)]
pub struct Vec2I {
    pub x: i64,
    pub y: i64,
}

/// A 3D integer vector in micro-units (positions, surface normals).
#[derive(Clone, Copy, PartialEq, Eq, Structural, Debug)]
pub struct Vec3I {
    pub x: i64,
    pub y: i64,
    pub z: i64,
}

/// The mathematical value an `i64` saturates to.
pub open spec fn sat64(v: int) -> int {
    if v > i64::MAX as int {
        i64::MAX as int
    } else if v < i64::MIN as int {
        i64::MIN as int
    } else {
        v
    }
}

/// The mathematical clamp of `v` into `[lo, hi]`.
pub open spec fn clamped(v: int, lo: int, hi: int) -> int {
    if v < lo {
        lo
    } else if v > hi {
        hi
    } else {
        v
    }
}

/// Saturating addition on `i64`.
pub fn sat_add(a: i64, b: i64) -> (r: i64)
    ensures
        r as int == sat64(a as int + b as int),
{
    let s: i128 = a as i128 + b as i128;
    if s > i64::MAX as i128 {
        i64::MAX
    } else if s < i64::MIN as i128 {
        i64::MIN
    } else {
        s as i64
    }
}

/// Saturating multiplication on `i64`.
pub fn sat_mul(a: i64, b: i64) -> (r: i64)
    ensures
        r as int == sat64(a as int * b as int),
{
    proof {
        lemma_mul_i64_fits_i128(a as int, b as int);
    }
    let p: i128 = (a as i128) * (b as i128);
    if p > i64::MAX as i128 {
        i64::MAX
    } else if p < i64::MIN as i128 {
        i64::MIN
    } else {
        p as i64
    }
}

/// The product of two `i64` values fits in an `i128`.
proof fn lemma_mul_i64_fits_i128(a: int, b: int)
    requires
        i64::MIN as int <= a <= i64::MAX as int,
        i64::MIN as int <= b <= i64::MAX as int,
    ensures
        i128::MIN as int <= a * b <= i128::MAX as int,
{
    assert(i128::MIN as int <= a * b <= i128::MAX as int) by (nonlinear_arith)
        requires
            -0x8000_0000_0000_0000 <= a <= 0x7fff_ffff_ffff_ffff,
            -0x8000_0000_0000_0000 <= b <= 0x7fff_ffff_ffff_ffff,
    ;
}

/// Clamp `v` into `[lo, hi]`.
pub fn clamp64(v: i64, lo: i64, hi: i64) -> (r: i64)
    requires
        lo <= hi,
    ensures
        r as int == clamped(v as int, lo as int, hi as int),
{
    if v < lo {
        lo
    } else if v > hi {
        hi
    } else {
        v
    }
}

} // verus!
