//! Fixed-point scalars and 3-vectors.
//!
//! Every coordinate, velocity component and angle in this crate is an `i64`
//! count of units of `1/FP`. The scale is chosen so that the quantities the
//! scene traffics in are exact: atlas cells of one tenth, cube half-extents
//! of one half, and frame steps of one sixtieth of a second all divide `FP`.

use vstd::prelude::*;

verus! {

/// Number of fixed-point units in 1.0.
pub const FP: i64 = 3600;

/// Largest magnitude accepted for a factor of a fixed-point product;
/// `LIM * LIM` fits in an `i64` with room to spare.
pub const LIM: i64 = 1_000_000_000;

/// Largest magnitude accepted for an accumulated coordinate, chosen so that
/// one integration step away from it still fits in an `i64`.
pub const POS_LIM: i64 = 1_000_000_000_000_000;

/// A scalar small enough to be a factor of a fixed-point product.
pub open spec fn in_lim(x: int) -> bool {
    -(LIM as int) <= x <= LIM as int
}

/// A coordinate small enough to absorb one more integration step.
pub open spec fn in_pos_lim(x: int) -> bool {
    -(POS_LIM as int) <= x <= POS_LIM as int
}

/// Division by `FP` that truncates toward zero, as the hardware quotient
/// does; spec-mode `/` alone would round toward negative infinity.
pub open spec fn tdiv_fp(p: int) -> int {
    if p >= 0 {
        p / (FP as int)
    } else {
        -((-p) / (FP as int))
    }
}

/// The fixed-point product of two scalars: the raw product carries a factor
/// `FP * FP`, so one factor of `FP` is divided back out, truncating toward
/// zero.
pub open spec fn scale_mul(a: int, b: int) -> int {
    tdiv_fp(a * b)
}

/// A 3-vector of fixed-point scalars.
#[derive(Clone, Copy, PartialEq, Eq, Structural, Debug)]
pub struct Vec3fx {
    pub x: i64,
    pub y: i64,
    pub z: i64,
}

/// All three components small enough to be factors of a product.
pub open spec fn vec_in_lim(v: Vec3fx) -> bool {
    in_lim(v.x as int) && in_lim(v.y as int) && in_lim(v.z as int)
}

/// All three components within the accumulated-coordinate bound.
pub open spec fn vec_in_pos_lim(v: Vec3fx) -> bool {
    in_pos_lim(v.x as int) && in_pos_lim(v.y as int) && in_pos_lim(v.z as int)
}

/// Fixed-point multiplication, truncating toward zero.
pub fn fx_mul(a: i64, b: i64) -> (r: i64)
    requires
        in_lim(a as int),
        in_lim(b as int),
    ensures
        r as int == scale_mul(a as int, b as int),
        in_pos_lim(r as int),
{
    let ma: i64 = if a >= 0 { a } else { -a };
    let mb: i64 = if b >= 0 { b } else { -b };
    assert(ma * mb <= LIM * LIM && 0 <= ma * mb) by (nonlinear_arith)
        requires
            0 <= ma <= LIM,
            0 <= mb <= LIM,
    ;
    let p: i64 = ma * mb;
    let q: i64 = ((p as u64) / (FP as u64)) as i64;
    proof {
        if a >= 0 && b >= 0 {
            assert(a * b == ma * mb);
        } else if a < 0 && b < 0 {
            assert((-ma) * (-mb) == ma * mb) by (nonlinear_arith);
            assert(a * b == ma * mb);
        } else if a >= 0 {
            assert(ma * (-mb) == -(ma * mb)) by (nonlinear_arith);
            assert(a * b == -(ma * mb));
        } else {
            assert((-ma) * mb == -(ma * mb)) by (nonlinear_arith);
            assert(a * b == -(ma * mb));
        }
    }
    if (a >= 0) == (b >= 0) {
        assert(q as int == tdiv_fp(a as int * b as int));
        q
    } else {
        assert(-q as int == tdiv_fp(a as int * b as int));
        -q
    }
}

/// Truncation toward zero is odd: negating one factor negates the product.
/// This is what makes the motion integrator exactly reversible.
pub proof fn lemma_scale_mul_neg(a: int, b: int)
    ensures
        scale_mul(a, -b) == -scale_mul(a, b),
{
    assert(a * (-b) == -(a * b)) by (nonlinear_arith);
}

} // verus!
