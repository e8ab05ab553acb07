//! Fixed-point arithmetic on `i64`, with 1.0 represented as `SCALE`.
//!
//! All geometry in the rasterizer is carried out on these scaled integers,
//! so every intermediate value has a proved bound and no operation can
//! overflow or divide by zero.

use vstd::arithmetic::div_mod::{
    lemma_div_is_ordered, lemma_div_nonincreasing, lemma_fundamental_div_mod, lemma_mod_bound,
};
use vstd::math::abs;
use vstd::prelude::*;

verus! {

/// The fixed-point unit: 1.0 is stored as 10_000.
pub const SCALE: i64 = 10000;

/// Division of a non-negative value by a positive one.
pub(crate) fn div_pos(a: i64, b: i64) -> (r: i64)
    requires
        0 <= a,
        0 < b,
    ensures
        r == a as int / b as int,
        0 <= r <= a,
{
    proof {
        lemma_div_is_ordered(0, a as int, b as int);
        lemma_div_nonincreasing(a as int, b as int);
    }
    ((a as u64) / (b as u64)) as i64
}

/// Division truncating toward zero, matching a float-to-integer cast.
pub open spec fn spec_div_trunc(a: int, b: int) -> int {
    if a >= 0 {
        a / b
    } else {
        -((-a) / b)
    }
}

/// Truncating signed division by a positive divisor.
pub(crate) fn div_trunc(a: i64, b: i64) -> (r: i64)
    requires
        0 < b,
        i64::MIN < a,
    ensures
        r == spec_div_trunc(a as int, b as int),
        abs(r as int) <= abs(a as int),
{
    if a >= 0 {
        div_pos(a, b)
    } else {
        let q = div_pos(-a, b);
        -q
    }
}

/// The fixed-point product `a * b / SCALE`, truncated toward zero.
pub open spec fn spec_mul_fp(a: int, b: int) -> int {
    spec_div_trunc(a * b, SCALE as int)
}

/// Bounds transfer through multiplication.
proof fn lemma_abs_mul_le(a: int, b: int, m: int, n: int)
    requires
        abs(a) <= m,
        abs(b) <= n,
    ensures
        abs(a * b) <= m * n,
{
    assert(abs(a * b) <= m * n) by (nonlinear_arith)
        requires
            abs(a) <= m,
            abs(b) <= n,
    ;
}

/// Fixed-point multiplication. The ghost bounds `m` and `n` let each call
/// site carry its own magnitude argument through the overflow proof.
pub(crate) fn mul_fp(a: i64, b: i64, Ghost(m): Ghost<int>, Ghost(n): Ghost<int>) -> (r: i64)
    requires
        abs(a as int) <= m,
        abs(b as int) <= n,
        m * n <= 0x4000_0000_0000_0000,
    ensures
        r == spec_mul_fp(a as int, b as int),
        SCALE * abs(r as int) <= m * n,
{
    proof {
        lemma_abs_mul_le(a as int, b as int, m, n);
    }
    let p: i64 = a * b;
    if p >= 0 {
        let r = div_pos(p, SCALE);
        proof {
            lemma_fundamental_div_mod(p as int, SCALE as int);
            lemma_mod_bound(p as int, SCALE as int);
        }
        r
    } else {
        let q = div_pos(-p, SCALE);
        proof {
            lemma_fundamental_div_mod((-p) as int, SCALE as int);
            lemma_mod_bound((-p) as int, SCALE as int);
        }
        -q
    }
}

} // verus!
