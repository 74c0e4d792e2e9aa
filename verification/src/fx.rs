//! Fixed-point scalar arithmetic.
//!
//! A scalar is an `i64` holding a multiple of `1 / SCALE` of a world unit.
//! Every operation truncates toward zero where it divides and saturates at
//! `FX_SAT`, so all intermediate products fit in `i128` and no operation can
//! overflow or panic.

use vstd::prelude::*;

verus! {

/// Raw value of one world unit: scalars are `i64` multiples of `1 / SCALE`.
pub const SCALE: i64 = 65536;

/// Largest raw magnitude a stored scalar may take. Every operation clamps
/// its result here, so the product of any two stored scalars fits in `i128`.
pub const FX_SAT: i64 = 0x2000_0000_0000;

/// A stored scalar: within the saturation bound.
pub open spec fn fx_wf(v: i64) -> bool {
    -FX_SAT <= v <= FX_SAT
}

/// Division truncating toward zero, for a positive divisor.
pub open spec fn tdiv(a: int, b: int) -> int
    recommends
        b > 0,
{
    if a >= 0 {
        a / b
    } else {
        -((-a) / b)
    }
}

/// Division truncating toward zero, for any nonzero divisor.
pub open spec fn tdiv_any(a: int, b: int) -> int
    recommends
        b != 0,
{
    if b > 0 {
        tdiv(a, b)
    } else {
        tdiv(-a, -b)
    }
}

/// Clamp a mathematical value into the saturation range.
pub open spec fn sat(v: int) -> int {
    if v > FX_SAT {
        FX_SAT as int
    } else if v < -FX_SAT {
        -(FX_SAT as int)
    } else {
        v
    }
}

/// The fixed-point product `a * b`, truncated and saturated.
pub open spec fn spec_fxmul(a: int, b: int) -> int {
    sat(tdiv(a * b, SCALE as int))
}

/// The fixed-point quotient `a / b`, truncated and saturated.
pub open spec fn spec_fxdiv(a: int, b: int) -> int
    recommends
        b != 0,
{
    sat(tdiv_any(a * (SCALE as int), b))
}

/// The product of two bounded values is bounded by the product of the
/// bounds.
pub proof fn lemma_mul_bound(a: int, b: int, m: int, n: int)
    by (nonlinear_arith)
    requires
        -m <= a <= m,
        -n <= b <= n,
        0 <= m,
        0 <= n,
    ensures
        -(m * n) <= a * b <= m * n,
{
}

/// Truncating division of an `i128` by a positive `i128`, the exec twin of
/// `tdiv`.
pub(crate) fn div_trunc(a: i128, b: i128) -> (r: i128)
    requires
        b > 0,
        -0x4000_0000_0000_0000_0000_0000_0000_0000 < a,
    ensures
        r == tdiv(a as int, b as int),
{
    if a >= 0 {
        ((a as u128) / (b as u128)) as i128
    } else {
        let n: i128 = -a;
        -(((n as u128) / (b as u128)) as i128)
    }
}

/// Clamp an `i128` into the saturation range, the exec twin of `sat`.
pub(crate) fn sat_i128(v: i128) -> (r: i64)
    ensures
        r == sat(v as int),
        fx_wf(r),
{
    if v > FX_SAT as i128 {
        FX_SAT
    } else if v < -(FX_SAT as i128) {
        -FX_SAT
    } else {
        v as i64
    }
}

/// Fixed-point multiplication.
pub fn fxmul(a: i64, b: i64) -> (r: i64)
    requires
        fx_wf(a),
        fx_wf(b),
    ensures
        r == spec_fxmul(a as int, b as int),
        fx_wf(r),
{
    proof {
        lemma_mul_bound(a as int, b as int, FX_SAT as int, FX_SAT as int);
    }
    let p: i128 = (a as i128) * (b as i128);
    let q: i128 = div_trunc(p, SCALE as i128);
    sat_i128(q)
}

/// Fixed-point division; the divisor must be nonzero.
pub fn fxdiv(a: i64, b: i64) -> (r: i64)
    requires
        fx_wf(a),
        fx_wf(b),
        b != 0,
    ensures
        r == spec_fxdiv(a as int, b as int),
        fx_wf(r),
{
    let (n, d) = if b >= 0 {
        (a as i128, b as i128)
    } else {
        (-(a as i128), -(b as i128))
    };
    let q: i128 = div_trunc(n * (SCALE as i128), d);
    assert(n * (SCALE as int) == if b >= 0 { a * (SCALE as int) } else { -a * (SCALE as int) });
    assert(-(a as int) * (SCALE as int) == -((a as int) * (SCALE as int))) by (nonlinear_arith);
    sat_i128(q)
}

/// `r` is the floor of the square root of `x`.
pub open spec fn is_sqrt(r: int, x: int) -> bool {
    r >= 0 && r * r <= x < (r + 1) * (r + 1)
}

/// The floor of the square root of a nonnegative value.
pub open spec fn sqrt_floor(x: int) -> int
    recommends
        x >= 0,
{
    choose|r: int| #[trigger] is_sqrt(r, x)
}

/// Every nonnegative value has an integer square-root floor.
pub proof fn lemma_sqrt_exists(x: nat)
    ensures
        exists|r: int| #[trigger] is_sqrt(r, x as int),
    decreases x,
{
    if x == 0 {
        assert(is_sqrt(0, 0));
    } else {
        lemma_sqrt_exists((x - 1) as nat);
        let r = choose|r: int| #[trigger] is_sqrt(r, x - 1);
        if (r + 1) * (r + 1) <= x {
            assert(is_sqrt(r + 1, x as int)) by (nonlinear_arith)
                requires
                    is_sqrt(r, x - 1),
                    (r + 1) * (r + 1) <= x,
            ;
        } else {
            assert(is_sqrt(r, x as int));
        }
    }
}

/// The square-root floor is unique.
pub proof fn lemma_sqrt_unique(r1: int, r2: int, x: int)
    by (nonlinear_arith)
    requires
        is_sqrt(r1, x),
        is_sqrt(r2, x),
    ensures
        r1 == r2,
{
}

/// Binary-search integer square root.
pub fn isqrt(x: u128) -> (r: u64)
    requires
        x < 0x4000_0000_0000_0000_0000_0000_0000_0000,
    ensures
        r == sqrt_floor(x as int),
        is_sqrt(r as int, x as int),
{
    let mut lo: u128 = 0;
    let mut hi: u128 = 0x8000_0000_0000_0000;
    proof {
        assert((hi as int) * (hi as int) > x);
    }
    while lo + 1 < hi
        invariant
            lo < hi,
            hi <= 0x8000_0000_0000_0000,
            (lo as int) * (lo as int) <= x,
            (hi as int) * (hi as int) > x,
        decreases hi - lo,
    {
        let mid: u128 = lo + (hi - lo) / 2;
        proof {
            lemma_mul_bound(mid as int, mid as int, 0x8000_0000_0000_0000, 0x8000_0000_0000_0000);
        }
        if mid * mid <= x {
            lo = mid;
        } else {
            hi = mid;
        }
    }
    proof {
        assert(is_sqrt(lo as int, x as int));
        lemma_sqrt_exists(x as nat);
        lemma_sqrt_unique(lo as int, sqrt_floor(x as int), x as int);
    }
    lo as u64
}

/// Fixed-point division that saturates instead of dividing by zero:
/// where the geometry would diverge, the result pegs at the bound.
pub open spec fn spec_div_safe(a: int, b: int) -> int {
    if b == 0 {
        if a >= 0 {
            FX_SAT as int
        } else {
            -(FX_SAT as int)
        }
    } else {
        spec_fxdiv(a, b)
    }
}

pub fn div_safe(a: i64, b: i64) -> (r: i64)
    requires
        fx_wf(a),
        fx_wf(b),
    ensures
        r == spec_div_safe(a as int, b as int),
        fx_wf(r),
{
    if b == 0 {
        if a >= 0 {
            FX_SAT
        } else {
            -FX_SAT
        }
    } else {
        fxdiv(a, b)
    }
}

} // verus!
