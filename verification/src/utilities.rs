//! Screen-space and closest-point geometry helpers.

use crate::cube::{Line2D, Ray};
use crate::fx::{
    div_safe, fx_wf, fxmul, isqrt, lemma_mul_bound, sat, sat_i128, spec_div_safe, spec_fxmul,
    sqrt_floor, FX_SAT,
};
use crate::vec3::{
    spec_dot, spec_minus, spec_norm2, spec_plus, spec_scaled, Vec2, Vec3,
};
use vstd::prelude::*;

verus! {

/// Distances below this raw value count as zero: the epsilon under which
/// two lines count as parallel or touching.
pub const EPS_RAW: i64 = 1;

/// Whether `point` lies on the segment `line` within `tolerance` pixels:
/// its distance from the carrying line (the cross product over the segment
/// length) is within the tolerance, and it falls inside the segment's
/// span along the axis with the larger extent, whichever way the segment
/// runs.
pub open spec fn spec_point_on_line(line: Line2D, point: Vec2, tolerance: int) -> bool {
    let dxc = point.x - line.from.x;
    let dyc = point.y - line.from.y;
    let dxl = line.to.x - line.from.x;
    let dyl = line.to.y - line.from.y;
    let cross = dxc * dyl - dyc * dxl;
    let len = sqrt_floor(dxl * dxl + dyl * dyl);
    if (if cross >= 0 {
        cross
    } else {
        -cross
    }) > tolerance * len {
        false
    } else if (if dxl >= 0 {
        dxl
    } else {
        -dxl
    }) >= (if dyl >= 0 {
        dyl
    } else {
        -dyl
    }) {
        if dxl > 0 {
            line.from.x <= point.x <= line.to.x
        } else {
            line.to.x <= point.x <= line.from.x
        }
    } else {
        if dyl > 0 {
            line.from.y <= point.y <= line.to.y
        } else {
            line.to.y <= point.y <= line.from.y
        }
    }
}

/// Hit-test a point against a 2D segment with a pixel tolerance.
#[allow(non_snake_case)]
pub fn is_point_on_line2D(line: &Line2D, point: &Vec2, tolerance: i64) -> (r: bool)
    requires
        line.wf(),
        point.wf(),
        0 <= tolerance <= FX_SAT,
    ensures
        r == spec_point_on_line(*line, *point, tolerance as int),
{
    let dxc: i128 = point.x as i128 - line.from.x as i128;
    let dyc: i128 = point.y as i128 - line.from.y as i128;
    let dxl: i128 = line.to.x as i128 - line.from.x as i128;
    let dyl: i128 = line.to.y as i128 - line.from.y as i128;
    proof {
        lemma_mul_bound(dxc as int, dyl as int, 2 * FX_SAT as int, 2 * FX_SAT as int);
        lemma_mul_bound(dyc as int, dxl as int, 2 * FX_SAT as int, 2 * FX_SAT as int);
        lemma_mul_bound(dxl as int, dxl as int, 2 * FX_SAT as int, 2 * FX_SAT as int);
        lemma_mul_bound(dyl as int, dyl as int, 2 * FX_SAT as int, 2 * FX_SAT as int);
        assert(dxl * dxl >= 0) by (nonlinear_arith);
        assert(dyl * dyl >= 0) by (nonlinear_arith);
    }
    let cross: i128 = dxc * dyl - dyc * dxl;
    let len2: i128 = dxl * dxl + dyl * dyl;
    let len = isqrt(len2 as u128);
    proof {
        lemma_mul_bound(tolerance as int, len as int, FX_SAT as int, 0x1_0000_0000_0000_0000);
    }
    let abs_cross: i128 = if cross >= 0 {
        cross
    } else {
        -cross
    };
    if abs_cross > (tolerance as i128) * (len as i128) {
        return false;
    }
    let abs_dxl: i128 = if dxl >= 0 {
        dxl
    } else {
        -dxl
    };
    let abs_dyl: i128 = if dyl >= 0 {
        dyl
    } else {
        -dyl
    };
    if abs_dxl >= abs_dyl {
        if dxl > 0 {
            line.from.x <= point.x && point.x <= line.to.x
        } else {
            line.to.x <= point.x && point.x <= line.from.x
        }
    } else {
        if dyl > 0 {
            line.from.y <= point.y && point.y <= line.to.y
        } else {
            line.to.y <= point.y && point.y <= line.from.y
        }
    }
}

/// The closest-approach parameters of two lines: how far along each line
/// (in its own direction) the nearest points lie. Nearly parallel lines
/// pin the first parameter to zero.
pub open spec fn spec_ray_ray_params(r1: Ray, r2: Ray) -> (int, int) {
    let u = spec_minus(r1.dir, r1.origin);
    let v = spec_minus(r2.dir, r2.origin);
    let w = spec_minus(r1.origin, r2.origin);
    let a = spec_dot(u, u);
    let b = spec_dot(u, v);
    let c = spec_dot(v, v);
    let d = spec_dot(u, w);
    let e = spec_dot(v, w);
    let det = sat(spec_fxmul(a, c) - spec_fxmul(b, b));
    if det < EPS_RAW {
        (0, if b > c {
            spec_div_safe(d, b)
        } else {
            spec_div_safe(e, c)
        })
    } else {
        (
            spec_div_safe(sat(spec_fxmul(b, e) - spec_fxmul(c, d)), det),
            spec_div_safe(sat(spec_fxmul(a, e) - spec_fxmul(b, d)), det),
        )
    }
}

/// The distance between the closest points of the two lines through the
/// given rays' origin and direction points.
pub open spec fn spec_ray_ray_distance(r1: Ray, r2: Ray) -> int {
    let u = spec_minus(r1.dir, r1.origin);
    let v = spec_minus(r2.dir, r2.origin);
    let w = spec_minus(r1.origin, r2.origin);
    let params = spec_ray_ray_params(r1, r2);
    let diff = spec_minus(spec_plus(w, spec_scaled(u, params.0)), spec_scaled(v, params.1));
    sat(sqrt_floor(spec_norm2(diff)))
}

/// Distance between the closest points of two rays' carrying lines.
pub fn ray_ray_distance(r1: &Ray, r2: &Ray) -> (r: i64)
    requires
        r1.wf(),
        r2.wf(),
    ensures
        r == spec_ray_ray_distance(*r1, *r2),
        fx_wf(r),
        r >= 0,
{
    let u = r1.dir.minus(&r1.origin);
    let v = r2.dir.minus(&r2.origin);
    let w = r1.origin.minus(&r2.origin);
    let a = u.dot(&u);
    let b = u.dot(&v);
    let c = v.dot(&v);
    let d = u.dot(&w);
    let e = v.dot(&w);
    let det = sat_i128(fxmul(a, c) as i128 - fxmul(b, b) as i128);
    let (sc, tc) = if det < EPS_RAW {
        (0i64, if b > c {
            div_safe(d, b)
        } else {
            div_safe(e, c)
        })
    } else {
        (
            div_safe(sat_i128(fxmul(b, e) as i128 - fxmul(c, d) as i128), det),
            div_safe(sat_i128(fxmul(a, e) as i128 - fxmul(b, d) as i128), det),
        )
    };
    let diff = w.plus(&u.scaled(sc)).minus(&v.scaled(tc));
    diff.norm()
}

/// Whether two rays' carrying lines pass within the epsilon distance.
pub fn is_rays_intersect(r1: &Ray, r2: &Ray) -> (r: bool)
    requires
        r1.wf(),
        r2.wf(),
    ensures
        r == (spec_ray_ray_distance(*r1, *r2) < EPS_RAW),
{
    ray_ray_distance(r1, r2) < EPS_RAW
}

} // verus!
