//! Fixed-point vectors and quaternions.
//!
//! Components are fixed-point scalars (`fx`). Each operation's contract is
//! the exact integer formula it computes, stated through a spec-function
//! twin, so callers can reason about results component by component.

use crate::fx::{
    div_trunc, fx_wf, fxmul, is_sqrt, isqrt, lemma_mul_bound, sat, sat_i128, spec_fxmul,
    sqrt_floor, tdiv, FX_SAT, SCALE,
};
use vstd::prelude::*;

verus! {

/// A 2D point or direction in screen space.
#[derive(Clone, Copy, Debug, PartialEq, Eq, Structural)]
pub struct Vec2 {
    pub x: i64,
    pub y: i64,
}

/// A 3D point or direction in world space.
#[derive(Clone, Copy, Debug, PartialEq, Eq, Structural)]
pub struct Vec3 {
    pub x: i64,
    pub y: i64,
    pub z: i64,
}

/// A rotation, as quaternion components.
#[derive(Clone, Copy, Debug, PartialEq, Eq, Structural)]
pub struct Quat {
    pub x: i64,
    pub y: i64,
    pub z: i64,
    pub w: i64,
}

impl Vec2 {
    pub open spec fn wf(self) -> bool {
        fx_wf(self.x) && fx_wf(self.y)
    }

    pub fn new(x: i64, y: i64) -> (r: Vec2)
        ensures
            r == (Vec2 { x, y }),
    {
        Vec2 { x, y }
    }
}

/// The component-wise saturated difference of two 2D vectors.
pub open spec fn spec_minus2(a: Vec2, b: Vec2) -> Vec2 {
    Vec2 { x: sat(a.x - b.x) as i64, y: sat(a.y - b.y) as i64 }
}

impl Vec2 {
    pub fn minus(&self, o: &Vec2) -> (r: Vec2)
        requires
            self.wf(),
            o.wf(),
        ensures
            r == spec_minus2(*self, *o),
            r.wf(),
    {
        Vec2 { x: sat_i128(self.x as i128 - o.x as i128), y: sat_i128(self.y as i128 - o.y as i128) }
    }
}

/// The component-wise saturated sum.
pub open spec fn spec_plus(a: Vec3, b: Vec3) -> Vec3 {
    Vec3 { x: sat(a.x + b.x) as i64, y: sat(a.y + b.y) as i64, z: sat(a.z + b.z) as i64 }
}

/// The component-wise saturated difference.
pub open spec fn spec_minus(a: Vec3, b: Vec3) -> Vec3 {
    Vec3 { x: sat(a.x - b.x) as i64, y: sat(a.y - b.y) as i64, z: sat(a.z - b.z) as i64 }
}

/// The vector scaled by a fixed-point factor.
pub open spec fn spec_scaled(a: Vec3, k: int) -> Vec3 {
    Vec3 {
        x: spec_fxmul(a.x as int, k) as i64,
        y: spec_fxmul(a.y as int, k) as i64,
        z: spec_fxmul(a.z as int, k) as i64,
    }
}

/// The fixed-point dot product.
pub open spec fn spec_dot(a: Vec3, b: Vec3) -> int {
    sat(tdiv(a.x * b.x + a.y * b.y + a.z * b.z, SCALE as int))
}

/// The fixed-point cross product.
pub open spec fn spec_cross(a: Vec3, b: Vec3) -> Vec3 {
    Vec3 {
        x: sat(tdiv(a.y * b.z - a.z * b.y, SCALE as int)) as i64,
        y: sat(tdiv(a.z * b.x - a.x * b.z, SCALE as int)) as i64,
        z: sat(tdiv(a.x * b.y - a.y * b.x, SCALE as int)) as i64,
    }
}

/// The sum of the squared raw components.
pub open spec fn spec_norm2(a: Vec3) -> int {
    a.x * a.x + a.y * a.y + a.z * a.z
}

/// The vector scaled to unit length (floor rounding); the zero vector stays
/// zero.
pub open spec fn spec_normalized(a: Vec3) -> Vec3 {
    if spec_norm2(a) == 0 {
        Vec3 { x: 0, y: 0, z: 0 }
    } else {
        let m = sqrt_floor(spec_norm2(a));
        Vec3 {
            x: sat(tdiv(a.x * (SCALE as int), m)) as i64,
            y: sat(tdiv(a.y * (SCALE as int), m)) as i64,
            z: sat(tdiv(a.z * (SCALE as int), m)) as i64,
        }
    }
}

impl Vec3 {
    pub open spec fn wf(self) -> bool {
        fx_wf(self.x) && fx_wf(self.y) && fx_wf(self.z)
    }

    pub fn new(x: i64, y: i64, z: i64) -> (r: Vec3)
        ensures
            r == (Vec3 { x, y, z }),
    {
        Vec3 { x, y, z }
    }

    pub fn zero() -> (r: Vec3)
        ensures
            r == (Vec3 { x: 0i64, y: 0i64, z: 0i64 }),
            r.wf(),
    {
        Vec3 { x: 0, y: 0, z: 0 }
    }

    pub fn plus(&self, o: &Vec3) -> (r: Vec3)
        requires
            self.wf(),
            o.wf(),
        ensures
            r == spec_plus(*self, *o),
            r.wf(),
    {
        Vec3 {
            x: sat_i128(self.x as i128 + o.x as i128),
            y: sat_i128(self.y as i128 + o.y as i128),
            z: sat_i128(self.z as i128 + o.z as i128),
        }
    }

    pub fn minus(&self, o: &Vec3) -> (r: Vec3)
        requires
            self.wf(),
            o.wf(),
        ensures
            r == spec_minus(*self, *o),
            r.wf(),
    {
        Vec3 {
            x: sat_i128(self.x as i128 - o.x as i128),
            y: sat_i128(self.y as i128 - o.y as i128),
            z: sat_i128(self.z as i128 - o.z as i128),
        }
    }

    pub fn scaled(&self, k: i64) -> (r: Vec3)
        requires
            self.wf(),
            fx_wf(k),
        ensures
            r == spec_scaled(*self, k as int),
            r.wf(),
    {
        Vec3 { x: fxmul(self.x, k), y: fxmul(self.y, k), z: fxmul(self.z, k) }
    }

    pub fn negated(&self) -> (r: Vec3)
        requires
            self.wf(),
        ensures
            r.x == -self.x && r.y == -self.y && r.z == -self.z,
            r.wf(),
    {
        Vec3 { x: -self.x, y: -self.y, z: -self.z }
    }

    pub fn dot(&self, o: &Vec3) -> (r: i64)
        requires
            self.wf(),
            o.wf(),
        ensures
            r == spec_dot(*self, *o),
            fx_wf(r),
    {
        proof {
            lemma_mul_bound(self.x as int, o.x as int, FX_SAT as int, FX_SAT as int);
            lemma_mul_bound(self.y as int, o.y as int, FX_SAT as int, FX_SAT as int);
            lemma_mul_bound(self.z as int, o.z as int, FX_SAT as int, FX_SAT as int);
        }
        let s: i128 = (self.x as i128) * (o.x as i128) + (self.y as i128) * (o.y as i128) + (
        self.z as i128) * (o.z as i128);
        sat_i128(div_trunc(s, SCALE as i128))
    }

    pub fn cross(&self, o: &Vec3) -> (r: Vec3)
        requires
            self.wf(),
            o.wf(),
        ensures
            r == spec_cross(*self, *o),
            r.wf(),
    {
        proof {
            lemma_mul_bound(self.y as int, o.z as int, FX_SAT as int, FX_SAT as int);
            lemma_mul_bound(self.z as int, o.y as int, FX_SAT as int, FX_SAT as int);
            lemma_mul_bound(self.z as int, o.x as int, FX_SAT as int, FX_SAT as int);
            lemma_mul_bound(self.x as int, o.z as int, FX_SAT as int, FX_SAT as int);
            lemma_mul_bound(self.x as int, o.y as int, FX_SAT as int, FX_SAT as int);
            lemma_mul_bound(self.y as int, o.x as int, FX_SAT as int, FX_SAT as int);
        }
        let cx: i128 = (self.y as i128) * (o.z as i128) - (self.z as i128) * (o.y as i128);
        let cy: i128 = (self.z as i128) * (o.x as i128) - (self.x as i128) * (o.z as i128);
        let cz: i128 = (self.x as i128) * (o.y as i128) - (self.y as i128) * (o.x as i128);
        Vec3 {
            x: sat_i128(div_trunc(cx, SCALE as i128)),
            y: sat_i128(div_trunc(cy, SCALE as i128)),
            z: sat_i128(div_trunc(cz, SCALE as i128)),
        }
    }

    /// Fixed-point length: the square root of the sum of squares.
    pub fn norm(&self) -> (r: i64)
        requires
            self.wf(),
        ensures
            r == sat(sqrt_floor(spec_norm2(*self))),
            fx_wf(r),
            r >= 0,
    {
        let n2 = self.norm2_raw();
        let m = isqrt(n2 as u128);
        proof {
            if m > FX_SAT {
                assert(sat(m as int) == FX_SAT as int);
            }
        }
        if m > FX_SAT as u64 {
            FX_SAT
        } else {
            m as i64
        }
    }

    /// The vector scaled to unit length; the zero vector stays zero.
    pub fn normalized(&self) -> (r: Vec3)
        requires
            self.wf(),
        ensures
            r == spec_normalized(*self),
            r.wf(),
    {
        let n2 = self.norm2_raw();
        if n2 == 0 {
            Vec3 { x: 0, y: 0, z: 0 }
        } else {
            let m = isqrt(n2 as u128);
            proof {
                assert(m >= 1) by (nonlinear_arith)
                    requires
                        is_sqrt(m as int, n2 as int),
                        n2 >= 1,
                ;
                lemma_mul_bound(self.x as int, SCALE as int, FX_SAT as int, SCALE as int);
                lemma_mul_bound(self.y as int, SCALE as int, FX_SAT as int, SCALE as int);
                lemma_mul_bound(self.z as int, SCALE as int, FX_SAT as int, SCALE as int);
            }
            Vec3 {
                x: sat_i128(div_trunc((self.x as i128) * (SCALE as i128), m as i128)),
                y: sat_i128(div_trunc((self.y as i128) * (SCALE as i128), m as i128)),
                z: sat_i128(div_trunc((self.z as i128) * (SCALE as i128), m as i128)),
            }
        }
    }

    /// The raw sum of squared components.
    fn norm2_raw(&self) -> (r: i128)
        requires
            self.wf(),
        ensures
            r == spec_norm2(*self),
            0 <= r < 0x4000_0000_0000_0000_0000_0000,
    {
        proof {
            lemma_mul_bound(self.x as int, self.x as int, FX_SAT as int, FX_SAT as int);
            lemma_mul_bound(self.y as int, self.y as int, FX_SAT as int, FX_SAT as int);
            lemma_mul_bound(self.z as int, self.z as int, FX_SAT as int, FX_SAT as int);
            assert(self.x * self.x >= 0) by (nonlinear_arith);
            assert(self.y * self.y >= 0) by (nonlinear_arith);
            assert(self.z * self.z >= 0) by (nonlinear_arith);
        }
        (self.x as i128) * (self.x as i128) + (self.y as i128) * (self.y as i128) + (
        self.z as i128) * (self.z as i128)
    }
}

impl Quat {
    pub open spec fn wf(self) -> bool {
        fx_wf(self.x) && fx_wf(self.y) && fx_wf(self.z) && fx_wf(self.w)
    }

    pub fn new(x: i64, y: i64, z: i64, w: i64) -> (r: Quat)
        ensures
            r == (Quat { x, y, z, w }),
    {
        Quat { x, y, z, w }
    }

    /// The identity rotation.
    pub fn identity() -> (r: Quat)
        ensures
            r == (Quat { x: 0i64, y: 0i64, z: 0i64, w: SCALE }),
            r.wf(),
    {
        Quat { x: 0, y: 0, z: 0, w: SCALE }
    }
}

/// The sum of the squared raw quaternion components.
pub open spec fn spec_qnorm2(q: Quat) -> int {
    q.x * q.x + q.y * q.y + q.z * q.z + q.w * q.w
}

/// The quaternion scaled to unit length (floor rounding); zero stays zero.
pub open spec fn spec_qnormalized(q: Quat) -> Quat {
    if spec_qnorm2(q) == 0 {
        Quat { x: 0, y: 0, z: 0, w: 0 }
    } else {
        let m = sqrt_floor(spec_qnorm2(q));
        Quat {
            x: sat(tdiv(q.x * (SCALE as int), m)) as i64,
            y: sat(tdiv(q.y * (SCALE as int), m)) as i64,
            z: sat(tdiv(q.z * (SCALE as int), m)) as i64,
            w: sat(tdiv(q.w * (SCALE as int), m)) as i64,
        }
    }
}

impl Quat {
    /// The quaternion scaled to unit length; zero stays zero.
    pub fn normalized(&self) -> (r: Quat)
        requires
            self.wf(),
        ensures
            r == spec_qnormalized(*self),
            r.wf(),
    {
        proof {
            lemma_mul_bound(self.x as int, self.x as int, FX_SAT as int, FX_SAT as int);
            lemma_mul_bound(self.y as int, self.y as int, FX_SAT as int, FX_SAT as int);
            lemma_mul_bound(self.z as int, self.z as int, FX_SAT as int, FX_SAT as int);
            lemma_mul_bound(self.w as int, self.w as int, FX_SAT as int, FX_SAT as int);
            assert(self.x * self.x >= 0) by (nonlinear_arith);
            assert(self.y * self.y >= 0) by (nonlinear_arith);
            assert(self.z * self.z >= 0) by (nonlinear_arith);
            assert(self.w * self.w >= 0) by (nonlinear_arith);
        }
        let n2: i128 = (self.x as i128) * (self.x as i128) + (self.y as i128) * (self.y as i128)
            + (self.z as i128) * (self.z as i128) + (self.w as i128) * (self.w as i128);
        if n2 == 0 {
            Quat { x: 0, y: 0, z: 0, w: 0 }
        } else {
            let m = isqrt(n2 as u128);
            proof {
                assert(m >= 1) by (nonlinear_arith)
                    requires
                        is_sqrt(m as int, n2 as int),
                        n2 >= 1,
                ;
                lemma_mul_bound(self.x as int, SCALE as int, FX_SAT as int, SCALE as int);
                lemma_mul_bound(self.y as int, SCALE as int, FX_SAT as int, SCALE as int);
                lemma_mul_bound(self.z as int, SCALE as int, FX_SAT as int, SCALE as int);
                lemma_mul_bound(self.w as int, SCALE as int, FX_SAT as int, SCALE as int);
            }
            Quat {
                x: sat_i128(div_trunc((self.x as i128) * (SCALE as i128), m as i128)),
                y: sat_i128(div_trunc((self.y as i128) * (SCALE as i128), m as i128)),
                z: sat_i128(div_trunc((self.z as i128) * (SCALE as i128), m as i128)),
                w: sat_i128(div_trunc((self.w as i128) * (SCALE as i128), m as i128)),
            }
        }
    }
}

} // verus!
