//! Fixed-point 4-component vectors and 4x4 matrices.
//!
//! A `Mat4` stores four rows; applying it to a vector takes the fixed-point
//! dot product of each row with the vector. `SCALE` plays the role of 1 on
//! the diagonal.

use crate::fx::{div_trunc, fx_wf, lemma_mul_bound, sat, sat_i128, tdiv, FX_SAT, SCALE};
use crate::vec3::Vec3;
use vstd::prelude::*;

verus! {

/// A 4-component fixed-point vector: a point (`w == SCALE`) or a direction
/// (`w == 0`) in homogeneous coordinates, or a matrix row.
#[derive(Clone, Copy, Debug, PartialEq, Eq, Structural)]
pub struct Vec4 {
    pub x: i64,
    pub y: i64,
    pub z: i64,
    pub w: i64,
}

impl Vec4 {
    pub open spec fn wf(self) -> bool {
        fx_wf(self.x) && fx_wf(self.y) && fx_wf(self.z) && fx_wf(self.w)
    }

    pub fn new(x: i64, y: i64, z: i64, w: i64) -> (r: Vec4)
        ensures
            r == (Vec4 { x, y, z, w }),
    {
        Vec4 { x, y, z, w }
    }

    /// The spatial part, dropping `w`.
    pub fn xyz(&self) -> (r: Vec3)
        ensures
            r == (Vec3 { x: self.x, y: self.y, z: self.z }),
    {
        Vec3 { x: self.x, y: self.y, z: self.z }
    }
}

/// The fixed-point dot product of two 4-component vectors.
pub open spec fn spec_dot4(a: Vec4, b: Vec4) -> int {
    sat(tdiv(a.x * b.x + a.y * b.y + a.z * b.z + a.w * b.w, SCALE as int))
}

pub fn dot4(a: &Vec4, b: &Vec4) -> (r: i64)
    requires
        a.wf(),
        b.wf(),
    ensures
        r == spec_dot4(*a, *b),
        fx_wf(r),
{
    proof {
        lemma_mul_bound(a.x as int, b.x as int, FX_SAT as int, FX_SAT as int);
        lemma_mul_bound(a.y as int, b.y as int, FX_SAT as int, FX_SAT as int);
        lemma_mul_bound(a.z as int, b.z as int, FX_SAT as int, FX_SAT as int);
        lemma_mul_bound(a.w as int, b.w as int, FX_SAT as int, FX_SAT as int);
    }
    let s: i128 = (a.x as i128) * (b.x as i128) + (a.y as i128) * (b.y as i128) + (a.z as i128)
        * (b.z as i128) + (a.w as i128) * (b.w as i128);
    sat_i128(div_trunc(s, SCALE as i128))
}

/// A 4x4 fixed-point matrix, stored by rows.
#[derive(Clone, Copy, Debug, PartialEq, Eq, Structural)]
pub struct Mat4 {
    pub r0: Vec4,
    pub r1: Vec4,
    pub r2: Vec4,
    pub r3: Vec4,
}

/// Column `0` of a matrix, as a row vector.
pub open spec fn spec_col0(m: Mat4) -> Vec4 {
    Vec4 { x: m.r0.x, y: m.r1.x, z: m.r2.x, w: m.r3.x }
}

pub open spec fn spec_col1(m: Mat4) -> Vec4 {
    Vec4 { x: m.r0.y, y: m.r1.y, z: m.r2.y, w: m.r3.y }
}

pub open spec fn spec_col2(m: Mat4) -> Vec4 {
    Vec4 { x: m.r0.z, y: m.r1.z, z: m.r2.z, w: m.r3.z }
}

pub open spec fn spec_col3(m: Mat4) -> Vec4 {
    Vec4 { x: m.r0.w, y: m.r1.w, z: m.r2.w, w: m.r3.w }
}

/// The matrix applied to a vector, row by row.
pub open spec fn spec_mul_vec4(m: Mat4, v: Vec4) -> Vec4 {
    Vec4 {
        x: spec_dot4(m.r0, v) as i64,
        y: spec_dot4(m.r1, v) as i64,
        z: spec_dot4(m.r2, v) as i64,
        w: spec_dot4(m.r3, v) as i64,
    }
}

/// The matrix product, entry by entry.
pub open spec fn spec_matmul(a: Mat4, b: Mat4) -> Mat4 {
    Mat4 {
        r0: Vec4 {
            x: spec_dot4(a.r0, spec_col0(b)) as i64,
            y: spec_dot4(a.r0, spec_col1(b)) as i64,
            z: spec_dot4(a.r0, spec_col2(b)) as i64,
            w: spec_dot4(a.r0, spec_col3(b)) as i64,
        },
        r1: Vec4 {
            x: spec_dot4(a.r1, spec_col0(b)) as i64,
            y: spec_dot4(a.r1, spec_col1(b)) as i64,
            z: spec_dot4(a.r1, spec_col2(b)) as i64,
            w: spec_dot4(a.r1, spec_col3(b)) as i64,
        },
        r2: Vec4 {
            x: spec_dot4(a.r2, spec_col0(b)) as i64,
            y: spec_dot4(a.r2, spec_col1(b)) as i64,
            z: spec_dot4(a.r2, spec_col2(b)) as i64,
            w: spec_dot4(a.r2, spec_col3(b)) as i64,
        },
        r3: Vec4 {
            x: spec_dot4(a.r3, spec_col0(b)) as i64,
            y: spec_dot4(a.r3, spec_col1(b)) as i64,
            z: spec_dot4(a.r3, spec_col2(b)) as i64,
            w: spec_dot4(a.r3, spec_col3(b)) as i64,
        },
    }
}

impl Mat4 {
    pub open spec fn wf(self) -> bool {
        self.r0.wf() && self.r1.wf() && self.r2.wf() && self.r3.wf()
    }

    pub fn identity() -> (r: Mat4)
        ensures
            r == (Mat4 {
                r0: Vec4 { x: SCALE, y: 0i64, z: 0i64, w: 0i64 },
                r1: Vec4 { x: 0i64, y: SCALE, z: 0i64, w: 0i64 },
                r2: Vec4 { x: 0i64, y: 0i64, z: SCALE, w: 0i64 },
                r3: Vec4 { x: 0i64, y: 0i64, z: 0i64, w: SCALE },
            }),
            r.wf(),
    {
        Mat4 {
            r0: Vec4 { x: SCALE, y: 0, z: 0, w: 0 },
            r1: Vec4 { x: 0, y: SCALE, z: 0, w: 0 },
            r2: Vec4 { x: 0, y: 0, z: SCALE, w: 0 },
            r3: Vec4 { x: 0, y: 0, z: 0, w: SCALE },
        }
    }

    fn col0(&self) -> (r: Vec4)
        ensures
            r == spec_col0(*self),
    {
        Vec4 { x: self.r0.x, y: self.r1.x, z: self.r2.x, w: self.r3.x }
    }

    fn col1(&self) -> (r: Vec4)
        ensures
            r == spec_col1(*self),
    {
        Vec4 { x: self.r0.y, y: self.r1.y, z: self.r2.y, w: self.r3.y }
    }

    fn col2(&self) -> (r: Vec4)
        ensures
            r == spec_col2(*self),
    {
        Vec4 { x: self.r0.z, y: self.r1.z, z: self.r2.z, w: self.r3.z }
    }

    fn col3(&self) -> (r: Vec4)
        ensures
            r == spec_col3(*self),
    {
        Vec4 { x: self.r0.w, y: self.r1.w, z: self.r2.w, w: self.r3.w }
    }

    /// Apply the matrix to a 4-component vector.
    pub fn mul_vec4(&self, v: &Vec4) -> (r: Vec4)
        requires
            self.wf(),
            v.wf(),
        ensures
            r == spec_mul_vec4(*self, *v),
            r.wf(),
    {
        Vec4 {
            x: dot4(&self.r0, v),
            y: dot4(&self.r1, v),
            z: dot4(&self.r2, v),
            w: dot4(&self.r3, v),
        }
    }

    /// Apply the matrix to a point, with `w` set to one.
    pub fn mul_point(&self, p: &Vec3) -> (r: Vec4)
        requires
            self.wf(),
            p.wf(),
        ensures
            r == spec_mul_vec4(*self, Vec4 { x: p.x, y: p.y, z: p.z, w: SCALE }),
            r.wf(),
    {
        self.mul_vec4(&Vec4 { x: p.x, y: p.y, z: p.z, w: SCALE })
    }

    /// The matrix product `self * o`.
    pub fn matmul(&self, o: &Mat4) -> (r: Mat4)
        requires
            self.wf(),
            o.wf(),
        ensures
            r == spec_matmul(*self, *o),
            r.wf(),
    {
        let c0 = o.col0();
        let c1 = o.col1();
        let c2 = o.col2();
        let c3 = o.col3();
        Mat4 {
            r0: Vec4 {
                x: dot4(&self.r0, &c0),
                y: dot4(&self.r0, &c1),
                z: dot4(&self.r0, &c2),
                w: dot4(&self.r0, &c3),
            },
            r1: Vec4 {
                x: dot4(&self.r1, &c0),
                y: dot4(&self.r1, &c1),
                z: dot4(&self.r1, &c2),
                w: dot4(&self.r1, &c3),
            },
            r2: Vec4 {
                x: dot4(&self.r2, &c0),
                y: dot4(&self.r2, &c1),
                z: dot4(&self.r2, &c2),
                w: dot4(&self.r2, &c3),
            },
            r3: Vec4 {
                x: dot4(&self.r3, &c0),
                y: dot4(&self.r3, &c1),
                z: dot4(&self.r3, &c2),
                w: dot4(&self.r3, &c3),
            },
        }
    }
}

/// An off-diagonal rotation entry: `2 * (a*b + c*d)` in fixed point.
pub open spec fn spec_q2(a: int, b: int, c: int, d: int) -> int {
    sat(tdiv(2 * (a * b + c * d), SCALE as int))
}

/// A diagonal rotation entry: `1 - 2 * (a*a + b*b)` in fixed point.
pub open spec fn spec_qdiag(a: int, b: int) -> int {
    sat(SCALE - tdiv(2 * (a * a + b * b), SCALE as int))
}

fn q2(a: i64, b: i64, c: i64, d: i64) -> (r: i64)
    requires
        fx_wf(a),
        fx_wf(b),
        fx_wf(c),
        fx_wf(d),
    ensures
        r == spec_q2(a as int, b as int, c as int, d as int),
        fx_wf(r),
{
    proof {
        lemma_mul_bound(a as int, b as int, FX_SAT as int, FX_SAT as int);
        lemma_mul_bound(c as int, d as int, FX_SAT as int, FX_SAT as int);
    }
    let p: i128 = 2 * ((a as i128) * (b as i128) + (c as i128) * (d as i128));
    sat_i128(div_trunc(p, SCALE as i128))
}

fn qdiag(a: i64, b: i64) -> (r: i64)
    requires
        fx_wf(a),
        fx_wf(b),
    ensures
        r == spec_qdiag(a as int, b as int),
        fx_wf(r),
{
    proof {
        lemma_mul_bound(a as int, a as int, FX_SAT as int, FX_SAT as int);
        lemma_mul_bound(b as int, b as int, FX_SAT as int, FX_SAT as int);
    }
    let p: i128 = 2 * ((a as i128) * (a as i128) + (b as i128) * (b as i128));
    sat_i128((SCALE as i128) - div_trunc(p, SCALE as i128))
}

/// The matrix translating a point by `p`.
pub open spec fn spec_translation(p: Vec3) -> Mat4 {
    Mat4 {
        r0: Vec4 { x: SCALE, y: 0, z: 0, w: p.x },
        r1: Vec4 { x: 0, y: SCALE, z: 0, w: p.y },
        r2: Vec4 { x: 0, y: 0, z: SCALE, w: p.z },
        r3: Vec4 { x: 0, y: 0, z: 0, w: SCALE },
    }
}

/// The matrix scaling each axis by the matching component of `s`.
pub open spec fn spec_scaling(s: Vec3) -> Mat4 {
    Mat4 {
        r0: Vec4 { x: s.x, y: 0, z: 0, w: 0 },
        r1: Vec4 { x: 0, y: s.y, z: 0, w: 0 },
        r2: Vec4 { x: 0, y: 0, z: s.z, w: 0 },
        r3: Vec4 { x: 0, y: 0, z: 0, w: SCALE },
    }
}

/// The rotation matrix of a unit quaternion.
pub open spec fn spec_quat_mat(q: crate::vec3::Quat) -> Mat4 {
    Mat4 {
        r0: Vec4 {
            x: spec_qdiag(q.y as int, q.z as int) as i64,
            y: spec_q2(q.x as int, q.y as int, -(q.w as int), q.z as int) as i64,
            z: spec_q2(q.x as int, q.z as int, q.w as int, q.y as int) as i64,
            w: 0,
        },
        r1: Vec4 {
            x: spec_q2(q.x as int, q.y as int, q.w as int, q.z as int) as i64,
            y: spec_qdiag(q.x as int, q.z as int) as i64,
            z: spec_q2(q.y as int, q.z as int, -(q.w as int), q.x as int) as i64,
            w: 0,
        },
        r2: Vec4 {
            x: spec_q2(q.x as int, q.z as int, -(q.w as int), q.y as int) as i64,
            y: spec_q2(q.y as int, q.z as int, q.w as int, q.x as int) as i64,
            z: spec_qdiag(q.x as int, q.y as int) as i64,
            w: 0,
        },
        r3: Vec4 { x: 0, y: 0, z: 0, w: SCALE },
    }
}

pub fn translation(p: &Vec3) -> (r: Mat4)
    requires
        p.wf(),
    ensures
        r == spec_translation(*p),
        r.wf(),
{
    Mat4 {
        r0: Vec4 { x: SCALE, y: 0, z: 0, w: p.x },
        r1: Vec4 { x: 0, y: SCALE, z: 0, w: p.y },
        r2: Vec4 { x: 0, y: 0, z: SCALE, w: p.z },
        r3: Vec4 { x: 0, y: 0, z: 0, w: SCALE },
    }
}

pub fn scaling(s: &Vec3) -> (r: Mat4)
    requires
        s.wf(),
    ensures
        r == spec_scaling(*s),
        r.wf(),
{
    Mat4 {
        r0: Vec4 { x: s.x, y: 0, z: 0, w: 0 },
        r1: Vec4 { x: 0, y: s.y, z: 0, w: 0 },
        r2: Vec4 { x: 0, y: 0, z: s.z, w: 0 },
        r3: Vec4 { x: 0, y: 0, z: 0, w: SCALE },
    }
}

pub fn quat_to_mat4(q: &crate::vec3::Quat) -> (r: Mat4)
    requires
        q.wf(),
    ensures
        r == spec_quat_mat(*q),
        r.wf(),
{
    Mat4 {
        r0: Vec4 {
            x: qdiag(q.y, q.z),
            y: q2(q.x, q.y, -q.w, q.z),
            z: q2(q.x, q.z, q.w, q.y),
            w: 0,
        },
        r1: Vec4 {
            x: q2(q.x, q.y, q.w, q.z),
            y: qdiag(q.x, q.z),
            z: q2(q.y, q.z, -q.w, q.x),
            w: 0,
        },
        r2: Vec4 {
            x: q2(q.x, q.z, -q.w, q.y),
            y: q2(q.y, q.z, q.w, q.x),
            z: qdiag(q.x, q.y),
            w: 0,
        },
        r3: Vec4 { x: 0, y: 0, z: 0, w: SCALE },
    }
}

} // verus!
