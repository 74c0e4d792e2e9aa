//! The transform carried by every scene object.
//!
//! A `TransformComponent` is a position, a rotation and a per-axis scale.
//! Its model matrix composes translation, then scale, then rotation, in
//! that fixed order. Blending for render-time interpolation is linear on
//! position and scale and a renormalized linear blend on the rotation
//! (which stands in for the spherical blend, whose angle is
//! transcendental); both ends of the blend are returned exactly.

use crate::double_buffer::{DoubleBuffered, Interpolatable};
use crate::fx::{div_trunc, fx_wf, lemma_mul_bound, sat, sat_i128, tdiv, FX_SAT, SCALE};
use crate::mat4::{
    scaling, spec_matmul, spec_quat_mat, spec_scaling, spec_translation, quat_to_mat4,
    translation, Mat4,
};
use crate::vec3::{spec_qnormalized, Quat, Vec3};
use vstd::prelude::*;

verus! {

/// Position, rotation and scale of one scene object.
#[derive(Clone, Copy, Debug, PartialEq, Eq, Structural)]
pub struct TransformComponent {
    pub position: Vec3,
    pub rotation: Quat,
    pub scale: Vec3,
}

/// Linear blend of one scalar: `a` at `alpha == 0`, `b` at `alpha ==
/// SCALE`.
pub open spec fn spec_lerp(a: int, b: int, alpha: int) -> int {
    sat(a + tdiv((b - a) * alpha, SCALE as int))
}

/// Component-wise linear blend of a vector.
pub open spec fn spec_lerp3(a: Vec3, b: Vec3, alpha: int) -> Vec3 {
    Vec3 {
        x: spec_lerp(a.x as int, b.x as int, alpha) as i64,
        y: spec_lerp(a.y as int, b.y as int, alpha) as i64,
        z: spec_lerp(a.z as int, b.z as int, alpha) as i64,
    }
}

/// Rotation blend: both endpoints exactly, a renormalized linear blend in
/// between.
pub open spec fn spec_rot_blend(a: Quat, b: Quat, alpha: int) -> Quat {
    if alpha <= 0 {
        a
    } else if alpha >= SCALE {
        b
    } else {
        spec_qnormalized(
            Quat {
                x: spec_lerp(a.x as int, b.x as int, alpha) as i64,
                y: spec_lerp(a.y as int, b.y as int, alpha) as i64,
                z: spec_lerp(a.z as int, b.z as int, alpha) as i64,
                w: spec_lerp(a.w as int, b.w as int, alpha) as i64,
            },
        )
    }
}

fn lerp(a: i64, b: i64, alpha: i64) -> (r: i64)
    requires
        fx_wf(a),
        fx_wf(b),
        0 <= alpha <= SCALE,
    ensures
        r == spec_lerp(a as int, b as int, alpha as int),
        fx_wf(r),
{
    proof {
        lemma_mul_bound(b - a, alpha as int, 2 * FX_SAT as int, SCALE as int);
    }
    let d: i128 = div_trunc((b as i128 - a as i128) * (alpha as i128), SCALE as i128);
    sat_i128(a as i128 + d)
}

impl TransformComponent {
    pub open spec fn wf(self) -> bool {
        self.position.wf() && self.rotation.wf() && self.scale.wf()
    }

    pub fn new(position: Vec3, rotation: Quat, scale: Vec3) -> (r: Self)
        ensures
            r == (TransformComponent { position, rotation, scale }),
    {
        TransformComponent { position, rotation, scale }
    }

    /// Wrap this transform in a fresh double buffer holding it twice.
    pub fn buffer(self) -> (r: DoubleBuffered<Self>)
        ensures
            r.first_val() == self,
            r.second_val() == self,
    {
        DoubleBuffered::new(self)
    }

    /// The model matrix: translation, then scale, then rotation.
    pub open spec fn spec_mat4(self) -> Mat4 {
        spec_matmul(
            spec_matmul(spec_translation(self.position), spec_scaling(self.scale)),
            spec_quat_mat(self.rotation),
        )
    }

    pub fn mat4(&self) -> (r: Mat4)
        requires
            self.wf(),
        ensures
            r == self.spec_mat4(),
            r.wf(),
    {
        let t = translation(&self.position);
        let s = scaling(&self.scale);
        let q = quat_to_mat4(&self.rotation);
        t.matmul(&s).matmul(&q)
    }
}

impl Interpolatable for TransformComponent {
    open spec fn inv(self) -> bool {
        self.wf()
    }

    open spec fn spec_interpolate(self, prev: Self, alpha: int) -> Self {
        TransformComponent {
            position: spec_lerp3(self.position, prev.position, alpha),
            rotation: spec_rot_blend(self.rotation, prev.rotation, alpha),
            scale: spec_lerp3(self.scale, prev.scale, alpha),
        }
    }

    fn interpolate(&self, prev: &Self, alpha: i64) -> (r: Self) {
        let position = Vec3 {
            x: lerp(self.position.x, prev.position.x, alpha),
            y: lerp(self.position.y, prev.position.y, alpha),
            z: lerp(self.position.z, prev.position.z, alpha),
        };
        let scale = Vec3 {
            x: lerp(self.scale.x, prev.scale.x, alpha),
            y: lerp(self.scale.y, prev.scale.y, alpha),
            z: lerp(self.scale.z, prev.scale.z, alpha),
        };
        let rotation = if alpha <= 0 {
            self.rotation
        } else if alpha >= SCALE {
            prev.rotation
        } else {
            let q = Quat {
                x: lerp(self.rotation.x, prev.rotation.x, alpha),
                y: lerp(self.rotation.y, prev.rotation.y, alpha),
                z: lerp(self.rotation.z, prev.rotation.z, alpha),
                w: lerp(self.rotation.w, prev.rotation.w, alpha),
            };
            q.normalized()
        };
        TransformComponent { position, rotation, scale }
    }
}

/// Multiplying by the whole unit and dividing by it again is the
/// identity, also under truncation.
proof fn lemma_tdiv_mul_cancel(k: int, s: int)
    by (nonlinear_arith)
    requires
        s > 0,
    ensures
        tdiv(k * s, s) == k,
{
}

/// Blending by zero returns the first state exactly, blending by the whole
/// unit returns the second exactly — the interpolation round trip.
pub proof fn lemma_interpolate_endpoints(a: TransformComponent, b: TransformComponent)
    requires
        a.wf(),
        b.wf(),
    ensures
        a.spec_interpolate(b, 0) == a,
        a.spec_interpolate(b, SCALE as int) == b,
{
    lemma_endpoints_lerp3(a.position, b.position);
    lemma_endpoints_lerp3(a.scale, b.scale);
}

/// The endpoint facts for one vector blend.
proof fn lemma_endpoints_lerp3(a: Vec3, b: Vec3)
    requires
        a.wf(),
        b.wf(),
    ensures
        spec_lerp3(a, b, 0) == a,
        spec_lerp3(a, b, SCALE as int) == b,
{
    lemma_endpoints_lerp(a.x as int, b.x as int);
    lemma_endpoints_lerp(a.y as int, b.y as int);
    lemma_endpoints_lerp(a.z as int, b.z as int);
}

/// The endpoint facts for one scalar blend.
proof fn lemma_endpoints_lerp(a: int, b: int)
    requires
        -FX_SAT <= a <= FX_SAT,
        -FX_SAT <= b <= FX_SAT,
    ensures
        spec_lerp(a, b, 0) == a,
        spec_lerp(a, b, SCALE as int) == b,
{
    assert((b - a) * 0 == 0);
    assert(tdiv(0, SCALE as int) == 0);
    lemma_tdiv_mul_cancel(b - a, SCALE as int);
}

} // verus!
