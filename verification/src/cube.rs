//! Ray / axis-aligned-cube intersection by the slab method.
//!
//! Entry and exit distances along the ray are exact rationals: each slab
//! crossing is kept as a numerator/denominator pair, and a direction
//! component of zero makes the corresponding slab bound infinite, which the
//! `TBound` type carries explicitly. Distances are only rounded to
//! fixed-point when they are handed out.

use crate::fx::{div_trunc, fx_wf, lemma_mul_bound, sat, sat_i128, tdiv, FX_SAT, SCALE};
use crate::vec3::{spec_minus, spec_normalized, spec_plus, spec_scaled, Vec3};
use vstd::prelude::*;

verus! {

/// Edge length of every axis-aligned cube, in fixed-point world units.
pub const CUBE_SIZE: i64 = 65536;

/// Half the edge length: cube corners lie at `origin ± CUBE_HALF_SIZE`.
pub const CUBE_HALF_SIZE: i64 = 32768;

/// A ray: an origin, a direction, and the per-axis reciprocal of the
/// direction that the slab test conceptually multiplies by. The
/// reciprocal is an exact rational, and a direction component of exactly
/// zero makes it the positive infinity — supported arithmetic, not an
/// error.
#[derive(Clone, Copy, Debug, PartialEq, Eq, Structural)]
pub struct Ray {
    pub origin: Vec3,
    pub dir: Vec3,
    pub inv_dir: InvDir,
}

/// The three per-axis reciprocals a ray precomputes.
#[derive(Clone, Copy, Debug, PartialEq, Eq, Structural)]
pub struct InvDir {
    pub x: TBound,
    pub y: TBound,
    pub z: TBound,
}

/// The exact reciprocal of one fixed-point component: one over the value,
/// or the positive infinity at zero.
pub open spec fn spec_recip(d: i64) -> TBound {
    if d > 0 {
        TBound::Fin { num: SCALE as i128, den: d as i128 }
    } else if d < 0 {
        TBound::Fin { num: (-(SCALE as int)) as i128, den: (-(d as int)) as i128 }
    } else {
        TBound::PosInf
    }
}

/// The reciprocals of all three components of a direction.
pub open spec fn spec_recip3(d: Vec3) -> InvDir {
    InvDir { x: spec_recip(d.x), y: spec_recip(d.y), z: spec_recip(d.z) }
}

fn recip(d: i64) -> (r: TBound)
    requires
        fx_wf(d),
    ensures
        r == spec_recip(d),
        r.wf(),
{
    if d > 0 {
        TBound::Fin { num: SCALE as i128, den: d as i128 }
    } else if d < 0 {
        TBound::Fin { num: -(SCALE as i128), den: -(d as i128) }
    } else {
        TBound::PosInf
    }
}

impl Ray {
    pub open spec fn wf(self) -> bool {
        self.origin.wf() && self.dir.wf() && self.inv_dir == spec_recip3(self.dir)
    }

    pub fn new(origin: &Vec3, dir: &Vec3) -> (r: Ray)
        requires
            dir.wf(),
        ensures
            r == (Ray { origin: *origin, dir: *dir, inv_dir: spec_recip3(*dir) }),
            origin.wf() ==> r.wf(),
    {
        Ray {
            origin: *origin,
            dir: *dir,
            inv_dir: InvDir { x: recip(dir.x), y: recip(dir.y), z: recip(dir.z) },
        }
    }
}

/// A 2D segment in screen pixel space, from projecting a ray.
#[derive(Clone, Copy, Debug, PartialEq, Eq, Structural)]
pub struct Line2D {
    pub from: crate::vec3::Vec2,
    pub to: crate::vec3::Vec2,
}

impl Line2D {
    pub open spec fn wf(self) -> bool {
        self.from.wf() && self.to.wf()
    }
}

/// The face of a cube hit by a ray, or no face at all.
#[derive(Clone, Copy, Debug, PartialEq, Eq, Structural)]
pub enum EFace {
    Right,
    Left,
    Top,
    Bottom,
    Front,
    Back,
    NoHit,
}

/// A face label paired with its outward unit normal.
pub type Face = (EFace, Vec3);

/// A slab-test distance: an exact rational number of ray lengths, or an
/// infinity from a direction component of zero.
#[derive(Clone, Copy, Debug, PartialEq, Eq, Structural)]
pub enum TBound {
    NegInf,
    Fin { num: i128, den: i128 },
    PosInf,
}

/// Largest numerator a slab bound can carry: the difference of two stored
/// coordinates.
pub const T_NUM_LIM: i128 = 0x4000_0000_0000;

impl TBound {
    pub open spec fn wf(self) -> bool {
        match self {
            TBound::Fin { num, den } => -T_NUM_LIM <= num <= T_NUM_LIM && 0 < den
                <= FX_SAT as i128,
            _ => true,
        }
    }
}

/// Ordering on slab distances: infinities at the ends, finite values
/// compared by cross-multiplication.
pub open spec fn spec_tb_le(a: TBound, b: TBound) -> bool {
    match (a, b) {
        (TBound::NegInf, _) => true,
        (_, TBound::PosInf) => true,
        (TBound::PosInf, _) => false,
        (_, TBound::NegInf) => false,
        (TBound::Fin { num: an, den: ad }, TBound::Fin { num: bn, den: bd }) => an * bd <= bn
            * ad,
    }
}

/// The larger of two slab distances.
pub open spec fn spec_tb_max(a: TBound, b: TBound) -> TBound {
    if spec_tb_le(a, b) {
        b
    } else {
        a
    }
}

/// The smaller of two slab distances.
pub open spec fn spec_tb_min(a: TBound, b: TBound) -> TBound {
    if spec_tb_le(a, b) {
        a
    } else {
        b
    }
}

/// A slab distance rounded to a fixed-point scalar; infinities saturate.
pub open spec fn spec_tb_fx(a: TBound) -> int {
    match a {
        TBound::NegInf => -(FX_SAT as int),
        TBound::PosInf => FX_SAT as int,
        TBound::Fin { num, den } => sat(tdiv(num * (SCALE as int), den as int)),
    }
}

fn tb_le(a: &TBound, b: &TBound) -> (r: bool)
    requires
        a.wf(),
        b.wf(),
    ensures
        r == spec_tb_le(*a, *b),
{
    match (a, b) {
        (TBound::NegInf, _) => true,
        (_, TBound::PosInf) => true,
        (TBound::PosInf, _) => false,
        (_, TBound::NegInf) => false,
        (TBound::Fin { num: an, den: ad }, TBound::Fin { num: bn, den: bd }) => {
            proof {
                lemma_mul_bound(*an as int, *bd as int, T_NUM_LIM as int, FX_SAT as int);
                lemma_mul_bound(*bn as int, *ad as int, T_NUM_LIM as int, FX_SAT as int);
            }
            *an * *bd <= *bn * *ad
        },
    }
}

fn tb_max(a: TBound, b: TBound) -> (r: TBound)
    requires
        a.wf(),
        b.wf(),
    ensures
        r == spec_tb_max(a, b),
        r.wf(),
{
    if tb_le(&a, &b) {
        b
    } else {
        a
    }
}

fn tb_min(a: TBound, b: TBound) -> (r: TBound)
    requires
        a.wf(),
        b.wf(),
    ensures
        r == spec_tb_min(a, b),
        r.wf(),
{
    if tb_le(&a, &b) {
        a
    } else {
        b
    }
}

fn tb_fx(a: &TBound) -> (r: i64)
    requires
        a.wf(),
    ensures
        r == spec_tb_fx(*a),
        fx_wf(r),
{
    match a {
        TBound::NegInf => -FX_SAT,
        TBound::PosInf => FX_SAT,
        TBound::Fin { num, den } => {
            proof {
                lemma_mul_bound(*num as int, SCALE as int, T_NUM_LIM as int, SCALE as int);
            }
            sat_i128(div_trunc(*num * (SCALE as i128), *den))
        },
    }
}

/// Where the ray enters the slab `[mn, mx]` along one axis: the smaller of
/// the two crossing distances. A zero direction component never bounds the
/// intersection while the origin lies strictly inside the slab, and
/// excludes it otherwise.
pub open spec fn spec_axis_lo(o: i64, d: i64, mn: i64, mx: i64) -> TBound {
    if d > 0 {
        TBound::Fin { num: (mn - o) as i128, den: d as i128 }
    } else if d < 0 {
        TBound::Fin { num: (o - mx) as i128, den: (-d) as i128 }
    } else if mn < o < mx {
        TBound::NegInf
    } else {
        TBound::PosInf
    }
}

/// Where the ray leaves the slab `[mn, mx]` along one axis: the larger of
/// the two crossing distances.
pub open spec fn spec_axis_hi(o: i64, d: i64, mn: i64, mx: i64) -> TBound {
    if d > 0 {
        TBound::Fin { num: (mx - o) as i128, den: d as i128 }
    } else if d < 0 {
        TBound::Fin { num: (o - mn) as i128, den: (-d) as i128 }
    } else if mn < o < mx {
        TBound::PosInf
    } else {
        TBound::NegInf
    }
}

fn axis_lo(o: i64, d: i64, mn: i64, mx: i64) -> (r: TBound)
    requires
        fx_wf(o),
        fx_wf(d),
        fx_wf(mn),
        fx_wf(mx),
    ensures
        r == spec_axis_lo(o, d, mn, mx),
        r.wf(),
{
    if d > 0 {
        TBound::Fin { num: mn as i128 - o as i128, den: d as i128 }
    } else if d < 0 {
        TBound::Fin { num: o as i128 - mx as i128, den: -(d as i128) }
    } else if mn < o && o < mx {
        TBound::NegInf
    } else {
        TBound::PosInf
    }
}

fn axis_hi(o: i64, d: i64, mn: i64, mx: i64) -> (r: TBound)
    requires
        fx_wf(o),
        fx_wf(d),
        fx_wf(mn),
        fx_wf(mx),
    ensures
        r == spec_axis_hi(o, d, mn, mx),
        r.wf(),
{
    if d > 0 {
        TBound::Fin { num: mx as i128 - o as i128, den: d as i128 }
    } else if d < 0 {
        TBound::Fin { num: o as i128 - mn as i128, den: -(d as i128) }
    } else if mn < o && o < mx {
        TBound::PosInf
    } else {
        TBound::NegInf
    }
}

/// An axis-aligned cube with fixed half-extent `CUBE_HALF_SIZE` around its
/// origin.
pub struct Cube {
    origin: Vec3,
    min: Vec3,
    max: Vec3,
}

impl Cube {
    /// The cube's center.
    pub closed spec fn origin_val(self) -> Vec3 {
        self.origin
    }

    /// The corner with the smallest coordinates.
    pub closed spec fn min_val(self) -> Vec3 {
        self.min
    }

    /// The corner with the largest coordinates.
    pub closed spec fn max_val(self) -> Vec3 {
        self.max
    }

    pub open spec fn wf(self) -> bool {
        &&& self.origin_val().wf()
        &&& self.min_val().wf()
        &&& self.max_val().wf()
        &&& self.min_val() == spec_minus(
            self.origin_val(),
            Vec3 { x: CUBE_HALF_SIZE, y: CUBE_HALF_SIZE, z: CUBE_HALF_SIZE },
        )
        &&& self.max_val() == spec_plus(
            self.origin_val(),
            Vec3 { x: CUBE_HALF_SIZE, y: CUBE_HALF_SIZE, z: CUBE_HALF_SIZE },
        )
    }

    pub fn new(origin: &Vec3) -> (r: Cube)
        requires
            origin.wf(),
        ensures
            r.wf(),
            r.origin_val() == *origin,
    {
        let half_cube = Vec3::new(CUBE_HALF_SIZE, CUBE_HALF_SIZE, CUBE_HALF_SIZE);
        Cube { origin: *origin, min: origin.minus(&half_cube), max: origin.plus(&half_cube) }
    }

    /// The entry distance of the slab test, before the clamp to zero.
    pub open spec fn spec_tmin_raw(self, ray: Ray) -> TBound {
        spec_tb_max(
            spec_tb_max(
                spec_axis_lo(ray.origin.x, ray.dir.x, self.min_val().x, self.max_val().x),
                spec_axis_lo(ray.origin.y, ray.dir.y, self.min_val().y, self.max_val().y),
            ),
            spec_axis_lo(ray.origin.z, ray.dir.z, self.min_val().z, self.max_val().z),
        )
    }

    /// The entry distance, clamped to zero: crossings entirely behind the
    /// ray origin are ignored.
    pub open spec fn spec_tmin(self, ray: Ray) -> TBound {
        spec_tb_max(self.spec_tmin_raw(ray), TBound::Fin { num: 0, den: 1 })
    }

    /// The exit distance of the slab test.
    pub open spec fn spec_tmax(self, ray: Ray) -> TBound {
        spec_tb_min(
            spec_tb_min(
                spec_axis_hi(ray.origin.x, ray.dir.x, self.min_val().x, self.max_val().x),
                spec_axis_hi(ray.origin.y, ray.dir.y, self.min_val().y, self.max_val().y),
            ),
            spec_axis_hi(ray.origin.z, ray.dir.z, self.min_val().z, self.max_val().z),
        )
    }

    /// The ray crosses the cube at a positive distance: the exit lies
    /// strictly beyond the (clamped) entry.
    pub open spec fn spec_is_intersect(self, ray: Ray) -> bool {
        !spec_tb_le(self.spec_tmax(ray), self.spec_tmin(ray))
    }

    fn slab(&self, ray: &Ray) -> (r: (TBound, TBound))
        requires
            self.wf(),
            ray.wf(),
        ensures
            r.0 == self.spec_tmin(*ray),
            r.1 == self.spec_tmax(*ray),
            r.0.wf(),
            r.1.wf(),
    {
        let lo_x = axis_lo(ray.origin.x, ray.dir.x, self.min.x, self.max.x);
        let lo_y = axis_lo(ray.origin.y, ray.dir.y, self.min.y, self.max.y);
        let lo_z = axis_lo(ray.origin.z, ray.dir.z, self.min.z, self.max.z);
        let hi_x = axis_hi(ray.origin.x, ray.dir.x, self.min.x, self.max.x);
        let hi_y = axis_hi(ray.origin.y, ray.dir.y, self.min.y, self.max.y);
        let hi_z = axis_hi(ray.origin.z, ray.dir.z, self.min.z, self.max.z);
        let tmin_raw = tb_max(tb_max(lo_x, lo_y), lo_z);
        let tmin = tb_max(tmin_raw, TBound::Fin { num: 0, den: 1 });
        let tmax = tb_min(tb_min(hi_x, hi_y), hi_z);
        (tmin, tmax)
    }

    /// The clamped entry and exit distances, rounded to fixed-point.
    pub fn get_contacts_distances(&self, ray: &Ray) -> (r: (i64, i64))
        requires
            self.wf(),
            ray.wf(),
        ensures
            r.0 == spec_tb_fx(self.spec_tmin(*ray)),
            r.1 == spec_tb_fx(self.spec_tmax(*ray)),
            fx_wf(r.0),
            fx_wf(r.1),
    {
        let (tmin, tmax) = self.slab(ray);
        (tb_fx(&tmin), tb_fx(&tmax))
    }

    pub fn is_intersect(&self, ray: &Ray) -> (r: bool)
        requires
            self.wf(),
            ray.wf(),
        ensures
            r == self.spec_is_intersect(*ray),
    {
        let (tmin, tmax) = self.slab(ray);
        !tb_le(&tmax, &tmin)
    }

    /// The point where the ray enters the cube.
    pub open spec fn spec_contact(self, ray: Ray) -> Vec3 {
        spec_plus(ray.origin, spec_scaled(ray.dir, spec_tb_fx(self.spec_tmin(ray))))
    }

    pub fn get_contact(&self, ray: &Ray) -> (r: Vec3)
        requires
            self.wf(),
            ray.wf(),
        ensures
            r == self.spec_contact(*ray),
            r.wf(),
    {
        let (tmin, _) = self.get_contacts_distances(ray);
        ray.origin.plus(&ray.dir.scaled(tmin))
    }

    /// The face whose outward normal points most nearly from the cube's
    /// center toward the contact point; ties and a degenerate zero
    /// direction give no face, as no projection exceeds zero.
    pub open spec fn spec_intersect_face(self, ray: Ray) -> Face {
        spec_nearest_face(spec_normalized(spec_minus(self.spec_contact(ray), self.origin_val())))
    }

    pub fn get_intersect_face(&self, ray: &Ray) -> (r: Face)
        requires
            self.wf(),
            ray.wf(),
        ensures
            r == self.spec_intersect_face(*ray),
            r.1.wf(),
    {
        let contact = self.get_contact(ray);
        let dir_to_camera = contact.minus(&self.origin).normalized();
        nearest_face(&dir_to_camera)
    }
}

/// A ray starting strictly inside the cube has its entry distance clamped
/// to exactly zero, whatever its direction: every slab is already entered,
/// so the raw entry lies at or before the origin and the clamp takes over.
pub proof fn lemma_behind_ray_clamp(cube: Cube, ray: Ray)
    requires
        cube.wf(),
        ray.wf(),
        cube.min_val().x < ray.origin.x < cube.max_val().x,
        cube.min_val().y < ray.origin.y < cube.max_val().y,
        cube.min_val().z < ray.origin.z < cube.max_val().z,
    ensures
        cube.spec_tmin(ray) == (TBound::Fin { num: 0, den: 1 }),
        spec_tb_fx(cube.spec_tmin(ray)) == 0,
{
    let zero = TBound::Fin { num: 0, den: 1 };
    lemma_axis_lo_entered(ray.origin.x, ray.dir.x, cube.min_val().x, cube.max_val().x);
    lemma_axis_lo_entered(ray.origin.y, ray.dir.y, cube.min_val().y, cube.max_val().y);
    lemma_axis_lo_entered(ray.origin.z, ray.dir.z, cube.min_val().z, cube.max_val().z);
    assert(spec_tb_le(cube.spec_tmin_raw(ray), zero));
    assert(cube.spec_tmin(ray) == zero);
    assert(tdiv(0, 1) == 0);
}

/// Inside a slab, the entry bound along that axis is never positive.
proof fn lemma_axis_lo_entered(o: i64, d: i64, mn: i64, mx: i64)
    requires
        mn < o < mx,
    ensures
        spec_tb_le(spec_axis_lo(o, d, mn, mx), TBound::Fin { num: 0, den: 1 }),
{
    if d > 0 {
        assert((mn - o) * 1 <= 0 * d) by (nonlinear_arith)
            requires
                mn < o,
                d > 0,
        ;
    } else if d < 0 {
        assert((o - mx) * 1 <= 0 * (-d)) by (nonlinear_arith)
            requires
                o < mx,
                d < 0,
        ;
    }
}

/// A ray running parallel to a slab from outside it can never meet the
/// cube: on that axis the crossing interval is empty, so the whole slab
/// test reports a miss.
pub proof fn lemma_parallel_offset_misses(cube: Cube, ray: Ray, axis: int)
    requires
        cube.wf(),
        ray.wf(),
        0 <= axis < 3,
        axis == 0 ==> ray.dir.x == 0 && !(cube.min_val().x < ray.origin.x < cube.max_val().x),
        axis == 1 ==> ray.dir.y == 0 && !(cube.min_val().y < ray.origin.y < cube.max_val().y),
        axis == 2 ==> ray.dir.z == 0 && !(cube.min_val().z < ray.origin.z < cube.max_val().z),
    ensures
        !cube.spec_is_intersect(ray),
{
    assert(spec_tb_le(cube.spec_tmax(ray), cube.spec_tmin(ray)));
}

/// The face of the unit cube whose outward normal has the largest positive
/// projection on `d`, walking the faces in the fixed order +X, -X, +Y, -Y,
/// +Z, -Z and keeping the first strict maximum; no face if none is
/// positive.
pub open spec fn spec_nearest_face(d: Vec3) -> Face {
    let no_hit = (EFace::NoHit, Vec3 { x: 0, y: 0, z: 0 });
    let s0 = if d.x > 0 {
        (EFace::Right, Vec3 { x: SCALE, y: 0, z: 0 })
    } else {
        no_hit
    };
    let p0: int = if d.x > 0 {
        d.x as int
    } else {
        0
    };
    let s1 = if -d.x > p0 {
        (EFace::Left, Vec3 { x: (-SCALE) as i64, y: 0, z: 0 })
    } else {
        s0
    };
    let p1: int = if -d.x > p0 {
        -d.x as int
    } else {
        p0
    };
    let s2 = if d.y > p1 {
        (EFace::Top, Vec3 { x: 0, y: SCALE, z: 0 })
    } else {
        s1
    };
    let p2: int = if d.y > p1 {
        d.y as int
    } else {
        p1
    };
    let s3 = if -d.y > p2 {
        (EFace::Bottom, Vec3 { x: 0, y: (-SCALE) as i64, z: 0 })
    } else {
        s2
    };
    let p3: int = if -d.y > p2 {
        -d.y as int
    } else {
        p2
    };
    let s4 = if d.z > p3 {
        (EFace::Front, Vec3 { x: 0, y: 0, z: SCALE })
    } else {
        s3
    };
    let p4: int = if d.z > p3 {
        d.z as int
    } else {
        p3
    };
    if -d.z > p4 {
        (EFace::Back, Vec3 { x: 0, y: 0, z: (-SCALE) as i64 })
    } else {
        s4
    }
}

fn nearest_face(d: &Vec3) -> (r: Face)
    requires
        d.wf(),
    ensures
        r == spec_nearest_face(*d),
        r.1.wf(),
{
    let mut best: Face = (EFace::NoHit, Vec3::zero());
    let mut best_p: i64 = 0;
    if d.x > best_p {
        best = (EFace::Right, Vec3::new(SCALE, 0, 0));
        best_p = d.x;
    }
    if -d.x > best_p {
        best = (EFace::Left, Vec3::new(-SCALE, 0, 0));
        best_p = -d.x;
    }
    if d.y > best_p {
        best = (EFace::Top, Vec3::new(0, SCALE, 0));
        best_p = d.y;
    }
    if -d.y > best_p {
        best = (EFace::Bottom, Vec3::new(0, -SCALE, 0));
        best_p = -d.y;
    }
    if d.z > best_p {
        best = (EFace::Front, Vec3::new(0, 0, SCALE));
        best_p = d.z;
    }
    if -d.z > best_p {
        best = (EFace::Back, Vec3::new(0, 0, -SCALE));
    }
    best
}

} // verus!
