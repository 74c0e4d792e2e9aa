//! The first-person camera: view and projection matrices, movement
//! integration, mouse-look, and screen/world transforms.
//!
//! Yaw and pitch are fixed-point degrees. Turning them into a facing
//! direction takes trigonometry, which fixed-point arithmetic cannot state
//! exactly, so the caller computes the direction and hands it back through
//! `set_direction`; everything else — the clamping, the integration, the
//! matrices and the projective transforms — is exact integer arithmetic
//! specified here.

use crate::cube::{Line2D, Ray};
use crate::fx::{
    div_safe, div_trunc, fx_wf, fxmul, lemma_mul_bound, sat, sat_i128, spec_div_safe,
    spec_fxmul, tdiv, FX_SAT, SCALE,
};
use crate::mat4::{spec_mul_vec4, Mat4, Vec4};
use crate::vec3::{spec_cross, spec_dot, spec_normalized, Vec2, Vec3};
use vstd::prelude::*;

verus! {

/// Discrete movement intent along one axis.
#[allow(non_camel_case_types)]
#[derive(Clone, Copy, Debug, PartialEq, Eq, Structural)]
pub enum CameraMovement {
    NEGATIVE,
    POSITIVE,
    NONE,
}

/// The fixed-point movement factor of an intent: minus one, one, or zero.
pub open spec fn spec_dir_value(m: CameraMovement) -> int {
    match m {
        CameraMovement::NEGATIVE => -(SCALE as int),
        CameraMovement::POSITIVE => SCALE as int,
        CameraMovement::NONE => 0,
    }
}

fn dir_value(m: CameraMovement) -> (r: i64)
    ensures
        r == spec_dir_value(m),
        fx_wf(r),
{
    match m {
        CameraMovement::NEGATIVE => -SCALE,
        CameraMovement::POSITIVE => SCALE,
        CameraMovement::NONE => 0,
    }
}

/// A cursor position in integer pixels, y measured from the top.
#[derive(Clone, Copy, Debug, PartialEq, Eq, Structural)]
pub struct Cursor {
    pub x: i32,
    pub y: i32,
}

/// The world up axis.
pub open spec fn spec_up() -> Vec3 {
    Vec3 { x: 0, y: SCALE, z: 0 }
}

/// The tangent of half the 45-degree field of view, in fixed point.
pub const TAN_HALF_FOV: i64 = 27146;

/// The pitch limit in fixed-point degrees: looking straight up or down is
/// kept one degree away to protect the view matrix.
pub const PITCH_LIMIT: i64 = 5832704;

/// The right-handed look-at view matrix for an eye looking along `dir`
/// with the world up axis.
pub open spec fn spec_look_at(eye: Vec3, dir: Vec3) -> Mat4 {
    let f = spec_normalized(dir);
    let s = spec_normalized(spec_cross(f, spec_up()));
    let u = spec_cross(s, f);
    Mat4 {
        r0: Vec4 { x: s.x, y: s.y, z: s.z, w: (-spec_dot(s, eye)) as i64 },
        r1: Vec4 { x: u.x, y: u.y, z: u.z, w: (-spec_dot(u, eye)) as i64 },
        r2: Vec4 {
            x: (-(f.x as int)) as i64,
            y: (-(f.y as int)) as i64,
            z: (-(f.z as int)) as i64,
            w: spec_dot(f, eye) as i64,
        },
        r3: Vec4 { x: 0, y: 0, z: 0, w: SCALE },
    }
}

/// The inverse of the look-at matrix, assembled from the same basis.
pub open spec fn spec_look_at_inv(eye: Vec3, dir: Vec3) -> Mat4 {
    let f = spec_normalized(dir);
    let s = spec_normalized(spec_cross(f, spec_up()));
    let u = spec_cross(s, f);
    Mat4 {
        r0: Vec4 { x: s.x, y: u.x, z: (-(f.x as int)) as i64, w: eye.x },
        r1: Vec4 { x: s.y, y: u.y, z: (-(f.y as int)) as i64, w: eye.y },
        r2: Vec4 { x: s.z, y: u.z, z: (-(f.z as int)) as i64, w: eye.z },
        r3: Vec4 { x: 0, y: 0, z: 0, w: SCALE },
    }
}

fn look_at_pair(eye: &Vec3, dir: &Vec3) -> (r: (Mat4, Mat4))
    requires
        eye.wf(),
        dir.wf(),
    ensures
        r.0 == spec_look_at(*eye, *dir),
        r.1 == spec_look_at_inv(*eye, *dir),
        r.0.wf(),
        r.1.wf(),
{
    let up = Vec3::new(0, SCALE, 0);
    let f = dir.normalized();
    let s = f.cross(&up).normalized();
    let u = s.cross(&f);
    let view = Mat4 {
        r0: Vec4 { x: s.x, y: s.y, z: s.z, w: -s.dot(eye) },
        r1: Vec4 { x: u.x, y: u.y, z: u.z, w: -u.dot(eye) },
        r2: Vec4 { x: -f.x, y: -f.y, z: -f.z, w: f.dot(eye) },
        r3: Vec4 { x: 0, y: 0, z: 0, w: SCALE },
    };
    let inv = Mat4 {
        r0: Vec4 { x: s.x, y: u.x, z: -f.x, w: eye.x },
        r1: Vec4 { x: s.y, y: u.y, z: -f.y, w: eye.y },
        r2: Vec4 { x: s.z, y: u.z, z: -f.z, w: eye.z },
        r3: Vec4 { x: 0, y: 0, z: 0, w: SCALE },
    };
    (view, inv)
}

/// The perspective projection for a 45-degree vertical field of view, the
/// aspect ratio `w / h`, and the given clip planes.
pub open spec fn spec_perspective(w: int, h: int, near: int, far: int) -> Mat4 {
    Mat4 {
        r0: Vec4 {
            x: sat(tdiv(h * (SCALE as int) * (SCALE as int), w * (TAN_HALF_FOV as int))) as i64,
            y: 0,
            z: 0,
            w: 0,
        },
        r1: Vec4 {
            x: 0,
            y: sat(tdiv((SCALE as int) * (SCALE as int), TAN_HALF_FOV as int)) as i64,
            z: 0,
            w: 0,
        },
        r2: Vec4 {
            x: 0,
            y: 0,
            z: sat(tdiv(-(far + near) * (SCALE as int), far - near)) as i64,
            w: sat(tdiv(-2 * far * near, far - near)) as i64,
        },
        r3: Vec4 { x: 0, y: 0, z: (-SCALE) as i64, w: 0 },
    }
}

/// The inverse of the perspective projection, assembled from the same
/// parameters.
pub open spec fn spec_perspective_inv(w: int, h: int, near: int, far: int) -> Mat4 {
    Mat4 {
        r0: Vec4 { x: sat(tdiv(w * (TAN_HALF_FOV as int), h)) as i64, y: 0, z: 0, w: 0 },
        r1: Vec4 { x: 0, y: TAN_HALF_FOV, z: 0, w: 0 },
        r2: Vec4 { x: 0, y: 0, z: 0, w: (-SCALE) as i64 },
        r3: Vec4 {
            x: 0,
            y: 0,
            z: sat(tdiv(-(far - near) * (SCALE as int) * (SCALE as int), 2 * far * near)) as i64,
            w: sat(tdiv((far + near) * (SCALE as int) * (SCALE as int), 2 * far * near)) as i64,
        },
    }
}

fn perspective_pair(w: u32, h: u32, near: i64, far: i64) -> (r: (Mat4, Mat4))
    requires
        1 <= w <= 1000000,
        1 <= h <= 1000000,
        0 < near < far <= FX_SAT,
    ensures
        r.0 == spec_perspective(w as int, h as int, near as int, far as int),
        r.1 == spec_perspective_inv(w as int, h as int, near as int, far as int),
        r.0.wf(),
        r.1.wf(),
{
    proof {
        lemma_mul_bound(far as int, near as int, FX_SAT as int, FX_SAT as int);
        lemma_mul_bound(h as int, SCALE as int, 1000000, 65536);
        lemma_mul_bound(h * (SCALE as int), SCALE as int, 0x10_0000_0000_0000, 65536);
        lemma_mul_bound(w as int, TAN_HALF_FOV as int, 1000000, 32768);
        lemma_mul_bound(
            (far - near) as int,
            SCALE as int,
            2 * FX_SAT as int,
            65536,
        );
        lemma_mul_bound(
            (far - near) * (SCALE as int),
            SCALE as int,
            0x1_0000_0000_0000_0000_0000,
            65536,
        );
        lemma_mul_bound(
            (far + near) as int,
            SCALE as int,
            2 * FX_SAT as int,
            65536,
        );
        lemma_mul_bound(
            (far + near) * (SCALE as int),
            SCALE as int,
            0x1_0000_0000_0000_0000_0000,
            65536,
        );
        lemma_mul_bound(-2 * (far as int), near as int, 2 * FX_SAT as int, FX_SAT as int);
        lemma_mul_bound(2 * (far as int), near as int, 2 * FX_SAT as int, FX_SAT as int);
        assert(2 * (far as int) * (near as int) > 0) by (nonlinear_arith)
            requires
                far >= 1,
                near >= 1,
        ;
    }
    let p00 = sat_i128(
        div_trunc(
            (h as i128) * (SCALE as i128) * (SCALE as i128),
            (w as i128) * (TAN_HALF_FOV as i128),
        ),
    );
    let p11 = sat_i128(div_trunc((SCALE as i128) * (SCALE as i128), TAN_HALF_FOV as i128));
    let p22 = sat_i128(
        div_trunc(-(far as i128 + near as i128) * (SCALE as i128), far as i128 - near as i128),
    );
    let p23 = sat_i128(
        div_trunc(-2 * (far as i128) * (near as i128), far as i128 - near as i128),
    );
    let proj = Mat4 {
        r0: Vec4 { x: p00, y: 0, z: 0, w: 0 },
        r1: Vec4 { x: 0, y: p11, z: 0, w: 0 },
        r2: Vec4 { x: 0, y: 0, z: p22, w: p23 },
        r3: Vec4 { x: 0, y: 0, z: -SCALE, w: 0 },
    };
    let ip00 = sat_i128(div_trunc((w as i128) * (TAN_HALF_FOV as i128), h as i128));
    let ip32 = sat_i128(
        div_trunc(
            -(far as i128 - near as i128) * (SCALE as i128) * (SCALE as i128),
            2 * (far as i128) * (near as i128),
        ),
    );
    let ip33 = sat_i128(
        div_trunc(
            (far as i128 + near as i128) * (SCALE as i128) * (SCALE as i128),
            2 * (far as i128) * (near as i128),
        ),
    );
    let inv = Mat4 {
        r0: Vec4 { x: ip00, y: 0, z: 0, w: 0 },
        r1: Vec4 { x: 0, y: TAN_HALF_FOV, z: 0, w: 0 },
        r2: Vec4 { x: 0, y: 0, z: 0, w: -SCALE },
        r3: Vec4 { x: 0, y: 0, z: ip32, w: ip33 },
    };
    (proj, inv)
}

/// The interactive first-person camera.
pub struct Camera {
    pub screen_width: u32,
    pub screen_height: u32,
    pub near_plane: i64,
    pub far_plane: i64,
    pub projection: Mat4,
    pub view: Mat4,
    pub inv_projection: Mat4,
    pub inv_view: Mat4,
    pub position: Vec3,
    pub direction_to_camera: Vec3,
    pub speed: i64,
    pub move_x: CameraMovement,
    pub move_z: CameraMovement,
    pub move_y: CameraMovement,
    pub last_cursor: Cursor,
    pub is_looking_around: bool,
    pub cam_sensitive: i64,
    pub yaw: i64,
    pub pitch: i64,
}

impl Camera {
    pub open spec fn wf(self) -> bool {
        &&& 1 <= self.screen_width <= 1000000
        &&& 1 <= self.screen_height <= 1000000
        &&& 0 < self.near_plane < self.far_plane <= FX_SAT
        &&& self.projection.wf()
        &&& self.view.wf()
        &&& self.inv_projection.wf()
        &&& self.inv_view.wf()
        &&& self.position.wf()
        &&& self.direction_to_camera.wf()
        &&& fx_wf(self.speed)
        &&& fx_wf(self.cam_sensitive)
        &&& fx_wf(self.yaw)
        &&& fx_wf(self.pitch)
    }

    /// Current pitch, in fixed-point degrees.
    pub fn pitch(&self) -> (r: i64)
        ensures
            r == self.pitch,
    {
        self.pitch
    }

    /// Current yaw, in fixed-point degrees.
    pub fn yaw(&self) -> (r: i64)
        ensures
            r == self.yaw,
    {
        self.yaw
    }

    pub fn new() -> (r: Camera)
        ensures
            r.wf(),
            r.screen_width == 900,
            r.screen_height == 700,
            r.near_plane == 6554,
            r.far_plane == 19660800,
            r.position == (Vec3 { x: 0i64, y: 262144i64, z: 393216i64 }),
            r.direction_to_camera == spec_normalized(
                Vec3 { x: 0i64, y: -262144i64, z: -393216i64 },
            ),
            r.view == spec_look_at(r.position, r.direction_to_camera),
            r.inv_view == spec_look_at_inv(r.position, r.direction_to_camera),
            r.projection == spec_perspective(900, 700, 6554, 19660800),
            r.inv_projection == spec_perspective_inv(900, 700, 6554, 19660800),
            r.speed == 6554,
            r.move_x is NONE && r.move_y is NONE && r.move_z is NONE,
            r.last_cursor == (Cursor { x: 0i32, y: 0i32 }),
            !r.is_looking_around,
            r.cam_sensitive == 6554,
            r.yaw == 0,
            r.pitch == 0,
    {
        Self::default()
    }

    /// Integrate one fixed simulation tick: move along the strafe, forward
    /// and vertical axes by the current intents, then rebuild the view
    /// matrix to look from the new position along the facing direction.
    pub fn update(&mut self)
        requires
            old(self).wf(),
        ensures
            final(self).wf(),
            final(self).position == spec_update_position(*old(self)),
            final(self).view == spec_look_at(
                spec_update_position(*old(self)),
                old(self).direction_to_camera,
            ),
            final(self).inv_view == spec_look_at_inv(
                spec_update_position(*old(self)),
                old(self).direction_to_camera,
            ),
            unchanged_but_motion(*old(self), *final(self)),
    {
        let up = Vec3::new(0, SCALE, 0);
        let move_x = dir_value(self.move_x);
        let move_z = dir_value(self.move_z);
        let move_y = dir_value(self.move_y);
        let strafe = self.direction_to_camera.cross(&up).normalized();
        let p1 = self.position.plus(&strafe.scaled(fxmul(self.speed, move_x)));
        let p2 = p1.plus(&self.direction_to_camera.scaled(fxmul(self.speed, move_z)));
        let p3 = p2.plus(&up.scaled(fxmul(self.speed, move_y)));
        self.position = p3;
        let (view, inv_view) = look_at_pair(&self.position, &self.direction_to_camera);
        self.view = view;
        self.inv_view = inv_view;
    }

    /// Begin mouse-look: remember the cursor and set the looking flag.
    pub fn click(&mut self, x: i32, y: i32)
        requires
            old(self).wf(),
        ensures
            final(self).wf(),
            final(self).last_cursor == (Cursor { x, y }),
            final(self).is_looking_around,
            *final(self) == (Camera {
                last_cursor: Cursor { x, y },
                is_looking_around: true,
                ..*old(self)
            }),
    {
        self.last_cursor = Cursor { x, y };
        self.is_looking_around = true;
    }

    /// End mouse-look.
    pub fn unclick(&mut self)
        requires
            old(self).wf(),
        ensures
            final(self).wf(),
            !final(self).is_looking_around,
            *final(self) == (Camera { is_looking_around: false, ..*old(self) }),
    {
        self.is_looking_around = false;
    }

    /// Accumulate a mouse move into yaw and pitch while looking around.
    /// Vertical motion is inverted so moving the mouse up raises the
    /// pitch, and the pitch is clamped to the limit; the clamp never
    /// touches the yaw. The caller derives the new facing direction from
    /// the two angles and hands it back through `set_direction`.
    pub fn handle_mouse(&mut self, x: i32, y: i32)
        requires
            old(self).wf(),
        ensures
            final(self).wf(),
            old(self).is_looking_around ==> *final(self) == (Camera {
                last_cursor: Cursor { x, y },
                yaw: spec_yaw_after(*old(self), x as int) as i64,
                pitch: spec_pitch_after(*old(self), y as int) as i64,
                ..*old(self)
            }),
            !old(self).is_looking_around ==> *final(self) == *old(self),
            -PITCH_LIMIT <= final(self).pitch <= PITCH_LIMIT || final(self).pitch
                == old(self).pitch,
    {
        if self.is_looking_around {
            let x_offset: i64 = x as i64 - self.last_cursor.x as i64;
            let y_offset: i64 = self.last_cursor.y as i64 - y as i64;
            self.last_cursor = Cursor { x, y };
            proof {
                lemma_mul_bound(
                    self.cam_sensitive as int,
                    x_offset as int,
                    FX_SAT as int,
                    0x1_0000_0000,
                );
                lemma_mul_bound(
                    self.cam_sensitive as int,
                    y_offset as int,
                    FX_SAT as int,
                    0x1_0000_0000,
                );
            }
            self.yaw = sat_i128(
                self.yaw as i128 + (self.cam_sensitive as i128) * (x_offset as i128),
            );
            let pitch_raw = sat_i128(
                self.pitch as i128 + (self.cam_sensitive as i128) * (y_offset as i128),
            );
            self.pitch = if pitch_raw > PITCH_LIMIT {
                PITCH_LIMIT
            } else if pitch_raw < -PITCH_LIMIT {
                -PITCH_LIMIT
            } else {
                pitch_raw
            };
        }
    }

    /// Replace the facing direction; the view matrix follows on the next
    /// `update`.
    pub fn set_direction(&mut self, direction: Vec3)
        requires
            old(self).wf(),
            direction.wf(),
        ensures
            final(self).wf(),
            *final(self) == (Camera { direction_to_camera: direction, ..*old(self) }),
    {
        self.direction_to_camera = direction;
    }

    /// Replace the position; the view matrix follows on the next `update`.
    pub fn set_position(&mut self, position: Vec3)
        requires
            old(self).wf(),
            position.wf(),
        ensures
            final(self).wf(),
            *final(self) == (Camera { position, ..*old(self) }),
    {
        self.position = position;
    }

    pub fn set_move_x(&mut self, movement: CameraMovement)
        requires
            old(self).wf(),
        ensures
            final(self).wf(),
            *final(self) == (Camera { move_x: movement, ..*old(self) }),
    {
        self.move_x = movement;
    }

    pub fn set_move_z(&mut self, movement: CameraMovement)
        requires
            old(self).wf(),
        ensures
            final(self).wf(),
            *final(self) == (Camera { move_z: movement, ..*old(self) }),
    {
        self.move_z = movement;
    }

    pub fn set_move_y(&mut self, movement: CameraMovement)
        requires
            old(self).wf(),
        ensures
            final(self).wf(),
            *final(self) == (Camera { move_y: movement, ..*old(self) }),
    {
        self.move_y = movement;
    }
}

/// A world point pushed through view, projection, perspective divide and
/// the viewport: screen pixels in x and y (origin at the bottom left) and
/// a unit depth in z. A point on the camera plane saturates instead of
/// dividing by zero.
pub open spec fn spec_world_to_screen(cam: Camera, p: Vec3) -> Vec3 {
    let v1 = spec_mul_vec4(cam.view, Vec4 { x: p.x, y: p.y, z: p.z, w: SCALE });
    let c = spec_mul_vec4(cam.projection, v1);
    let nx = spec_div_safe(c.x as int, c.w as int);
    let ny = spec_div_safe(c.y as int, c.w as int);
    let nz = spec_div_safe(c.z as int, c.w as int);
    Vec3 {
        x: sat(tdiv((nx + SCALE) * (cam.screen_width as int), 2)) as i64,
        y: sat(tdiv((ny + SCALE) * (cam.screen_height as int), 2)) as i64,
        z: sat(tdiv(nz + SCALE, 2)) as i64,
    }
}

/// A screen point pulled back to world space: pixels to clip coordinates,
/// then through the inverse projection and inverse view, then the
/// homogeneous divide. The depth component selects the near plane at zero
/// and the far plane at one.
pub open spec fn spec_screen_to_world(cam: Camera, p: Vec3) -> Vec3 {
    let nx = sat(tdiv(2 * p.x, cam.screen_width as int) - SCALE);
    let ny = sat(tdiv(2 * p.y, cam.screen_height as int) - SCALE);
    let nz = sat(2 * p.z - SCALE);
    let q = spec_mul_vec4(
        cam.inv_projection,
        Vec4 { x: nx as i64, y: ny as i64, z: nz as i64, w: SCALE },
    );
    let t = spec_mul_vec4(cam.inv_view, q);
    Vec3 {
        x: spec_div_safe(t.x as int, t.w as int) as i64,
        y: spec_div_safe(t.y as int, t.w as int) as i64,
        z: spec_div_safe(t.z as int, t.w as int) as i64,
    }
}

/// Screen pixels to normalized device coordinates in `[-1, 1]`.
pub open spec fn spec_screen_to_ndc(cam: Camera, s: Vec2) -> Vec2 {
    Vec2 {
        x: sat(tdiv(2 * s.x, cam.screen_width as int) - SCALE) as i64,
        y: sat(tdiv(2 * s.y, cam.screen_height as int) - SCALE) as i64,
    }
}

/// A top-origin cursor pixel turned into a bottom-origin fixed-point
/// screen point.
pub open spec fn spec_cursor_to_screen(cam: Camera, c: Cursor) -> Vec2 {
    Vec2 {
        x: sat(c.x * (SCALE as int)) as i64,
        y: sat((cam.screen_height - c.y) * (SCALE as int)) as i64,
    }
}

/// A ray projected to a screen segment: its origin, and the point one
/// `length` along it, both through `spec_world_to_screen`.
pub open spec fn spec_line_from_ray(cam: Camera, ray: Ray, length: int) -> Line2D {
    let from3 = spec_world_to_screen(cam, ray.origin);
    let to3 = spec_world_to_screen(
        cam,
        crate::vec3::spec_plus(ray.origin, crate::vec3::spec_scaled(ray.dir, length)),
    );
    Line2D {
        from: Vec2 { x: from3.x, y: from3.y },
        to: Vec2 { x: to3.x, y: to3.y },
    }
}

/// Cast the cursor's picking ray onto the plane with the given normal
/// through the offset point: the picking direction is the difference of
/// the far- and near-plane unprojections, and the returned point is
/// `position - direction * t` with `t = (position . n - offset . n) /
/// (direction . n)`. A direction parallel to the plane saturates `t`
/// instead of diverging.
pub open spec fn spec_cast_on_plane(cam: Camera, cursor: Cursor, normal: Vec3, offset: Vec3) -> Vec3 {
    let screen = spec_cursor_to_screen(cam, cursor);
    let far_pt = spec_screen_to_world(cam, Vec3 { x: screen.x, y: screen.y, z: SCALE });
    let near_pt = spec_screen_to_world(cam, Vec3 { x: screen.x, y: screen.y, z: 0 });
    let direction = crate::vec3::spec_minus(far_pt, near_pt);
    let nd = spec_dot(direction, normal);
    let pn = spec_dot(cam.position, normal);
    let on = spec_dot(offset, normal);
    let t = spec_div_safe(sat(pn - on), nd);
    crate::vec3::spec_minus(cam.position, crate::vec3::spec_scaled(direction, t))
}

impl Camera {
    /// Project a world point to screen pixels and unit depth.
    pub fn world_to_screen(&self, obj: &Vec3) -> (r: Vec3)
        requires
            self.wf(),
            obj.wf(),
        ensures
            r == spec_world_to_screen(*self, *obj),
            r.wf(),
    {
        let v1 = self.view.mul_point(obj);
        let c = self.projection.mul_vec4(&v1);
        let nx = div_safe(c.x, c.w);
        let ny = div_safe(c.y, c.w);
        let nz = div_safe(c.z, c.w);
        proof {
            lemma_mul_bound(
                nx + SCALE as int,
                self.screen_width as int,
                2 * FX_SAT as int,
                1000000,
            );
            lemma_mul_bound(
                ny + SCALE as int,
                self.screen_height as int,
                2 * FX_SAT as int,
                1000000,
            );
        }
        Vec3 {
            x: sat_i128(
                div_trunc((nx as i128 + SCALE as i128) * (self.screen_width as i128), 2),
            ),
            y: sat_i128(
                div_trunc((ny as i128 + SCALE as i128) * (self.screen_height as i128), 2),
            ),
            z: sat_i128(div_trunc(nz as i128 + SCALE as i128, 2)),
        }
    }

    /// Pull a screen point (pixels and unit depth) back to world space.
    pub fn screen_to_world(&self, obj: &Vec3) -> (r: Vec3)
        requires
            self.wf(),
            obj.wf(),
        ensures
            r == spec_screen_to_world(*self, *obj),
            r.wf(),
    {
        let nx = sat_i128(
            div_trunc(2 * obj.x as i128, self.screen_width as i128) - SCALE as i128,
        );
        let ny = sat_i128(
            div_trunc(2 * obj.y as i128, self.screen_height as i128) - SCALE as i128,
        );
        let nz = sat_i128(2 * obj.z as i128 - SCALE as i128);
        let q = self.inv_projection.mul_vec4(&Vec4 { x: nx, y: ny, z: nz, w: SCALE });
        let t = self.inv_view.mul_vec4(&q);
        Vec3 { x: div_safe(t.x, t.w), y: div_safe(t.y, t.w), z: div_safe(t.z, t.w) }
    }

    /// Screen pixels to normalized device coordinates.
    pub fn screen_to_ndc(&self, screen: &Vec2) -> (r: Vec2)
        requires
            self.wf(),
            screen.wf(),
        ensures
            r == spec_screen_to_ndc(*self, *screen),
            r.wf(),
    {
        Vec2 {
            x: sat_i128(
                div_trunc(2 * screen.x as i128, self.screen_width as i128) - SCALE as i128,
            ),
            y: sat_i128(
                div_trunc(2 * screen.y as i128, self.screen_height as i128) - SCALE as i128,
            ),
        }
    }

    /// Flip a cursor pixel from top-origin to bottom-origin screen space.
    pub fn cursor_to_screen(&self, cursor: &Cursor) -> (r: Vec2)
        requires
            self.wf(),
        ensures
            r == spec_cursor_to_screen(*self, *cursor),
            r.wf(),
    {
        proof {
            lemma_mul_bound(cursor.x as int, SCALE as int, 0x1_0000_0000, 65536);
            lemma_mul_bound(
                self.screen_height - cursor.y,
                SCALE as int,
                0x1_0000_0000_0000,
                65536,
            );
        }
        Vec2 {
            x: sat_i128((cursor.x as i128) * (SCALE as i128)),
            y: sat_i128((self.screen_height as i128 - cursor.y as i128) * (SCALE as i128)),
        }
    }

    /// Project a ray to the screen segment between its origin and the
    /// point one `length` along it.
    pub fn line_from_ray(&self, ray: &Ray, length: i64) -> (r: Line2D)
        requires
            self.wf(),
            ray.wf(),
            fx_wf(length),
        ensures
            r == spec_line_from_ray(*self, *ray, length as int),
            r.wf(),
    {
        let from3 = self.world_to_screen(&ray.origin);
        let to3 = self.world_to_screen(&ray.origin.plus(&ray.dir.scaled(length)));
        Line2D {
            from: Vec2 { x: from3.x, y: from3.y },
            to: Vec2 { x: to3.x, y: to3.y },
        }
    }

    /// Cast the cursor onto the plane with `plane_normal` through the
    /// `plane_origin_offset` point; see `spec_cast_on_plane` for the exact
    /// formula and the saturating treatment of a parallel picking ray.
    pub fn cast_cursor_on_plane(
        &self,
        cursor: &Cursor,
        plane_normal: &Vec3,
        plane_origin_offset: &Vec3,
    ) -> (r: Vec3)
        requires
            self.wf(),
            plane_normal.wf(),
            plane_origin_offset.wf(),
        ensures
            r == spec_cast_on_plane(*self, *cursor, *plane_normal, *plane_origin_offset),
            r.wf(),
    {
        let screen = self.cursor_to_screen(cursor);
        let far_pt = self.screen_to_world(&Vec3 { x: screen.x, y: screen.y, z: SCALE });
        let near_pt = self.screen_to_world(&Vec3 { x: screen.x, y: screen.y, z: 0 });
        let direction = far_pt.minus(&near_pt);
        let nd = direction.dot(plane_normal);
        let pn = self.position.dot(plane_normal);
        let on = plane_origin_offset.dot(plane_normal);
        let t = div_safe(sat_i128(pn as i128 - on as i128), nd);
        self.position.minus(&direction.scaled(t))
    }
}

/// The position after one movement tick: strafe, forward and vertical
/// contributions added in that order.
pub open spec fn spec_update_position(cam: Camera) -> Vec3 {
    let up = spec_up();
    let strafe = spec_normalized(spec_cross(cam.direction_to_camera, up));
    let p1 = crate::vec3::spec_plus(
        cam.position,
        crate::vec3::spec_scaled(
            strafe,
            spec_fxmul(cam.speed as int, spec_dir_value(cam.move_x)),
        ),
    );
    let p2 = crate::vec3::spec_plus(
        p1,
        crate::vec3::spec_scaled(
            cam.direction_to_camera,
            spec_fxmul(cam.speed as int, spec_dir_value(cam.move_z)),
        ),
    );
    crate::vec3::spec_plus(
        p2,
        crate::vec3::spec_scaled(
            up,
            spec_fxmul(cam.speed as int, spec_dir_value(cam.move_y)),
        ),
    )
}

/// The yaw after a horizontal mouse move to pixel `x`.
pub open spec fn spec_yaw_after(cam: Camera, x: int) -> int {
    sat(cam.yaw + cam.cam_sensitive * (x - cam.last_cursor.x))
}

/// The pitch after a vertical mouse move to pixel `y`: inverted, then
/// clamped to the pitch limit.
pub open spec fn spec_pitch_after(cam: Camera, y: int) -> int {
    let raw = sat(cam.pitch + cam.cam_sensitive * (cam.last_cursor.y - y));
    if raw > PITCH_LIMIT {
        PITCH_LIMIT as int
    } else if raw < -PITCH_LIMIT {
        -(PITCH_LIMIT as int)
    } else {
        raw
    }
}

/// Mouse-look can never push the pitch past the limit: whatever delta a
/// mouse move feeds in, the resulting pitch stays within plus or minus
/// the limit and lands exactly on it when the raw value overshoots — and
/// the yaw never feels the clamp, accumulating its own delta regardless.
pub proof fn lemma_pitch_clamp(cam: Camera, x: int, y: int)
    ensures
        -PITCH_LIMIT <= spec_pitch_after(cam, y) <= PITCH_LIMIT,
        sat(cam.pitch + cam.cam_sensitive * (cam.last_cursor.y - y)) > PITCH_LIMIT
            ==> spec_pitch_after(cam, y) == PITCH_LIMIT,
        sat(cam.pitch + cam.cam_sensitive * (cam.last_cursor.y - y)) < -PITCH_LIMIT
            ==> spec_pitch_after(cam, y) == -PITCH_LIMIT,
        spec_yaw_after(cam, x) == sat(cam.yaw + cam.cam_sensitive * (x - cam.last_cursor.x)),
{
}

/// Everything `update` leaves alone.
pub open spec fn unchanged_but_motion(a: Camera, b: Camera) -> bool {
    &&& b.screen_width == a.screen_width
    &&& b.screen_height == a.screen_height
    &&& b.near_plane == a.near_plane
    &&& b.far_plane == a.far_plane
    &&& b.projection == a.projection
    &&& b.inv_projection == a.inv_projection
    &&& b.direction_to_camera == a.direction_to_camera
    &&& b.speed == a.speed
    &&& b.move_x == a.move_x
    &&& b.move_z == a.move_z
    &&& b.move_y == a.move_y
    &&& b.last_cursor == a.last_cursor
    &&& b.is_looking_around == a.is_looking_around
    &&& b.cam_sensitive == a.cam_sensitive
    &&& b.yaw == a.yaw
    &&& b.pitch == a.pitch
}

impl Default for Camera {
    /// The starting camera: a 900 x 700 viewport, clip
    /// planes at a tenth of a unit and three hundred units, the eye a
    /// little up and back, looking at the world origin.
    fn default() -> (r: Camera)
        ensures
            r.wf(),
            r.screen_width == 900,
            r.screen_height == 700,
            r.near_plane == 6554,
            r.far_plane == 19660800,
            r.position == (Vec3 { x: 0i64, y: 262144i64, z: 393216i64 }),
            r.direction_to_camera == spec_normalized(
                Vec3 { x: 0i64, y: -262144i64, z: -393216i64 },
            ),
            r.view == spec_look_at(r.position, r.direction_to_camera),
            r.inv_view == spec_look_at_inv(r.position, r.direction_to_camera),
            r.projection == spec_perspective(900, 700, 6554, 19660800),
            r.inv_projection == spec_perspective_inv(900, 700, 6554, 19660800),
            r.speed == 6554,
            r.move_x is NONE && r.move_y is NONE && r.move_z is NONE,
            r.last_cursor == (Cursor { x: 0i32, y: 0i32 }),
            !r.is_looking_around,
            r.cam_sensitive == 6554,
            r.yaw == 0,
            r.pitch == 0,
    {
        let screen_width: u32 = 900;
        let screen_height: u32 = 700;
        let near_plane: i64 = 6554;
        let far_plane: i64 = 300 * SCALE;
        let position = Vec3::new(0, 4 * SCALE, 6 * SCALE);
        let direction_to_camera = Vec3::new(0, -4 * SCALE, -6 * SCALE).normalized();
        let (projection, inv_projection) = perspective_pair(
            screen_width,
            screen_height,
            near_plane,
            far_plane,
        );
        let (view, inv_view) = look_at_pair(&position, &direction_to_camera);
        Camera {
            screen_width,
            screen_height,
            near_plane,
            far_plane,
            projection,
            view,
            inv_projection,
            inv_view,
            position,
            direction_to_camera,
            speed: 6554,
            move_x: CameraMovement::NONE,
            move_z: CameraMovement::NONE,
            move_y: CameraMovement::NONE,
            last_cursor: Cursor { x: 0, y: 0 },
            is_looking_around: false,
            cam_sensitive: 6554,
            yaw: 0,
            pitch: 0,
        }
    }
}

} // verus!
