//! The single-target translation gizmo.
//!
//! The gizmo binds to one scene transform, hit-tests the cursor against the
//! three screen-projected axis handles on a click, and while dragging moves
//! the target along the selected axis by the offset between two
//! plane-casts of the drag's start and current cursor. The live transform
//! is passed in by the caller on each call — the scene owns it — and the
//! position written while dragging is always recomputed from the snapshot
//! taken when the drag began, never accumulated, so repeating a drag
//! cannot drift.

use crate::camera::{spec_cast_on_plane, spec_cursor_to_screen, spec_line_from_ray, Camera, Cursor};
use crate::components::TransformComponent;
use crate::cube::{Line2D, Ray};
use crate::fx::SCALE;
use crate::utilities::{is_point_on_line2D, spec_point_on_line};
use crate::vec3::{spec_dot, spec_minus, spec_plus, spec_scaled, Vec3};
use vstd::prelude::*;

verus! {

/// The translation axis a drag moves along.
#[derive(Clone, Copy, Debug, PartialEq, Eq, Structural)]
pub enum GizmoTranslateMode {
    X,
    Y,
    Z,
}

/// The pixel tolerance of the axis-handle hit test.
pub const HANDLE_TOLERANCE: i64 = 65536;

/// The unit vector of a translation axis.
pub open spec fn spec_translate_axis(mode: GizmoTranslateMode) -> Vec3 {
    match mode {
        GizmoTranslateMode::X => Vec3 { x: SCALE, y: 0, z: 0 },
        GizmoTranslateMode::Y => Vec3 { x: 0, y: SCALE, z: 0 },
        GizmoTranslateMode::Z => Vec3 { x: 0, y: 0, z: SCALE },
    }
}

/// The normal of the plane a drag is cast onto: of the two world axes
/// perpendicular to the translation axis, the one more aligned with the
/// camera position, which keeps the plane-cast well conditioned.
pub open spec fn spec_translate_normal(mode: GizmoTranslateMode, cam: Camera) -> Vec3 {
    let x_sim = if cam.position.x >= 0 {
        cam.position.x as int
    } else {
        -(cam.position.x as int)
    };
    let y_sim = if cam.position.y >= 0 {
        cam.position.y as int
    } else {
        -(cam.position.y as int)
    };
    let z_sim = if cam.position.z >= 0 {
        cam.position.z as int
    } else {
        -(cam.position.z as int)
    };
    match mode {
        GizmoTranslateMode::X => if y_sim > z_sim {
            Vec3 { x: 0, y: SCALE, z: 0 }
        } else {
            Vec3 { x: 0, y: 0, z: SCALE }
        },
        GizmoTranslateMode::Y => if x_sim > z_sim {
            Vec3 { x: SCALE, y: 0, z: 0 }
        } else {
            Vec3 { x: 0, y: 0, z: SCALE }
        },
        GizmoTranslateMode::Z => if y_sim > x_sim {
            Vec3 { x: 0, y: SCALE, z: 0 }
        } else {
            Vec3 { x: SCALE, y: 0, z: 0 }
        },
    }
}

fn translate_axis(mode: GizmoTranslateMode) -> (r: Vec3)
    ensures
        r == spec_translate_axis(mode),
        r.wf(),
{
    match mode {
        GizmoTranslateMode::X => Vec3::new(SCALE, 0, 0),
        GizmoTranslateMode::Y => Vec3::new(0, SCALE, 0),
        GizmoTranslateMode::Z => Vec3::new(0, 0, SCALE),
    }
}

fn translate_normal(mode: GizmoTranslateMode, camera: &Camera) -> (r: Vec3)
    requires
        camera.wf(),
    ensures
        r == spec_translate_normal(mode, *camera),
        r.wf(),
{
    let x_sim = if camera.position.x >= 0 {
        camera.position.x
    } else {
        -camera.position.x
    };
    let y_sim = if camera.position.y >= 0 {
        camera.position.y
    } else {
        -camera.position.y
    };
    let z_sim = if camera.position.z >= 0 {
        camera.position.z
    } else {
        -camera.position.z
    };
    match mode {
        GizmoTranslateMode::X => if y_sim > z_sim {
            Vec3::new(0, SCALE, 0)
        } else {
            Vec3::new(0, 0, SCALE)
        },
        GizmoTranslateMode::Y => if x_sim > z_sim {
            Vec3::new(SCALE, 0, 0)
        } else {
            Vec3::new(0, 0, SCALE)
        },
        GizmoTranslateMode::Z => if y_sim > x_sim {
            Vec3::new(0, SCALE, 0)
        } else {
            Vec3::new(SCALE, 0, 0)
        },
    }
}

/// The gizmo's own state: whether a target is bound, the snapshot taken
/// when the binding or the current drag began, and the drag in progress.
pub struct Gizmo {
    pub has_target: bool,
    pub cached_target: Option<TransformComponent>,
    pub is_dragging: bool,
    pub mouse_start: Cursor,
    pub mouse_end: Cursor,
    pub translate_mode: GizmoTranslateMode,
}

/// The screen segment of one axis handle: the target's position pushed one
/// unit along the axis and projected.
pub open spec fn spec_axis_line(
    cam: Camera,
    target: TransformComponent,
    mode: GizmoTranslateMode,
) -> Line2D {
    spec_line_from_ray(
        cam,
        Ray {
            origin: target.position,
            dir: spec_translate_axis(mode),
            inv_dir: crate::cube::spec_recip3(spec_translate_axis(mode)),
        },
        SCALE as int,
    )
}

/// Which axis handle a click at `cursor` hits, testing X, then Y, then Z.
pub open spec fn spec_click_hit(
    cam: Camera,
    target: TransformComponent,
    cursor: Cursor,
) -> Option<GizmoTranslateMode> {
    let screen = spec_cursor_to_screen(cam, cursor);
    let pt = crate::vec3::Vec2 { x: screen.x, y: screen.y };
    if spec_point_on_line(
        spec_axis_line(cam, target, GizmoTranslateMode::X),
        pt,
        HANDLE_TOLERANCE as int,
    ) {
        Some(GizmoTranslateMode::X)
    } else if spec_point_on_line(
        spec_axis_line(cam, target, GizmoTranslateMode::Y),
        pt,
        HANDLE_TOLERANCE as int,
    ) {
        Some(GizmoTranslateMode::Y)
    } else if spec_point_on_line(
        spec_axis_line(cam, target, GizmoTranslateMode::Z),
        pt,
        HANDLE_TOLERANCE as int,
    ) {
        Some(GizmoTranslateMode::Z)
    } else {
        None
    }
}

/// Where a drag from `start` to `end` puts the target: both cursors are
/// cast onto the translate plane anchored at the cached position, their
/// difference is projected onto the axis, and the offset is applied to
/// the cached position — never to the current one.
pub open spec fn spec_drag_position(
    cam: Camera,
    cached: TransformComponent,
    mode: GizmoTranslateMode,
    start: Cursor,
    end: Cursor,
) -> Vec3 {
    let axis = spec_translate_axis(mode);
    let normal = spec_translate_normal(mode, cam);
    let p1 = spec_cast_on_plane(cam, start, normal, cached.position);
    let p2 = spec_cast_on_plane(cam, end, normal, cached.position);
    let diff = spec_minus(p2, p1);
    let offset = spec_dot(diff, axis);
    spec_plus(cached.position, spec_scaled(axis, offset))
}

impl Gizmo {
    /// A gizmo is well formed when the cached snapshot exists exactly
    /// while a target is bound, and is itself well formed.
    pub open spec fn wf(self) -> bool {
        &&& self.has_target <==> self.cached_target is Some
        &&& self.cached_target is Some ==> self.cached_target->0.wf()
    }

    pub fn new() -> (r: Gizmo)
        ensures
            r.wf(),
            !r.has_target,
            r.cached_target is None,
            !r.is_dragging,
            r.mouse_start == (Cursor { x: 0i32, y: 0i32 }),
            r.mouse_end == (Cursor { x: 0i32, y: 0i32 }),
            r.translate_mode is X,
    {
        Gizmo {
            has_target: false,
            cached_target: None,
            is_dragging: false,
            mouse_start: Cursor { x: 0, y: 0 },
            mouse_end: Cursor { x: 0, y: 0 },
            translate_mode: GizmoTranslateMode::X,
        }
    }

    /// Bind the gizmo to a target, snapshotting its current transform;
    /// replaces any previous binding.
    pub fn target(&mut self, target: &TransformComponent)
        requires
            old(self).wf(),
            target.wf(),
        ensures
            final(self).wf(),
            *final(self) == (Gizmo {
                has_target: true,
                cached_target: Some(*target),
                ..*old(self)
            }),
    {
        self.has_target = true;
        self.cached_target = Some(*target);
    }

    /// Unbind the target and drop the snapshot; a drag in progress keeps
    /// its flag, as binding state and drag state are independent.
    pub fn clear(&mut self)
        requires
            old(self).wf(),
        ensures
            final(self).wf(),
            *final(self) == (Gizmo { has_target: false, cached_target: None, ..*old(self) }),
    {
        self.has_target = false;
        self.cached_target = None;
    }

    /// Hit-test the cursor against the three axis handles of the bound
    /// target; on the first hit (X before Y before Z) select that axis,
    /// start a drag there, and refresh the snapshot. Without a target, or
    /// without a hit, nothing changes.
    pub fn click(&mut self, camera: &Camera, x: i32, y: i32, target: &TransformComponent)
        requires
            old(self).wf(),
            camera.wf(),
            target.wf(),
        ensures
            final(self).wf(),
            !old(self).has_target ==> *final(self) == *old(self),
            old(self).has_target ==> match spec_click_hit(*camera, *target, Cursor { x, y }) {
                Some(mode) => *final(self) == (Gizmo {
                    translate_mode: mode,
                    mouse_start: Cursor { x, y },
                    mouse_end: Cursor { x, y },
                    is_dragging: true,
                    cached_target: Some(*target),
                    ..*old(self)
                }),
                None => *final(self) == *old(self),
            },
    {
        if !self.has_target {
            return ;
        }
        let cursor = Cursor { x, y };
        let screen = camera.cursor_to_screen(&cursor);
        let pt = crate::vec3::Vec2 { x: screen.x, y: screen.y };

        let line_x = camera.line_from_ray(
            &Ray::new(&target.position, &translate_axis(GizmoTranslateMode::X)),
            SCALE,
        );
        let line_y = camera.line_from_ray(
            &Ray::new(&target.position, &translate_axis(GizmoTranslateMode::Y)),
            SCALE,
        );
        let line_z = camera.line_from_ray(
            &Ray::new(&target.position, &translate_axis(GizmoTranslateMode::Z)),
            SCALE,
        );

        let hit: Option<GizmoTranslateMode> = if is_point_on_line2D(
            &line_x,
            &pt,
            HANDLE_TOLERANCE,
        ) {
            Some(GizmoTranslateMode::X)
        } else if is_point_on_line2D(&line_y, &pt, HANDLE_TOLERANCE) {
            Some(GizmoTranslateMode::Y)
        } else if is_point_on_line2D(&line_z, &pt, HANDLE_TOLERANCE) {
            Some(GizmoTranslateMode::Z)
        } else {
            None
        };

        match hit {
            Some(mode) => {
                self.translate_mode = mode;
                self.mouse_start = cursor;
                self.mouse_end = cursor;
                self.is_dragging = true;
                self.cached_target = Some(*target);
            },
            None => {},
        }
    }

    /// While dragging, move the cursor's end point and put the target at
    /// the cached position plus the axis offset between the plane-casts
    /// of drag start and drag end. A gizmo that is not dragging, or has
    /// no bound target, leaves the target untouched.
    pub fn drag(&mut self, camera: &Camera, x: i32, y: i32, target: &mut TransformComponent)
        requires
            old(self).wf(),
            camera.wf(),
            old(target).wf(),
        ensures
            final(self).wf(),
            final(target).wf(),
            !old(self).is_dragging ==> *final(self) == *old(self) && *final(target) == *old(
                target,
            ),
            old(self).is_dragging ==> *final(self) == (Gizmo {
                mouse_end: Cursor { x, y },
                ..*old(self)
            }),
            old(self).is_dragging && old(self).has_target ==> *final(target)
                == (TransformComponent {
                position: spec_drag_position(
                    *camera,
                    old(self).cached_target->0,
                    old(self).translate_mode,
                    old(self).mouse_start,
                    Cursor { x, y },
                ),
                ..*old(target)
            }),
            old(self).is_dragging && !old(self).has_target ==> *final(target) == *old(target),
            (*final(self), *final(target)) == spec_drag_step(
                *old(self),
                *camera,
                x,
                y,
                *old(target),
            ),
    {
        if !self.is_dragging {
            return ;
        }
        self.mouse_end = Cursor { x, y };
        if self.has_target {
            let cached = match &self.cached_target {
                Some(c) => *c,
                None => {
                    proof {
                        assert(false);
                    }
                    TransformComponent::new(Vec3::zero(), crate::vec3::Quat::identity(), Vec3::zero())
                },
            };
            let axis = translate_axis(self.translate_mode);
            let normal = translate_normal(self.translate_mode, camera);
            let p1 = camera.cast_cursor_on_plane(&self.mouse_start, &normal, &cached.position);
            let p2 = camera.cast_cursor_on_plane(&self.mouse_end, &normal, &cached.position);
            let diff = p2.minus(&p1);
            let offset = diff.dot(&axis);
            target.position = cached.position.plus(&axis.scaled(offset));
        }
    }

    /// End the drag. With a target bound, hand back the two plane-cast
    /// world points of the drag, for an undo or gesture hook; without
    /// one, nothing.
    pub fn unclick(&mut self, camera: &Camera) -> (r: Option<(Vec3, Vec3)>)
        requires
            old(self).wf(),
            camera.wf(),
        ensures
            final(self).wf(),
            *final(self) == (Gizmo { is_dragging: false, ..*old(self) }),
            old(self).has_target ==> r == Some(
                (
                    spec_cast_on_plane(
                        *camera,
                        old(self).mouse_start,
                        spec_translate_normal(old(self).translate_mode, *camera),
                        old(self).cached_target->0.position,
                    ),
                    spec_cast_on_plane(
                        *camera,
                        old(self).mouse_end,
                        spec_translate_normal(old(self).translate_mode, *camera),
                        old(self).cached_target->0.position,
                    ),
                ),
            ),
            !old(self).has_target ==> r is None,
    {
        self.is_dragging = false;
        if self.has_target {
            let cached = match &self.cached_target {
                Some(c) => *c,
                None => {
                    proof {
                        assert(false);
                    }
                    TransformComponent::new(Vec3::zero(), crate::vec3::Quat::identity(), Vec3::zero())
                },
            };
            let normal = translate_normal(self.translate_mode, camera);
            let p1 = camera.cast_cursor_on_plane(&self.mouse_start, &normal, &cached.position);
            let p2 = camera.cast_cursor_on_plane(&self.mouse_end, &normal, &cached.position);
            Some((p1, p2))
        } else {
            None
        }
    }

    /// The draw command for the gizmo glyph: the bound target's position
    /// with the fixed glyph length and weight, or nothing without a
    /// target. The render collaborator turns it into line and arrow
    /// draws.
    pub fn draw(&self, target: &TransformComponent) -> (r: Option<(Vec3, i64, i64)>)
        requires
            self.wf(),
            target.wf(),
        ensures
            self.has_target ==> r == Some((target.position, 32768i64, SCALE)),
            !self.has_target ==> r is None,
    {
        if self.has_target {
            Some((target.position, 32768, SCALE))
        } else {
            None
        }
    }
}

/// What one `drag` call does to the pair of gizmo and target, as a pure
/// transition.
pub open spec fn spec_drag_step(
    g: Gizmo,
    cam: Camera,
    x: i32,
    y: i32,
    t: TransformComponent,
) -> (Gizmo, TransformComponent) {
    if !g.is_dragging {
        (g, t)
    } else {
        let g2 = Gizmo { mouse_end: Cursor { x, y }, ..g };
        if g.has_target {
            (
                g2,
                TransformComponent {
                    position: spec_drag_position(
                        cam,
                        g.cached_target->0,
                        g.translate_mode,
                        g.mouse_start,
                        Cursor { x, y },
                    ),
                    ..t
                },
            )
        } else {
            (g2, t)
        }
    }
}

/// Dragging is idempotent: the position a drag writes depends only on the
/// camera, the cached snapshot, the axis and the two cursor positions —
/// never on the target's current position — so repeating `drag` with the
/// same cursor changes nothing after the first call.
pub proof fn lemma_drag_idempotent(
    g: Gizmo,
    cam: Camera,
    x: i32,
    y: i32,
    t: TransformComponent,
)
    ensures
        spec_drag_step(
            spec_drag_step(g, cam, x, y, t).0,
            cam,
            x,
            y,
            spec_drag_step(g, cam, x, y, t).1,
        ) == spec_drag_step(g, cam, x, y, t),
{
}

} // verus!
