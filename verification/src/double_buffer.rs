//! Double-buffered state for fixed-timestep simulation.
//!
//! A `DoubleBuffered<T>` holds two committed copies of a value; a companion
//! `SceneBuffer` flag selects which copy is current. The simulation writes
//! the current copy through `get_mut` and then calls `swap` once per fixed
//! tick, so a reader always sees a fully written pair of states and can
//! blend between them with `interpolate`.

use crate::fx::SCALE;
use vstd::prelude::*;

verus! {

/// The flag selecting which of the two buffered copies is current.
pub struct SceneBuffer {
    is_first: bool,
}

impl SceneBuffer {
    /// Whether the first copy is the current one.
    pub closed spec fn first_active(self) -> bool {
        self.is_first
    }

    pub fn new() -> (r: Self)
        ensures
            r.first_active(),
    {
        SceneBuffer { is_first: true }
    }

    /// Flip which copy is current; called once per simulation tick.
    pub fn swap(&mut self)
        ensures
            final(self).first_active() == !old(self).first_active(),
    {
        self.is_first = !self.is_first;
    }
}

/// A value that can be blended between two committed states by a factor
/// `alpha` in `[0, SCALE]` (the fixed-point unit interval).
pub trait Interpolatable: Sized {
    /// What a well-formed value of this type looks like.
    spec fn inv(self) -> bool;

    /// The exact blend this type computes.
    spec fn spec_interpolate(self, prev: Self, alpha: int) -> Self;

    /// Blend `self` (the state at `alpha == 0`) toward `prev` (the state at
    /// `alpha == SCALE`).
    fn interpolate(&self, prev: &Self, alpha: i64) -> (r: Self)
        requires
            self.inv(),
            prev.inv(),
            0 <= alpha <= SCALE,
        ensures
            r == self.spec_interpolate(*prev, alpha as int),
    ;
}

/// Two committed copies of a buffered value.
pub struct DoubleBuffered<T> {
    first: T,
    second: T,
}

impl<T> DoubleBuffered<T> {
    /// The copy stored in the first slot.
    pub closed spec fn first_val(self) -> T {
        self.first
    }

    /// The copy stored in the second slot.
    pub closed spec fn second_val(self) -> T {
        self.second
    }
}

/// The copy that `scene_buffer` marks as current.
pub open spec fn spec_current<T>(db: DoubleBuffered<T>, scene_buffer: SceneBuffer) -> T {
    if scene_buffer.first_active() {
        db.first_val()
    } else {
        db.second_val()
    }
}

/// The copy that `scene_buffer` does not mark as current: the previous
/// committed state.
pub open spec fn spec_other<T>(db: DoubleBuffered<T>, scene_buffer: SceneBuffer) -> T {
    if scene_buffer.first_active() {
        db.second_val()
    } else {
        db.first_val()
    }
}

impl<T: Copy> DoubleBuffered<T> {
    pub fn new(obj: T) -> (r: Self)
        ensures
            r.first_val() == obj,
            r.second_val() == obj,
    {
        DoubleBuffered { first: obj, second: obj }
    }

    /// Read the current copy.
    pub fn get(&self, scene_buffer: &SceneBuffer) -> (r: &T)
        ensures
            *r == spec_current(*self, *scene_buffer),
    {
        if scene_buffer.is_first {
            &self.first
        } else {
            &self.second
        }
    }

    /// Borrow the current copy for writing; the other copy is untouched.
    pub fn get_mut(&mut self, scene_buffer: &SceneBuffer) -> (r: &mut T)
        ensures
            *r == spec_current(*old(self), *scene_buffer),
            spec_current(*final(self), *scene_buffer) == *final(r),
            spec_other(*final(self), *scene_buffer) == spec_other(*old(self), *scene_buffer),
    {
        if scene_buffer.is_first {
            &mut self.first
        } else {
            &mut self.second
        }
    }
}

impl<T: Copy + Interpolatable> DoubleBuffered<T> {
    /// Blend the current copy toward the previous committed one.
    pub fn interpolate(&self, scene_buffer: &SceneBuffer, alpha: i64) -> (r: T)
        requires
            self.first_val().inv(),
            self.second_val().inv(),
            0 <= alpha <= SCALE,
        ensures
            r == spec_current(*self, *scene_buffer).spec_interpolate(
                spec_other(*self, *scene_buffer),
                alpha as int,
            ),
    {
        if scene_buffer.is_first {
            self.first.interpolate(&self.second, alpha)
        } else {
            self.second.interpolate(&self.first, alpha)
        }
    }
}

/// The double-buffer discipline serializes one tick: when the simulation
/// has written `v` into the current copy and the flag then swaps, a reader
/// of the new current copy sees exactly the state committed before the
/// write, and the value `v` becomes the blend partner — so a read never
/// observes a half-written pair.
pub proof fn lemma_tick_serializes<T>(
    before: DoubleBuffered<T>,
    written: DoubleBuffered<T>,
    sb_before: SceneBuffer,
    sb_after: SceneBuffer,
    v: T,
)
    requires
        spec_current(written, sb_before) == v,
        spec_other(written, sb_before) == spec_other(before, sb_before),
        sb_after.first_active() == !sb_before.first_active(),
    ensures
        spec_current(written, sb_after) == spec_other(before, sb_before),
        spec_other(written, sb_after) == v,
{
}

/// Two swaps restore the reader's view: the flag, and hence every `get`,
/// is unchanged after a pair of swaps.
pub proof fn lemma_double_swap_restores<T>(
    db: DoubleBuffered<T>,
    sb0: SceneBuffer,
    sb2: SceneBuffer,
)
    requires
        sb2.first_active() == sb0.first_active(),
    ensures
        spec_current(db, sb2) == spec_current(db, sb0),
        spec_other(db, sb2) == spec_other(db, sb0),
{
}

} // verus!
