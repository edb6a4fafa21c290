//! The camera: a position on a horizontal circle around the world origin.
use vstd::prelude::*;
use crate::geometry::NDC_ONE;

verus! {

/// Rotation steps in a full turn about the vertical axis.
pub const STEPS_PER_TURN: i64 = 40;

/// Starting distance of the camera from the origin: two units, `NDC_ONE`
/// standing for one.
pub const START_DISTANCE: i64 = 8192;

/// The camera looks at the world origin from the point at `distance` from it
/// in the horizontal plane, turned `turn` steps of `2 * pi / STEPS_PER_TURN`
/// about the vertical axis from the negative `z` axis. Its position is exactly
/// these two values; the view and projection are derived from them each frame.
#[derive(Clone, Copy, Debug, PartialEq, Eq, Structural)]
pub struct Camera {
    pub turn: i64,
    pub distance: i64,
}

/// The turn after rotating `direction` steps from `turn`.
pub open spec fn turned(turn: int, direction: int) -> int {
    (turn + direction) % (STEPS_PER_TURN as int)
}

/// The camera after a sequence of rotations, applied in order.
pub open spec fn rotated_by_all(c: Camera, directions: Seq<i32>) -> Camera
    decreases directions.len(),
{
    if directions.len() == 0 {
        c
    } else {
        let prev = rotated_by_all(c, directions.drop_last());
        Camera { turn: turned(prev.turn as int, directions.last() as int) as i64, distance: prev.distance }
    }
}

impl Camera {
    pub open spec fn wf(self) -> bool {
        0 <= self.turn < STEPS_PER_TURN
    }

    /// The starting camera: on the negative `z` axis, two units from the origin.
    pub open spec fn new_spec() -> Camera {
        Camera { turn: 0, distance: START_DISTANCE }
    }

    /// A camera on the negative `z` axis, two units from the origin.
    pub fn new() -> (r: Camera)
        ensures
            r == Camera::new_spec(),
            r.wf(),
    {
        Camera { turn: 0, distance: START_DISTANCE }
    }

    /// Rotates about the vertical axis by `direction` steps (negative turns the
    /// other way). The distance from the origin does not change.
    pub fn rotate(&mut self, direction: i32)
        requires
            old(self).wf(),
        ensures
            final(self).wf(),
            final(self).turn == turned(old(self).turn as int, direction as int),
            final(self).distance == old(self).distance,
            direction == 0 ==> *final(self) == *old(self),
    {
        // Shifted by whole turns so that the remainder is taken of a
        // non-negative number.
        let shifted: i64 = self.turn + direction as i64 + STEPS_PER_TURN * 0x400_0000;
        assert(shifted as int % 40 == (self.turn + direction) % 40) by (nonlinear_arith)
            requires
                shifted == self.turn + direction + 40 * 0x400_0000,
        ;
        self.turn = shifted % STEPS_PER_TURN;
    }
}

/// Any sequence of rotations leaves the camera's distance from the origin as
/// it was, and keeps its turn within a full circle.
pub proof fn lemma_rotations_keep_distance(c: Camera, directions: Seq<i32>)
    requires
        c.wf(),
    ensures
        rotated_by_all(c, directions).distance == c.distance,
        rotated_by_all(c, directions).wf(),
    decreases directions.len(),
{
    if directions.len() > 0 {
        lemma_rotations_keep_distance(c, directions.drop_last());
    }
}

} // verus!
