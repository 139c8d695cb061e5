use vstd::prelude::*;

use crate::model::Wireframe;
use crate::project::{edge_segments, projected_points, wireframe_segments, Segment};
use crate::rotate::{coords_within, rotate, rotated_points, COORD_LIMIT};
use crate::trig::SineTable;

verus! {

/// Degrees added to each angle from one frame to the next.
pub const STEP_DEGREES: i64 = 1;

/// The roll, pitch and yaw, in whole degrees, that the frame loop carries from
/// one frame to the next.
#[derive(Clone, Copy, Debug, PartialEq, Eq, Structural)]
pub struct FrameAngles {
    pub roll: i64,
    pub pitch: i64,
    pub yaw: i64,
}

impl View for FrameAngles {
    type V = (int, int, int);

    open spec fn view(&self) -> (int, int, int) {
        (self.roll as int, self.pitch as int, self.yaw as int)
    }
}

/// The angles one frame later.
pub open spec fn step(a: (int, int, int)) -> (int, int, int) {
    (a.0 + STEP_DEGREES, a.1 + STEP_DEGREES, a.2 + STEP_DEGREES)
}

/// The angles `n` frames later.
pub open spec fn after_frames(a: (int, int, int), n: nat) -> (int, int, int)
    decreases n,
{
    if n == 0 {
        a
    } else {
        step(after_frames(a, (n - 1) as nat))
    }
}

impl FrameAngles {
    /// The angles of the first frame: all zero.
    pub fn new() -> (r: FrameAngles)
        ensures
            r@ == (0int, 0int, 0int),
    {
        FrameAngles { roll: 0, pitch: 0, yaw: 0 }
    }

    /// Moves on to the next frame.
    pub fn advance(&mut self)
        requires
            old(self).roll < i64::MAX,
            old(self).pitch < i64::MAX,
            old(self).yaw < i64::MAX,
        ensures
            final(self)@ == step(old(self)@),
    {
        self.roll = self.roll + STEP_DEGREES;
        self.pitch = self.pitch + STEP_DEGREES;
        self.yaw = self.yaw + STEP_DEGREES;
    }
}

/// After `n` frames each angle has grown by exactly `n` steps.
pub proof fn lemma_after_frames(a: (int, int, int), n: nat)
    ensures
        after_frames(a, n) == (a.0 + n * STEP_DEGREES, a.1 + n * STEP_DEGREES, a.2 + n
            * STEP_DEGREES),
    decreases n,
{
    if n > 0 {
        lemma_after_frames(a, (n - 1) as nat);
    }
}

/// The segments to draw for one frame: `wireframe` rotated by `angles`, then
/// projected with focal length `focal`.
pub fn frame_segments(wireframe: &Wireframe, table: &SineTable, angles: FrameAngles, focal: i64) -> (r:
    Vec<Segment>)
    requires
        wireframe.wf(),
        table.wf(),
        coords_within(wireframe.vertices@, COORD_LIMIT as int),
    ensures
        r@ == edge_segments(
            projected_points(
                rotated_points(
                    table.quarter@,
                    wireframe.vertices@,
                    angles.roll as int,
                    angles.pitch as int,
                    angles.yaw as int,
                ),
                focal as int,
            ),
            wireframe.edges@,
        ),
{
    let rotated = rotate(wireframe, table, angles.roll, angles.pitch, angles.yaw);
    wireframe_segments(&rotated, focal)
}

} // verus!
