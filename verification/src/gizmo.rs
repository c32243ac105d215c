//! The gizmo interaction controller: the screen rectangle that captures
//! pointer input for the rotation widget, the per-frame Idle/Engaged
//! interaction phases, and the fixed-point transform handed to the widget.

use vstd::prelude::*;
use crate::rotation::OrientationState;
use crate::rotation::Quat;
use crate::rotation::ROT_ONE;

verus! {

/// Side length, in points, of the square gizmo viewport.
pub const GIZMO_SIDE: i32 = 220;

/// Horizontal offset of the gizmo viewport from the hosting panel's
/// top-left corner.
pub const GIZMO_OFFSET_X: i32 = 10;

/// Vertical offset of the gizmo viewport from the hosting panel's top-left
/// corner.
pub const GIZMO_OFFSET_Y: i32 = 90;

/// A screen-space rectangle in whole points: the input-capture region for
/// the rotation widget.
#[derive(Clone, Copy, PartialEq, Eq, Structural, Debug)]
pub struct ScreenRect {
    pub min_x: i32,
    pub min_y: i32,
    pub width: i32,
    pub height: i32,
}

impl ScreenRect {
    /// A rectangle's extents are non-negative.
    pub open spec fn wf(self) -> bool {
        &&& self.width >= 0
        &&& self.height >= 0
    }

    /// Whether the point lies inside the rectangle (half-open on the far
    /// edges, as screen rectangles are).
    pub open spec fn contains_spec(self, px: int, py: int) -> bool {
        &&& self.min_x <= px < self.min_x + self.width
        &&& self.min_y <= py < self.min_y + self.height
    }

    /// Pointer hit test against this rectangle.
    pub fn contains(&self, px: i32, py: i32) -> (r: bool)
        ensures
            r == self.contains_spec(px as int, py as int),
    {
        let px64 = px as i64;
        let py64 = py as i64;
        let min_x = self.min_x as i64;
        let min_y = self.min_y as i64;
        px64 >= min_x && px64 < min_x + self.width as i64 && py64 >= min_y && py64 < min_y
            + self.height as i64
    }
}

/// The gizmo viewport for the frame: a fixed square at a fixed offset from
/// the hosting panel's current top-left corner.
pub fn gizmo_rect(panel_min_x: i32, panel_min_y: i32) -> (r: ScreenRect)
    requires
        panel_min_x + GIZMO_OFFSET_X + GIZMO_SIDE <= i32::MAX,
        panel_min_y + GIZMO_OFFSET_Y + GIZMO_SIDE <= i32::MAX,
    ensures
        r.min_x == panel_min_x + GIZMO_OFFSET_X,
        r.min_y == panel_min_y + GIZMO_OFFSET_Y,
        r.width == GIZMO_SIDE,
        r.height == GIZMO_SIDE,
        r.wf(),
{
    ScreenRect {
        min_x: panel_min_x + GIZMO_OFFSET_X,
        min_y: panel_min_y + GIZMO_OFFSET_Y,
        width: GIZMO_SIDE,
        height: GIZMO_SIDE,
    }
}

/// The pointer interaction phase of the gizmo, per frame: `Idle` while the
/// pointer is not engaged with the gizmo region, `Engaged` while a drag that
/// began inside it is in progress.
#[derive(Clone, Copy, PartialEq, Eq, Structural, Debug)]
pub enum InteractionPhase {
    Idle,
    Engaged,
}

/// One frame's pointer input, as the windowing layer reports it: position
/// in points and whether the primary button is down.
#[derive(Clone, Copy, PartialEq, Eq, Structural, Debug)]
pub struct PointerSample {
    pub x: i32,
    pub y: i32,
    pub pressed: bool,
}

/// The interaction transition: Idle becomes Engaged exactly when a press
/// lands inside the gizmo rectangle; Engaged persists while the button is
/// held and returns to Idle on release.
pub open spec fn interaction_step_spec(
    phase: InteractionPhase,
    rect: ScreenRect,
    sample: PointerSample,
) -> InteractionPhase {
    match phase {
        InteractionPhase::Idle => if sample.pressed && rect.contains_spec(
            sample.x as int,
            sample.y as int,
        ) {
            InteractionPhase::Engaged
        } else {
            InteractionPhase::Idle
        },
        InteractionPhase::Engaged => if sample.pressed {
            InteractionPhase::Engaged
        } else {
            InteractionPhase::Idle
        },
    }
}

/// Advance the interaction phase by one frame of pointer input.
pub fn interaction_step(phase: InteractionPhase, rect: &ScreenRect, sample: PointerSample) -> (next:
    InteractionPhase)
    ensures
        next == interaction_step_spec(phase, *rect, sample),
{
    match phase {
        InteractionPhase::Idle => {
            if sample.pressed && rect.contains(sample.x, sample.y) {
                InteractionPhase::Engaged
            } else {
                InteractionPhase::Idle
            }
        },
        InteractionPhase::Engaged => {
            if sample.pressed {
                InteractionPhase::Engaged
            } else {
                InteractionPhase::Idle
            }
        },
    }
}

/// A fixed-point 3-vector, in the same scale as the rotation components.
#[derive(Clone, Copy, PartialEq, Eq, Structural, Debug)]
pub struct Vec3Fx {
    pub x: i64,
    pub y: i64,
    pub z: i64,
}

/// The transform handed to the gizmo widget each frame: unit scale, the
/// stored rotation, and zero translation.
#[derive(Clone, Copy, PartialEq, Eq, Structural, Debug)]
pub struct TransformFx {
    pub scale: Vec3Fx,
    pub rotation: Quat,
    pub translation: Vec3Fx,
}

/// The unit scale vector.
pub open spec fn unit_scale() -> Vec3Fx {
    Vec3Fx { x: ROT_ONE as int as i64, y: ROT_ONE as int as i64, z: ROT_ONE as int as i64 }
}

/// The zero translation vector.
pub open spec fn zero_vec() -> Vec3Fx {
    Vec3Fx { x: 0, y: 0, z: 0 }
}

/// Build the frame's working transform from the stored orientation: scale
/// fixed at unit, translation fixed at the origin, rotation taken from the
/// orientation state.
pub fn transform_from_orientation(state: &OrientationState) -> (t: TransformFx)
    ensures
        t.rotation == state.rotation,
        t.scale == unit_scale(),
        t.translation == zero_vec(),
{
    TransformFx {
        scale: Vec3Fx { x: ROT_ONE, y: ROT_ONE, z: ROT_ONE },
        rotation: state.rotation,
        translation: Vec3Fx { x: 0, y: 0, z: 0 },
    }
}

} // verus!
