//! The persistent orientation state: a rotation quaternion held in
//! fixed-point form, with a near-unit-magnitude invariant enforced at every
//! commit.

use vstd::prelude::*;

verus! {

/// Fixed-point scale: the real value 1.0 is stored as `ROT_ONE`.
pub const ROT_ONE: i64 = 65536;

/// Squared magnitude of an exactly-unit rotation, in fixed-point units.
pub const UNIT_MAG_SQ: i64 = 65536 * 65536;

/// Largest allowed deviation of a stored rotation's squared magnitude from
/// `UNIT_MAG_SQ`. This is the defined drift tolerance: commits that would
/// take the stored rotation further from unit than this are rejected.
pub const MAG_TOL: i64 = 1048576;

/// Largest component magnitude (twice `ROT_ONE`) a candidate rotation may
/// carry; anything larger cannot be near-unit and is rejected outright.
pub const COMP_BOUND: i64 = 131072;

/// A rotation quaternion in fixed-point form: each field holds the real
/// component multiplied by `ROT_ONE`. `w` is the scalar part.
#[derive(Clone, Copy, PartialEq, Eq, Structural, Debug)]
pub struct Quat {
    pub x: i64,
    pub y: i64,
    pub z: i64,
    pub w: i64,
}

/// The identity rotation.
pub open spec fn identity_spec() -> Quat {
    Quat { x: 0, y: 0, z: 0, w: ROT_ONE as int as i64 }
}

/// Squared magnitude of a quaternion, as an unbounded integer.
pub open spec fn mag_sq_spec(q: Quat) -> int {
    q.x * q.x + q.y * q.y + q.z * q.z + q.w * q.w
}

/// Every component within `COMP_BOUND` of zero.
pub open spec fn comp_bounded(q: Quat) -> bool {
    &&& -COMP_BOUND <= q.x <= COMP_BOUND
    &&& -COMP_BOUND <= q.y <= COMP_BOUND
    &&& -COMP_BOUND <= q.z <= COMP_BOUND
    &&& -COMP_BOUND <= q.w <= COMP_BOUND
}

/// The rotation invariant: components bounded and squared magnitude within
/// `MAG_TOL` of unit.
pub open spec fn near_unit(q: Quat) -> bool {
    &&& comp_bounded(q)
    &&& UNIT_MAG_SQ - MAG_TOL <= mag_sq_spec(q) <= UNIT_MAG_SQ + MAG_TOL
}

impl Quat {
    /// The identity rotation, the puzzle's starting pose.
    pub fn identity() -> (q: Quat)
        ensures
            q == identity_spec(),
            near_unit(q),
    {
        let q = Quat { x: 0, y: 0, z: 0, w: ROT_ONE };
        proof {
            assert(mag_sq_spec(q) == 65536int * 65536int);
        }
        q
    }

    /// Whether this quaternion satisfies the near-unit invariant.
    pub fn is_near_unit(&self) -> (r: bool)
        ensures
            r == near_unit(*self),
    {
        if self.x < -COMP_BOUND || self.x > COMP_BOUND
            || self.y < -COMP_BOUND || self.y > COMP_BOUND
            || self.z < -COMP_BOUND || self.z > COMP_BOUND
            || self.w < -COMP_BOUND || self.w > COMP_BOUND
        {
            return false;
        }
        proof {
            lemma_square_bound(self.x as int, COMP_BOUND as int);
            lemma_square_bound(self.y as int, COMP_BOUND as int);
            lemma_square_bound(self.z as int, COMP_BOUND as int);
            lemma_square_bound(self.w as int, COMP_BOUND as int);
        }
        let m = self.x * self.x + self.y * self.y + self.z * self.z + self.w * self.w;
        UNIT_MAG_SQ - MAG_TOL <= m && m <= UNIT_MAG_SQ + MAG_TOL
    }
}

/// For `-b <= x <= b`, the square of `x` lies between 0 and `b * b`.
proof fn lemma_square_bound(x: int, b: int)
    requires
        -b <= x <= b,
    ensures
        0 <= x * x <= b * b,
{
    assert(0 <= x * x <= b * b) by (nonlinear_arith)
        requires
            -b <= x <= b,
    ;
}

/// The single piece of state that survives across frames: the puzzle's
/// current pose. Mutated only by `apply_gizmo_result`, which enforces the
/// near-unit invariant at the boundary.
#[derive(Clone, Copy, PartialEq, Eq, Structural, Debug)]
pub struct OrientationState {
    pub rotation: Quat,
}

impl OrientationState {
    /// The invariant every observation point sees: the stored rotation is
    /// near-unit.
    pub open spec fn wf(self) -> bool {
        near_unit(self.rotation)
    }

    /// What one frame's gizmo report does to the state: no report, or a
    /// report that fails the near-unit check, leaves the state unchanged; a
    /// near-unit report replaces the rotation.
    pub open spec fn step_spec(self, report: Option<Quat>) -> OrientationState {
        match report {
            Option::None => self,
            Option::Some(c) => if near_unit(c) {
                OrientationState { rotation: c }
            } else {
                self
            },
        }
    }

    /// Fresh state at application start: the identity pose.
    pub fn new() -> (s: OrientationState)
        ensures
            s.rotation == identity_spec(),
            s.wf(),
    {
        OrientationState { rotation: Quat::identity() }
    }

    /// Commit one frame's gizmo report. A frame without interaction (no
    /// report, or a report equal to the stored rotation) leaves the state
    /// bit-for-bit unchanged; a changed, near-unit report is stored; a
    /// report that fails the near-unit check is discarded. Returns whether
    /// a write happened.
    pub fn apply_gizmo_result(&mut self, report: Option<Quat>) -> (committed: bool)
        ensures
            *final(self) == old(self).step_spec(report),
            report is None ==> *final(self) == *old(self),
            old(self).wf() ==> final(self).wf(),
            committed == (final(self).rotation != old(self).rotation),
    {
        match report {
            Option::None => false,
            Option::Some(c) => {
                if c.is_near_unit() {
                    if c != self.rotation {
                        self.rotation = c;
                        true
                    } else {
                        false
                    }
                } else {
                    false
                }
            },
        }
    }
}

/// Fold a whole sequence of per-frame gizmo reports over the state.
pub open spec fn apply_updates(s: OrientationState, reports: Seq<Option<Quat>>) -> OrientationState
    decreases reports.len(),
{
    if reports.len() == 0 {
        s
    } else {
        apply_updates(s.step_spec(reports[0]), reports.drop_first())
    }
}

/// After any sequence of gizmo drag updates, the stored rotation's squared
/// magnitude still deviates from unit by at most `MAG_TOL`: the near-unit
/// invariant survives every frame.
pub proof fn lemma_magnitude_bounded(s: OrientationState, reports: Seq<Option<Quat>>)
    requires
        s.wf(),
    ensures
        apply_updates(s, reports).wf(),
    decreases reports.len(),
{
    if reports.len() > 0 {
        lemma_magnitude_bounded(s.step_spec(reports[0]), reports.drop_first());
    }
}

/// A frame without pointer interaction reports nothing, and the state after
/// such a frame equals the state before it.
pub proof fn lemma_idle_frame_identity(s: OrientationState)
    ensures
        s.step_spec(Option::None) == s,
{
}

} // verus!
