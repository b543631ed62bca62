//! Motion tasks: the ten task kinds, their parameters, and their
//! completion predicates.
//!
//! Each task kind carries exactly the parameters it needs.  Point targets
//! are integer arena coordinates, angles are thousandths of a degree, and
//! distance thresholds are plain arena units; completion compares squared
//! distances, which agrees with comparing the distances themselves.

use vstd::prelude::*;
use vstd::math::abs;
use crate::angle::{wrap, wrap_spec, MAX_ANGLE};

verus! {

/// Largest coordinate magnitude the arena model accepts.
pub const MAX_COORD: i64 = 1_000_000;

/// Largest task duration, in milliseconds.
pub const MAX_DURATION: u64 = 0x100_0000_0000;

/// Largest timestamp, in milliseconds.
pub const MAX_TIME: u64 = 0x1000_0000_0000_0000;

/// Largest spin power magnitude (the emitted command is the power scaled
/// by 100).
pub const MAX_POWER: i64 = 1_000;

/// A task kind together with the parameters that kind needs.
#[derive(Clone, Copy, Debug, PartialEq, Eq, Structural)]
pub enum TaskType {
    /// Each robot drives to its own target point.
    PairMovement { t0x: i64, t0y: i64, t1x: i64, t1y: i64, distance: i64 },
    /// Robot 0 drives to the target point; robot 1 is untouched.
    SingleMovement { tx: i64, ty: i64, distance: i64 },
    /// Each robot drives to the target point offset by its persisted
    /// shift from the pair midpoint.
    PairMovementShift { tx: i64, ty: i64, distance: i64 },
    /// Both robots aim at the pair midpoint, offset by a sinusoid of the
    /// elapsed time with the given angular amplitude, opposite signs.
    Wiggle { duration: u64, amplitude: i64 },
    /// Robot 0 rotates in place at a constant power for a fixed time.
    Spin { duration: u64, power: i64 },
    /// Each robot steers toward the other until they are closer than the
    /// threshold.
    GetClose { distance: i64 },
    /// Each robot steers directly away from the other until they are
    /// farther apart than the threshold.
    GetAway { distance: i64 },
    /// Robot 0 rotates until its heading is within the tolerance of the
    /// target angle.
    TargetAngle { target: i64, tolerance: i64 },
    /// Each robot rotates toward its own target angle.
    TargetAngles { target0: i64, target1: i64, tolerance: i64 },
    /// Do nothing for a fixed time.
    Wait { duration: u64 },
}

impl TaskType {
    /// Parameters lie within the bounds the arithmetic of the crate
    /// needs.
    pub open spec fn wf(self) -> bool {
        match self {
            TaskType::PairMovement { t0x, t0y, t1x, t1y, distance } => {
                &&& -MAX_COORD <= t0x <= MAX_COORD
                &&& -MAX_COORD <= t0y <= MAX_COORD
                &&& -MAX_COORD <= t1x <= MAX_COORD
                &&& -MAX_COORD <= t1y <= MAX_COORD
                &&& 0 <= distance <= MAX_COORD
            },
            TaskType::SingleMovement { tx, ty, distance } => {
                &&& -MAX_COORD <= tx <= MAX_COORD
                &&& -MAX_COORD <= ty <= MAX_COORD
                &&& 0 <= distance <= MAX_COORD
            },
            TaskType::PairMovementShift { tx, ty, distance } => {
                &&& -MAX_COORD <= tx <= MAX_COORD
                &&& -MAX_COORD <= ty <= MAX_COORD
                &&& 0 <= distance <= MAX_COORD
            },
            TaskType::Wiggle { duration, amplitude } => {
                &&& duration <= MAX_DURATION
                &&& -MAX_ANGLE <= amplitude <= MAX_ANGLE
            },
            TaskType::Spin { duration, power } => {
                &&& duration <= MAX_DURATION
                &&& -MAX_POWER <= power <= MAX_POWER
            },
            TaskType::GetClose { distance } => 0 <= distance <= MAX_COORD,
            TaskType::GetAway { distance } => 0 <= distance <= MAX_COORD,
            TaskType::TargetAngle { target, tolerance } => {
                &&& -MAX_ANGLE <= target <= MAX_ANGLE
                &&& 0 <= tolerance <= MAX_ANGLE
            },
            TaskType::TargetAngles { target0, target1, tolerance } => {
                &&& -MAX_ANGLE <= target0 <= MAX_ANGLE
                &&& -MAX_ANGLE <= target1 <= MAX_ANGLE
                &&& 0 <= tolerance <= MAX_ANGLE
            },
            TaskType::Wait { duration } => duration <= MAX_DURATION,
        }
    }
}

/// Squared Euclidean distance between two points.
pub open spec fn dist_sq(x0: int, y0: int, x1: int, y1: int) -> int {
    (x1 - x0) * (x1 - x0) + (y1 - y0) * (y1 - y0)
}

/// The square of a bounded value.
pub fn square(v: i64) -> (r: i64)
    requires
        -4_000_000 <= v <= 4_000_000,
    ensures
        r == v * v,
        0 <= r <= 16_000_000_000_000,
{
    proof {
        assert(0 <= v * v <= 16_000_000_000_000) by (nonlinear_arith)
            requires
                -4_000_000 <= v <= 4_000_000,
        ;
    }
    v * v
}

/// Squared Euclidean distance between two bounded points.
pub fn dist_sq_i64(x0: i64, y0: i64, x1: i64, y1: i64) -> (d: i64)
    requires
        -8_000_000 <= x0 <= 8_000_000,
        -8_000_000 <= y0 <= 8_000_000,
        -8_000_000 <= x1 <= 8_000_000,
        -8_000_000 <= y1 <= 8_000_000,
    ensures
        d == dist_sq(x0 as int, y0 as int, x1 as int, y1 as int),
        0 <= d <= 512_000_000_000_000,
{
    let dx = x1 - x0;
    let dy = y1 - y0;
    proof {
        assert(0 <= dx * dx <= 256_000_000_000_000) by (nonlinear_arith)
            requires
                -16_000_000 <= dx <= 16_000_000,
        ;
        assert(0 <= dy * dy <= 256_000_000_000_000) by (nonlinear_arith)
            requires
                -16_000_000 <= dy <= 16_000_000,
        ;
    }
    dx * dx + dy * dy
}

/// One pose sample handed to the completion predicate: position and
/// heading.
pub open spec fn sample_wf(s: (i64, i64, i64)) -> bool {
    &&& -MAX_COORD <= s.0 <= MAX_COORD
    &&& -MAX_COORD <= s.1 <= MAX_COORD
    &&& -MAX_ANGLE <= s.2 <= MAX_ANGLE
}

/// The pose data handed to the completion predicate: at least one
/// sample, all within bounds.
pub open spec fn data_wf(data: Seq<(i64, i64, i64)>) -> bool {
    &&& data.len() >= 1
    &&& forall|i: int| 0 <= i < data.len() ==> sample_wf(#[trigger] data[i])
}

/// A queued motion task: a kind plus the timestamp at which it became the
/// head of the queue.  `start_time` is meaningful only after `start` has
/// been called.
#[derive(Clone, Copy, Debug, PartialEq, Eq, Structural)]
pub struct ToioTask {
    pub what: TaskType,
    pub start_time: u64,
}

impl ToioTask {
    /// Parameters and timestamp lie within bounds.
    pub open spec fn wf(self) -> bool {
        self.what.wf() && self.start_time <= MAX_TIME
    }

    /// The completion predicate of the task, over the current timestamp
    /// and the pose samples of the tracked robots.  A missing second
    /// sample falls back to the first.
    pub open spec fn is_done_spec(self, now: u64, data: Seq<(i64, i64, i64)>) -> bool {
        let p0 = data[0];
        let p1 = if data.len() > 1 {
            data[1]
        } else {
            data[0]
        };
        match self.what {
            TaskType::Wait { duration } => now > self.start_time + duration,
            TaskType::Spin { duration, .. } => now > self.start_time + duration,
            TaskType::Wiggle { duration, .. } => now > self.start_time + duration,
            TaskType::PairMovement { t0x, t0y, t1x, t1y, distance } => {
                &&& dist_sq(p0.0 as int, p0.1 as int, t0x as int, t0y as int) < distance * distance
                &&& dist_sq(p1.0 as int, p1.1 as int, t1x as int, t1y as int) < distance * distance
            },
            TaskType::SingleMovement { tx, ty, distance } => dist_sq(
                p0.0 as int,
                p0.1 as int,
                tx as int,
                ty as int,
            ) < distance * distance,
            TaskType::PairMovementShift { tx, ty, distance } => dist_sq(
                p0.0 + p1.0,
                p0.1 + p1.1,
                2 * tx,
                2 * ty,
            ) < 4 * (distance * distance),
            TaskType::GetClose { distance } => dist_sq(
                p0.0 as int,
                p0.1 as int,
                p1.0 as int,
                p1.1 as int,
            ) < distance * distance,
            TaskType::GetAway { distance } => dist_sq(
                p0.0 as int,
                p0.1 as int,
                p1.0 as int,
                p1.1 as int,
            ) > distance * distance,
            TaskType::TargetAngle { target, tolerance } => abs(
                wrap_spec(p0.2 - target),
            ) < tolerance,
            TaskType::TargetAngles { target0, target1, tolerance } => {
                &&& abs(wrap_spec(p0.2 - target0)) < tolerance
                &&& abs(wrap_spec(p1.2 - target1)) < tolerance
            },
        }
    }

    pub fn new_pair_move(x0: i64, y0: i64, x1: i64, y1: i64, d: i64) -> (t: ToioTask)
        requires
            -MAX_COORD <= x0 <= MAX_COORD,
            -MAX_COORD <= y0 <= MAX_COORD,
            -MAX_COORD <= x1 <= MAX_COORD,
            -MAX_COORD <= y1 <= MAX_COORD,
            0 <= d <= MAX_COORD,
        ensures
            t == (ToioTask {
                what: TaskType::PairMovement { t0x: x0, t0y: y0, t1x: x1, t1y: y1, distance: d },
                start_time: 0,
            }),
            t.wf(),
    {
        ToioTask {
            what: TaskType::PairMovement { t0x: x0, t0y: y0, t1x: x1, t1y: y1, distance: d },
            start_time: 0,
        }
    }

    pub fn new_pair_move_shift(x0: i64, y0: i64, d: i64) -> (t: ToioTask)
        requires
            -MAX_COORD <= x0 <= MAX_COORD,
            -MAX_COORD <= y0 <= MAX_COORD,
            0 <= d <= MAX_COORD,
        ensures
            t == (ToioTask {
                what: TaskType::PairMovementShift { tx: x0, ty: y0, distance: d },
                start_time: 0,
            }),
            t.wf(),
    {
        ToioTask { what: TaskType::PairMovementShift { tx: x0, ty: y0, distance: d }, start_time: 0 }
    }

    pub fn new_single_move(x0: i64, y0: i64, d: i64) -> (t: ToioTask)
        requires
            -MAX_COORD <= x0 <= MAX_COORD,
            -MAX_COORD <= y0 <= MAX_COORD,
            0 <= d <= MAX_COORD,
        ensures
            t == (ToioTask {
                what: TaskType::SingleMovement { tx: x0, ty: y0, distance: d },
                start_time: 0,
            }),
            t.wf(),
    {
        ToioTask { what: TaskType::SingleMovement { tx: x0, ty: y0, distance: d }, start_time: 0 }
    }

    pub fn new_wait(t: u64) -> (r: ToioTask)
        requires
            t <= MAX_DURATION,
        ensures
            r == (ToioTask { what: TaskType::Wait { duration: t }, start_time: 0 }),
            r.wf(),
    {
        ToioTask { what: TaskType::Wait { duration: t }, start_time: 0 }
    }

    pub fn new_wiggle(t: u64, power: i64) -> (r: ToioTask)
        requires
            t <= MAX_DURATION,
            -MAX_ANGLE <= power <= MAX_ANGLE,
        ensures
            r == (ToioTask { what: TaskType::Wiggle { duration: t, amplitude: power }, start_time: 0 }),
            r.wf(),
    {
        ToioTask { what: TaskType::Wiggle { duration: t, amplitude: power }, start_time: 0 }
    }

    pub fn new_spin(t: u64, power: i64) -> (r: ToioTask)
        requires
            t <= MAX_DURATION,
            -MAX_POWER <= power <= MAX_POWER,
        ensures
            r == (ToioTask { what: TaskType::Spin { duration: t, power }, start_time: 0 }),
            r.wf(),
    {
        ToioTask { what: TaskType::Spin { duration: t, power }, start_time: 0 }
    }

    pub fn new_get_close(d: i64) -> (t: ToioTask)
        requires
            0 <= d <= MAX_COORD,
        ensures
            t == (ToioTask { what: TaskType::GetClose { distance: d }, start_time: 0 }),
            t.wf(),
    {
        ToioTask { what: TaskType::GetClose { distance: d }, start_time: 0 }
    }

    pub fn new_get_away(d: i64) -> (t: ToioTask)
        requires
            0 <= d <= MAX_COORD,
        ensures
            t == (ToioTask { what: TaskType::GetAway { distance: d }, start_time: 0 }),
            t.wf(),
    {
        ToioTask { what: TaskType::GetAway { distance: d }, start_time: 0 }
    }

    pub fn new_target_angle(a0: i64, d: i64) -> (t: ToioTask)
        requires
            -MAX_ANGLE <= a0 <= MAX_ANGLE,
            0 <= d <= MAX_ANGLE,
        ensures
            t == (ToioTask {
                what: TaskType::TargetAngle { target: a0, tolerance: d },
                start_time: 0,
            }),
            t.wf(),
    {
        ToioTask { what: TaskType::TargetAngle { target: a0, tolerance: d }, start_time: 0 }
    }

    pub fn new_target_angles(a0: i64, a1: i64, d: i64) -> (t: ToioTask)
        requires
            -MAX_ANGLE <= a0 <= MAX_ANGLE,
            -MAX_ANGLE <= a1 <= MAX_ANGLE,
            0 <= d <= MAX_ANGLE,
        ensures
            t == (ToioTask {
                what: TaskType::TargetAngles { target0: a0, target1: a1, tolerance: d },
                start_time: 0,
            }),
            t.wf(),
    {
        ToioTask {
            what: TaskType::TargetAngles { target0: a0, target1: a1, tolerance: d },
            start_time: 0,
        }
    }

    /// Stamp the task with the time at which it became the head of the
    /// queue.
    pub fn start(&mut self, now: u64)
        requires
            now <= MAX_TIME,
        ensures
            final(self).what == old(self).what,
            final(self).start_time == now,
    {
        self.start_time = now;
    }

    /// Evaluate the completion predicate against the current timestamp
    /// and pose samples `(x, y, heading)` of the tracked robots.
    pub fn is_done(&self, now: u64, data: Vec<(i64, i64, i64)>) -> (r: bool)
        requires
            self.wf(),
            data_wf(data@),
            now <= MAX_TIME,
        ensures
            r == self.is_done_spec(now, data@),
    {
        let p0 = data[0];
        let p1 = if data.len() > 1 {
            data[1]
        } else {
            data[0]
        };
        match self.what {
            TaskType::Wait { duration } => now > self.start_time + duration,
            TaskType::Spin { duration, .. } => now > self.start_time + duration,
            TaskType::Wiggle { duration, .. } => now > self.start_time + duration,
            TaskType::PairMovement { t0x, t0y, t1x, t1y, distance } => {
                let d0 = dist_sq_i64(p0.0, p0.1, t0x, t0y);
                let d1 = dist_sq_i64(p1.0, p1.1, t1x, t1y);
                let dd = square(distance);
                d0 < dd && d1 < dd
            },
            TaskType::SingleMovement { tx, ty, distance } => {
                let d0 = dist_sq_i64(p0.0, p0.1, tx, ty);
                d0 < square(distance)
            },
            TaskType::PairMovementShift { tx, ty, distance } => {
                let cx = p0.0 + p1.0;
                let cy = p0.1 + p1.1;
                let d0 = dist_sq_i64(cx, cy, 2 * tx, 2 * ty);
                d0 < 4 * square(distance)
            },
            TaskType::GetClose { distance } => {
                let d = dist_sq_i64(p0.0, p0.1, p1.0, p1.1);
                d < square(distance)
            },
            TaskType::GetAway { distance } => {
                let d = dist_sq_i64(p0.0, p0.1, p1.0, p1.1);
                d > square(distance)
            },
            TaskType::TargetAngle { target, tolerance } => {
                let e = wrap(p0.2 - target);
                let ae: i64 = if e < 0 {
                    -e
                } else {
                    e
                };
                ae < tolerance
            },
            TaskType::TargetAngles { target0, target1, tolerance } => {
                let e0 = wrap(p0.2 - target0);
                let ae0: i64 = if e0 < 0 {
                    -e0
                } else {
                    e0
                };
                let e1 = wrap(p1.2 - target1);
                let ae1: i64 = if e1 < 0 {
                    -e1
                } else {
                    e1
                };
                ae0 < tolerance && ae1 < tolerance
            },
        }
    }
}

/// For the same pair of poses and the same threshold, a get-close task is
/// done exactly when the matching get-away task is not, provided the
/// squared inter-robot distance does not sit exactly on the squared
/// threshold.
pub proof fn lemma_close_away_complement(
    close: ToioTask,
    away: ToioTask,
    now: u64,
    data: Seq<(i64, i64, i64)>,
    d: i64,
)
    requires
        close.what == (TaskType::GetClose { distance: d }),
        away.what == (TaskType::GetAway { distance: d }),
        data.len() >= 1,
        ({
            let p0 = data[0];
            let p1 = if data.len() > 1 {
                data[1]
            } else {
                data[0]
            };
            dist_sq(p0.0 as int, p0.1 as int, p1.0 as int, p1.1 as int) != d * d
        }),
    ensures
        close.is_done_spec(now, data) <==> !away.is_done_spec(now, data),
{
}

} // verus!
