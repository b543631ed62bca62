//! The task sequencer: an ordered queue of motion tasks, evaluated once
//! per tick against the latest poses.
//!
//! Each tick either inserts a stay-away interrupt at the head, pops a
//! completed head task (starting its successor), or dispatches on the
//! head task's kind to produce this tick's motor commands.  Kinds whose
//! commands need only integer geometry are resolved to commands
//! directly; kinds that need a bearing (the arctangent of an integer
//! vector) or the wiggle sinusoid return a [`SteerNeed`] carrying the
//! exact integer vectors, and the caller feeds the resulting angles back
//! through the `resolve_*` functions, which are verified for every value
//! handed back.
//!
//! After the task step, if the freshest pose timestamp seen this tick is
//! more than the stale timeout behind `now` and the queue is non-empty,
//! the whole queue is cleared.

use vstd::prelude::*;
use vstd::math::max;
use crate::angle::{wrap, wrap_spec, MAX_ANGLE};
use crate::steer::{steer_to_heading, steer_to_heading_spec, steer_to_point, steer_to_point_spec};
use crate::task::{dist_sq, dist_sq_i64, ToioTask, TaskType, MAX_COORD, MAX_TIME};
use crate::telemetry::{Pose, PoseStore};

verus! {

/// Threshold under which the choreography brings the pair together.
pub const DIST_CLOSE: i64 = 52;

/// Threshold past which a get-away task drives the pair apart; also the
/// exact offset distance of the get-away steering targets.
pub const DIST_AWAY: i64 = 56;

/// Threshold of the automatically inserted stay-away task.
pub const STAY_AWAY_DIST: i64 = DIST_AWAY - 3;

/// Milliseconds without fresh telemetry after which the queue is wiped.
pub const STALE_TIMEOUT: u64 = 10_000;

/// Milliseconds every steering-driven motor command is held.
pub const COMMAND_MS: u64 = 50;

/// One motor command: the logical robot index, the two wheel powers, and
/// the duration the command is held.
#[derive(Clone, Copy, Debug, PartialEq, Eq, Structural)]
pub struct MotorCommand {
    pub index: i64,
    pub left: i64,
    pub right: i64,
    pub duration: u64,
}

/// A point-steering request: aim the robot with the given heading along
/// the integer vector `(vx, vy)`, stopping inside the dead zone (a
/// squared distance, in the same scale as the vector).
#[derive(Clone, Copy, Debug, PartialEq, Eq, Structural)]
pub struct AimRequest {
    pub index: i64,
    pub heading: i64,
    pub vx: i64,
    pub vy: i64,
    pub dead_sq: i64,
}

/// The geometry a tick needs from the caller: each variant carries the
/// integer vectors whose bearings (and, for wiggle, the sinusoid offset)
/// must be computed outside, then handed to the matching resolver.
#[derive(Clone, Copy, Debug)]
pub enum SteerNeed {
    /// Point steering for robot 0 and optionally robot 1; resolve each
    /// request with [`resolve_aim`].
    Aim { first: AimRequest, second: Option<AimRequest> },
    /// Both robots flee along the pair bearing, the vector from robot 0
    /// to robot 1; resolve with [`resolve_away`].
    Away { index0: i64, heading0: i64, index1: i64, heading1: i64, vx: i64, vy: i64 },
    /// Both robots aim at the pair midpoint offset by a sinusoid of the
    /// elapsed time; `(v0x, v0y)` points from robot 0 toward the
    /// midpoint and `(v1x, v1y)` from robot 1; resolve with
    /// [`resolve_wiggle`].
    Wiggle {
        index0: i64,
        heading0: i64,
        v0x: i64,
        v0y: i64,
        index1: i64,
        heading1: i64,
        v1x: i64,
        v1y: i64,
        elapsed: u64,
        amplitude: i64,
    },
}

/// What one tick did.
#[derive(Debug)]
pub enum TickAction {
    /// No pose for a required robot, or an empty queue: nothing to do.
    Idle,
    /// A stay-away task was inserted at the head, preempting the current
    /// task without discarding it.
    Interrupted,
    /// The head task completed and was removed; its successor, if any,
    /// was started.
    Completed,
    /// The commands of this tick, fully resolved.
    Commands(Vec<MotorCommand>),
    /// The tick needs bearings from the caller; see [`SteerNeed`].
    Steer(SteerNeed),
}

/// The outcome of one tick: the action taken, and whether the stale-data
/// fail-safe wiped the queue afterwards.
#[derive(Debug)]
pub struct TickResult {
    pub action: TickAction,
    pub cleared: bool,
}

/// The sequencer: the task queue, the per-robot shift offsets persisted
/// by the get-close and get-away tasks (stored doubled, so that offsets
/// from the pair midpoint stay integral), the stay-away mode flag, and
/// the two-slot table mapping robots to logical indices.
#[derive(Clone, Debug)]
pub struct Sequencer {
    pub tasks: Vec<ToioTask>,
    pub shift0x: i64,
    pub shift0y: i64,
    pub shift1x: i64,
    pub shift1y: i64,
    pub should_stay_away: bool,
    pub index0: usize,
    pub index1: usize,
}

impl Sequencer {
    /// Every queued task and every persisted field lies within bounds.
    pub open spec fn wf(self) -> bool {
        &&& forall|i: int| 0 <= i < self.tasks@.len() ==> (#[trigger] self.tasks@[i]).wf()
        &&& -2 * MAX_COORD <= self.shift0x <= 2 * MAX_COORD
        &&& -2 * MAX_COORD <= self.shift0y <= 2 * MAX_COORD
        &&& -2 * MAX_COORD <= self.shift1x <= 2 * MAX_COORD
        &&& -2 * MAX_COORD <= self.shift1y <= 2 * MAX_COORD
        &&& self.index0 < 3
        &&& self.index1 < 3
    }

    /// No queued task claims to have started in the future.
    pub open spec fn started_by(self, now: u64) -> bool {
        forall|i: int| 0 <= i < self.tasks@.len() ==> (#[trigger] self.tasks@[i]).start_time <= now
    }

    /// A fresh sequencer: empty queue, zero shifts, stay-away mode off.
    pub fn new(index0: usize, index1: usize) -> (s: Sequencer)
        requires
            index0 < 3,
            index1 < 3,
        ensures
            s.tasks@.len() == 0,
            s.shift0x == 0 && s.shift0y == 0 && s.shift1x == 0 && s.shift1y == 0,
            s.should_stay_away == false,
            s.index0 == index0 && s.index1 == index1,
            s.wf(),
    {
        Sequencer {
            tasks: Vec::new(),
            shift0x: 0,
            shift0y: 0,
            shift1x: 0,
            shift1y: 0,
            should_stay_away: false,
            index0,
            index1,
        }
    }

    /// Append a task to the tail of the queue; every other field of the
    /// sequencer keeps its value.
    pub fn push(&mut self, task: ToioTask)
        requires
            old(self).wf(),
            task.wf(),
        ensures
            final(self).tasks@ == old(self).tasks@.push(task),
            final(self).shift0x == old(self).shift0x,
            final(self).shift0y == old(self).shift0y,
            final(self).shift1x == old(self).shift1x,
            final(self).shift1y == old(self).shift1y,
            final(self).should_stay_away == old(self).should_stay_away,
            final(self).index0 == old(self).index0,
            final(self).index1 == old(self).index1,
            final(self).wf(),
    {
        self.tasks.push(task);
    }
}

/// The shifts and the stay-away flag are unchanged.
pub open spec fn persisted_unchanged(pre: Sequencer, post: Sequencer) -> bool {
    &&& post.shift0x == pre.shift0x
    &&& post.shift0y == pre.shift0y
    &&& post.shift1x == pre.shift1x
    &&& post.shift1y == pre.shift1y
    &&& post.should_stay_away == pre.should_stay_away
}

/// The shifts hold each robot's doubled offset from the pair midpoint.
pub open spec fn shifts_persisted(post: Sequencer, p0: Pose, p1: Pose) -> bool {
    &&& post.shift0x == p0.x - p1.x
    &&& post.shift0y == p0.y - p1.y
    &&& post.shift1x == p1.x - p0.x
    &&& post.shift1y == p1.y - p0.y
}

/// The pose samples handed to the completion predicate: robots 0 and 1,
/// and the third robot when it is known.
pub open spec fn pose_data(p0: Pose, p1: Pose, p2: Option<Pose>) -> Seq<(i64, i64, i64)> {
    let base = seq![(p0.x, p0.y, p0.heading), (p1.x, p1.y, p1.heading)];
    match p2 {
        Some(q) => base.push((q.x, q.y, q.heading)),
        None => base,
    }
}

/// The freshest update timestamp a tick sees: robot 0 always, robot 1
/// when known, and the third robot only when it is known and the tick
/// had tasks to look at (with robot 1 present).
pub open spec fn latest_update(p0: Pose, p1: Option<Pose>, p2: Option<Pose>, use2: bool) -> int {
    let l0 = p0.last_update as int;
    let l1 = match p1 {
        Some(q) => max(l0, q.last_update as int),
        None => l0,
    };
    match p2 {
        Some(q) => if use2 && p1 is Some {
            max(l1, q.last_update as int)
        } else {
            l1
        },
        None => l1,
    }
}

/// `c` is a rotation command from the heading-only controller.
pub open spec fn is_heading_cmd(c: MotorCommand, index: int, heading: int, target: int) -> bool {
    &&& c.index == index
    &&& (c.left as int, c.right as int) == steer_to_heading_spec(heading, target)
    &&& c.duration == COMMAND_MS
}

/// `c` is a point-steering command from the forward controller.
pub open spec fn is_aim_cmd(c: MotorCommand, req: AimRequest, bearing: int) -> bool {
    &&& c.index == req.index
    &&& (c.left as int, c.right as int) == steer_to_point_spec(
        req.heading as int,
        bearing,
        dist_sq(0, 0, req.vx as int, req.vy as int),
        req.dead_sq as int,
    )
    &&& c.duration == COMMAND_MS
}

/// `c` is the constant rotate-in-place command of a spin task: the power
/// scaled by 100, opposite signs on the two sides.
pub open spec fn is_spin_cmd(c: MotorCommand, index: int, power: int) -> bool {
    &&& c.index == index
    &&& c.left == power * 100
    &&& c.right == -(power * 100)
    &&& c.duration == COMMAND_MS
}

/// `q` has exactly these fields.
pub open spec fn is_aim_req(
    q: AimRequest,
    index: int,
    heading: int,
    vx: int,
    vy: int,
    dead_sq: int,
) -> bool {
    &&& q.index == index
    &&& q.heading == heading
    &&& q.vx == vx
    &&& q.vy == vy
    &&& q.dead_sq == dead_sq
}

/// What dispatching on the head task produces, per task kind, for the
/// poses of robots 0 and 1.  `pre` and `post` differ at most in the
/// persisted shifts and the stay-away flag, and only for the get-close
/// and get-away kinds.
pub open spec fn dispatch_post(
    pre: Sequencer,
    post: Sequencer,
    a: TickAction,
    now: u64,
    p0: Pose,
    p1: Pose,
) -> bool {
    let head = pre.tasks@[0];
    let idx0 = pre.index0 as int;
    let idx1 = pre.index1 as int;
    match head.what {
        TaskType::Wait { .. } => {
            &&& a matches TickAction::Commands(cs) && cs@.len() == 0
            &&& persisted_unchanged(pre, post)
        },
        TaskType::Spin { power, .. } => {
            &&& a matches TickAction::Commands(cs) && cs@.len() == 1 && is_spin_cmd(
                cs@[0],
                idx0,
                power as int,
            )
            &&& persisted_unchanged(pre, post)
        },
        TaskType::TargetAngle { target, .. } => {
            &&& a matches TickAction::Commands(cs) && cs@.len() == 1 && is_heading_cmd(
                cs@[0],
                idx0,
                p0.heading as int,
                target as int,
            )
            &&& persisted_unchanged(pre, post)
        },
        TaskType::TargetAngles { target0, target1, .. } => {
            &&& a matches TickAction::Commands(cs) && cs@.len() == 2 && is_heading_cmd(
                cs@[0],
                idx0,
                p0.heading as int,
                target0 as int,
            ) && is_heading_cmd(cs@[1], idx1, p1.heading as int, target1 as int)
            &&& persisted_unchanged(pre, post)
        },
        TaskType::Wiggle { duration: _, amplitude: amp } => {
            &&& a matches TickAction::Steer(
                SteerNeed::Wiggle {
                    index0,
                    heading0,
                    v0x,
                    v0y,
                    index1,
                    heading1,
                    v1x,
                    v1y,
                    elapsed,
                    amplitude,
                },
            )
                && index0 == idx0
                && heading0 == p0.heading
                && v0x == p1.x - p0.x
                && v0y == p1.y - p0.y
                && index1 == idx1
                && heading1 == p1.heading
                && v1x == p0.x - p1.x
                && v1y == p0.y - p1.y
                && elapsed == now - head.start_time
                && amplitude == amp
            &&& persisted_unchanged(pre, post)
        },
        TaskType::PairMovement { t0x, t0y, t1x, t1y, .. } => {
            &&& persisted_unchanged(pre, post)
            &&& a matches TickAction::Steer(SteerNeed::Aim { first, second })
            &&& is_aim_req(first, idx0, p0.heading as int, t0x - p0.x, t0y - p0.y, 100)
            &&& second matches Some(s)
            &&& is_aim_req(s, idx1, p1.heading as int, t1x - p1.x, t1y - p1.y, 100)
        },
        TaskType::SingleMovement { tx, ty, .. } => {
            &&& persisted_unchanged(pre, post)
            &&& a matches TickAction::Steer(SteerNeed::Aim { first, second })
            &&& is_aim_req(first, idx0, p0.heading as int, tx - p0.x, ty - p0.y, 100)
            &&& second is None
        },
        TaskType::PairMovementShift { tx, ty, .. } => {
            &&& persisted_unchanged(pre, post)
            &&& a matches TickAction::Steer(SteerNeed::Aim { first, second })
            &&& is_aim_req(
                first,
                idx0,
                p0.heading as int,
                2 * tx + pre.shift0x - 2 * p0.x,
                2 * ty + pre.shift0y - 2 * p0.y,
                400,
            )
            &&& second matches Some(s)
            &&& is_aim_req(
                s,
                idx1,
                p1.heading as int,
                2 * tx + pre.shift1x - 2 * p1.x,
                2 * ty + pre.shift1y - 2 * p1.y,
                400,
            )
        },
        TaskType::GetClose { .. } => {
            &&& shifts_persisted(post, p0, p1)
            &&& post.should_stay_away == false
            &&& a matches TickAction::Steer(SteerNeed::Aim { first, second })
            &&& is_aim_req(first, idx0, p0.heading as int, p1.x - p0.x, p1.y - p0.y, 100)
            &&& second matches Some(s)
            &&& is_aim_req(s, idx1, p1.heading as int, p0.x - p1.x, p0.y - p1.y, 100)
        },
        TaskType::GetAway { .. } => {
            &&& a matches TickAction::Steer(
                SteerNeed::Away { index0, heading0, index1, heading1, vx, vy },
            )
                && index0 == idx0
                && heading0 == p0.heading
                && index1 == idx1
                && heading1 == p1.heading
                && vx == p1.x - p0.x
                && vy == p1.y - p0.y
            &&& shifts_persisted(post, p0, p1)
            &&& post.should_stay_away == pre.should_stay_away
        },
    }
}

impl Sequencer {
    /// Compute this tick's action for the head task, which is neither
    /// done nor preempted: commands where only integer geometry is
    /// needed, a [`SteerNeed`] otherwise; the get-close and get-away
    /// kinds also persist the shift offsets here.
    fn dispatch(&mut self, now: u64, p0: Pose, p1: Pose) -> (a: TickAction)
        requires
            old(self).wf(),
            old(self).tasks@.len() > 0,
            old(self).tasks@[0].start_time <= now,
            p0.wf(),
            p1.wf(),
            now <= MAX_TIME,
        ensures
            final(self).tasks == old(self).tasks,
            final(self).index0 == old(self).index0,
            final(self).index1 == old(self).index1,
            final(self).wf(),
            dispatch_post(*old(self), *final(self), a, now, p0, p1),
    {
        let head = self.tasks[0];
        match head.what {
            TaskType::Wait { .. } => TickAction::Commands(Vec::new()),
            TaskType::Spin { power, .. } => {
                let s = power * 100;
                let mut cs: Vec<MotorCommand> = Vec::new();
                cs.push(
                    MotorCommand {
                        index: self.index0 as i64,
                        left: s,
                        right: -s,
                        duration: COMMAND_MS,
                    },
                );
                TickAction::Commands(cs)
            },
            TaskType::TargetAngle { target, .. } => {
                let p = steer_to_heading(p0.heading, target);
                let mut cs: Vec<MotorCommand> = Vec::new();
                cs.push(
                    MotorCommand {
                        index: self.index0 as i64,
                        left: p.0,
                        right: p.1,
                        duration: COMMAND_MS,
                    },
                );
                TickAction::Commands(cs)
            },
            TaskType::TargetAngles { target0, target1, .. } => {
                let q0 = steer_to_heading(p0.heading, target0);
                let q1 = steer_to_heading(p1.heading, target1);
                let mut cs: Vec<MotorCommand> = Vec::new();
                cs.push(
                    MotorCommand {
                        index: self.index0 as i64,
                        left: q0.0,
                        right: q0.1,
                        duration: COMMAND_MS,
                    },
                );
                cs.push(
                    MotorCommand {
                        index: self.index1 as i64,
                        left: q1.0,
                        right: q1.1,
                        duration: COMMAND_MS,
                    },
                );
                TickAction::Commands(cs)
            },
            TaskType::Wiggle { duration: _, amplitude } => TickAction::Steer(
                SteerNeed::Wiggle {
                    index0: self.index0 as i64,
                    heading0: p0.heading,
                    v0x: p1.x - p0.x,
                    v0y: p1.y - p0.y,
                    index1: self.index1 as i64,
                    heading1: p1.heading,
                    v1x: p0.x - p1.x,
                    v1y: p0.y - p1.y,
                    elapsed: now - head.start_time,
                    amplitude,
                },
            ),
            TaskType::PairMovement { t0x, t0y, t1x, t1y, .. } => TickAction::Steer(
                SteerNeed::Aim {
                    first: AimRequest {
                        index: self.index0 as i64,
                        heading: p0.heading,
                        vx: t0x - p0.x,
                        vy: t0y - p0.y,
                        dead_sq: 100,
                    },
                    second: Some(
                        AimRequest {
                            index: self.index1 as i64,
                            heading: p1.heading,
                            vx: t1x - p1.x,
                            vy: t1y - p1.y,
                            dead_sq: 100,
                        },
                    ),
                },
            ),
            TaskType::SingleMovement { tx, ty, .. } => TickAction::Steer(
                SteerNeed::Aim {
                    first: AimRequest {
                        index: self.index0 as i64,
                        heading: p0.heading,
                        vx: tx - p0.x,
                        vy: ty - p0.y,
                        dead_sq: 100,
                    },
                    second: None,
                },
            ),
            TaskType::PairMovementShift { tx, ty, .. } => TickAction::Steer(
                SteerNeed::Aim {
                    first: AimRequest {
                        index: self.index0 as i64,
                        heading: p0.heading,
                        vx: 2 * tx + self.shift0x - 2 * p0.x,
                        vy: 2 * ty + self.shift0y - 2 * p0.y,
                        dead_sq: 400,
                    },
                    second: Some(
                        AimRequest {
                            index: self.index1 as i64,
                            heading: p1.heading,
                            vx: 2 * tx + self.shift1x - 2 * p1.x,
                            vy: 2 * ty + self.shift1y - 2 * p1.y,
                            dead_sq: 400,
                        },
                    ),
                },
            ),
            TaskType::GetClose { .. } => {
                let a = TickAction::Steer(
                    SteerNeed::Aim {
                        first: AimRequest {
                            index: self.index0 as i64,
                            heading: p0.heading,
                            vx: p1.x - p0.x,
                            vy: p1.y - p0.y,
                            dead_sq: 100,
                        },
                        second: Some(
                            AimRequest {
                                index: self.index1 as i64,
                                heading: p1.heading,
                                vx: p0.x - p1.x,
                                vy: p0.y - p1.y,
                                dead_sq: 100,
                            },
                        ),
                    },
                );
                self.shift0x = p0.x - p1.x;
                self.shift0y = p0.y - p1.y;
                self.shift1x = p1.x - p0.x;
                self.shift1y = p1.y - p0.y;
                self.should_stay_away = false;
                a
            },
            TaskType::GetAway { .. } => {
                let a = TickAction::Steer(
                    SteerNeed::Away {
                        index0: self.index0 as i64,
                        heading0: p0.heading,
                        index1: self.index1 as i64,
                        heading1: p1.heading,
                        vx: p1.x - p0.x,
                        vy: p1.y - p0.y,
                    },
                );
                self.shift0x = p0.x - p1.x;
                self.shift0y = p0.y - p1.y;
                self.shift1x = p1.x - p0.x;
                self.shift1y = p1.y - p0.y;
                a
            },
        }
    }
}

/// The task the stay-away interrupt inserts at the head of the queue.
pub open spec fn stay_away_task() -> ToioTask {
    ToioTask { what: TaskType::GetAway { distance: STAY_AWAY_DIST }, start_time: 0 }
}

/// The interrupt fires when stay-away mode is on, the robots are closer
/// than the stay-away threshold, and the head task is not already a
/// get-away.
pub open spec fn interrupt_condition(pre: Sequencer, p0: Pose, p1: Pose) -> bool {
    &&& pre.should_stay_away
    &&& dist_sq(p0.x as int, p0.y as int, p1.x as int, p1.y as int) < STAY_AWAY_DIST
        * STAY_AWAY_DIST
    &&& !(pre.tasks@[0].what is GetAway)
}

/// The queue after the head task completed: the head is removed, and the
/// new head, if any, is stamped with `now`.
pub open spec fn popped_and_started(pre_tasks: Seq<ToioTask>, now: u64) -> Seq<ToioTask> {
    let rest = pre_tasks.remove(0);
    if rest.len() == 0 {
        rest
    } else {
        rest.update(0, ToioTask { what: rest[0].what, start_time: now })
    }
}

/// How the stale-data fail-safe leaves the queue: wiped exactly when the
/// telemetry is stale and the queue (after this tick's task step) is
/// non-empty.
pub open spec fn queue_after_clear(
    mid: Seq<ToioTask>,
    stale: bool,
    r: TickResult,
    post: Sequencer,
) -> bool {
    &&& r.cleared == (stale && mid.len() > 0)
    &&& post.tasks@ == if r.cleared {
        Seq::<ToioTask>::empty()
    } else {
        mid
    }
}

/// The full contract of one tick, relating the sequencer state before
/// (`pre`) and after (`post`), the returned [`TickResult`], the current
/// timestamp, and the pose store.
pub open spec fn tick_post(
    pre: Sequencer,
    post: Sequencer,
    r: TickResult,
    now: u64,
    store: PoseStore,
) -> bool {
    &&& post.index0 == pre.index0
    &&& post.index1 == pre.index1
    &&& match store.slot0 {
        None => {
            &&& r.action is Idle
            &&& !r.cleared
            &&& post.tasks@ == pre.tasks@
            &&& persisted_unchanged(pre, post)
        },
        Some(p0) => {
            let stale = latest_update(p0, store.slot1, store.slot2, pre.tasks@.len() > 0)
                + STALE_TIMEOUT < now;
            match store.slot1 {
                None => {
                    &&& r.action is Idle
                    &&& persisted_unchanged(pre, post)
                    &&& queue_after_clear(pre.tasks@, stale, r, post)
                },
                Some(p1) => {
                    if pre.tasks@.len() == 0 {
                        &&& r.action is Idle
                        &&& persisted_unchanged(pre, post)
                        &&& queue_after_clear(pre.tasks@, stale, r, post)
                    } else if interrupt_condition(pre, p0, p1) {
                        &&& r.action is Interrupted
                        &&& persisted_unchanged(pre, post)
                        &&& queue_after_clear(
                            pre.tasks@.insert(0, stay_away_task()),
                            stale,
                            r,
                            post,
                        )
                    } else if pre.tasks@[0].is_done_spec(now, pose_data(p0, p1, store.slot2)) {
                        &&& r.action is Completed
                        &&& persisted_unchanged(pre, post)
                        &&& queue_after_clear(popped_and_started(pre.tasks@, now), stale, r, post)
                    } else {
                        &&& dispatch_post(pre, post, r.action, now, p0, p1)
                        &&& queue_after_clear(pre.tasks@, stale, r, post)
                    }
                },
            }
        },
    }
}

impl Sequencer {
    /// One tick of the sequencer against the current timestamp and the
    /// latest poses.  The queue changes only as the contract says: it
    /// may gain the single stay-away interrupt task at its head, lose
    /// its completed head (whose successor is stamped with `now`), or be
    /// wiped whole by the stale-telemetry fail-safe; nothing else
    /// touches it.
    pub fn tick(&mut self, now: u64, store: &PoseStore) -> (r: TickResult)
        requires
            old(self).wf(),
            old(self).started_by(now),
            store.wf(),
            now <= MAX_TIME,
        ensures
            final(self).wf(),
            final(self).started_by(now),
            tick_post(*old(self), *final(self), r, now, *store),
    {
        let p0 = match store.slot0 {
            Some(p) => p,
            None => {
                return TickResult { action: TickAction::Idle, cleared: false };
            },
        };
        let mut last: u64 = p0.last_update;
        let mut action: TickAction = TickAction::Idle;
        match store.slot1 {
            Some(p1) => {
                if p1.last_update > last {
                    last = p1.last_update;
                }
                if self.tasks.len() > 0 {
                    let mut data: Vec<(i64, i64, i64)> = Vec::new();
                    data.push((p0.x, p0.y, p0.heading));
                    data.push((p1.x, p1.y, p1.heading));
                    match store.slot2 {
                        Some(p2) => {
                            if p2.last_update > last {
                                last = p2.last_update;
                            }
                            data.push((p2.x, p2.y, p2.heading));
                        },
                        None => {},
                    }
                    proof {
                        assert(data@ =~= pose_data(p0, p1, store.slot2));
                    }
                    let head = self.tasks[0];
                    let dsq = dist_sq_i64(p0.x, p0.y, p1.x, p1.y);
                    let head_is_away = matches!(head.what, TaskType::GetAway { .. });
                    if self.should_stay_away && dsq < STAY_AWAY_DIST * STAY_AWAY_DIST
                        && !head_is_away {
                        self.tasks.insert(
                            0,
                            ToioTask {
                                what: TaskType::GetAway { distance: STAY_AWAY_DIST },
                                start_time: 0,
                            },
                        );
                        action = TickAction::Interrupted;
                    } else if head.is_done(now, data) {
                        self.tasks.remove(0);
                        if self.tasks.len() > 0 {
                            let mut t = self.tasks[0];
                            t.start(now);
                            self.tasks.set(0, t);
                        }
                        action = TickAction::Completed;
                    } else {
                        action = self.dispatch(now, p0, p1);
                    }
                }
            },
            None => {},
        }
        let mut cleared = false;
        if last + STALE_TIMEOUT < now {
            if self.tasks.len() > 0 {
                self.tasks.clear();
                cleared = true;
            }
        }
        TickResult { action, cleared }
    }
}

/// Resolve a point-steering request with the bearing of its vector
/// `(vx, vy)` (computed by the caller) into the motor command of the
/// forward controller.
pub fn resolve_aim(req: &AimRequest, bearing: i64) -> (c: MotorCommand)
    requires
        -8_000_000 <= req.vx <= 8_000_000,
        -8_000_000 <= req.vy <= 8_000_000,
        -MAX_ANGLE <= req.heading <= MAX_ANGLE,
        -MAX_ANGLE <= bearing <= MAX_ANGLE,
        0 <= req.dead_sq,
    ensures
        is_aim_cmd(c, *req, bearing as int),
        -20 <= c.left <= 20,
        -20 <= c.right <= 20,
{
    let d = dist_sq_i64(0, 0, req.vx, req.vy);
    let p = steer_to_point(req.heading, bearing, d, req.dead_sq);
    MotorCommand { index: req.index, left: p.0, right: p.1, duration: COMMAND_MS }
}

/// Resolve a get-away request with the bearing of the vector from robot
/// 0 to robot 1.  Robot 0 flees along the opposite bearing and robot 1
/// along the bearing itself; both targets sit exactly the away distance
/// out, so the controller never lands in its dead zone.
pub fn resolve_away(index0: i64, heading0: i64, index1: i64, heading1: i64, bearing: i64) -> (cs: (
    MotorCommand,
    MotorCommand,
))
    requires
        -MAX_ANGLE <= heading0 <= MAX_ANGLE,
        -MAX_ANGLE <= heading1 <= MAX_ANGLE,
        -MAX_ANGLE <= bearing <= MAX_ANGLE,
    ensures
        cs.0.index == index0 && cs.0.duration == COMMAND_MS,
        (cs.0.left as int, cs.0.right as int) == steer_to_point_spec(
            heading0 as int,
            wrap_spec(bearing + 180_000),
            DIST_AWAY * DIST_AWAY,
            100,
        ),
        cs.1.index == index1 && cs.1.duration == COMMAND_MS,
        (cs.1.left as int, cs.1.right as int) == steer_to_point_spec(
            heading1 as int,
            bearing as int,
            DIST_AWAY * DIST_AWAY,
            100,
        ),
{
    let back = wrap(bearing + 180_000);
    let p0 = steer_to_point(heading0, back, DIST_AWAY * DIST_AWAY, 100);
    let p1 = steer_to_point(heading1, bearing, DIST_AWAY * DIST_AWAY, 100);
    (
        MotorCommand { index: index0, left: p0.0, right: p0.1, duration: COMMAND_MS },
        MotorCommand { index: index1, left: p1.0, right: p1.1, duration: COMMAND_MS },
    )
}

/// Resolve a wiggle request with the two midpoint bearings and the
/// sinusoid offset (the wiggle phase times the amplitude, computed by
/// the caller): robot 0 aims at its bearing plus the offset and robot 1
/// at its bearing minus the same offset, with opposite signs by
/// construction.
pub fn resolve_wiggle(
    index0: i64,
    heading0: i64,
    index1: i64,
    heading1: i64,
    bearing0: i64,
    bearing1: i64,
    offset: i64,
) -> (cs: (MotorCommand, MotorCommand))
    requires
        -MAX_ANGLE <= heading0 <= MAX_ANGLE,
        -MAX_ANGLE <= heading1 <= MAX_ANGLE,
        -180_000 <= bearing0 <= 180_000,
        -180_000 <= bearing1 <= 180_000,
        -MAX_ANGLE <= offset <= MAX_ANGLE,
    ensures
        cs.0.index == index0 && cs.0.duration == COMMAND_MS,
        (cs.0.left as int, cs.0.right as int) == steer_to_heading_spec(
            heading0 as int,
            bearing0 + offset,
        ),
        cs.1.index == index1 && cs.1.duration == COMMAND_MS,
        (cs.1.left as int, cs.1.right as int) == steer_to_heading_spec(
            heading1 as int,
            bearing1 - offset,
        ),
{
    let p0 = steer_to_heading(heading0, bearing0 + offset);
    let p1 = steer_to_heading(heading1, bearing1 - offset);
    (
        MotorCommand { index: index0, left: p0.0, right: p0.1, duration: COMMAND_MS },
        MotorCommand { index: index1, left: p1.0, right: p1.1, duration: COMMAND_MS },
    )
}

/// The get-close task that brackets the startup choreography.
pub open spec fn close_task() -> ToioTask {
    ToioTask { what: TaskType::GetClose { distance: DIST_CLOSE }, start_time: 0 }
}

/// The single get-away task of the startup choreography.
pub open spec fn away_task() -> ToioTask {
    ToioTask { what: TaskType::GetAway { distance: DIST_AWAY }, start_time: 0 }
}

/// A shifted pair-movement waypoint task of the startup choreography.
pub open spec fn shift_task(w: (i64, i64)) -> ToioTask {
    ToioTask { what: TaskType::PairMovementShift { tx: w.0, ty: w.1, distance: 15 }, start_time: 0 }
}

/// Build the startup choreography over the given ring of waypoints: a
/// get-close, then one shifted pair movement per waypoint with a single
/// get-away inserted after the first, and a final get-close.
pub fn build_choreography(waypoints: &Vec<(i64, i64)>) -> (ts: Vec<ToioTask>)
    requires
        1 <= waypoints@.len() <= 1000,
        forall|i: int|
            0 <= i < waypoints@.len() ==> -MAX_COORD <= (#[trigger] waypoints@[i]).0 <= MAX_COORD
                && -MAX_COORD <= waypoints@[i].1 <= MAX_COORD,
    ensures
        ts@.len() == waypoints@.len() + 3,
        ts@[0] == close_task(),
        ts@[1] == shift_task(waypoints@[0]),
        ts@[2] == away_task(),
        forall|i: int| 1 <= i < waypoints@.len() ==> ts@[i + 2] == shift_task(waypoints@[i]),
        ts@[waypoints@.len() as int + 2] == close_task(),
        forall|i: int| 0 <= i < ts@.len() ==> (#[trigger] ts@[i]).wf() && ts@[i].start_time == 0,
{
    let n = waypoints.len();
    let mut ts: Vec<ToioTask> = Vec::new();
    ts.push(ToioTask::new_get_close(DIST_CLOSE));
    let mut i: usize = 0;
    while i < n
        invariant
            n == waypoints@.len(),
            1 <= n <= 1000,
            forall|k: int|
                0 <= k < waypoints@.len() ==> -MAX_COORD <= (#[trigger] waypoints@[k]).0
                    <= MAX_COORD && -MAX_COORD <= waypoints@[k].1 <= MAX_COORD,
            i <= n,
            ts@[0] == close_task(),
            i == 0 ==> ts@.len() == 1,
            i >= 1 ==> ts@.len() == i + 2,
            i >= 1 ==> ts@[1] == shift_task(waypoints@[0]) && ts@[2] == away_task(),
            forall|j: int| 1 <= j < i ==> ts@[j + 2] == shift_task(waypoints@[j]),
            forall|j: int| 0 <= j < ts@.len() ==> (#[trigger] ts@[j]).wf() && ts@[j].start_time == 0,
        decreases n - i,
    {
        let w = waypoints[i];
        ts.push(ToioTask::new_pair_move_shift(w.0, w.1, 15));
        if i == 0 {
            ts.push(ToioTask::new_get_away(DIST_AWAY));
        }
        i = i + 1;
    }
    ts.push(ToioTask::new_get_close(DIST_CLOSE));
    ts
}

/// The queue never grows except by the single stay-away interrupt
/// insertion at the head, and never shrinks except by exactly its
/// completed head or by the fail-safe wipe: after any tick the queue is
/// one of exactly four shapes.
pub proof fn lemma_queue_monotonic(
    pre: Sequencer,
    post: Sequencer,
    r: TickResult,
    now: u64,
    store: PoseStore,
)
    requires
        tick_post(pre, post, r, now, store),
    ensures
        post.tasks@ == pre.tasks@ || post.tasks@ == pre.tasks@.insert(0, stay_away_task())
            || post.tasks@ == popped_and_started(pre.tasks@, now) || post.tasks@ == Seq::<
            ToioTask,
        >::empty(),
{
}

/// The stale-data fail-safe: whenever robot 0 has a pose, the queue was
/// non-empty, and the freshest pose timestamp is more than the stale
/// timeout behind `now`, the queue is empty immediately after the tick.
pub proof fn lemma_stale_fail_safe(
    pre: Sequencer,
    post: Sequencer,
    r: TickResult,
    now: u64,
    store: PoseStore,
)
    requires
        tick_post(pre, post, r, now, store),
        pre.tasks@.len() > 0,
        store.slot0 matches Some(p0) && latest_update(p0, store.slot1, store.slot2, true)
            + STALE_TIMEOUT < now,
    ensures
        post.tasks@.len() == 0,
{
}

} // verus!

