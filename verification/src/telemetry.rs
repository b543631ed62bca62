//! Telemetry ingestion: pose messages, button messages, and the store of
//! the latest known pose per tracked robot.
//!
//! A pose message carries seven integer fields
//! `[host, robotIndex, rawX, rawY, rawHeadingDeg, realX, realY]`; the raw
//! frame has its origin in a corner and its heading clockwise in degrees,
//! so ingestion recenters the position, flips the y axis, and negates the
//! heading (scaled to thousandths of a degree).  A message with any other
//! shape is dropped without touching the store.

use vstd::prelude::*;
use crate::angle::MAX_ANGLE;
use crate::task::{MAX_COORD, MAX_TIME};

verus! {

/// Raw-frame x coordinate of the arena center.
pub const CENTER_X: i64 = 250;

/// Raw-frame y coordinate of the arena center.
pub const CENTER_Y: i64 = 250;

/// Latest known pose of one robot: arena position, heading in
/// thousandths of a degree, and the timestamp of the last update.
#[derive(Clone, Copy, Debug, PartialEq, Eq, Structural)]
pub struct Pose {
    pub x: i64,
    pub y: i64,
    pub heading: i64,
    pub last_update: u64,
}

impl Pose {
    /// Fields lie within the bounds the arithmetic of the crate needs.
    pub open spec fn wf(self) -> bool {
        &&& -MAX_COORD <= self.x <= MAX_COORD
        &&& -MAX_COORD <= self.y <= MAX_COORD
        &&& -MAX_ANGLE <= self.heading <= MAX_ANGLE
        &&& self.last_update <= MAX_TIME
    }
}

/// One argument of a telemetry message: an integer, or anything else.
#[derive(Clone, Copy, Debug, PartialEq, Eq, Structural)]
pub enum TelemetryArg {
    Int(i64),
    Other,
}

/// The integer carried by an argument; zero for a non-integer.
pub open spec fn int_of(a: TelemetryArg) -> i64 {
    match a {
        TelemetryArg::Int(v) => v,
        TelemetryArg::Other => 0,
    }
}

/// A well-shaped pose message: exactly seven integer arguments.
pub open spec fn position_fields_ok(args: Seq<TelemetryArg>) -> bool {
    args.len() == 7 && (forall|i: int| 0 <= i < 7 ==> (#[trigger] args[i]) is Int)
}

/// A well-shaped button message: exactly three integer arguments.
pub open spec fn button_fields_ok(args: Seq<TelemetryArg>) -> bool {
    args.len() == 3 && (forall|i: int| 0 <= i < 3 ==> (#[trigger] args[i]) is Int)
}

/// The fields of a pose message, in raw sensor frame.
#[derive(Clone, Copy, Debug, PartialEq, Eq, Structural)]
pub struct PositionMsg {
    pub host: i64,
    pub robot_index: i64,
    pub raw_x: i64,
    pub raw_y: i64,
    pub raw_heading_deg: i64,
    pub real_x: i64,
    pub real_y: i64,
}

/// The fields of a button message; observed but not acted upon.
#[derive(Clone, Copy, Debug, PartialEq, Eq, Structural)]
pub struct ButtonMsg {
    pub host: i64,
    pub index: i64,
    pub pressed: i64,
}

/// Parse a pose message.  Returns the fields exactly when the message
/// has seven integer arguments; any other shape is rejected whole.
pub fn parse_position(args: &Vec<TelemetryArg>) -> (r: Option<PositionMsg>)
    ensures
        r is Some <==> position_fields_ok(args@),
        r matches Some(m) ==> m == (PositionMsg {
            host: int_of(args@[0]),
            robot_index: int_of(args@[1]),
            raw_x: int_of(args@[2]),
            raw_y: int_of(args@[3]),
            raw_heading_deg: int_of(args@[4]),
            real_x: int_of(args@[5]),
            real_y: int_of(args@[6]),
        }),
{
    if args.len() != 7 {
        return None;
    }
    let mut vals: Vec<i64> = Vec::new();
    let mut i: usize = 0;
    while i < 7
        invariant
            args@.len() == 7,
            0 <= i <= 7,
            vals@.len() == i,
            forall|j: int| 0 <= j < i ==> (#[trigger] args@[j]) is Int,
            forall|j: int| 0 <= j < i ==> #[trigger] vals@[j] == int_of(args@[j]),
        decreases 7 - i,
    {
        match args[i] {
            TelemetryArg::Int(v) => {
                vals.push(v);
            },
            TelemetryArg::Other => {
                return None;
            },
        }
        i = i + 1;
    }
    Some(
        PositionMsg {
            host: vals[0],
            robot_index: vals[1],
            raw_x: vals[2],
            raw_y: vals[3],
            raw_heading_deg: vals[4],
            real_x: vals[5],
            real_y: vals[6],
        },
    )
}

/// Parse a button message.  Returns the fields exactly when the message
/// has three integer arguments.
pub fn parse_button(args: &Vec<TelemetryArg>) -> (r: Option<ButtonMsg>)
    ensures
        r is Some <==> button_fields_ok(args@),
        r matches Some(m) ==> m == (ButtonMsg {
            host: int_of(args@[0]),
            index: int_of(args@[1]),
            pressed: int_of(args@[2]),
        }),
{
    if args.len() != 3 {
        return None;
    }
    let mut vals: Vec<i64> = Vec::new();
    let mut i: usize = 0;
    while i < 3
        invariant
            args@.len() == 3,
            0 <= i <= 3,
            vals@.len() == i,
            forall|j: int| 0 <= j < i ==> (#[trigger] args@[j]) is Int,
            forall|j: int| 0 <= j < i ==> #[trigger] vals@[j] == int_of(args@[j]),
        decreases 3 - i,
    {
        match args[i] {
            TelemetryArg::Int(v) => {
                vals.push(v);
            },
            TelemetryArg::Other => {
                return None;
            },
        }
        i = i + 1;
    }
    Some(ButtonMsg { host: vals[0], index: vals[1], pressed: vals[2] })
}

/// The pose a well-shaped message denotes at ingestion time: recentered
/// position, flipped y axis, negated heading in thousandths of a degree.
pub open spec fn pose_of(m: PositionMsg, now: u64) -> Pose {
    Pose {
        x: (m.raw_x - CENTER_X) as i64,
        y: (CENTER_Y - m.raw_y) as i64,
        heading: (-m.raw_heading_deg * 1000) as i64,
        last_update: now,
    }
}

/// The latest known pose per tracked robot slot (robots 0 and 1, and an
/// optional third).
#[derive(Clone, Copy, Debug, PartialEq, Eq, Structural)]
pub struct PoseStore {
    pub slot0: Option<Pose>,
    pub slot1: Option<Pose>,
    pub slot2: Option<Pose>,
}

impl PoseStore {
    /// Every stored pose lies within bounds.
    pub open spec fn wf(self) -> bool {
        &&& (self.slot0 matches Some(p) ==> p.wf())
        &&& (self.slot1 matches Some(p) ==> p.wf())
        &&& (self.slot2 matches Some(p) ==> p.wf())
    }

    /// The slot with the given index.
    pub open spec fn slot_spec(self, i: int) -> Option<Pose> {
        if i == 0 {
            self.slot0
        } else if i == 1 {
            self.slot1
        } else {
            self.slot2
        }
    }

    /// An empty store: no pose known yet.
    pub fn new() -> (s: PoseStore)
        ensures
            s == (PoseStore { slot0: None::<Pose>, slot1: None::<Pose>, slot2: None::<Pose> }),
            s.wf(),
    {
        PoseStore { slot0: None, slot1: None, slot2: None }
    }

    /// Read the slot with the given index.
    pub fn get(&self, i: usize) -> (r: Option<Pose>)
        requires
            i < 3,
        ensures
            r == self.slot_spec(i as int),
    {
        if i == 0 {
            self.slot0
        } else if i == 1 {
            self.slot1
        } else {
            self.slot2
        }
    }

    /// Ingest a well-shaped pose message: map the message's robot index
    /// through the two-slot index table and overwrite that slot with the
    /// transformed pose.  Bounds on the raw fields are the caller's
    /// obligation; out-of-range telemetry is dropped before this call.
    pub fn apply_position(&mut self, m: &PositionMsg, idx0: usize, idx1: usize, now: u64)
        requires
            old(self).wf(),
            0 <= m.robot_index < 2,
            idx0 < 3,
            idx1 < 3,
            CENTER_X - MAX_COORD <= m.raw_x <= CENTER_X + MAX_COORD,
            CENTER_Y - MAX_COORD <= m.raw_y <= CENTER_Y + MAX_COORD,
            -0x8000_0000 <= m.raw_heading_deg <= 0x8000_0000,
            now <= MAX_TIME,
        ensures
            final(self).wf(),
            ({
                let slot = if m.robot_index == 0 {
                    idx0 as int
                } else {
                    idx1 as int
                };
                &&& final(self).slot_spec(slot) == Some(pose_of(*m, now))
                &&& forall|i: int|
                    0 <= i < 3 && i != slot ==> final(self).slot_spec(i) == old(self).slot_spec(i)
            }),
    {
        let slot: usize = if m.robot_index == 0 {
            idx0
        } else {
            idx1
        };
        let p = Pose {
            x: m.raw_x - CENTER_X,
            y: CENTER_Y - m.raw_y,
            heading: -m.raw_heading_deg * 1000,
            last_update: now,
        };
        if slot == 0 {
            self.slot0 = Some(p);
        } else if slot == 1 {
            self.slot1 = Some(p);
        } else {
            self.slot2 = Some(p);
        }
    }
}

} // verus!
