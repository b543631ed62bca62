//! The steering controllers: pure functions from the current pose and a
//! target to a differential wheel-power pair `(left, right)`.
//!
//! A controller receives the robot's heading together with the bearing of
//! the target, both in thousandths of a degree, and for point targets the
//! squared distance to the target.  The angular error is the wrapped
//! difference `bearing - heading`; power pairs are selected piecewise by
//! its magnitude, with breakpoints at fixed fractions of a half turn
//! (36 000 = 0.2 pi, 90 000 = 0.5 pi, 144 000 = 0.8 pi), all exact in
//! these units.

use vstd::prelude::*;
use vstd::math::{abs, min};
use crate::angle::{wrap, wrap_spec, MAX_ANGLE};

verus! {

/// Forward controller with base magnitude 20 and a caller-chosen dead
/// zone, given as a squared distance.
///
/// Outside the dead zone the power pair is piecewise in the angular
/// error `e`:
/// - `|e| <= 0.2 pi`: forward-biased, one side scaled down linearly;
/// - `0.2 pi < |e| <= 0.5 pi`: in-place rotation at full magnitude;
/// - `0.5 pi < |e| < 0.8 pi`: in-place rotation, inverted sign pair;
/// - `|e| >= 0.8 pi`: reverse-biased turn, one side scaled linearly as
///   the error approaches a half turn.
pub open spec fn steer_to_point_spec(heading: int, bearing: int, dist_sq: int, dead_sq: int) -> (
    int,
    int,
) {
    let e = wrap_spec(bearing - heading);
    if dist_sq <= dead_sq {
        (0, 0)
    } else if abs(e) > 90_000 {
        if abs(e) < 144_000 {
            if e > 0 {
                (20, -20)
            } else {
                (-20, 20)
            }
        } else {
            let ds = 20 - 20 * (180_000 - abs(e)) / 36_000;
            if e > 0 {
                (-ds, -20)
            } else {
                (-20, -ds)
            }
        }
    } else if abs(e) > 36_000 {
        if e > 0 {
            (-20, 20)
        } else {
            (20, -20)
        }
    } else {
        let ds = 20 - 20 * abs(e) / 36_000;
        if e > 0 {
            (ds, 20)
        } else {
            (20, ds)
        }
    }
}

/// Heading-only controller: power grows linearly with the angular error,
/// from 2 at zero error up to 92 at a half turn; it has no dead zone.
pub open spec fn steer_to_heading_spec(heading: int, target: int) -> (int, int) {
    let e = wrap_spec(target - heading);
    let d = abs(e) as int / 2_000 + 2;
    if e > 0 {
        (-d, d)
    } else {
        (d, -d)
    }
}

/// Forward controller used for general point targets (dead zone given by
/// the caller; the task dispatcher uses 10 units, squared).
pub fn steer_to_point(heading: i64, bearing: i64, dist_sq: i64, dead_sq: i64) -> (p: (i64, i64))
    requires
        -MAX_ANGLE <= heading <= MAX_ANGLE,
        -MAX_ANGLE <= bearing <= MAX_ANGLE,
        0 <= dist_sq,
        0 <= dead_sq,
    ensures
        (p.0 as int, p.1 as int) == steer_to_point_spec(
            heading as int,
            bearing as int,
            dist_sq as int,
            dead_sq as int,
        ),
        -20 <= p.0 <= 20,
        -20 <= p.1 <= 20,
        dist_sq <= dead_sq ==> p == (0i64, 0i64),
{
    let e = wrap(bearing - heading);
    let ae: i64 = if e < 0 {
        -e
    } else {
        e
    };
    if dist_sq <= dead_sq {
        (0, 0)
    } else if ae > 90_000 {
        if ae < 144_000 {
            if e > 0 {
                (20, -20)
            } else {
                (-20, 20)
            }
        } else {
            let ds: i64 = 20 - ((20 * (180_000 - ae) as u64) / 36_000) as i64;
            if e > 0 {
                (-ds, -20)
            } else {
                (-20, -ds)
            }
        }
    } else if ae > 36_000 {
        if e > 0 {
            (-20, 20)
        } else {
            (20, -20)
        }
    } else {
        let ds: i64 = 20 - ((20 * ae as u64) / 36_000) as i64;
        if e > 0 {
            (ds, 20)
        } else {
            (20, ds)
        }
    }
}

/// `r` is the floor of the square root of `n`.
pub open spec fn is_sqrt_floor(n: int, r: int) -> bool {
    0 <= r && r * r <= n && n < (r + 1) * (r + 1)
}

/// The floor of the square root of a non-negative integer.
pub open spec fn sqrt_floor(n: int) -> int {
    choose|r: int| is_sqrt_floor(n, r)
}

/// The floor of the square root is unique.
pub proof fn lemma_sqrt_floor_unique(n: int, r1: int, r2: int)
    requires
        is_sqrt_floor(n, r1),
        is_sqrt_floor(n, r2),
    ensures
        r1 == r2,
{
    if r1 < r2 {
        assert((r1 + 1) * (r1 + 1) <= r2 * r2) by (nonlinear_arith)
            requires
                0 <= r1,
                r1 + 1 <= r2,
        ;
    }
    if r2 < r1 {
        assert((r2 + 1) * (r2 + 1) <= r1 * r1) by (nonlinear_arith)
            requires
                0 <= r2,
                r2 + 1 <= r1,
        ;
    }
}

/// Floor of the square root, by binary search.
pub fn isqrt(n: u64) -> (r: u64)
    requires
        n < 0x10_0000_0000_0000,
    ensures
        r == sqrt_floor(n as int),
        r * r <= n,
        n < (r + 1) * (r + 1),
{
    let mut lo: u64 = 0;
    let mut hi: u64 = 0x400_0000;
    proof {
        assert((0x400_0000int) * 0x400_0000 == 0x10_0000_0000_0000) by (nonlinear_arith);
    }
    while lo + 1 < hi
        invariant
            lo < hi <= 0x400_0000,
            lo * lo <= n,
            (n as int) < (hi as int) * (hi as int),
        decreases hi - lo,
    {
        let mid: u64 = lo + (hi - lo) / 2;
        proof {
            assert((mid as int) * (mid as int) < 0x10_0000_0000_0000) by (nonlinear_arith)
                requires
                    0 <= mid < 0x400_0000,
            ;
        }
        if mid * mid <= n {
            lo = mid;
        } else {
            hi = mid;
        }
    }
    proof {
        assert(is_sqrt_floor(n as int, lo as int));
        let w = choose|q: int| is_sqrt_floor(n as int, q);
        lemma_sqrt_floor_unique(n as int, w, lo as int);
    }
    lo
}

/// Forward controller with a 15-unit dead zone and no wide-error branch:
/// any error above 0.2 pi rotates in place.
pub open spec fn steer_to_point_stable_spec(heading: int, bearing: int, dist_sq: int) -> (
    int,
    int,
) {
    let e = wrap_spec(bearing - heading);
    if dist_sq <= 225 {
        (0, 0)
    } else if abs(e) > 36_000 {
        if e > 0 {
            (-20, 20)
        } else {
            (20, -20)
        }
    } else {
        let ds = 20 - 20 * abs(e) / 36_000;
        if e > 0 {
            (ds, 20)
        } else {
            (20, ds)
        }
    }
}

/// Forward controller variant with a 15-unit dead zone; any error above
/// 0.2 pi rotates in place at full magnitude.
pub fn steer_to_point_stable(heading: i64, bearing: i64, dist_sq: i64) -> (p: (i64, i64))
    requires
        -MAX_ANGLE <= heading <= MAX_ANGLE,
        -MAX_ANGLE <= bearing <= MAX_ANGLE,
        0 <= dist_sq,
    ensures
        (p.0 as int, p.1 as int) == steer_to_point_stable_spec(
            heading as int,
            bearing as int,
            dist_sq as int,
        ),
        -20 <= p.0 <= 20,
        -20 <= p.1 <= 20,
        dist_sq <= 225 ==> p == (0i64, 0i64),
{
    let e = wrap(bearing - heading);
    let ae: i64 = if e < 0 {
        -e
    } else {
        e
    };
    if dist_sq <= 225 {
        (0, 0)
    } else if ae > 36_000 {
        if e > 0 {
            (-20, 20)
        } else {
            (20, -20)
        }
    } else {
        let ds: i64 = 20 - ((20 * ae as u64) / 36_000) as i64;
        if e > 0 {
            (ds, 20)
        } else {
            (20, ds)
        }
    }
}

/// Forward controller whose base magnitude grows with the distance to the
/// target: 10 plus half the distance, capped at 60 in total.
pub open spec fn steer_to_point_scaled_spec(heading: int, bearing: int, dist_sq: int) -> (
    int,
    int,
) {
    let e = wrap_spec(bearing - heading);
    let scale = 10 + min(sqrt_floor(dist_sq) / 2, 50);
    if dist_sq <= 225 {
        (0, 0)
    } else if abs(e) > 36_000 {
        if e > 0 {
            (-20, 20)
        } else {
            (20, -20)
        }
    } else {
        let ds = scale - scale * abs(e) / 36_000;
        if e > 0 {
            (ds, scale)
        } else {
            (scale, ds)
        }
    }
}

/// Forward controller variant whose forward power scales with distance,
/// up to 60; the in-place branch stays at magnitude 20.
pub fn steer_to_point_scaled(heading: i64, bearing: i64, dist_sq: i64) -> (p: (i64, i64))
    requires
        -MAX_ANGLE <= heading <= MAX_ANGLE,
        -MAX_ANGLE <= bearing <= MAX_ANGLE,
        0 <= dist_sq < 0x10_0000_0000_0000,
    ensures
        (p.0 as int, p.1 as int) == steer_to_point_scaled_spec(
            heading as int,
            bearing as int,
            dist_sq as int,
        ),
        -20 <= p.0 <= 60,
        -20 <= p.1 <= 60,
        dist_sq <= 225 ==> p == (0i64, 0i64),
{
    let s = isqrt(dist_sq as u64);
    let half: u64 = s / 2;
    let scale: i64 = 10 + (if half > 50 {
        50
    } else {
        half as i64
    });
    let e = wrap(bearing - heading);
    let ae: i64 = if e < 0 {
        -e
    } else {
        e
    };
    if dist_sq <= 225 {
        (0, 0)
    } else if ae > 36_000 {
        if e > 0 {
            (-20, 20)
        } else {
            (20, -20)
        }
    } else {
        proof {
            let sc = scale as int;
            let a = ae as int;
            assert(0 <= sc * a <= sc * 36_000) by (nonlinear_arith)
                requires
                    0 <= a <= 36_000,
                    0 <= sc,
            ;
            assert(sc * 36_000 / 36_000 == sc) by (nonlinear_arith);
            vstd::arithmetic::div_mod::lemma_div_is_ordered(sc * a, sc * 36_000, 36_000);
        }
        let ds: i64 = scale - ((scale as u64 * ae as u64) / 36_000) as i64;
        if e > 0 {
            (ds, scale)
        } else {
            (scale, ds)
        }
    }
}

/// Reverse-driving controller: a 13-unit dead zone, in-place rotation
/// above 0.2 pi, and below it a reverse-biased pair whose free side is
/// scaled by the error.
pub open spec fn steer_back_spec(heading: int, bearing: int, dist_sq: int) -> (int, int) {
    let e = wrap_spec(bearing - heading);
    if dist_sq <= 169 {
        (0, 0)
    } else if abs(e) > 36_000 {
        if e > 0 {
            (-20, 20)
        } else {
            (20, -20)
        }
    } else {
        let ds = 20 - 20 * abs(e) / 36_000;
        if e < 0 {
            (-ds, -20)
        } else {
            (-20, -ds)
        }
    }
}

/// Reverse-driving controller variant.
pub fn steer_back(heading: i64, bearing: i64, dist_sq: i64) -> (p: (i64, i64))
    requires
        -MAX_ANGLE <= heading <= MAX_ANGLE,
        -MAX_ANGLE <= bearing <= MAX_ANGLE,
        0 <= dist_sq,
    ensures
        (p.0 as int, p.1 as int) == steer_back_spec(heading as int, bearing as int, dist_sq as int),
        -20 <= p.0 <= 20,
        -20 <= p.1 <= 20,
        dist_sq <= 169 ==> p == (0i64, 0i64),
{
    let e = wrap(bearing - heading);
    let ae: i64 = if e < 0 {
        -e
    } else {
        e
    };
    if dist_sq <= 169 {
        (0, 0)
    } else if ae > 36_000 {
        if e > 0 {
            (-20, 20)
        } else {
            (20, -20)
        }
    } else {
        let ds: i64 = 20 - ((20 * ae as u64) / 36_000) as i64;
        if e < 0 {
            (-ds, -20)
        } else {
            (-20, -ds)
        }
    }
}

/// Rotation-only controller with an angular dead zone of 0.15 pi: it
/// turns in place toward the target bearing and stops inside the zone.
pub open spec fn face_target_spec(heading: int, bearing: int) -> (int, int) {
    let e = wrap_spec(bearing - heading);
    if abs(e) > 27_000 {
        if e > 0 {
            (-20, 20)
        } else {
            (20, -20)
        }
    } else {
        (0, 0)
    }
}

/// Rotation-only controller with an angular dead zone.
pub fn face_target(heading: i64, bearing: i64) -> (p: (i64, i64))
    requires
        -MAX_ANGLE <= heading <= MAX_ANGLE,
        -MAX_ANGLE <= bearing <= MAX_ANGLE,
    ensures
        (p.0 as int, p.1 as int) == face_target_spec(heading as int, bearing as int),
        -20 <= p.0 <= 20,
        -20 <= p.1 <= 20,
{
    let e = wrap(bearing - heading);
    let ae: i64 = if e < 0 {
        -e
    } else {
        e
    };
    if ae > 27_000 {
        if e > 0 {
            (-20, 20)
        } else {
            (20, -20)
        }
    } else {
        (0, 0)
    }
}

/// Heading-only controller used by the angle-target and wiggle tasks.
pub fn steer_to_heading(heading: i64, target: i64) -> (p: (i64, i64))
    requires
        -MAX_ANGLE <= heading <= MAX_ANGLE,
        -2 * MAX_ANGLE <= target <= 2 * MAX_ANGLE,
    ensures
        (p.0 as int, p.1 as int) == steer_to_heading_spec(heading as int, target as int),
        -92 <= p.0 <= 92,
        -92 <= p.1 <= 92,
        p.0 == -p.1 || p.1 == -p.0,
{
    let e = wrap(target - heading);
    let ae: i64 = if e < 0 {
        -e
    } else {
        e
    };
    let d: i64 = (ae as u64 / 2_000) as i64 + 2;
    if e > 0 {
        (-d, d)
    } else {
        (d, -d)
    }
}

} // verus!
