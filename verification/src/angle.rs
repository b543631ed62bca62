//! Angles in thousandths of a degree, wrapped to the half-open interval
//! (-180 000, 180 000], i.e. (-pi, pi] in radians.

use vstd::prelude::*;
use vstd::arithmetic::div_mod::{
    lemma_fundamental_div_mod, lemma_mod_multiples_vanish, lemma_small_mod,
};

verus! {

/// One half turn: 180 degrees in thousandths of a degree.
pub const HALF_TURN: i64 = 180_000;

/// One full turn: 360 degrees in thousandths of a degree.
pub const FULL_TURN: i64 = 360_000;

/// Largest angle magnitude the controllers accept; generous enough for any
/// heading a telemetry message can carry.
pub const MAX_ANGLE: i64 = 0x1_0000_0000_0000;

/// Bound on raw inputs to `wrap`, wide enough for any sum or difference
/// of two in-range angles.
pub const MAX_WRAP_INPUT: i64 = 0x4000_0000_0000_0000;

/// The canonical representative of `a` modulo a full turn, chosen in
/// (-180 000, 180 000].
pub open spec fn wrap_spec(a: int) -> int {
    ((a + 179_999) % 360_000) - 179_999
}

/// The wrapped angle lies in (-180 000, 180 000] and differs from the
/// argument by a whole number of turns.
pub proof fn lemma_wrap_range(a: int)
    ensures
        -180_000 < wrap_spec(a) <= 180_000,
        (a - wrap_spec(a)) % 360_000 == 0,
{
    let q = (a + 179_999) / 360_000;
    lemma_fundamental_div_mod(a + 179_999, 360_000);
    assert(a - wrap_spec(a) == 360_000 * q);
    lemma_mod_multiples_vanish(q, 0, 360_000);
}

/// Adding any whole number of turns does not change the wrapped angle.
pub proof fn lemma_wrap_periodic(a: int, k: int)
    ensures
        wrap_spec(a + 360_000 * k) == wrap_spec(a),
{
    lemma_mod_multiples_vanish(k, a + 179_999, 360_000);
}

/// An angle already in (-180 000, 180 000] is its own wrapped form.
pub proof fn lemma_wrap_identity(a: int)
    requires
        -180_000 < a <= 180_000,
    ensures
        wrap_spec(a) == a,
{
    lemma_small_mod((a + 179_999) as nat, 360_000nat);
}

/// Repeatedly add or subtract a full turn until the angle lies in
/// (-180 000, 180 000].
pub fn wrap(a: i64) -> (r: i64)
    requires
        -MAX_WRAP_INPUT <= a <= MAX_WRAP_INPUT,
    ensures
        r == wrap_spec(a as int),
        -180_000 < r <= 180_000,
{
    let mut v: i64 = a;
    while v <= -180_000
        invariant
            -MAX_WRAP_INPUT <= v <= MAX_WRAP_INPUT,
            wrap_spec(v as int) == wrap_spec(a as int),
        decreases 180_000 - v,
    {
        proof {
            lemma_wrap_periodic(v as int, 1);
        }
        v = v + 360_000;
    }
    while v > 180_000
        invariant
            -180_000 < v <= MAX_WRAP_INPUT,
            wrap_spec(v as int) == wrap_spec(a as int),
        decreases v + 180_000,
    {
        proof {
            lemma_wrap_periodic((v - 360_000) as int, 1);
        }
        v = v - 360_000;
    }
    proof {
        lemma_wrap_identity(v as int);
    }
    v
}

} // verus!
