//! Numeric ranges shared by the whole simulation, and the small clamped
//! helpers that keep every tick free of overflow.

use vstd::prelude::*;

verus! {

/// One full deflection of the horizontal input axis: intents are expressed
/// in thousandths, so an axis value of `AXIS_UNIT` means "fully right".
pub const AXIS_UNIT: i64 = 1000;

/// Upper bound on every per-character tunable magnitude (speeds, gravity
/// scales, jump boosts, knockback components, damage per hit).
pub const TUNABLE_LIMIT: i64 = 1_000_000_000_000;

/// Upper bound on every accumulated runtime magnitude: velocity components
/// handed in by the physics engine, pending knockback, damage accumulators
/// and airborne clocks. Accumulators are clamped here rather than allowed
/// to fail, so a defect can never stop the simulation.
pub const STATE_LIMIT: i64 = 1_000_000_000_000_000;

/// Mathematical clamp of `v` into `[lo, hi]`.
pub open spec fn clamp_spec(v: int, lo: int, hi: int) -> int {
    if v < lo {
        lo
    } else if v > hi {
        hi
    } else {
        v
    }
}

/// Clamp into the accumulator range `[-STATE_LIMIT, STATE_LIMIT]`.
pub open spec fn clamp_state(v: int) -> int {
    clamp_spec(v, -STATE_LIMIT as int, STATE_LIMIT as int)
}

/// The sign of `v` as `-1`, `0` or `1`.
pub open spec fn sign_spec(v: int) -> int {
    if v > 0 {
        1
    } else if v < 0 {
        -1
    } else {
        0
    }
}

/// Clamp `v` into `[lo, hi]`.
pub fn clamp_i64(v: i64, lo: i64, hi: i64) -> (r: i64)
    requires
        lo <= hi,
    ensures
        r == clamp_spec(v as int, lo as int, hi as int),
{
    if v < lo {
        lo
    } else if v > hi {
        hi
    } else {
        v
    }
}

/// The sign of `v` as `-1`, `0` or `1`.
pub fn sign_i64(v: i64) -> (r: i64)
    ensures
        r == sign_spec(v as int),
{
    if v > 0 {
        1
    } else if v < 0 {
        -1
    } else {
        0
    }
}

/// Add `b` into the accumulator `a`, clamping the result into the
/// accumulator range instead of overflowing.
pub fn accumulate(a: i64, b: i64) -> (r: i64)
    requires
        -STATE_LIMIT <= a <= STATE_LIMIT,
        -TUNABLE_LIMIT <= b <= TUNABLE_LIMIT,
    ensures
        r == clamp_state(a + b),
{
    let s: i64 = a + b;
    clamp_i64(s, -STATE_LIMIT, STATE_LIMIT)
}

/// Linear membership scan over a list of body identifiers.
pub fn contains_id(ids: &Vec<u64>, id: u64) -> (r: bool)
    ensures
        r == ids@.contains(id),
{
    let mut i: usize = 0;
    while i < ids.len()
        invariant
            0 <= i <= ids@.len(),
            forall|k: int| 0 <= k < i ==> ids@[k] != id,
        decreases ids@.len() - i,
    {
        if ids[i] == id {
            return true;
        }
        i = i + 1;
    }
    false
}

} // verus!
