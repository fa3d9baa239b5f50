//! The entity motion model: bounded one-dimensional movement with a bounce.
//!
//! An entity moves along the horizontal axis by a signed velocity each frame.
//! The new position is clamped to the screen interval `[0, max]`, and when the
//! clamped position lands exactly on either bound the velocity is negated for
//! the frames that follow (clamp-then-check: the reflection is detected on the
//! frame that reaches the bound, never pre-emptively, and clamping ensures a
//! bound is hit exactly even when the velocity's magnitude exceeds one).

use vstd::prelude::*;

verus! {

/// `x` forced into the interval `[lo, hi]`.
pub open spec fn spec_clamp(x: int, lo: int, hi: int) -> int {
    if x < lo {
        lo
    } else if x > hi {
        hi
    } else {
        x
    }
}

/// One frame of the bouncing motion: the next position and the velocity to
/// use on subsequent frames.
pub open spec fn spec_motion_step(x: int, v: int, max: int) -> (int, int) {
    let nx = spec_clamp(x + v, 0, max);
    let nv = if nx == 0 || nx == max {
        -v
    } else {
        v
    };
    (nx, nv)
}

/// The motion step applied `n` times in a row.
pub open spec fn spec_motion_iter(x: int, v: int, max: int, n: nat) -> (int, int)
    decreases n,
{
    if n == 0 {
        (x, v)
    } else {
        let s = spec_motion_step(x, v, max);
        spec_motion_iter(s.0, s.1, max, (n - 1) as nat)
    }
}

/// `x` forced into the interval `[lo, hi]`.
pub fn clamp(x: i32, lo: i32, hi: i32) -> (r: i32)
    requires
        lo <= hi,
    ensures
        r == spec_clamp(x as int, lo as int, hi as int),
{
    if x < lo {
        lo
    } else if x > hi {
        hi
    } else {
        x
    }
}

/// One frame of the bouncing motion over machine integers: returns the next
/// position and the velocity for subsequent frames.
pub fn motion_step(x: i32, v: i32, max: i32) -> (r: (i32, i32))
    requires
        0 <= max,
        v != i32::MIN,
    ensures
        r.0 == spec_motion_step(x as int, v as int, max as int).0,
        r.1 == spec_motion_step(x as int, v as int, max as int).1,
        0 <= r.0 <= max,
        r.1 != i32::MIN,
{
    let sum: i64 = (x as i64) + (v as i64);
    let nx: i32 = if sum < 0 {
        0
    } else if sum > max as i64 {
        max
    } else {
        sum as i32
    };
    let nv: i32 = if nx == 0 || nx == max {
        -v
    } else {
        v
    };
    (nx, nv)
}

/// Boundary safety: from any position inside `[0, max]`, one clamped move by
/// any non-zero velocity stays inside `[0, max]`.
pub proof fn lemma_clamp_stays_in_bounds(x: int, v: int, max: int)
    requires
        0 <= x <= max,
        v != 0,
    ensures
        0 <= spec_clamp(x + v, 0, max) <= max,
{
}

/// The motion step keeps any position inside `[0, max]` and never produces
/// the one unrepresentable negated velocity.
pub proof fn lemma_motion_step_in_bounds(x: int, v: int, max: int)
    requires
        0 <= max,
        i32::MIN < v <= i32::MAX,
    ensures
        0 <= spec_motion_step(x, v, max).0 <= max,
        i32::MIN < spec_motion_step(x, v, max).1 <= i32::MAX,
{
}

/// The entity invariant over a whole run: starting anywhere inside
/// `[0, max]`, the position is still inside `[0, max]` after any number of
/// frames, whatever the velocity.
pub proof fn lemma_motion_iter_in_bounds(x: int, v: int, max: int, n: nat)
    requires
        0 <= x <= max,
    ensures
        0 <= spec_motion_iter(x, v, max, n).0 <= max,
    decreases n,
{
    if n > 0 {
        let s = spec_motion_step(x, v, max);
        lemma_motion_iter_in_bounds(s.0, s.1, max, (n - 1) as nat);
    }
}

/// A velocity whose magnitude exceeds the distance to a wall cannot mask the
/// hit: clamping lands the position exactly on the wall and the velocity
/// reflects.
pub proof fn lemma_fast_velocity_never_masks_edge(x: int, v: int, max: int)
    requires
        0 <= x <= max,
    ensures
        x + v > max ==> spec_motion_step(x, v, max) == (max, -v),
        x + v < 0 ==> spec_motion_step(x, v, max) == (0int, -v),
{
}

/// Marching right at one pixel per frame from anywhere left of the right
/// wall reaches the wall in exactly `max - x` frames, with the velocity
/// negated on the frame that arrives there.
pub proof fn lemma_march_to_right_edge(x: int, max: int)
    requires
        0 <= x < max,
    ensures
        spec_motion_iter(x, 1, max, (max - x) as nat) == (max, -1int),
    decreases max - x,
{
    let stepped = spec_motion_step(x, 1, max);
    if x + 1 == max {
        assert(stepped == (max, -1int));
        assert(spec_motion_iter(max, -1, max, 0nat) == (max, -1int));
    } else {
        assert(stepped == (x + 1, 1int));
        lemma_march_to_right_edge(x + 1, max);
    }
}

/// The frame after the right wall is reached moves back inside: from the
/// wall with the reflected velocity, the position strictly decreases.
pub proof fn lemma_step_off_right_edge(max: int)
    requires
        1 <= max,
    ensures
        spec_motion_step(max, -1, max).0 == max - 1,
        spec_motion_step(max, -1, max).0 < max,
{
}

/// No double reflection on the same frame: at the left wall with an inward
/// velocity still pointing out of the screen, the next step clamps the
/// position to the wall and flips the velocity once, so the following frame
/// moves back inside.
pub proof fn lemma_reflect_at_left_edge(v: int, max: int)
    requires
        0 <= max,
        v < 0,
    ensures
        spec_motion_step(0, v, max) == (0int, -v),
{
}

} // verus!
