//! Keyboard-driven movement of the circle.
//!
//! The circle's position is stored in micro-units (one unit of screen
//! space is `MICROS_PER_UNIT` micro-units) and elapsed time arrives in
//! microseconds, so each step's displacement is an exact integer:
//! a key held for `dt` microseconds moves its axis by exactly
//! `MOVE_SPEED * dt` micro-units.

use vstd::prelude::*;

verus! {

/// Units of screen space the circle travels per second while one key is held.
pub const MOVE_SPEED: i64 = 100;

/// Micro-units in one unit of screen space; also microseconds in one second.
pub const MICROS_PER_UNIT: i64 = 1_000_000;

/// Which of the four directional keys are held during a step.
#[derive(Clone, Copy, PartialEq, Eq, Structural, Debug)]
pub struct Keys {
    pub w: bool,
    pub a: bool,
    pub s: bool,
    pub d: bool,
}

/// The circle's position, in micro-units on each screen axis.
#[derive(Clone, Copy, PartialEq, Eq, Structural, Debug)]
pub struct Offset {
    pub x: i64,
    pub y: i64,
}

impl Keys {
    /// The state with no key held; a missing input device reads as this.
    pub fn released() -> (k: Keys)
        ensures
            k == (Keys { w: false, a: false, s: false, d: false }),
    {
        Keys { w: false, a: false, s: false, d: false }
    }
}

impl Offset {
    /// The circle starts at the origin.
    pub fn origin() -> (o: Offset)
        ensures
            o == (Offset { x: 0, y: 0 }),
    {
        Offset { x: 0, y: 0 }
    }
}

/// Displacement in micro-units that one held key contributes during a
/// step lasting `dt_micros` microseconds.
pub open spec fn key_delta(dt_micros: u64) -> int {
    (MOVE_SPEED as int) * (dt_micros as int)
}

/// The x coordinate after one step: D pushes right, A pushes left,
/// and holding both composes additively.
pub open spec fn x_after(o: Offset, k: Keys, dt_micros: u64) -> int {
    o.x + (if k.d {
        key_delta(dt_micros)
    } else {
        0
    }) - (if k.a {
        key_delta(dt_micros)
    } else {
        0
    })
}

/// The y coordinate after one step: S pushes down (positive y),
/// W pushes up (negative y), and holding both composes additively.
pub open spec fn y_after(o: Offset, k: Keys, dt_micros: u64) -> int {
    o.y + (if k.s {
        key_delta(dt_micros)
    } else {
        0
    }) - (if k.w {
        key_delta(dt_micros)
    } else {
        0
    })
}

/// Both axes stay within `i64` whichever keys are held during the step.
pub open spec fn step_in_bounds(o: Offset, dt_micros: u64) -> bool {
    &&& o.x - key_delta(dt_micros) >= i64::MIN
    &&& o.x + key_delta(dt_micros) <= i64::MAX
    &&& o.y - key_delta(dt_micros) >= i64::MIN
    &&& o.y + key_delta(dt_micros) <= i64::MAX
}

/// The exact displacement of one held key over `dt_micros` microseconds.
fn step_delta(dt_micros: u64) -> (d: i64)
    requires
        key_delta(dt_micros) <= i64::MAX,
    ensures
        d == key_delta(dt_micros),
{
    (MOVE_SPEED as u64 * dt_micros) as i64
}

/// One input step. Every held key adds `MOVE_SPEED` units per second,
/// scaled by the elapsed time, to its axis: W decreases y, S increases
/// y, A decreases x, D increases x. Held keys compose additively, so
/// the new offset is the old one plus the vector sum of the per-key
/// displacements, and holding no key leaves the offset unchanged.
pub fn update(offset: &mut Offset, keys: Keys, dt_micros: u64)
    requires
        step_in_bounds(*old(offset), dt_micros),
    ensures
        final(offset).x == x_after(*old(offset), keys, dt_micros),
        final(offset).y == y_after(*old(offset), keys, dt_micros),
{
    let delta = step_delta(dt_micros);
    if keys.w {
        offset.y = offset.y - delta;
    }
    if keys.a {
        offset.x = offset.x - delta;
    }
    if keys.s {
        offset.y = offset.y + delta;
    }
    if keys.d {
        offset.x = offset.x + delta;
    }
}

/// Holding no key leaves the offset unchanged: with every key up, one
/// step moves neither axis, whatever the elapsed time.
pub proof fn lemma_no_keys_leave_offset(o: Offset, k: Keys, dt_micros: u64)
    requires
        !k.w,
        !k.a,
        !k.s,
        !k.d,
    ensures
        x_after(o, k, dt_micros) == o.x,
        y_after(o, k, dt_micros) == o.y,
{
}

/// Opposing vertical keys cancel exactly: with W and S both held, one
/// step leaves the y coordinate unchanged, whatever the elapsed time.
pub proof fn lemma_opposing_keys_cancel(o: Offset, k: Keys, dt_micros: u64)
    requires
        k.w,
        k.s,
    ensures
        y_after(o, k, dt_micros) == o.y,
{
}

/// Diagonal movement is not normalized: with W and A both held, each
/// axis moves by the full displacement of that key held alone, so the
/// squared distance travelled in one step is twice the square of a
/// single key's displacement rather than the square itself.
pub proof fn lemma_diagonal_not_normalized(o: Offset, dt_micros: u64)
    ensures
        ({
            let both = Keys { w: true, a: true, s: false, d: false };
            let only_w = Keys { w: true, a: false, s: false, d: false };
            let only_a = Keys { w: false, a: true, s: false, d: false };
            let dx = x_after(o, both, dt_micros) - o.x;
            let dy = y_after(o, both, dt_micros) - o.y;
            &&& dx == x_after(o, only_a, dt_micros) - o.x
            &&& dy == y_after(o, only_w, dt_micros) - o.y
            &&& dx * dx + dy * dy == 2 * key_delta(dt_micros) * key_delta(dt_micros)
        }),
{
    let both = Keys { w: true, a: true, s: false, d: false };
    let kd = key_delta(dt_micros);
    let dx = x_after(o, both, dt_micros) - o.x;
    let dy = y_after(o, both, dt_micros) - o.y;
    assert(dx == -kd);
    assert(dy == -kd);
    assert(dx * dx + dy * dy == 2 * kd * kd) by (nonlinear_arith)
        requires
            dx == -kd,
            dy == -kd,
    ;
}

} // verus!
