//! Per-tick input intent.
//!
//! The device boundary hands in a raw snapshot (held movement keys, a fire
//! edge, pointer-motion samples); this module distills it into the intent
//! record the rest of the tick consumes. Movement and fire are reset at the
//! start of every tick; the aim delta accumulates across ticks until the
//! player controller consumes it.

use vstd::prelude::*;

use crate::math::{sat64, sat_add, Vec2I};

verus! {

/// The per-tick intent record: movement intent per axis in `{-1, 0, 1}`,
/// the accumulated pointer delta since it was last consumed, and whether a
/// fire edge occurred this tick.
#[derive(Clone, Copy, PartialEq, Eq, Structural, Debug)]
pub struct InputData {
    pub movement: Vec2I,
    pub aim_movement: Vec2I,
    pub fire: bool,
}

impl InputData {
    pub open spec fn wf(self) -> bool {
        &&& -1 <= self.movement.x <= 1
        &&& -1 <= self.movement.y <= 1
    }

    pub fn new() -> (i: InputData)
        ensures
            i == InputData::spec_new(),
            i.wf(),
    {
        InputData {
            movement: Vec2I { x: 0, y: 0 },
            aim_movement: Vec2I { x: 0, y: 0 },
            fire: false,
        }
    }

    pub open spec fn spec_new() -> InputData {
        InputData {
            movement: Vec2I { x: 0, y: 0 },
            aim_movement: Vec2I { x: 0, y: 0 },
            fire: false,
        }
    }
}

/// One tick's raw device snapshot: level state of the four movement keys,
/// whether a fire edge was seen since the last poll, and every pointer
/// motion sample since the last poll, in arrival order.
pub struct RawInput {
    pub forward: bool,
    pub back: bool,
    pub left: bool,
    pub right: bool,
    pub fire: bool,
    pub aim_samples: Vec<Vec2I>,
}

/// The movement intent a snapshot distills to. Each axis is set, not
/// summed: on the vertical axis back overrides forward, on the horizontal
/// axis right overrides left, because the later check overwrites the axis.
pub open spec fn spec_movement(raw: RawInput) -> Vec2I {
    Vec2I {
        x: if raw.right {
            1i64
        } else if raw.left {
            -1i64
        } else {
            0i64
        },
        y: if raw.back {
            -1i64
        } else if raw.forward {
            1i64
        } else {
            0i64
        },
    }
}

/// The aim delta after folding a prefix of `samples` (saturating per axis)
/// into `acc`.
pub open spec fn spec_accumulate(acc: Vec2I, samples: Seq<Vec2I>, n: int) -> Vec2I
    recommends
        0 <= n <= samples.len(),
    decreases n,
{
    if n <= 0 {
        acc
    } else {
        let prev = spec_accumulate(acc, samples, n - 1);
        Vec2I {
            x: sat64(prev.x + samples[n - 1].x) as i64,
            y: sat64(prev.y + samples[n - 1].y) as i64,
        }
    }
}

/// Fold this tick's pointer-motion samples into the accumulated aim delta.
/// Nothing else of the intent record changes; in particular the delta is
/// not reset here, only where it is consumed.
pub fn mouse_motion(input: &mut InputData, samples: &Vec<Vec2I>)
    ensures
        final(input).aim_movement == spec_accumulate(
            old(input).aim_movement,
            samples@,
            samples@.len() as int,
        ),
        final(input).movement == old(input).movement,
        final(input).fire == old(input).fire,
{
    let n = samples.len();
    let mut i: usize = 0;
    while i < n
        invariant
            i <= n,
            n == samples@.len(),
            input.aim_movement == spec_accumulate(old(input).aim_movement, samples@, i as int),
            input.movement == old(input).movement,
            input.fire == old(input).fire,
        decreases n - i,
    {
        let s = samples[i];
        input.aim_movement = Vec2I {
            x: sat_add(input.aim_movement.x, s.x),
            y: sat_add(input.aim_movement.y, s.y),
        };
        i = i + 1;
    }
}

/// Derive the tick's movement intent and fire flag from the raw snapshot.
/// Movement and fire are overwritten every tick; the aim delta is left
/// untouched.
pub fn input_system(input: &mut InputData, raw: &RawInput)
    ensures
        final(input).movement == spec_movement(*raw),
        final(input).fire == raw.fire,
        final(input).aim_movement == old(input).aim_movement,
        final(input).wf(),
{
    input.movement = Vec2I { x: 0, y: 0 };
    input.fire = false;
    if raw.fire {
        input.fire = true;
    }
    if raw.forward {
        input.movement.y = 1;
    }
    if raw.left {
        input.movement.x = -1;
    }
    if raw.back {
        input.movement.y = -1;
    }
    if raw.right {
        input.movement.x = 1;
    }
}

} // verus!
