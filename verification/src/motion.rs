//! The player controller: aim (yaw/pitch) and camera-relative movement.
//!
//! Aim consumes the accumulated pointer delta: each axis moves the view by
//! `delta * -80 * dt` microradians (0.08 radians per count-second), and
//! pitch is clamped so the view never flips over the vertical. Movement
//! rotates the intent vector `(x, 0, -y)` by the yaw-only rotation and
//! advances the position by 5 units per second. The trigonometry for that
//! rotation is the display boundary's job: it hands in the yaw's cosine
//! and sine as milli-scaled integers.

use vstd::prelude::*;

use crate::entity::{EntityData, EntityId, Orientation, Transform};
use crate::math::{clamped, sat64, clamp64, sat_add, sat_mul, Vec3I};
use crate::world::{World, PITCH_LIMIT};

verus! {

/// Microradians the view turns per pointer count per millisecond of tick,
/// negated: pointer right turns yaw negative, pointer down turns pitch
/// negative.
pub const AIM_RATE_NEG: i64 = -80;

/// Micro-units the player advances per unit intent, per milli-scaled basis
/// component, per millisecond: 5 units per second.
pub const MOVE_SPEED: i64 = 5;

/// The new yaw after applying an aim delta axis for `dt_ms`.
pub open spec fn spec_aim_yaw(yaw: i64, delta: i64, dt_ms: u32) -> int {
    sat64(yaw + sat64(sat64(delta * -80) * dt_ms))
}

/// The new pitch after applying an aim delta axis for `dt_ms`: as yaw,
/// then clamped into `[-PITCH_LIMIT, PITCH_LIMIT]`.
pub open spec fn spec_aim_pitch(pitch: i64, delta: i64, dt_ms: u32) -> int {
    clamped(
        sat64(pitch + sat64(sat64(delta * -80) * dt_ms)),
        -PITCH_LIMIT as int,
        PITCH_LIMIT as int,
    )
}

/// Pitch clamping holds for a single aim step from any starting pitch.
pub proof fn lemma_pitch_always_clamped(pitch: i64, delta: i64, dt_ms: u32)
    ensures
        -PITCH_LIMIT as int <= spec_aim_pitch(pitch, delta, dt_ms) <= PITCH_LIMIT as int,
{
}

/// The pitch after a whole aim history: each element of `steps` is one
/// tick's consumed aim delta (vertical axis) and duration.
pub open spec fn spec_pitch_after(pitch: i64, steps: Seq<(i64, u32)>) -> i64
    decreases steps.len(),
{
    if steps.len() == 0 {
        pitch
    } else {
        spec_aim_pitch(spec_pitch_after(pitch, steps.drop_last()), steps.last().0, steps.last().1)
            as i64
    }
}

/// Pitch clamping holds for every aim history: whatever sequence of aim
/// deltas is applied, and from whatever starting pitch, the resulting
/// pitch never leaves `[-PITCH_LIMIT, PITCH_LIMIT]` once at least one
/// step has run.
pub proof fn lemma_pitch_clamped_always(pitch: i64, steps: Seq<(i64, u32)>)
    requires
        steps.len() >= 1,
    ensures
        -PITCH_LIMIT <= spec_pitch_after(pitch, steps) <= PITCH_LIMIT,
{
}

/// The unit basis of the yaw rotation, handed in by the boundary that owns
/// trigonometry: `cos_milli` and `sin_milli` are the yaw's cosine and sine
/// scaled by 1000, so each lies in `[-1000, 1000]`.
#[derive(Clone, Copy, PartialEq, Eq, Structural, Debug)]
pub struct YawBasis {
    pub cos_milli: i64,
    pub sin_milli: i64,
}

impl YawBasis {
    pub open spec fn wf(self) -> bool {
        &&& -1000 <= self.cos_milli <= 1000
        &&& -1000 <= self.sin_milli <= 1000
    }
}

/// The x displacement, in micro-units, of intent `(mx, my)` rotated by the
/// yaw basis and scaled by speed and `dt_ms`.
pub open spec fn spec_move_dx(mx: i64, my: i64, b: YawBasis, dt_ms: u32) -> int {
    (mx * b.cos_milli - my * b.sin_milli) * 5 * dt_ms
}

/// The z displacement, in micro-units, of intent `(mx, my)` rotated by the
/// yaw basis and scaled by speed and `dt_ms`.
pub open spec fn spec_move_dz(mx: i64, my: i64, b: YawBasis, dt_ms: u32) -> int {
    (-mx * b.sin_milli - my * b.cos_milli) * 5 * dt_ms
}

/// Apply the tick's aim to the player's view and consume the aim delta.
///
/// The first (and only) player entity's yaw and pitch move by the
/// accumulated delta; pitch is clamped; the delta is then zeroed so a tick
/// without a player leaves it accumulating. Returns the new yaw, which the
/// caller needs to build the movement basis, or `None` when no player
/// entity exists (then nothing changes at all).
pub fn aim_player(world: &mut World, dt_ms: u32) -> (r: Option<i64>)
    requires
        old(world).wf(),
    ensures
        final(world).effects.queued@ == old(world).effects.queued@,
        final(world).decal_queue.queued@ == old(world).decal_queue.queued@,
        final(world).sprites.sprites@ == old(world).sprites.sprites@,
        final(world).phase == old(world).phase,
        match old(world).store.spec_first_player() {
            None => {
                &&& r is None
                &&& final(world).store.slots@ == old(world).store.slots@
                &&& final(world).input == old(world).input
            },
            Some(pid) => {
                let d = old(world).store.spec_at(pid);
                let t = d.transform->Some_0;
                let yaw0 = t.orientation->YawPitch_yaw;
                let pitch0 = t.orientation->YawPitch_pitch;
                let yaw1 = spec_aim_yaw(yaw0, old(world).input.aim_movement.x, dt_ms);
                let pitch1 = spec_aim_pitch(pitch0, old(world).input.aim_movement.y, dt_ms);
                &&& r == Some(yaw1 as i64)
                &&& final(world).store.slots@ == old(world).store.slots@.update(
                    pid as int,
                    Some(
                        EntityData {
                            transform: Some(
                                Transform {
                                    orientation: Orientation::YawPitch {
                                        yaw: yaw1 as i64,
                                        pitch: pitch1 as i64,
                                    },
                                    ..t
                                },
                            ),
                            ..d
                        },
                    ),
                )
                &&& final(world).input.aim_movement.x == 0 && final(world).input.aim_movement.y
                    == 0
                &&& final(world).input.movement == old(world).input.movement
                &&& final(world).input.fire == old(world).input.fire
            },
        },
        final(world).wf(),
{
    let pid_opt = world.store.find_player();
    match pid_opt {
        None => None,
        Some(pid) => {
            let d = world.store.at(pid);
            let t = d.transform.unwrap();
            let (yaw0, pitch0) = match t.orientation {
                Orientation::YawPitch { yaw, pitch } => (yaw, pitch),
                _ => (0, 0),
            };
            let dyaw = sat_mul(sat_mul(world.input.aim_movement.x, AIM_RATE_NEG), dt_ms as i64);
            let dpitch = sat_mul(sat_mul(world.input.aim_movement.y, AIM_RATE_NEG), dt_ms as i64);
            let yaw1 = sat_add(yaw0, dyaw);
            let pitch1 = clamp64(sat_add(pitch0, dpitch), -PITCH_LIMIT, PITCH_LIMIT);
            world.store.put(
                pid,
                EntityData {
                    transform: Some(
                        Transform {
                            orientation: Orientation::YawPitch { yaw: yaw1, pitch: pitch1 },
                            ..t
                        },
                    ),
                    ..d
                },
            );
            world.input.aim_movement.x = 0;
            world.input.aim_movement.y = 0;
            proof {
                lemma_wf_one_slot(*old(world), *world, pid);
            }
            Some(yaw1)
        },
    }
}

/// Apply the tick's movement intent to the player's position.
///
/// `basis` must be the yaw rotation's unit basis for the player's current
/// yaw, as the trigonometry boundary computed it. The intent vector
/// `(x, 0, -y)` is rotated by it, scaled by speed and tick duration, and
/// added (saturating) to the player's position. Pitch never contributes:
/// movement stays on the horizontal plane. Without a player nothing
/// changes.
pub fn move_player(world: &mut World, dt_ms: u32, basis: YawBasis)
    requires
        old(world).wf(),
        basis.wf(),
    ensures
        final(world).input == old(world).input,
        final(world).effects.queued@ == old(world).effects.queued@,
        final(world).decal_queue.queued@ == old(world).decal_queue.queued@,
        final(world).sprites.sprites@ == old(world).sprites.sprites@,
        final(world).phase == old(world).phase,
        match old(world).store.spec_first_player() {
            None => final(world).store.slots@ == old(world).store.slots@,
            Some(pid) => {
                let d = old(world).store.spec_at(pid);
                let t = d.transform->Some_0;
                let mx = old(world).input.movement.x;
                let my = old(world).input.movement.y;
                let p1 = Vec3I {
                    x: sat64(
                        t.translation.x + spec_move_dx(mx, my, basis, dt_ms),
                    ) as i64,
                    y: t.translation.y,
                    z: sat64(
                        t.translation.z + spec_move_dz(mx, my, basis, dt_ms),
                    ) as i64,
                };
                final(world).store.slots@ == old(world).store.slots@.update(
                    pid as int,
                    Some(EntityData { transform: Some(Transform { translation: p1, ..t }), ..d }),
                )
            },
        },
        final(world).wf(),
{
    let pid_opt = world.store.find_player();
    match pid_opt {
        None => {},
        Some(pid) => {
            let d = world.store.at(pid);
            let t = d.transform.unwrap();
            let mx = world.input.movement.x;
            let my = world.input.movement.y;
            proof {
                lemma_move_delta_fits(mx, my, basis, dt_ms);
            }
            let dx = (mx * basis.cos_milli - my * basis.sin_milli) * MOVE_SPEED * (dt_ms as i64);
            let dz = (-mx * basis.sin_milli - my * basis.cos_milli) * MOVE_SPEED * (dt_ms as i64);
            let p1 = Vec3I {
                x: sat_add(t.translation.x, dx),
                y: t.translation.y,
                z: sat_add(t.translation.z, dz),
            };
            world.store.put(
                pid,
                EntityData { transform: Some(Transform { translation: p1, ..t }), ..d },
            );
            proof {
                lemma_wf_one_slot(*old(world), *world, pid);
            }
        },
    }
}

/// The movement displacement fits comfortably in an `i64`: intent is in
/// `{-1, 0, 1}`, the basis components in `[-1000, 1000]`, and the tick
/// duration in a `u32`.
proof fn lemma_move_delta_fits(mx: i64, my: i64, b: YawBasis, dt_ms: u32)
    requires
        -1 <= mx <= 1,
        -1 <= my <= 1,
        b.wf(),
    ensures
        -1000 <= mx * b.cos_milli <= 1000,
        -1000 <= my * b.sin_milli <= 1000,
        -1000 <= (-mx) * b.sin_milli <= 1000,
        -1000 <= my * b.cos_milli <= 1000,
        -2000 <= mx * b.cos_milli - my * b.sin_milli <= 2000,
        -2000 <= -mx * b.sin_milli - my * b.cos_milli <= 2000,
        i64::MIN as int <= (mx * b.cos_milli - my * b.sin_milli) * 5 * dt_ms <= i64::MAX as int,
        i64::MIN as int <= (-mx * b.sin_milli - my * b.cos_milli) * 5 * dt_ms <= i64::MAX as int,
{
    assert(-1000 <= mx * b.cos_milli <= 1000 && -1000 <= my * b.sin_milli <= 1000 && -1000 <= (
    -mx) * b.sin_milli <= 1000 && -1000 <= my * b.cos_milli <= 1000) by (nonlinear_arith)
        requires
            -1 <= mx <= 1,
            -1 <= my <= 1,
            -1000 <= b.cos_milli <= 1000,
            -1000 <= b.sin_milli <= 1000,
    ;
    let dx = mx * b.cos_milli - my * b.sin_milli;
    let dz = -mx * b.sin_milli - my * b.cos_milli;
    assert(i64::MIN as int <= dx * 5 * dt_ms <= i64::MAX as int && i64::MIN as int <= dz * 5
        * dt_ms <= i64::MAX as int) by (nonlinear_arith)
        requires
            -2000 <= dx <= 2000,
            -2000 <= dz <= 2000,
            0 <= dt_ms <= u32::MAX,
    ;
}

/// Rewriting a single slot with a well-formed replacement keeps the world
/// well-formed, provided player components are carried over unchanged in
/// count.
proof fn lemma_wf_one_slot(w0: World, w1: World, id: EntityId)
    requires
        w0.wf(),
        w0.store.spec_live(id),
        w1.store.slots@.len() == w0.store.slots@.len(),
        forall|i: int|
            0 <= i < w0.store.slots@.len() && i != id ==> w1.store.slots@[i]
                == w0.store.slots@[i],
        crate::world::wf_slot(w1.store.slots@[id as int]),
        (w1.store.slots@[id as int] is Some && w1.store.slots@[id as int]->Some_0.player is Some)
            ==> (w0.store.slots@[id as int]->Some_0.player is Some),
        w1.input.wf(),
        w1.sprites.sprites@ == w0.sprites.sprites@,
    ensures
        w1.wf(),
{
    assert forall|i: int, j: int|
        crate::world::slot_has_player(w1.store.slots@, i) && crate::world::slot_has_player(
            w1.store.slots@,
            j,
        ) implies i == j by {
        assert(crate::world::slot_has_player(w0.store.slots@, i));
        assert(crate::world::slot_has_player(w0.store.slots@, j));
    }
}

} // verus!
