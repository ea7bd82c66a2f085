//! Aging and retirement of timed visuals.
//!
//! Every tick, every timed visual advances its repeating timer by the
//! tick's duration. Each call detects at most one expiry, however many
//! whole periods elapsed; on expiry the frame index steps once, modulo the
//! sheet size, and an index that wraps back to zero retires the entity in
//! the same tick. Billboarded effects additionally re-face the reference
//! camera's yaw every tick; decals keep the orientation they were spawned
//! with.

use vstd::prelude::*;

use crate::entity::{EntityData, Orientation, TimedVisual, Transform, VisualKind};
use crate::world::{spec_yaw_of, yaw_of, World};

verus! {

/// One aging step of a timed visual: `None` means the entity retires this
/// tick because its frame index wrapped back to zero.
pub open spec fn spec_visual_step(v: TimedVisual, dt_ms: u32) -> Option<TimedVisual> {
    if v.timer.spec_fires(dt_ms) {
        let idx = ((v.frame_index + 1) % (v.total_frames as int)) as u32;
        if idx == 0 {
            None
        } else {
            Some(TimedVisual { timer: v.timer.spec_tick(dt_ms), frame_index: idx, ..v })
        }
    } else {
        Some(TimedVisual { timer: v.timer.spec_tick(dt_ms), ..v })
    }
}

/// The frame-index invariant over a visual's whole life: an aging step
/// keeps the index inside the sheet and the sheet size unchanged, and the
/// entity is retired exactly in the tick whose expiry wraps the index back
/// to zero, never any other.
pub proof fn lemma_visual_cycle(v: TimedVisual, dt_ms: u32)
    requires
        v.wf(),
    ensures
        (spec_visual_step(v, dt_ms) is None) <==> (v.timer.spec_fires(dt_ms) && (v.frame_index
            + 1) % (v.total_frames as int) == 0),
        spec_visual_step(v, dt_ms) matches Some(v2) ==> v2.wf() && v2.total_frames
            == v.total_frames && v2.kind == v.kind,
{
    vstd::arithmetic::div_mod::lemma_mod_bound(
        v.frame_index + 1 as int,
        v.total_frames as int,
    );
    vstd::arithmetic::div_mod::lemma_mod_bound(
        v.timer.elapsed_ms + dt_ms as int,
        v.timer.period_ms as int,
    );
}

/// Re-face a transform's billboard toward `yaw` (no transform, no change).
pub open spec fn spec_billboard(t: Option<Transform>, yaw: i64) -> Option<Transform> {
    match t {
        None => None,
        Some(t0) => Some(Transform { orientation: Orientation::Yaw { yaw }, ..t0 }),
    }
}

/// One aging pass over a slot, restricted to visuals of `kind`.
/// `cam_yaw` is the reference camera's yaw, if a camera exists; only
/// effects billboard toward it.
pub open spec fn spec_age_slot(
    s: Option<EntityData>,
    kind: VisualKind,
    dt_ms: u32,
    cam_yaw: Option<i64>,
) -> Option<EntityData> {
    match s {
        None => None,
        Some(d) => match d.visual {
            None => Some(d),
            Some(v) => {
                if v.kind != kind {
                    Some(d)
                } else {
                    match spec_visual_step(v, dt_ms) {
                        None => None,
                        Some(v2) => {
                            if kind == VisualKind::Effect && cam_yaw is Some {
                                Some(
                                    EntityData {
                                        visual: Some(v2),
                                        transform: spec_billboard(
                                            d.transform,
                                            cam_yaw->Some_0,
                                        ),
                                        ..d
                                    },
                                )
                            } else {
                                Some(EntityData { visual: Some(v2), ..d })
                            }
                        },
                    }
                }
            },
        },
    }
}

/// The reference camera's billboard yaw among `slots`, if a camera exists.
pub open spec fn spec_cam_yaw_seq(slots: Seq<Option<EntityData>>) -> Option<i64> {
    match crate::world::spec_first_camera_from(slots, 0) {
        None => None,
        Some(cid) => Some(spec_yaw_of(slots[cid as int]->Some_0.transform->Some_0.orientation)),
    }
}

/// The reference camera's billboard yaw, if a camera exists.
pub open spec fn spec_cam_yaw(w: World) -> Option<i64> {
    spec_cam_yaw_seq(w.store.slots@)
}

/// Age every visual of `kind` by one tick, as [`spec_age_slot`] describes,
/// retiring those whose frame index wraps to zero. Entities spawned later
/// in the same tick are not aged: spawning runs after this pass.
fn age_pass(world: &mut World, kind: VisualKind, dt_ms: u32)
    requires
        old(world).wf(),
    ensures
        final(world).store.slots@.len() == old(world).store.slots@.len(),
        forall|i: int|
            0 <= i < old(world).store.slots@.len() ==> final(world).store.slots@[i]
                == spec_age_slot(
                old(world).store.slots@[i],
                kind,
                dt_ms,
                spec_cam_yaw(*old(world)),
            ),
        final(world).input == old(world).input,
        final(world).effects.queued@ == old(world).effects.queued@,
        final(world).decal_queue.queued@ == old(world).decal_queue.queued@,
        final(world).sprites.sprites@ == old(world).sprites.sprites@,
        final(world).phase == old(world).phase,
        final(world).wf(),
{
    let cam_yaw: Option<i64> = match world.store.find_camera() {
        None => None,
        Some(cid) => Some(yaw_of(&world.store.at(cid).transform.unwrap().orientation)),
    };
    let n = world.store.len();
    let mut i: usize = 0;
    while i < n
        invariant
            i <= n,
            n == world.store.slots@.len(),
            n == old(world).store.slots@.len(),
            cam_yaw == spec_cam_yaw(*old(world)),
            forall|j: int|
                0 <= j < i ==> world.store.slots@[j] == spec_age_slot(
                    old(world).store.slots@[j],
                    kind,
                    dt_ms,
                    cam_yaw,
                ),
            forall|j: int| i <= j < n ==> world.store.slots@[j] == old(world).store.slots@[j],
            world.input == old(world).input,
            world.effects.queued@ == old(world).effects.queued@,
            world.decal_queue.queued@ == old(world).decal_queue.queued@,
            world.sprites.sprites@ == old(world).sprites.sprites@,
            world.phase == old(world).phase,
            old(world).wf(),
        decreases n - i,
    {
        if world.store.live(i) {
            let d = world.store.at(i);
            match d.visual {
                None => {},
                Some(v) => {
                    if v.kind == kind {
                        proof {
                            lemma_visual_cycle(v, dt_ms);
                        }
                        let mut v2 = v;
                        let fired = v2.timer.tick(dt_ms);
                        if fired {
                            let idx = (v.frame_index + 1) % v.total_frames;
                            if idx == 0 {
                                world.store.despawn(i);
                            } else {
                                v2.frame_index = idx;
                                if kind == VisualKind::Effect && cam_yaw.is_some() {
                                    let t2 = match d.transform {
                                        Some(t0) => Some(
                                            Transform {
                                                orientation: Orientation::Yaw {
                                                    yaw: cam_yaw.unwrap(),
                                                },
                                                ..t0
                                            },
                                        ),
                                        None => None,
                                    };
                                    world.store.put(
                                        i,
                                        EntityData { visual: Some(v2), transform: t2, ..d },
                                    );
                                } else {
                                    world.store.put(i, EntityData { visual: Some(v2), ..d });
                                }
                            }
                        } else {
                            if kind == VisualKind::Effect && cam_yaw.is_some() {
                                let t2 = match d.transform {
                                    Some(t0) => Some(
                                        Transform {
                                            orientation: Orientation::Yaw {
                                                yaw: cam_yaw.unwrap(),
                                            },
                                            ..t0
                                        },
                                    ),
                                    None => None,
                                };
                                world.store.put(
                                    i,
                                    EntityData { visual: Some(v2), transform: t2, ..d },
                                );
                            } else {
                                world.store.put(i, EntityData { visual: Some(v2), ..d });
                            }
                        }
                    }
                },
            }
        }
        i = i + 1;
    }
    proof {
        lemma_wf_after_age(*old(world), *world, kind, dt_ms, cam_yaw);
    }
}

/// Aging keeps every slot well-formed and never adds a player component.
proof fn lemma_wf_after_age(
    w0: World,
    w1: World,
    kind: VisualKind,
    dt_ms: u32,
    cam_yaw: Option<i64>,
)
    requires
        w0.wf(),
        w1.store.slots@.len() == w0.store.slots@.len(),
        forall|i: int|
            0 <= i < w0.store.slots@.len() ==> w1.store.slots@[i] == spec_age_slot(
                w0.store.slots@[i],
                kind,
                dt_ms,
                cam_yaw,
            ),
        w1.input == w0.input,
        w1.sprites.sprites@ == w0.sprites.sprites@,
    ensures
        w1.wf(),
{
    assert forall|i: int| 0 <= i < w1.store.slots@.len() implies crate::world::wf_slot(
        w1.store.slots@[i],
    ) by {
        assert(crate::world::wf_slot(w0.store.slots@[i]));
        match w0.store.slots@[i] {
            None => {},
            Some(d) => match d.visual {
                None => {},
                Some(v) => {
                    if v.kind == kind {
                        lemma_visual_cycle(v, dt_ms);
                    }
                },
            },
        }
    }
    assert forall|i: int, j: int|
        crate::world::slot_has_player(w1.store.slots@, i) && crate::world::slot_has_player(
            w1.store.slots@,
            j,
        ) implies i == j by {
        assert(crate::world::slot_has_player(w0.store.slots@, i));
        assert(crate::world::slot_has_player(w0.store.slots@, j));
    }
}

/// Age every billboarded effect: advance its timer, step its frame on
/// expiry, retire it on a full cycle, and re-face it toward the reference
/// camera's current yaw.
pub fn animate_effect(world: &mut World, dt_ms: u32)
    requires
        old(world).wf(),
    ensures
        final(world).store.slots@.len() == old(world).store.slots@.len(),
        forall|i: int|
            0 <= i < old(world).store.slots@.len() ==> final(world).store.slots@[i]
                == spec_age_slot(
                old(world).store.slots@[i],
                VisualKind::Effect,
                dt_ms,
                spec_cam_yaw(*old(world)),
            ),
        final(world).input == old(world).input,
        final(world).effects.queued@ == old(world).effects.queued@,
        final(world).decal_queue.queued@ == old(world).decal_queue.queued@,
        final(world).sprites.sprites@ == old(world).sprites.sprites@,
        final(world).phase == old(world).phase,
        final(world).wf(),
{
    age_pass(world, VisualKind::Effect, dt_ms)
}

/// Age every decal: advance its timer, step its frame on expiry, retire it
/// on a full cycle. A decal's orientation stays as spawned.
pub fn animate_decals(world: &mut World, dt_ms: u32)
    requires
        old(world).wf(),
    ensures
        final(world).store.slots@.len() == old(world).store.slots@.len(),
        forall|i: int|
            0 <= i < old(world).store.slots@.len() ==> final(world).store.slots@[i]
                == spec_age_slot(
                old(world).store.slots@[i],
                VisualKind::Decal,
                dt_ms,
                spec_cam_yaw(*old(world)),
            ),
        final(world).input == old(world).input,
        final(world).effects.queued@ == old(world).effects.queued@,
        final(world).decal_queue.queued@ == old(world).decal_queue.queued@,
        final(world).sprites.sprites@ == old(world).sprites.sprites@,
        final(world).phase == old(world).phase,
        final(world).wf(),
{
    age_pass(world, VisualKind::Decal, dt_ms)
}

} // verus!
