//! Draining the request queues into the entity store.
//!
//! Each pass consumes its queue exactly once per tick and then clears it
//! unconditionally: a request that found no sink (no camera, unknown
//! sprite key) is dropped, never retried, and a request behind the first
//! is discarded, never deferred — at most one effect and at most one decal
//! materialize per tick, whatever the queue depth.

use vstd::prelude::*;

use crate::entity::{
    EntityData, EntityId, Orientation, RepeatTimer, TimedVisual, Transform, VisualKind,
};
use crate::math::Vec3I;
use crate::queue::{lemma_lookup_frames, spec_lookup};
use crate::world::{yaw_of, World};

verus! {

/// Period of a billboarded effect's animation timer, in milliseconds.
pub const EFFECT_PERIOD_MS: u32 = 100;

/// Period of a decal's animation timer, in milliseconds.
pub const DECAL_PERIOD_MS: u32 = 10_000;

/// The entity a spawned effect starts as: positioned at the request,
/// billboarded toward the reference camera's yaw, first frame, fresh
/// repeating timer.
pub open spec fn spec_effect_entity(pos: Vec3I, yaw: i64, frames: u32) -> EntityData {
    EntityData {
        transform: Some(
            Transform { translation: pos, orientation: Orientation::Yaw { yaw } },
        ),
        collidable: None,
        weapon: None,
        player: None,
        camera: false,
        visual: Some(
            TimedVisual {
                timer: RepeatTimer { period_ms: EFFECT_PERIOD_MS, elapsed_ms: 0 },
                frame_index: 0,
                total_frames: frames,
                kind: VisualKind::Effect,
            },
        ),
    }
}

/// The entity a spawned decal starts as: positioned at the hit point,
/// facing along the recorded surface normal, first frame, fresh repeating
/// timer.
pub open spec fn spec_decal_entity(pos: Vec3I, normal: Vec3I, frames: u32) -> EntityData {
    EntityData {
        transform: Some(
            Transform { translation: pos, orientation: Orientation::AlongNormal { normal } },
        ),
        collidable: None,
        weapon: None,
        player: None,
        camera: false,
        visual: Some(
            TimedVisual {
                timer: RepeatTimer { period_ms: DECAL_PERIOD_MS, elapsed_ms: 0 },
                frame_index: 0,
                total_frames: frames,
                kind: VisualKind::Decal,
            },
        ),
    }
}

/// What the effect pass spawns for a first request at `pos` with sprite
/// key `key`, given the camera yaw (if any) and the registry: nothing
/// without a camera or for an unknown key.
pub open spec fn spec_effect_outcome(
    pos: Vec3I,
    key: Seq<char>,
    cam_yaw: Option<i64>,
    sheets: Seq<crate::queue::SpriteSheet>,
) -> Option<EntityData> {
    match cam_yaw {
        None => None,
        Some(yaw) => match spec_lookup(sheets, key) {
            None => None,
            Some(f) => Some(spec_effect_entity(pos, yaw, f)),
        },
    }
}

/// What the effect pass spawns this tick, if anything: the first queued
/// request, provided a reference camera exists and its sprite key
/// resolves.
pub open spec fn spec_effect_spawn(w: World) -> Option<EntityData> {
    if w.effects.queued@.len() == 0 {
        None
    } else {
        spec_effect_outcome(
            w.effects.queued@[0].position,
            w.effects.queued@[0].sprite@,
            crate::lifecycle::spec_cam_yaw(w),
            w.sprites.sprites@,
        )
    }
}

/// What the decal pass spawns for a first request at `pos` with normal
/// `normal` and sprite key `key`: nothing for an unknown key (no camera
/// is needed: a decal faces its stored normal).
pub open spec fn spec_decal_outcome(
    pos: Vec3I,
    normal: Vec3I,
    key: Seq<char>,
    sheets: Seq<crate::queue::SpriteSheet>,
) -> Option<EntityData> {
    match spec_lookup(sheets, key) {
        None => None,
        Some(f) => Some(spec_decal_entity(pos, normal, f)),
    }
}

/// What the decal pass spawns this tick, if anything: the first queued
/// request, provided its sprite key resolves.
pub open spec fn spec_decal_spawn(w: World) -> Option<EntityData> {
    if w.decal_queue.queued@.len() == 0 {
        None
    } else {
        spec_decal_outcome(
            w.decal_queue.queued@[0].position,
            w.decal_queue.queued@[0].normal,
            w.decal_queue.queued@[0].sprite@,
            w.sprites.sprites@,
        )
    }
}

/// Drain the effect queue: spawn at most one billboarded effect — the
/// first queued request, oriented to the first camera's yaw — then clear
/// the queue, dropping every other request. Returns the spawned entity's
/// id, if one was spawned.
pub fn spawn_effects(world: &mut World) -> (r: Option<EntityId>)
    requires
        old(world).wf(),
    ensures
        final(world).effects.queued@.len() == 0,
        match spec_effect_spawn(*old(world)) {
            None => {
                &&& r is None
                &&& final(world).store.slots@ == old(world).store.slots@
            },
            Some(d) => {
                &&& r == Some(old(world).store.slots@.len() as EntityId)
                &&& final(world).store.slots@ == old(world).store.slots@.push(Some(d))
            },
        },
        final(world).input == old(world).input,
        final(world).decal_queue.queued@ == old(world).decal_queue.queued@,
        final(world).sprites.sprites@ == old(world).sprites.sprites@,
        final(world).phase == old(world).phase,
        final(world).wf(),
{
    let mut r: Option<EntityId> = None;
    if world.effects.queued.len() > 0 {
        match world.store.find_camera() {
            None => {},
            Some(cid) => {
                let yaw = yaw_of(&world.store.at(cid).transform.unwrap().orientation);
                let frames_opt = world.sprites.lookup(&world.effects.queued[0].sprite);
                match frames_opt {
                    None => {},
                    Some(frames) => {
                        proof {
                            lemma_lookup_frames(
                                world.sprites.sprites@,
                                world.effects.queued@[0].sprite@,
                            );
                        }
                        let pos = world.effects.queued[0].position;
                        let id = world.store.spawn(
                            EntityData {
                                transform: Some(
                                    Transform {
                                        translation: pos,
                                        orientation: Orientation::Yaw { yaw },
                                    },
                                ),
                                collidable: None,
                                weapon: None,
                                player: None,
                                camera: false,
                                visual: Some(
                                    TimedVisual {
                                        timer: RepeatTimer {
                                            period_ms: EFFECT_PERIOD_MS,
                                            elapsed_ms: 0,
                                        },
                                        frame_index: 0,
                                        total_frames: frames,
                                        kind: VisualKind::Effect,
                                    },
                                ),
                            },
                        );
                        r = Some(id);
                    },
                }
            },
        }
    }
    world.effects.clear();
    proof {
        lemma_wf_after_spawn(*old(world), *world);
    }
    r
}

/// Drain the decal queue: spawn at most one decal — the first queued
/// request, facing along its stored normal — then clear the queue,
/// dropping every other request. Returns the spawned entity's id, if one
/// was spawned.
pub fn spawn_decals(world: &mut World) -> (r: Option<EntityId>)
    requires
        old(world).wf(),
    ensures
        final(world).decal_queue.queued@.len() == 0,
        match spec_decal_spawn(*old(world)) {
            None => {
                &&& r is None
                &&& final(world).store.slots@ == old(world).store.slots@
            },
            Some(d) => {
                &&& r == Some(old(world).store.slots@.len() as EntityId)
                &&& final(world).store.slots@ == old(world).store.slots@.push(Some(d))
            },
        },
        final(world).input == old(world).input,
        final(world).effects.queued@ == old(world).effects.queued@,
        final(world).sprites.sprites@ == old(world).sprites.sprites@,
        final(world).phase == old(world).phase,
        final(world).wf(),
{
    let mut r: Option<EntityId> = None;
    if world.decal_queue.queued.len() > 0 {
        let frames_opt = world.sprites.lookup(&world.decal_queue.queued[0].sprite);
        match frames_opt {
            None => {},
            Some(frames) => {
                proof {
                    lemma_lookup_frames(
                        world.sprites.sprites@,
                        world.decal_queue.queued@[0].sprite@,
                    );
                }
                let pos = world.decal_queue.queued[0].position;
                let normal = world.decal_queue.queued[0].normal;
                let id = world.store.spawn(
                    EntityData {
                        transform: Some(
                            Transform {
                                translation: pos,
                                orientation: Orientation::AlongNormal { normal },
                            },
                        ),
                        collidable: None,
                        weapon: None,
                        player: None,
                        camera: false,
                        visual: Some(
                            TimedVisual {
                                timer: RepeatTimer {
                                    period_ms: DECAL_PERIOD_MS,
                                    elapsed_ms: 0,
                                },
                                frame_index: 0,
                                total_frames: frames,
                                kind: VisualKind::Decal,
                            },
                        ),
                    },
                );
                r = Some(id);
            },
        }
    }
    world.decal_queue.clear();
    proof {
        lemma_wf_after_spawn(*old(world), *world);
    }
    r
}

/// Appending a well-formed, player-free slot (or appending nothing) keeps
/// the world well-formed.
proof fn lemma_wf_after_spawn(w0: World, w1: World)
    requires
        w0.wf(),
        w1.input == w0.input,
        w1.sprites.sprites@ == w0.sprites.sprites@,
        w1.store.slots@ == w0.store.slots@ || (w1.store.slots@.len() == w0.store.slots@.len() + 1
            && (forall|i: int|
            0 <= i < w0.store.slots@.len() ==> w1.store.slots@[i] == w0.store.slots@[i])
            && crate::world::wf_slot(w1.store.slots@.last()) && (w1.store.slots@.last() matches Some(
            d,
        ) && d.player is None)),
    ensures
        w1.wf(),
{
    assert forall|i: int| 0 <= i < w1.store.slots@.len() implies crate::world::wf_slot(
        w1.store.slots@[i],
    ) by {
        if i < w0.store.slots@.len() {
            assert(crate::world::wf_slot(w0.store.slots@[i]));
        }
    }
    assert forall|i: int, j: int|
        crate::world::slot_has_player(w1.store.slots@, i) && crate::world::slot_has_player(
            w1.store.slots@,
            j,
        ) implies i == j by {
        assert(crate::world::slot_has_player(w0.store.slots@, i));
        assert(crate::world::slot_has_player(w0.store.slots@, j));
    }
}

} // verus!
