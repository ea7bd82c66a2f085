//! The weapon system: the reload state machine and the fire path.
//!
//! The loader runs every tick for every weapon; the fire path runs for the
//! player's weapon alone, gated by the tick's fire edge and the weapon
//! being loaded, and queues at most one decal request at the nearest
//! collidable ray hit.

use vstd::prelude::*;

use crate::entity::{EntityData, EntityId, EntityStore, Weapon};
use crate::math::Vec3I;
use crate::world::World;

verus! {

/// Ticks a fired weapon stays unloaded before the loader may re-arm it.
pub const RELOAD_COOLDOWN: u32 = 15;

/// One loader pass over a single weapon: a resting unloaded weapon becomes
/// loaded and shows the idle frame; a cooling weapon shows the reloading
/// frame and counts down by exactly one; a loaded weapon is untouched.
pub open spec fn spec_load_step(w: Weapon) -> Weapon {
    if !w.loaded && w.cooldown_frames == 0 {
        Weapon { loaded: true, display_frame: 0, ..w }
    } else if w.cooldown_frames > 0 {
        Weapon {
            cooldown_frames: (w.cooldown_frames - 1) as u32,
            display_frame: 1,
            ..w
        }
    } else {
        w
    }
}

/// The loader pass lifted to one store slot: only the weapon component
/// changes, and only where one is present.
pub open spec fn spec_load_slot(s: Option<EntityData>) -> Option<EntityData> {
    match s {
        None => None,
        Some(d) => match d.weapon {
            None => Some(d),
            Some(w) => Some(EntityData { weapon: Some(spec_load_step(w)), ..d }),
        },
    }
}

/// `n` loader passes in sequence over one weapon.
pub open spec fn spec_load_iter(w: Weapon, n: nat) -> Weapon
    decreases n,
{
    if n == 0 {
        w
    } else {
        spec_load_step(spec_load_iter(w, (n - 1) as nat))
    }
}

/// Cooldown monotonicity: an unloaded weapon's cooldown decreases by
/// exactly one per loader pass until it reaches zero; the weapon stays
/// unloaded for every pass up to and including the one that reaches zero,
/// and becomes loaded on the pass after that, never earlier.
pub proof fn lemma_cooldown_countdown(w: Weapon, n: nat)
    requires
        !w.loaded,
    ensures
        n <= w.cooldown_frames ==> {
            &&& spec_load_iter(w, n).cooldown_frames == w.cooldown_frames - n
            &&& !spec_load_iter(w, n).loaded
        },
        spec_load_iter(w, (w.cooldown_frames + 1) as nat).loaded,
        spec_load_iter(w, (w.cooldown_frames + 1) as nat).cooldown_frames == 0,
    decreases n,
{
    if n > 0 {
        lemma_cooldown_countdown(w, (n - 1) as nat);
        if n > w.cooldown_frames + 1 {
            lemma_load_iter_unfold_all(w, n);
        }
    } else {
        lemma_load_iter_unfold_all(w, (w.cooldown_frames + 1) as nat);
    }
}

/// Cooldown monotonicity for a weapon that just fired: it re-arms on
/// exactly the sixteenth loader pass after the shot — one pass per
/// remaining cooldown tick, then one to arm — and on no earlier pass.
pub proof fn lemma_fired_weapon_rearms(w: Weapon)
    ensures
        spec_load_iter(spec_fired(w), (RELOAD_COOLDOWN + 1) as nat).loaded,
        spec_load_iter(spec_fired(w), (RELOAD_COOLDOWN + 1) as nat).cooldown_frames == 0,
        forall|m: nat|
            m <= RELOAD_COOLDOWN ==> !#[trigger] spec_load_iter(spec_fired(w), m).loaded,
{
    lemma_cooldown_countdown(spec_fired(w), 0);
    assert forall|m: nat| m <= RELOAD_COOLDOWN implies !#[trigger] spec_load_iter(
        spec_fired(w),
        m,
    ).loaded by {
        lemma_cooldown_countdown(spec_fired(w), m);
    }
}

/// Helper: unfolding `spec_load_iter` down to `w.cooldown_frames + 1`
/// passes shows the countdown and the single re-arming pass.
proof fn lemma_load_iter_unfold_all(w: Weapon, n: nat)
    requires
        !w.loaded,
    ensures
        n <= w.cooldown_frames ==> {
            &&& spec_load_iter(w, n).cooldown_frames == w.cooldown_frames - n
            &&& !spec_load_iter(w, n).loaded
        },
        n == w.cooldown_frames + 1 ==> {
            &&& spec_load_iter(w, n).loaded
            &&& spec_load_iter(w, n).cooldown_frames == 0
        },
    decreases n,
{
    if n > 0 {
        lemma_load_iter_unfold_all(w, (n - 1) as nat);
    }
}

/// Run the loader over every weapon in the store. Nothing but weapon
/// components changes.
pub fn weapon_load(world: &mut World)
    requires
        old(world).wf(),
    ensures
        final(world).store.slots@.len() == old(world).store.slots@.len(),
        forall|i: int|
            0 <= i < old(world).store.slots@.len() ==> final(world).store.slots@[i]
                == spec_load_slot(old(world).store.slots@[i]),
        final(world).input == old(world).input,
        final(world).effects.queued@ == old(world).effects.queued@,
        final(world).decal_queue.queued@ == old(world).decal_queue.queued@,
        final(world).sprites.sprites@ == old(world).sprites.sprites@,
        final(world).phase == old(world).phase,
        final(world).wf(),
{
    let n = world.store.len();
    let mut i: usize = 0;
    while i < n
        invariant
            i <= n,
            n == world.store.slots@.len(),
            n == old(world).store.slots@.len(),
            forall|j: int|
                0 <= j < i ==> world.store.slots@[j] == spec_load_slot(
                    old(world).store.slots@[j],
                ),
            forall|j: int| i <= j < n ==> world.store.slots@[j] == old(world).store.slots@[j],
            world.input == old(world).input,
            world.effects.queued@ == old(world).effects.queued@,
            world.decal_queue.queued@ == old(world).decal_queue.queued@,
            world.sprites.sprites@ == old(world).sprites.sprites@,
            world.phase == old(world).phase,
            old(world).wf(),
        decreases n - i,
    {
        if world.store.live(i) {
            let d = world.store.at(i);
            match d.weapon {
                Some(w) => {
                    let w2 = if !w.loaded && w.cooldown_frames == 0 {
                        Weapon { loaded: true, display_frame: 0, ..w }
                    } else if w.cooldown_frames > 0 {
                        Weapon { cooldown_frames: w.cooldown_frames - 1, display_frame: 1, ..w }
                    } else {
                        w
                    };
                    world.store.put(i, EntityData { weapon: Some(w2), ..d });
                },
                None => {},
            }
        }
        i = i + 1;
    }
    proof {
        lemma_wf_after_load(*old(world), *world);
    }
}

/// The loader keeps every slot well-formed.
proof fn lemma_wf_after_load(w0: World, w1: World)
    requires
        w0.wf(),
        w1.store.slots@.len() == w0.store.slots@.len(),
        forall|i: int|
            0 <= i < w0.store.slots@.len() ==> w1.store.slots@[i] == spec_load_slot(
                w0.store.slots@[i],
            ),
        w1.input == w0.input,
        w1.sprites.sprites@ == w0.sprites.sprites@,
    ensures
        w1.wf(),
{
    assert forall|i: int| 0 <= i < w1.store.slots@.len() implies crate::world::wf_slot(
        w1.store.slots@[i],
    ) by {
        assert(crate::world::wf_slot(w0.store.slots@[i]));
    }
    assert forall|i: int, j: int|
        crate::world::slot_has_player(w1.store.slots@, i) && crate::world::slot_has_player(
            w1.store.slots@,
            j,
        ) implies i == j by {
        assert(crate::world::slot_has_player(w0.store.slots@, i));
        assert(crate::world::slot_has_player(w0.store.slots@, j));
    }
}

/// A candidate ray intersection handed in by the scene-geometry boundary:
/// the entity whose surface was met, the surface point and its normal, in
/// micro-units. Candidates arrive ordered nearest-first.
#[derive(Clone, Copy, PartialEq, Eq, Structural, Debug)]
pub struct RayHit {
    pub entity: EntityId,
    pub position: Vec3I,
    pub normal: Vec3I,
}

/// What the fire path reports: whether a ray was cast at all, and whether
/// it registered a collidable hit.
#[derive(Clone, Copy, PartialEq, Eq, Structural, Debug)]
pub struct AttackOutcome {
    pub ray_cast: bool,
    pub hit: bool,
}

/// Whether candidate `i` strikes a live, collidable-tagged entity.
pub open spec fn spec_hit_collidable(store: EntityStore, hits: Seq<RayHit>, i: int) -> bool {
    &&& 0 <= i < hits.len()
    &&& store.spec_live(hits[i].entity)
    &&& store.spec_at(hits[i].entity).collidable is Some
}

/// The first collidable candidate at or after `i`: the early-exit cast
/// stops at the nearest hit that passes the collidable filter.
pub open spec fn spec_nearest_from(store: EntityStore, hits: Seq<RayHit>, i: int) -> Option<int>
    decreases hits.len() - i,
{
    if i < 0 || i >= hits.len() {
        None
    } else if spec_hit_collidable(store, hits, i) {
        Some(i)
    } else {
        spec_nearest_from(store, hits, i + 1)
    }
}

/// The nearest collidable candidate, if any.
pub open spec fn spec_nearest_hit(store: EntityStore, hits: Seq<RayHit>) -> Option<int> {
    spec_nearest_from(store, hits, 0)
}

/// Whether the fire path acts this tick, and on which entities: requires a
/// fire edge, a player, a resolvable weapon reference, and that weapon
/// loaded. The result carries (player, weapon) entity ids.
pub open spec fn spec_attack_guard(w: World) -> Option<(EntityId, EntityId)> {
    if !w.input.fire {
        None
    } else {
        match w.store.spec_first_player() {
            None => None,
            Some(pid) => {
                let wid = w.store.spec_at(pid).player->Some_0.weapon;
                if w.store.spec_live(wid) && w.store.spec_at(wid).weapon is Some
                    && w.store.spec_at(wid).weapon->Some_0.loaded {
                    Some((pid, wid))
                } else {
                    None
                }
            },
        }
    }
}

/// The player's weapon after it fires: unloaded, full cooldown, display
/// untouched until the next loader pass.
pub open spec fn spec_fired(w: Weapon) -> Weapon {
    Weapon { cooldown_frames: RELOAD_COOLDOWN, loaded: false, ..w }
}

/// Whether the fire path would act on `w` this tick (a ray would be cast).
pub fn fire_ready(world: &World) -> (r: bool)
    ensures
        r == (spec_attack_guard(*world) is Some),
{
    if !world.input.fire {
        return false;
    }
    match world.store.find_player() {
        None => false,
        Some(pid) => {
            let wid = world.store.at(pid).player.unwrap().weapon;
            if world.store.live(wid) {
                match world.store.at(wid).weapon {
                    Some(w) => w.loaded,
                    None => false,
                }
            } else {
                false
            }
        },
    }
}

/// The fire path. When the guard holds, the weapon fires (unloaded, full
/// cooldown) and a ray is cast along the player's forward vector;
/// `hits` are the scene geometry's candidate intersections for that ray,
/// nearest first. The nearest candidate that strikes a live collidable
/// entity queues exactly one decal request at its surface point and
/// normal; no effect request is ever produced here. When the guard fails
/// (no fire edge, no player, a dangling weapon reference, or an unloaded
/// weapon) nothing at all changes and no ray is cast.
pub fn player_attack(world: &mut World, hits: &Vec<RayHit>) -> (r: AttackOutcome)
    requires
        old(world).wf(),
    ensures
        r.ray_cast == (spec_attack_guard(*old(world)) is Some),
        r.hit == (spec_attack_guard(*old(world)) is Some && spec_nearest_hit(
            old(world).store,
            hits@,
        ) is Some),
        final(world).input == old(world).input,
        final(world).effects.queued@ == old(world).effects.queued@,
        final(world).sprites.sprites@ == old(world).sprites.sprites@,
        final(world).phase == old(world).phase,
        match spec_attack_guard(*old(world)) {
            None => {
                &&& final(world).store.slots@ == old(world).store.slots@
                &&& final(world).decal_queue.queued@ == old(world).decal_queue.queued@
            },
            Some((pid, wid)) => {
                &&& final(world).store.slots@ == old(world).store.slots@.update(
                    wid as int,
                    Some(
                        EntityData {
                            weapon: Some(
                                spec_fired(old(world).store.spec_at(wid).weapon->Some_0),
                            ),
                            ..old(world).store.spec_at(wid)
                        },
                    ),
                )
                &&& match spec_nearest_hit(old(world).store, hits@) {
                    None => final(world).decal_queue.queued@ == old(world).decal_queue.queued@,
                    Some(i) => {
                        &&& final(world).decal_queue.queued@.len() == old(world).decal_queue.queued@.len() + 1
                        &&& forall|j: int|
                            0 <= j < old(world).decal_queue.queued@.len() ==> final(world).decal_queue.queued@[j] == old(world).decal_queue.queued@[j]
                        &&& final(world).decal_queue.queued@.last().position == hits@[i].position
                        &&& final(world).decal_queue.queued@.last().normal == hits@[i].normal
                        &&& final(world).decal_queue.queued@.last().sprite@ == "fx_splat"@
                    },
                }
            },
        },
        final(world).wf(),
{
    if !world.input.fire {
        return AttackOutcome { ray_cast: false, hit: false };
    }
    let pid_opt = world.store.find_player();
    match pid_opt {
        None => AttackOutcome { ray_cast: false, hit: false },
        Some(pid) => {
            let wid = world.store.at(pid).player.unwrap().weapon;
            if !world.store.live(wid) {
                return AttackOutcome { ray_cast: false, hit: false };
            }
            let wd = world.store.at(wid);
            match wd.weapon {
                None => AttackOutcome { ray_cast: false, hit: false },
                Some(w) => {
                    if !w.loaded {
                        return AttackOutcome { ray_cast: false, hit: false };
                    }
                    let fired = Weapon {
                        cooldown_frames: RELOAD_COOLDOWN,
                        loaded: false,
                        ..w
                    };
                    // Nearest-hit query: scan the candidates nearest-first
                    // and stop at the first that passes the collidable
                    // filter.
                    let mut found: Option<usize> = None;
                    let n = hits.len();
                    let mut i: usize = 0;
                    while i < n && found.is_none()
                        invariant
                            i <= n,
                            n == hits@.len(),
                            world.store == old(world).store,
                            match found {
                                None => spec_nearest_hit(world.store, hits@) == spec_nearest_from(
                                    world.store,
                                    hits@,
                                    i as int,
                                ),
                                Some(k) => k < n && spec_nearest_hit(world.store, hits@) == Some(
                                    k as int,
                                ),
                            },
                        decreases n - i,
                    {
                        let h = hits[i];
                        if world.store.live(h.entity) && world.store.at(
                            h.entity,
                        ).collidable.is_some() {
                            found = Some(i);
                        }
                        i = i + 1;
                    }
                    let hit = match found {
                        Some(i) => {
                            let h = hits[i];
                            world.decal_queue.push(h.position, h.normal, "fx_splat".to_owned());
                            true
                        },
                        None => false,
                    };
                    world.store.put(wid, EntityData { weapon: Some(fired), ..wd });
                    proof {
                        lemma_wf_after_fire(*old(world), *world, wid);
                    }
                    AttackOutcome { ray_cast: true, hit }
                },
            }
        },
    }
}

/// Firing keeps the world well-formed: the fired weapon is well-formed and
/// no other slot changed.
proof fn lemma_wf_after_fire(w0: World, w1: World, wid: EntityId)
    requires
        w0.wf(),
        w0.store.spec_live(wid),
        w0.store.spec_at(wid).weapon is Some,
        w1.store.slots@ == w0.store.slots@.update(
            wid as int,
            Some(
                EntityData {
                    weapon: Some(spec_fired(w0.store.spec_at(wid).weapon->Some_0)),
                    ..w0.store.spec_at(wid)
                },
            ),
        ),
        w1.input == w0.input,
        w1.sprites.sprites@ == w0.sprites.sprites@,
    ensures
        w1.wf(),
{
    assert forall|i: int| 0 <= i < w1.store.slots@.len() implies crate::world::wf_slot(
        w1.store.slots@[i],
    ) by {
        assert(crate::world::wf_slot(w0.store.slots@[i]));
    }
    assert forall|i: int, j: int|
        crate::world::slot_has_player(w1.store.slots@, i) && crate::world::slot_has_player(
            w1.store.slots@,
            j,
        ) implies i == j by {
        assert(crate::world::slot_has_player(w0.store.slots@, i));
        assert(crate::world::slot_has_player(w0.store.slots@, j));
    }
}

} // verus!
