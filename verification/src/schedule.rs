//! The scheduler: world setup and the fixed per-tick pipeline.
//!
//! A tick runs in three phases, in order: intent capture with the loader
//! and aim ([`tick_input`]), movement ([`tick_move`]), then fire, aging
//! and spawning ([`tick_effects`]). The phase token in the world enforces
//! the order on verified callers. The seams between phases are where the
//! display boundary must answer: after aim it owes the yaw basis for the
//! new yaw, after movement it owes the forward-ray candidates when a cast
//! is due. Spawning runs strictly after the fire path, so a hit queued
//! this tick materializes this tick; aging runs before spawning, so an
//! entity is never aged in the tick it was created.

use vstd::prelude::*;

use crate::entity::{Collidable, EntityData, EntityId, Orientation, Player, Transform, Weapon};
use crate::input::{spec_accumulate, spec_movement, InputData, RawInput};
use crate::lifecycle::{spec_age_slot, spec_cam_yaw, spec_cam_yaw_seq};
use crate::math::{Vec2I, Vec3I};
use crate::motion::{spec_aim_pitch, spec_aim_yaw, YawBasis};
use crate::spawn::{spec_decal_outcome, spec_effect_outcome};
use crate::weapon::{
    spec_attack_guard, spec_fired, spec_load_slot, spec_nearest_hit, RayHit,
};
use crate::world::{spec_first_player_from, Phase, World};
use crate::entity::VisualKind;

verus! {

/// The ground disc: a collidable at the origin facing up.
pub open spec fn spec_ground_entity() -> EntityData {
    EntityData {
        transform: Some(
            Transform {
                translation: Vec3I { x: 0, y: 0, z: 0 },
                orientation: Orientation::AlongNormal {
                    normal: Vec3I { x: 0, y: 1_000_000, z: 0 },
                },
            },
        ),
        collidable: Some(Collidable),
        weapon: None,
        player: None,
        camera: false,
        visual: None,
    }
}

/// The obstacle cube: a collidable one unit up, four units ahead.
pub open spec fn spec_obstacle_entity() -> EntityData {
    EntityData {
        transform: Some(
            Transform {
                translation: Vec3I { x: 0, y: 1_000_000, z: -4_000_000i64 },
                orientation: Orientation::YawPitch { yaw: 0, pitch: 0 },
            },
        ),
        collidable: Some(Collidable),
        weapon: None,
        player: None,
        camera: false,
        visual: None,
    }
}

/// The pistol entity: a fresh weapon, not yet loaded.
pub open spec fn spec_weapon_entity() -> EntityData {
    EntityData {
        transform: None,
        collidable: None,
        weapon: Some(Weapon { cooldown_frames: 0, loaded: false, display_frame: 0 }),
        player: None,
        camera: false,
        visual: None,
    }
}

/// The player/camera entity, holding the pistol by reference.
pub open spec fn spec_player_entity(weapon_id: EntityId) -> EntityData {
    EntityData {
        transform: Some(
            Transform {
                translation: Vec3I { x: 0, y: 1_500_000, z: 4_000_000 },
                orientation: Orientation::YawPitch { yaw: 0, pitch: 0 },
            },
        ),
        collidable: None,
        weapon: None,
        player: Some(Player { weapon: weapon_id }),
        camera: true,
        visual: None,
    }
}

/// Build the startup world: the sprite registry (the two-frame pistol
/// sheet and the one-frame splat sheet), the ground and obstacle
/// collidables, the pistol, and the player/camera holding it. Player and
/// weapon persist for the process lifetime; nothing in the core destroys
/// them.
pub fn setup() -> (w: World)
    ensures
        w.wf(),
        w.phase == Phase::Idle,
        w.input == InputData::spec_new(),
        w.effects.queued@.len() == 0,
        w.decal_queue.queued@.len() == 0,
        w.sprites.sprites@.len() == 2,
        w.sprites.sprites@[0].key@ == "wep_pistol"@ && w.sprites.sprites@[0].frames == 2,
        w.sprites.sprites@[1].key@ == "fx_splat"@ && w.sprites.sprites@[1].frames == 1,
        w.store.slots@ =~= seq![
            Some(spec_ground_entity()),
            Some(spec_obstacle_entity()),
            Some(spec_weapon_entity()),
            Some(spec_player_entity(2)),
        ],
        w.store.spec_first_player() == Some(3usize),
{
    let mut w = World::new();
    w.sprites.insert("wep_pistol".to_owned(), 2);
    w.sprites.insert("fx_splat".to_owned(), 1);
    w.store.spawn(
        EntityData {
            transform: Some(
                Transform {
                    translation: Vec3I { x: 0, y: 0, z: 0 },
                    orientation: Orientation::AlongNormal {
                        normal: Vec3I { x: 0, y: 1_000_000, z: 0 },
                    },
                },
            ),
            collidable: Some(Collidable),
            weapon: None,
            player: None,
            camera: false,
            visual: None,
        },
    );
    w.store.spawn(
        EntityData {
            transform: Some(
                Transform {
                    translation: Vec3I { x: 0, y: 1_000_000, z: -4_000_000 },
                    orientation: Orientation::YawPitch { yaw: 0, pitch: 0 },
                },
            ),
            collidable: Some(Collidable),
            weapon: None,
            player: None,
            camera: false,
            visual: None,
        },
    );
    let pistol = w.store.spawn(
        EntityData {
            transform: None,
            collidable: None,
            weapon: Some(Weapon::new()),
            player: None,
            camera: false,
            visual: None,
        },
    );
    w.store.spawn(
        EntityData {
            transform: Some(
                Transform {
                    translation: Vec3I { x: 0, y: 1_500_000, z: 4_000_000 },
                    orientation: Orientation::YawPitch { yaw: 0, pitch: 0 },
                },
            ),
            collidable: None,
            weapon: None,
            player: Some(Player { weapon: pistol }),
            camera: true,
            visual: None,
        },
    );
    proof {
        assert(w.store.slots@ =~= seq![
            Some(spec_ground_entity()),
            Some(spec_obstacle_entity()),
            Some(spec_weapon_entity()),
            Some(spec_player_entity(2)),
        ]);
        reveal_with_fuel(spec_first_player_from, 5);
    }
    w
}

/// What one tick reports back to the boundary: whether the fire path cast
/// a ray, whether the cast registered a collidable hit, and which entities
/// (if any) the two spawn passes created.
#[derive(Clone, Copy, Debug)]
pub struct TickReport {
    pub ray_cast: bool,
    pub hit: bool,
    pub effect_spawned: Option<EntityId>,
    pub decal_spawned: Option<EntityId>,
}

/// Phase one of a tick: fold the pointer samples into the aim delta,
/// derive movement and fire intent, run the loader over every weapon, and
/// apply the aim to the player's view (consuming the delta). Returns the
/// player's new yaw — the boundary computes the movement basis from it —
/// or `None` when no player exists.
pub fn tick_input(world: &mut World, raw: &RawInput, dt_ms: u32) -> (r: Option<i64>)
    requires
        old(world).wf(),
        old(world).phase == Phase::Idle,
    ensures
        final(world).phase == Phase::Aimed,
        final(world).effects.queued@ == old(world).effects.queued@,
        final(world).decal_queue.queued@ == old(world).decal_queue.queued@,
        final(world).sprites.sprites@ == old(world).sprites.sprites@,
        final(world).input.fire == raw.fire,
        final(world).input.movement == spec_movement(*raw),
        ({
            let aim1 = spec_accumulate(
                old(world).input.aim_movement,
                raw.aim_samples@,
                raw.aim_samples@.len() as int,
            );
            let slots1 = Seq::new(
                old(world).store.slots@.len(),
                |i: int| spec_load_slot(old(world).store.slots@[i]),
            );
            match spec_first_player_from(slots1, 0) {
                None => {
                    &&& r is None
                    &&& final(world).store.slots@ == slots1
                    &&& final(world).input.aim_movement == aim1
                },
                Some(pid) => {
                    let d = slots1[pid as int]->Some_0;
                    let t = d.transform->Some_0;
                    let yaw1 = spec_aim_yaw(t.orientation->YawPitch_yaw, aim1.x, dt_ms);
                    let pitch1 = spec_aim_pitch(t.orientation->YawPitch_pitch, aim1.y, dt_ms);
                    &&& r == Some(yaw1 as i64)
                    &&& final(world).store.slots@ == slots1.update(
                        pid as int,
                        Some(
                            EntityData {
                                transform: Some(
                                    Transform {
                                        orientation: Orientation::YawPitch {
                                            yaw: yaw1 as i64,
                                            pitch: pitch1 as i64,
                                        },
                                        ..t
                                    },
                                ),
                                ..d
                            },
                        ),
                    )
                    &&& final(world).input.aim_movement == (Vec2I { x: 0, y: 0 })
                },
            }
        }),
        final(world).wf(),
{
    crate::input::mouse_motion(&mut world.input, &raw.aim_samples);
    crate::input::input_system(&mut world.input, raw);
    crate::weapon::weapon_load(world);
    proof {
        assert(world.store.slots@ =~= Seq::new(
            old(world).store.slots@.len(),
            |i: int| spec_load_slot(old(world).store.slots@[i]),
        ));
    }
    let r = crate::motion::aim_player(world, dt_ms);
    world.phase = Phase::Aimed;
    r
}

/// Phase two of a tick: apply the movement intent, rotated by the yaw
/// basis the boundary computed for the player's new yaw. Returns whether
/// the fire path will cast a ray this tick, so the boundary knows to
/// produce the forward-ray candidates.
pub fn tick_move(world: &mut World, dt_ms: u32, basis: YawBasis) -> (wants_ray: bool)
    requires
        old(world).wf(),
        old(world).phase == Phase::Aimed,
        basis.wf(),
    ensures
        final(world).phase == Phase::Moved,
        final(world).input == old(world).input,
        final(world).effects.queued@ == old(world).effects.queued@,
        final(world).decal_queue.queued@ == old(world).decal_queue.queued@,
        final(world).sprites.sprites@ == old(world).sprites.sprites@,
        match old(world).store.spec_first_player() {
            None => final(world).store.slots@ == old(world).store.slots@,
            Some(pid) => {
                let d = old(world).store.spec_at(pid);
                let t = d.transform->Some_0;
                let mx = old(world).input.movement.x;
                let my = old(world).input.movement.y;
                let p1 = Vec3I {
                    x: crate::math::sat64(
                        t.translation.x + crate::motion::spec_move_dx(mx, my, basis, dt_ms),
                    ) as i64,
                    y: t.translation.y,
                    z: crate::math::sat64(
                        t.translation.z + crate::motion::spec_move_dz(mx, my, basis, dt_ms),
                    ) as i64,
                };
                final(world).store.slots@ == old(world).store.slots@.update(
                    pid as int,
                    Some(EntityData { transform: Some(Transform { translation: p1, ..t }), ..d }),
                )
            },
        },
        wants_ray == (spec_attack_guard(*final(world)) is Some),
        final(world).wf(),
{
    crate::motion::move_player(world, dt_ms, basis);
    let wants_ray = crate::weapon::fire_ready(world);
    world.phase = Phase::Moved;
    wants_ray
}

/// The store after the fire path alone: the player's weapon fired, or
/// nothing.
pub open spec fn spec_slots_after_attack(w: World, hits: Seq<RayHit>) -> Seq<Option<EntityData>> {
    match spec_attack_guard(w) {
        None => w.store.slots@,
        Some((pid, wid)) => w.store.slots@.update(
            wid as int,
            Some(
                EntityData {
                    weapon: Some(spec_fired(w.store.spec_at(wid).weapon->Some_0)),
                    ..w.store.spec_at(wid)
                },
            ),
        ),
    }
}

/// The decal the tick materializes, if any: the head of the decal queue as
/// the fire path leaves it — an already-queued request first, else the
/// request the fire path itself queues at the nearest collidable hit.
pub open spec fn spec_tick_decal_outcome(w: World, hits: Seq<RayHit>) -> Option<EntityData> {
    let q0 = w.decal_queue.queued@;
    if q0.len() > 0 {
        spec_decal_outcome(q0[0].position, q0[0].normal, q0[0].sprite@, w.sprites.sprites@)
    } else if spec_attack_guard(w) is Some && spec_nearest_hit(w.store, hits) is Some {
        let i = spec_nearest_hit(w.store, hits)->Some_0;
        spec_decal_outcome(hits[i].position, hits[i].normal, "fx_splat"@, w.sprites.sprites@)
    } else {
        None
    }
}

/// The effect the tick materializes, if any: the head of the effect queue
/// (the fire path never adds to it), against the camera as the aging
/// passes leave it.
pub open spec fn spec_tick_effect_outcome(
    w: World,
    slots3: Seq<Option<EntityData>>,
) -> Option<EntityData> {
    let q = w.effects.queued@;
    if q.len() == 0 {
        None
    } else {
        spec_effect_outcome(
            q[0].position,
            q[0].sprite@,
            spec_cam_yaw_seq(slots3),
            w.sprites.sprites@,
        )
    }
}

/// Phase three of a tick: the fire path (gated on the fire edge and a
/// loaded weapon), then aging of effects and decals, then the two spawn
/// passes, which drain and clear both queues. `hits` are the scene
/// geometry's candidates for the player's forward ray, nearest first;
/// they are consulted only when a ray is actually cast. At the end of the
/// tick both queues are empty: an undrained request never survives into
/// the next tick.
pub fn tick_effects(world: &mut World, dt_ms: u32, hits: &Vec<RayHit>) -> (r: TickReport)
    requires
        old(world).wf(),
        old(world).phase == Phase::Moved,
    ensures
        final(world).phase == Phase::Idle,
        final(world).effects.queued@.len() == 0,
        final(world).decal_queue.queued@.len() == 0,
        final(world).input == old(world).input,
        final(world).sprites.sprites@ == old(world).sprites.sprites@,
        r.ray_cast == (spec_attack_guard(*old(world)) is Some),
        r.hit == (spec_attack_guard(*old(world)) is Some && spec_nearest_hit(
            old(world).store,
            hits@,
        ) is Some),
        ({
            let w0 = *old(world);
            let len0 = w0.store.slots@.len();
            let slots1 = spec_slots_after_attack(w0, hits@);
            let slots2 = Seq::new(
                len0,
                |i: int| spec_age_slot(slots1[i], VisualKind::Effect, dt_ms, spec_cam_yaw_seq(slots1)),
            );
            let slots3 = Seq::new(
                len0,
                |i: int| spec_age_slot(slots2[i], VisualKind::Decal, dt_ms, spec_cam_yaw_seq(slots2)),
            );
            let eff = spec_tick_effect_outcome(w0, slots3);
            let slots4 = if eff is Some {
                slots3.push(Some(eff->Some_0))
            } else {
                slots3
            };
            let dec = spec_tick_decal_outcome(w0, hits@);
            let slots5 = if dec is Some {
                slots4.push(Some(dec->Some_0))
            } else {
                slots4
            };
            &&& final(world).store.slots@ == slots5
            &&& r.effect_spawned == (if eff is Some {
                Some(len0 as EntityId)
            } else {
                None::<EntityId>
            })
            &&& r.decal_spawned == (if dec is Some {
                Some(slots4.len() as EntityId)
            } else {
                None::<EntityId>
            })
        }),
        final(world).wf(),
{
    let out = crate::weapon::player_attack(world, hits);
    let ghost w1 = *world;
    crate::lifecycle::animate_effect(world, dt_ms);
    proof {
        assert(world.store.slots@ =~= Seq::new(
            w1.store.slots@.len(),
            |i: int| spec_age_slot(w1.store.slots@[i], VisualKind::Effect, dt_ms, spec_cam_yaw(w1)),
        ));
    }
    let ghost w2 = *world;
    crate::lifecycle::animate_decals(world, dt_ms);
    proof {
        assert(world.store.slots@ =~= Seq::new(
            w2.store.slots@.len(),
            |i: int| spec_age_slot(w2.store.slots@[i], VisualKind::Decal, dt_ms, spec_cam_yaw(w2)),
        ));
    }
    let ghost w3 = *world;
    let effect_spawned = crate::spawn::spawn_effects(world);
    let ghost w4 = *world;
    let decal_spawned = crate::spawn::spawn_decals(world);
    world.phase = Phase::Idle;
    TickReport { ray_cast: out.ray_cast, hit: out.hit, effect_spawned, decal_spawned }
}

} // verus!
