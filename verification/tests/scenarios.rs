//! End-to-end scenarios over the tick pipeline.

use hitscan_core::entity::{EntityData, Orientation, VisualKind};
use hitscan_core::input::RawInput;
use hitscan_core::math::{Vec2I, Vec3I};
use hitscan_core::motion::YawBasis;
use hitscan_core::schedule::{setup, tick_effects, tick_input, tick_move};
use hitscan_core::weapon::{player_attack, weapon_load, RayHit};
use hitscan_core::world::World;

fn idle_raw() -> RawInput {
    RawInput {
        forward: false,
        back: false,
        left: false,
        right: false,
        fire: false,
        aim_samples: Vec::new(),
    }
}

fn fire_raw() -> RawInput {
    RawInput { fire: true, ..idle_raw() }
}

fn level_basis() -> YawBasis {
    YawBasis { cos_milli: 1000, sin_milli: 0 }
}

/// Run one whole idle tick so the loader arms the freshly created pistol.
fn setup_loaded() -> World {
    let mut w = setup();
    tick_input(&mut w, &idle_raw(), 16);
    tick_move(&mut w, 16, level_basis());
    tick_effects(&mut w, 16, &Vec::new());
    assert!(w.store.at(2).weapon.unwrap().loaded);
    w
}

/// A candidate hit on the obstacle, three units ahead of the player.
fn obstacle_hit() -> RayHit {
    RayHit {
        entity: 1,
        position: Vec3I { x: 0, y: 1_500_000, z: 1_000_000 },
        normal: Vec3I { x: 0, y: 0, z: 1_000_000 },
    }
}

#[test]
fn scenario_hit_queues_one_decal_request() {
    // Loaded weapon, collidable ahead, fire: exactly one decal request at
    // the surface point, weapon unloaded with full cooldown.
    let mut w = setup_loaded();
    w.input.fire = true;
    let hits = vec![obstacle_hit()];
    let out = player_attack(&mut w, &hits);
    assert!(out.ray_cast);
    assert!(out.hit);
    assert_eq!(w.decal_queue.queued.len(), 1);
    let req = &w.decal_queue.queued[0];
    assert_eq!(req.position, Vec3I { x: 0, y: 1_500_000, z: 1_000_000 });
    assert_eq!(req.normal, Vec3I { x: 0, y: 0, z: 1_000_000 });
    assert_eq!(req.sprite, "fx_splat");
    let wep = w.store.at(2).weapon.unwrap();
    assert!(!wep.loaded);
    assert_eq!(wep.cooldown_frames, 15);
    assert_eq!(w.effects.queued.len(), 0);
}

#[test]
fn scenario_hit_full_tick_spawns_decal() {
    let mut w = setup_loaded();
    tick_input(&mut w, &fire_raw(), 16);
    let wants = tick_move(&mut w, 16, level_basis());
    assert!(wants);
    let hits = vec![obstacle_hit()];
    let report = tick_effects(&mut w, 16, &hits);
    assert!(report.ray_cast);
    assert!(report.hit);
    let id = report.decal_spawned.expect("a decal entity should spawn");
    let d = w.store.at(id);
    let t = d.transform.unwrap();
    assert_eq!(t.translation, Vec3I { x: 0, y: 1_500_000, z: 1_000_000 });
    assert_eq!(
        t.orientation,
        Orientation::AlongNormal { normal: Vec3I { x: 0, y: 0, z: 1_000_000 } }
    );
    let v = d.visual.unwrap();
    assert_eq!(v.kind, VisualKind::Decal);
    assert_eq!(v.total_frames, 1);
    assert_eq!(v.frame_index, 0);
    assert_eq!(v.timer.period_ms, 10_000);
    // The queue was drained in the same tick.
    assert_eq!(w.decal_queue.queued.len(), 0);
}

#[test]
fn scenario_miss_consumes_fire_without_requests() {
    // Loaded weapon, nothing along the ray: fire is still consumed.
    let mut w = setup_loaded();
    tick_input(&mut w, &fire_raw(), 16);
    tick_move(&mut w, 16, level_basis());
    let report = tick_effects(&mut w, 16, &Vec::new());
    assert!(report.ray_cast);
    assert!(!report.hit);
    assert!(report.decal_spawned.is_none());
    let wep = w.store.at(2).weapon.unwrap();
    assert!(!wep.loaded);
    assert_eq!(wep.cooldown_frames, 15);
    assert_eq!(w.decal_queue.queued.len(), 0);
    assert_eq!(w.effects.queued.len(), 0);
}

#[test]
fn scenario_cooldown_one_needs_two_ticks_to_load() {
    // Unloaded with cooldown 1: one loader pass reaches zero but does not
    // arm; the next pass arms.
    let mut w = setup();
    {
        let d = w.store.at(2);
        let mut wep = d.weapon.unwrap();
        wep.cooldown_frames = 1;
        wep.loaded = false;
        w.store.put(2, EntityData { weapon: Some(wep), ..d });
    }
    weapon_load(&mut w);
    let wep = w.store.at(2).weapon.unwrap();
    assert_eq!(wep.cooldown_frames, 0);
    assert!(!wep.loaded);
    weapon_load(&mut w);
    let wep = w.store.at(2).weapon.unwrap();
    assert_eq!(wep.cooldown_frames, 0);
    assert!(wep.loaded);
}

#[test]
fn scenario_two_effect_requests_one_spawn() {
    // Two requests queued in one tick: exactly one entity results; the
    // second is discarded, not deferred.
    let mut w = setup();
    let before = w.store.len();
    w.effects.push(Vec3I { x: 1, y: 2, z: 3 }, "fx_splat".to_owned());
    w.effects.push(Vec3I { x: 4, y: 5, z: 6 }, "fx_splat".to_owned());
    let spawned = hitscan_core::spawn::spawn_effects(&mut w);
    assert!(spawned.is_some());
    assert_eq!(w.store.len(), before + 1);
    assert_eq!(w.effects.queued.len(), 0);
    let d = w.store.at(spawned.unwrap());
    assert_eq!(d.transform.unwrap().translation, Vec3I { x: 1, y: 2, z: 3 });
    assert_eq!(d.visual.unwrap().kind, VisualKind::Effect);
    assert_eq!(d.visual.unwrap().timer.period_ms, 100);
}

#[test]
fn scenario_single_expiry_advances_one_frame() {
    // Four frames, period 0.1; 0.4 time-units in one call advance the
    // index by one, not four: expiry is a single-shot check per call.
    let mut w = setup();
    w.effects.push(Vec3I { x: 0, y: 0, z: 0 }, "wep_pistol".to_owned());
    let id = hitscan_core::spawn::spawn_effects(&mut w).unwrap();
    {
        // Give the spawned visual a four-frame sheet for the check.
        let d = w.store.at(id);
        let mut v = d.visual.unwrap();
        v.total_frames = 4;
        w.store.put(id, EntityData { visual: Some(v), ..d });
    }
    hitscan_core::lifecycle::animate_effect(&mut w, 400);
    let v = w.store.at(id).visual.unwrap();
    assert_eq!(v.frame_index, 1);
    assert_eq!(v.timer.elapsed_ms, 0);
}

#[test]
fn scenario_aim_then_fire_misses_after_turn() {
    // A second candidate that is not collidable is not a hit; the first
    // collidable candidate wins even behind a non-collidable one.
    let mut w = setup_loaded();
    w.input.fire = true;
    let hits = vec![
        RayHit {
            // The pistol entity carries no collidable tag.
            entity: 2,
            position: Vec3I { x: 0, y: 0, z: 0 },
            normal: Vec3I { x: 0, y: 0, z: 1_000_000 },
        },
        obstacle_hit(),
    ];
    let out = player_attack(&mut w, &hits);
    assert!(out.ray_cast);
    assert!(out.hit);
    assert_eq!(w.decal_queue.queued.len(), 1);
    assert_eq!(w.decal_queue.queued[0].position, obstacle_hit().position);
}

#[test]
fn scenario_movement_advances_half_unit() {
    // Forward intent at level yaw for 100 ms at 5 units per second moves
    // half a unit toward negative z.
    let mut w = setup();
    let raw = RawInput { forward: true, ..idle_raw() };
    tick_input(&mut w, &raw, 100);
    tick_move(&mut w, 100, level_basis());
    let t = w.store.at(3).transform.unwrap();
    assert_eq!(t.translation, Vec3I { x: 0, y: 1_500_000, z: 3_500_000 });
    tick_effects(&mut w, 100, &Vec::new());
}

#[test]
fn scenario_aim_applies_and_is_consumed() {
    // One pointer sample of (100, -50) over a 1000 ms tick turns yaw by
    // -8_000_000 and pitch by 4_000_000 microradians before the clamp;
    // pitch clamps at 1_540_000. The delta is consumed.
    let mut w = setup();
    let raw = RawInput {
        aim_samples: vec![Vec2I { x: 100, y: -50 }],
        ..idle_raw()
    };
    let yaw = tick_input(&mut w, &raw, 1000);
    assert_eq!(yaw, Some(-8_000_000));
    let t = w.store.at(3).transform.unwrap();
    match t.orientation {
        Orientation::YawPitch { yaw, pitch } => {
            assert_eq!(yaw, -8_000_000);
            assert_eq!(pitch, 1_540_000);
        }
        _ => panic!("player keeps a yaw/pitch orientation"),
    }
    assert_eq!(w.input.aim_movement, Vec2I { x: 0, y: 0 });
    tick_move(&mut w, 1000, level_basis());
    tick_effects(&mut w, 1000, &Vec::new());
}
