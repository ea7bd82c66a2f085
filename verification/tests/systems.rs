//! Unit-level checks of the individual systems and components.

use hitscan_core::entity::{
    Collidable, EntityData, Orientation, Player, RepeatTimer, TimedVisual, Transform, VisualKind,
    Weapon,
};
use hitscan_core::input::{input_system, mouse_motion, InputData, RawInput};
use hitscan_core::lifecycle::{animate_decals, animate_effect};
use hitscan_core::math::{clamp64, sat_add, sat_mul, Vec2I, Vec3I};
use hitscan_core::queue::Sprites;
use hitscan_core::spawn::{spawn_decals, spawn_effects};
use hitscan_core::weapon::{player_attack, weapon_load, RayHit};
use hitscan_core::world::World;

fn empty_entity() -> EntityData {
    EntityData {
        transform: None,
        collidable: None,
        weapon: None,
        player: None,
        camera: false,
        visual: None,
    }
}

fn visual_entity(kind: VisualKind, frames: u32, period_ms: u32) -> EntityData {
    EntityData {
        transform: Some(Transform {
            translation: Vec3I { x: 0, y: 0, z: 0 },
            orientation: Orientation::YawPitch { yaw: 0, pitch: 0 },
        }),
        visual: Some(TimedVisual {
            timer: RepeatTimer { period_ms, elapsed_ms: 0 },
            frame_index: 0,
            total_frames: frames,
            kind,
        }),
        ..empty_entity()
    }
}

#[test]
fn cooldown_counts_down_one_per_tick_and_arms_next_tick() {
    // After firing: cooldown exactly 15, minus one per loader pass down
    // to zero, loaded only on the pass after zero, never earlier.
    let mut w = World::new();
    let wid = w.store.spawn(EntityData {
        weapon: Some(Weapon {
            cooldown_frames: 0,
            loaded: true,
            display_frame: 0,
        }),
        ..empty_entity()
    });
    let pid = w.store.spawn(EntityData {
        transform: Some(Transform {
            translation: Vec3I { x: 0, y: 0, z: 0 },
            orientation: Orientation::YawPitch { yaw: 0, pitch: 0 },
        }),
        player: Some(Player { weapon: wid }),
        camera: true,
        ..empty_entity()
    });
    assert_eq!(pid, 1);
    w.input.fire = true;
    let out = player_attack(&mut w, &Vec::new());
    assert!(out.ray_cast);
    assert_eq!(w.store.at(wid).weapon.unwrap().cooldown_frames, 15);
    w.input.fire = false;
    for expect in (0..15).rev() {
        weapon_load(&mut w);
        let wep = w.store.at(wid).weapon.unwrap();
        assert_eq!(wep.cooldown_frames, expect);
        assert!(!wep.loaded);
        assert_eq!(wep.display_frame, 1);
    }
    weapon_load(&mut w);
    let wep = w.store.at(wid).weapon.unwrap();
    assert!(wep.loaded);
    assert_eq!(wep.cooldown_frames, 0);
    assert_eq!(wep.display_frame, 0);
}

#[test]
fn firing_unloaded_changes_nothing() {
    // Fire with loaded == false: no ray cast, no request, no cooldown
    // change.
    let mut w = World::new();
    let wid = w.store.spawn(EntityData {
        weapon: Some(Weapon {
            cooldown_frames: 0,
            loaded: false,
            display_frame: 0,
        }),
        ..empty_entity()
    });
    w.store.spawn(EntityData {
        transform: Some(Transform {
            translation: Vec3I { x: 0, y: 0, z: 0 },
            orientation: Orientation::YawPitch { yaw: 0, pitch: 0 },
        }),
        player: Some(Player { weapon: wid }),
        camera: true,
        ..empty_entity()
    });
    let cid = w.store.spawn(EntityData {
        collidable: Some(Collidable),
        ..empty_entity()
    });
    w.input.fire = true;
    let hits = vec![RayHit {
        entity: cid,
        position: Vec3I { x: 1, y: 2, z: 3 },
        normal: Vec3I { x: 0, y: 1_000_000, z: 0 },
    }];
    let out = player_attack(&mut w, &hits);
    assert!(!out.ray_cast);
    assert!(!out.hit);
    assert_eq!(w.decal_queue.queued.len(), 0);
    let wep = w.store.at(wid).weapon.unwrap();
    assert!(!wep.loaded);
    assert_eq!(wep.cooldown_frames, 0);
}

#[test]
fn dangling_weapon_reference_is_skipped_silently() {
    let mut w = World::new();
    w.store.spawn(EntityData {
        transform: Some(Transform {
            translation: Vec3I { x: 0, y: 0, z: 0 },
            orientation: Orientation::YawPitch { yaw: 0, pitch: 0 },
        }),
        player: Some(Player { weapon: 77 }),
        camera: true,
        ..empty_entity()
    });
    w.input.fire = true;
    let out = player_attack(&mut w, &Vec::new());
    assert!(!out.ray_cast);
    assert_eq!(w.decal_queue.queued.len(), 0);
}

#[test]
fn queues_clear_even_without_a_sink() {
    // Requests that find no camera or no known sprite are dropped, not
    // retried: both queues are empty after the spawn passes.
    let mut w = World::new();
    w.effects
        .push(Vec3I { x: 0, y: 0, z: 0 }, "fx_splat".to_owned());
    w.decal_queue.push(
        Vec3I { x: 0, y: 0, z: 0 },
        Vec3I { x: 0, y: 1_000_000, z: 0 },
        "fx_splat".to_owned(),
    );
    let before = w.store.len();
    let e = spawn_effects(&mut w);
    let d = spawn_decals(&mut w);
    // No camera and an empty registry: nothing spawns.
    assert!(e.is_none());
    assert!(d.is_none());
    assert_eq!(w.store.len(), before);
    assert_eq!(w.effects.queued.len(), 0);
    assert_eq!(w.decal_queue.queued.len(), 0);
}

#[test]
fn unknown_sprite_key_skips_spawn_but_clears() {
    let mut w = World::new();
    w.sprites.insert("fx_splat".to_owned(), 1);
    w.decal_queue.push(
        Vec3I { x: 0, y: 0, z: 0 },
        Vec3I { x: 0, y: 1_000_000, z: 0 },
        "fx_missing".to_owned(),
    );
    let d = spawn_decals(&mut w);
    assert!(d.is_none());
    assert_eq!(w.decal_queue.queued.len(), 0);
}

#[test]
fn movement_axis_override_order() {
    // Back overrides forward, right overrides left: the later check
    // overwrites the axis.
    let mut input = InputData::new();
    let raw = RawInput {
        forward: true,
        back: true,
        left: true,
        right: true,
        fire: false,
        aim_samples: Vec::new(),
    };
    input_system(&mut input, &raw);
    assert_eq!(input.movement, Vec2I { x: 1, y: -1 });
    assert!(!input.fire);
}

#[test]
fn aim_delta_accumulates_across_ticks_until_consumed() {
    let mut input = InputData::new();
    mouse_motion(
        &mut input,
        &vec![Vec2I { x: 3, y: -2 }, Vec2I { x: 4, y: 1 }],
    );
    assert_eq!(input.aim_movement, Vec2I { x: 7, y: -1 });
    // The per-tick reset touches movement and fire, never the aim delta.
    let raw = RawInput {
        forward: false,
        back: false,
        left: false,
        right: false,
        fire: true,
        aim_samples: Vec::new(),
    };
    input_system(&mut input, &raw);
    assert_eq!(input.aim_movement, Vec2I { x: 7, y: -1 });
    mouse_motion(&mut input, &vec![Vec2I { x: 1, y: 1 }]);
    assert_eq!(input.aim_movement, Vec2I { x: 8, y: 0 });
}

#[test]
fn timer_single_expiry_keeps_remainder_modulo_period() {
    let mut t = RepeatTimer {
        period_ms: 100,
        elapsed_ms: 0,
    };
    assert!(!t.tick(60));
    assert_eq!(t.elapsed_ms, 60);
    assert!(t.tick(190));
    assert_eq!(t.elapsed_ms, 50);
}

#[test]
fn one_frame_visual_retires_on_first_expiry() {
    // total_frames == 1: the first expiry wraps the index to zero, so the
    // entity is removed in that same tick.
    let mut w = World::new();
    let id = w.store.spawn(visual_entity(VisualKind::Decal, 1, 10_000));
    animate_decals(&mut w, 5_000);
    assert!(w.store.live(id));
    animate_decals(&mut w, 5_000);
    assert!(!w.store.live(id));
}

#[test]
fn frame_index_wraps_and_entity_retires_on_cycle() {
    // A two-frame effect: first expiry steps to frame 1, second expiry
    // wraps to 0 and retires the entity.
    let mut w = World::new();
    let id = w.store.spawn(visual_entity(VisualKind::Effect, 2, 100));
    animate_effect(&mut w, 100);
    let v = w.store.at(id).visual.unwrap();
    assert_eq!(v.frame_index, 1);
    animate_effect(&mut w, 100);
    assert!(!w.store.live(id));
}

#[test]
fn effects_billboard_to_camera_yaw_every_tick() {
    let mut w = World::new();
    let id = w.store.spawn(visual_entity(VisualKind::Effect, 4, 1_000));
    w.store.spawn(EntityData {
        transform: Some(Transform {
            translation: Vec3I { x: 0, y: 0, z: 0 },
            orientation: Orientation::YawPitch {
                yaw: 123_456,
                pitch: 9,
            },
        }),
        camera: true,
        ..empty_entity()
    });
    animate_effect(&mut w, 10);
    let t = w.store.at(id).transform.unwrap();
    assert_eq!(t.orientation, Orientation::Yaw { yaw: 123_456 });
}

#[test]
fn decals_keep_their_spawn_orientation() {
    let mut w = World::new();
    let mut d = visual_entity(VisualKind::Decal, 4, 1_000);
    d.transform = Some(Transform {
        translation: Vec3I { x: 0, y: 0, z: 0 },
        orientation: Orientation::AlongNormal {
            normal: Vec3I { x: 0, y: 0, z: 1_000_000 },
        },
    });
    let id = w.store.spawn(d);
    w.store.spawn(EntityData {
        transform: Some(Transform {
            translation: Vec3I { x: 0, y: 0, z: 0 },
            orientation: Orientation::YawPitch { yaw: 123_456, pitch: 0 },
        }),
        camera: true,
        ..empty_entity()
    });
    animate_decals(&mut w, 10);
    let t = w.store.at(id).transform.unwrap();
    assert_eq!(
        t.orientation,
        Orientation::AlongNormal {
            normal: Vec3I { x: 0, y: 0, z: 1_000_000 }
        }
    );
}

#[test]
fn sprite_lookup_first_match_and_missing() {
    let mut s = Sprites::new();
    s.insert("wep_pistol".to_owned(), 2);
    s.insert("fx_splat".to_owned(), 1);
    s.insert("fx_splat".to_owned(), 9);
    assert_eq!(s.lookup(&"wep_pistol".to_owned()), Some(2));
    assert_eq!(s.lookup(&"fx_splat".to_owned()), Some(1));
    assert_eq!(s.lookup(&"fx_other".to_owned()), None);
}

#[test]
fn saturating_arithmetic_pins_the_extremes() {
    assert_eq!(sat_add(i64::MAX, 1), i64::MAX);
    assert_eq!(sat_add(i64::MIN, -1), i64::MIN);
    assert_eq!(sat_add(40, 2), 42);
    assert_eq!(sat_mul(i64::MAX, 2), i64::MAX);
    assert_eq!(sat_mul(i64::MIN, 2), i64::MIN);
    assert_eq!(sat_mul(-6, 7), -42);
    assert_eq!(clamp64(5, -3, 3), 3);
    assert_eq!(clamp64(-5, -3, 3), -3);
    assert_eq!(clamp64(2, -3, 3), 2);
}

#[test]
fn pitch_never_leaves_clamp_range_under_wild_aim() {
    let mut w = World::new();
    w.store.spawn(EntityData {
        transform: Some(Transform {
            translation: Vec3I { x: 0, y: 0, z: 0 },
            orientation: Orientation::YawPitch { yaw: 0, pitch: 0 },
        }),
        player: Some(Player { weapon: 0 }),
        camera: true,
        ..empty_entity()
    });
    let deltas = [i64::MAX, i64::MIN, 1_000_000_000, -1_000_000_000, 7, -7];
    for d in deltas {
        w.input.aim_movement = Vec2I { x: 0, y: d };
        hitscan_core::motion::aim_player(&mut w, 1000);
        let t = w.store.at(0).transform.unwrap();
        match t.orientation {
            Orientation::YawPitch { pitch, .. } => {
                assert!((-1_540_000..=1_540_000).contains(&pitch));
            }
            _ => panic!("player keeps a yaw/pitch orientation"),
        }
    }
}
