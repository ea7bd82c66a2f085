//! Entities and components.
//!
//! An entity is a stable index into an arena of slots; capability comes from
//! which components a slot carries, not from any hierarchy. Retired entities
//! leave an empty slot behind, so indices of live entities never move.

use vstd::prelude::*;

use crate::math::Vec3I;

verus! {

/// A stable entity identifier: an index into the store's slot arena.
pub type EntityId = usize;

/// Tag marking an entity as a valid ray-cast target. Only tagged entities
/// can register a hit.
#[derive(Clone, Copy, PartialEq, Eq, Structural, Debug)]
pub struct Collidable;

/// Orientation of a spatial entity.
///
/// The player carries yaw and pitch (roll is locked at zero); a billboarded
/// effect carries only the yaw it faces; a decal is fixed to face along the
/// surface normal recorded when it was spawned.
#[derive(Clone, Copy, PartialEq, Eq, Structural, Debug)]
pub enum Orientation {
    /// Yaw then pitch, both in microradians.
    YawPitch { yaw: i64, pitch: i64 },
    /// Yaw only, in microradians (vertical-axis billboard).
    Yaw { yaw: i64 },
    /// Facing along a stored surface normal, in micro-units.
    AlongNormal { normal: Vec3I },
}

/// Spatial presence: a position in micro-units and an orientation.
#[derive(Clone, Copy, PartialEq, Eq, Structural, Debug)]
pub struct Transform {
    pub translation: Vec3I,
    pub orientation: Orientation,
}

/// The player component: a non-owning reference to the player's weapon
/// entity. The reference may dangle; whoever resolves it gets an `Option`.
#[derive(Clone, Copy, PartialEq, Eq, Structural, Debug)]
pub struct Player {
    pub weapon: EntityId,
}

/// A hitscan weapon's reload state machine.
///
/// Well-formed weapons satisfy [`Weapon::wf`]: a loaded weapon has no
/// cooldown pending, and the display frame is one of the two sheet frames.
#[derive(Clone, Copy, PartialEq, Eq, Structural, Debug)]
pub struct Weapon {
    /// Ticks left before the weapon may become loaded again.
    pub cooldown_frames: u32,
    /// Whether the weapon can fire this tick.
    pub loaded: bool,
    /// Which frame of the weapon sprite sheet is shown (0 idle, 1 reloading).
    pub display_frame: u32,
}

impl Weapon {
    pub open spec fn wf(self) -> bool {
        &&& self.loaded ==> self.cooldown_frames == 0
        &&& self.display_frame <= 1
    }

    /// A fresh weapon: no cooldown, not yet loaded, idle frame shown.
    pub fn new() -> (w: Weapon)
        ensures
            w == (Weapon { cooldown_frames: 0, loaded: false, display_frame: 0 }),
            w.wf(),
    {
        Weapon { cooldown_frames: 0, loaded: false, display_frame: 0 }
    }
}

/// A repeating countdown timer, in milliseconds.
///
/// Advancing it by an elapsed duration reports at most one expiry per call,
/// however many whole periods the duration spans; the remainder past the
/// last whole period is kept.
#[derive(Clone, Copy, PartialEq, Eq, Structural, Debug)]
pub struct RepeatTimer {
    pub period_ms: u32,
    pub elapsed_ms: u32,
}

impl RepeatTimer {
    pub open spec fn wf(self) -> bool {
        &&& self.period_ms >= 1
        &&& self.elapsed_ms < self.period_ms
    }

    /// Whether advancing by `dt_ms` crosses the period boundary.
    pub open spec fn spec_fires(self, dt_ms: u32) -> bool {
        self.elapsed_ms + dt_ms >= self.period_ms
    }

    /// The timer after advancing by `dt_ms`: elapsed time accumulates and
    /// wraps modulo the period on expiry.
    pub open spec fn spec_tick(self, dt_ms: u32) -> RepeatTimer {
        RepeatTimer {
            period_ms: self.period_ms,
            elapsed_ms: ((self.elapsed_ms + dt_ms) % (self.period_ms as int)) as u32,
        }
    }

    pub fn new(period_ms: u32) -> (t: RepeatTimer)
        requires
            period_ms >= 1,
        ensures
            t == (RepeatTimer { period_ms, elapsed_ms: 0 }),
            t.wf(),
    {
        RepeatTimer { period_ms, elapsed_ms: 0 }
    }

    /// Advance by `dt_ms`; returns whether the period expired during this
    /// call (at most once per call, by design).
    pub fn tick(&mut self, dt_ms: u32) -> (fired: bool)
        requires
            old(self).wf(),
        ensures
            fired == old(self).spec_fires(dt_ms),
            *final(self) == old(self).spec_tick(dt_ms),
            final(self).wf(),
    {
        let total: u64 = self.elapsed_ms as u64 + dt_ms as u64;
        if total >= self.period_ms as u64 {
            proof {
                vstd::arithmetic::div_mod::lemma_mod_bound(total as int, self.period_ms as int);
            }
            self.elapsed_ms = (total % self.period_ms as u64) as u32;
            true
        } else {
            proof {
                vstd::arithmetic::div_mod::lemma_small_mod(total as nat, self.period_ms as nat);
            }
            self.elapsed_ms = total as u32;
            false
        }
    }
}

/// What kind of short-lived visual an entity is.
#[derive(Clone, Copy, PartialEq, Eq, Structural, Debug)]
pub enum VisualKind {
    /// Billboarded sprite animation; re-faces the camera's yaw every tick.
    Effect,
    /// Surface decal; its orientation is fixed at spawn time.
    Decal,
}

/// A short-lived sprite-sheet entity driven by a repeating timer.
///
/// Well-formed visuals satisfy [`TimedVisual::wf`]: the frame index stays
/// inside the sheet and the timer is well-formed.
#[derive(Clone, Copy, PartialEq, Eq, Structural, Debug)]
pub struct TimedVisual {
    pub timer: RepeatTimer,
    pub frame_index: u32,
    pub total_frames: u32,
    pub kind: VisualKind,
}

impl TimedVisual {
    pub open spec fn wf(self) -> bool {
        &&& self.total_frames >= 1
        &&& self.frame_index < self.total_frames
        &&& self.timer.wf()
    }
}

/// One entity's component set. Absent components are `None`; behaviour is
/// decided by presence alone.
#[derive(Clone, Copy, PartialEq, Eq, Structural, Debug)]
pub struct EntityData {
    pub transform: Option<Transform>,
    pub collidable: Option<Collidable>,
    pub weapon: Option<Weapon>,
    pub player: Option<Player>,
    pub camera: bool,
    pub visual: Option<TimedVisual>,
}

/// The entity store: an arena of slots indexed by [`EntityId`]. Spawning
/// appends a slot; despawning empties one in place, so live ids are stable.
pub struct EntityStore {
    pub slots: Vec<Option<EntityData>>,
}

impl EntityStore {
    /// The store's abstract contents.
    pub open spec fn view(self) -> Seq<Option<EntityData>> {
        self.slots@
    }

    /// Whether `id` names a live entity.
    pub open spec fn spec_live(self, id: EntityId) -> bool {
        id < self.slots@.len() && self.slots@[id as int] is Some
    }

    /// The components of a live entity.
    pub open spec fn spec_at(self, id: EntityId) -> EntityData
        recommends
            self.spec_live(id),
    {
        self.slots@[id as int]->Some_0
    }

    pub fn new() -> (s: EntityStore)
        ensures
            s.slots@ =~= Seq::<Option<EntityData>>::empty(),
    {
        EntityStore { slots: Vec::new() }
    }

    pub fn len(&self) -> (n: usize)
        ensures
            n == self.slots@.len(),
    {
        self.slots.len()
    }

    pub fn live(&self, id: EntityId) -> (r: bool)
        ensures
            r == self.spec_live(id),
    {
        id < self.slots.len() && self.slots[id].is_some()
    }

    /// Read a live entity's components.
    pub fn at(&self, id: EntityId) -> (d: EntityData)
        requires
            self.spec_live(id),
        ensures
            d == self.spec_at(id),
    {
        self.slots[id].unwrap()
    }

    /// Create a new entity holding `d`; its id is the old slot count.
    pub fn spawn(&mut self, d: EntityData) -> (id: EntityId)
        ensures
            id == old(self).slots@.len(),
            final(self).slots@ =~= old(self).slots@.push(Some(d)),
            final(self).spec_live(id),
            final(self).spec_at(id) == d,
    {
        let id = self.slots.len();
        self.slots.push(Some(d));
        id
    }

    /// Retire an entity; its slot stays empty and its id is never reused.
    pub fn despawn(&mut self, id: EntityId)
        requires
            id < old(self).slots@.len(),
        ensures
            final(self).slots@ =~= old(self).slots@.update(id as int, None),
    {
        self.slots[id] = None;
    }

    /// Overwrite a live entity's components.
    pub fn put(&mut self, id: EntityId, d: EntityData)
        requires
            id < old(self).slots@.len(),
        ensures
            final(self).slots@ =~= old(self).slots@.update(id as int, Some(d)),
    {
        self.slots[id] = Some(d);
    }
}

} // verus!
