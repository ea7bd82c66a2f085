//! The world: the entity store plus the tick-scoped resources, with its
//! well-formedness invariant and the component lookups the systems share.

use vstd::prelude::*;

use crate::entity::{EntityData, EntityId, EntityStore, Orientation};
use crate::input::InputData;
use crate::queue::{DecalQueue, Effects, Sprites};

verus! {

/// Pitch is clamped to this many microradians either side of level, just
/// under a quarter turn, so the view never flips over the vertical.
pub const PITCH_LIMIT: i64 = 1_540_000;

/// Where inside a tick the scheduler stands. The three tick phases must
/// run in this order; the phase token makes the ordering a checked
/// contract rather than a convention.
#[derive(Clone, Copy, PartialEq, Eq, Structural, Debug)]
pub enum Phase {
    /// Between ticks: intent capture is next.
    Idle,
    /// Intent captured, loader run, aim applied; movement is next.
    Aimed,
    /// Movement applied; fire, aging and spawning are next.
    Moved,
}

/// A well-formed slot: weapons and visuals satisfy their invariants, a
/// visual always has a transform to draw at, and a player entity has a
/// yaw/pitch transform with pitch inside [`PITCH_LIMIT`].
pub open spec fn wf_slot(s: Option<EntityData>) -> bool {
    match s {
        None => true,
        Some(d) => {
            &&& (d.weapon matches Some(w) ==> w.wf())
            &&& (d.visual matches Some(v) ==> v.wf() && d.transform is Some)
            &&& (d.player is Some ==> player_slot_ok(d) && d.visual is None)
        },
    }
}

/// A player entity carries a yaw/pitch transform with clamped pitch.
pub open spec fn player_slot_ok(d: EntityData) -> bool {
    match d.transform {
        Some(t) => match t.orientation {
            Orientation::YawPitch { yaw, pitch } => -PITCH_LIMIT <= pitch <= PITCH_LIMIT,
            _ => false,
        },
        None => false,
    }
}

/// Whether slot `i` holds a live player entity.
pub open spec fn slot_has_player(slots: Seq<Option<EntityData>>, i: int) -> bool {
    0 <= i < slots.len() && slots[i] is Some && slots[i]->Some_0.player is Some
}

/// The simulation state one scheduler pass advances: the entity arena, the
/// per-tick intent record, the two transient request queues, the sprite
/// registry, and the tick phase token.
pub struct World {
    pub store: EntityStore,
    pub input: InputData,
    pub effects: Effects,
    pub decal_queue: DecalQueue,
    pub sprites: Sprites,
    pub phase: Phase,
}

impl World {
    /// The world invariant: every slot well-formed, at most one player
    /// entity, movement intent in range, every registered sheet non-empty.
    pub open spec fn wf(self) -> bool {
        &&& forall|i: int|
            0 <= i < self.store.slots@.len() ==> wf_slot(#[trigger] self.store.slots@[i])
        &&& forall|i: int, j: int|
            slot_has_player(self.store.slots@, i) && slot_has_player(self.store.slots@, j) ==> i
                == j
        &&& self.input.wf()
        &&& self.sprites.wf()
    }

    /// An empty world between ticks.
    pub fn new() -> (w: World)
        ensures
            w.store.slots@ =~= Seq::<Option<EntityData>>::empty(),
            w.input == InputData::spec_new(),
            w.effects.queued@.len() == 0,
            w.decal_queue.queued@.len() == 0,
            w.sprites.sprites@.len() == 0,
            w.phase == Phase::Idle,
            w.wf(),
    {
        World {
            store: EntityStore::new(),
            input: InputData::new(),
            effects: Effects::new(),
            decal_queue: DecalQueue::new(),
            sprites: Sprites::new(),
            phase: Phase::Idle,
        }
    }
}

/// The first live entity at or after `i` that carries a player component.
pub open spec fn spec_first_player_from(slots: Seq<Option<EntityData>>, i: int) -> Option<EntityId>
    decreases slots.len() - i,
{
    if i < 0 || i >= slots.len() {
        None
    } else if slot_has_player(slots, i) {
        Some(i as EntityId)
    } else {
        spec_first_player_from(slots, i + 1)
    }
}

/// Whether slot `i` holds a live camera entity with a transform.
pub open spec fn slot_has_camera(slots: Seq<Option<EntityData>>, i: int) -> bool {
    0 <= i < slots.len() && slots[i] is Some && slots[i]->Some_0.camera
        && slots[i]->Some_0.transform is Some
}

/// The first live camera entity at or after `i`.
pub open spec fn spec_first_camera_from(slots: Seq<Option<EntityData>>, i: int) -> Option<EntityId>
    decreases slots.len() - i,
{
    if i < 0 || i >= slots.len() {
        None
    } else if slot_has_camera(slots, i) {
        Some(i as EntityId)
    } else {
        spec_first_camera_from(slots, i + 1)
    }
}

impl EntityStore {
    /// The player entity this pass acts on: the first live entity with a
    /// player component (the invariant allows at most one).
    pub open spec fn spec_first_player(self) -> Option<EntityId> {
        spec_first_player_from(self.slots@, 0)
    }

    /// The reference camera: the first live entity carrying a camera and a
    /// transform.
    pub open spec fn spec_first_camera(self) -> Option<EntityId> {
        spec_first_camera_from(self.slots@, 0)
    }

    /// Find the player entity, if one exists.
    pub fn find_player(&self) -> (r: Option<EntityId>)
        ensures
            r == self.spec_first_player(),
            r matches Some(id) ==> self.spec_live(id) && self.spec_at(id).player is Some,
    {
        let n = self.slots.len();
        let mut i: usize = 0;
        while i < n
            invariant
                i <= n,
                n == self.slots@.len(),
                self.spec_first_player() == spec_first_player_from(self.slots@, i as int),
            decreases n - i,
        {
            if self.live(i) && self.at(i).player.is_some() {
                return Some(i);
            }
            i = i + 1;
        }
        None
    }

    /// Find the reference camera entity, if one exists.
    pub fn find_camera(&self) -> (r: Option<EntityId>)
        ensures
            r == self.spec_first_camera(),
            r matches Some(id) ==> self.spec_live(id) && self.spec_at(id).camera && self.spec_at(
                id,
            ).transform is Some,
    {
        let n = self.slots.len();
        let mut i: usize = 0;
        while i < n
            invariant
                i <= n,
                n == self.slots@.len(),
                self.spec_first_camera() == spec_first_camera_from(self.slots@, i as int),
            decreases n - i,
        {
            if self.live(i) && self.at(i).camera && self.at(i).transform.is_some() {
                return Some(i);
            }
            i = i + 1;
        }
        None
    }
}

/// The yaw a transform presents to a vertical-axis billboard: its own yaw
/// where it has one, level otherwise.
pub open spec fn spec_yaw_of(o: Orientation) -> i64 {
    match o {
        Orientation::YawPitch { yaw, pitch } => yaw,
        Orientation::Yaw { yaw } => yaw,
        Orientation::AlongNormal { normal } => 0,
    }
}

/// Extract a transform's billboard yaw.
pub fn yaw_of(o: &Orientation) -> (y: i64)
    ensures
        y == spec_yaw_of(*o),
{
    match o {
        Orientation::YawPitch { yaw, pitch } => *yaw,
        Orientation::Yaw { yaw } => *yaw,
        Orientation::AlongNormal { normal } => 0,
    }
}

} // verus!
