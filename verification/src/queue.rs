//! Tick-scoped request queues and the sprite registry.
//!
//! The queues decouple "hit occurred" from "visual entity spawned" inside a
//! single tick. They are append-only while the tick runs and are cleared
//! unconditionally when drained, whether or not a request found a sink:
//! at-most-once, best-effort delivery, never a retry.

use vstd::prelude::*;

use crate::math::Vec3I;

verus! {

/// A request to spawn a billboarded sprite animation at a position.
pub struct EffectRequest {
    pub position: Vec3I,
    pub sprite: String,
}

/// A request to spawn a surface decal at a hit point, facing along the
/// recorded surface normal.
pub struct DecalRequest {
    pub position: Vec3I,
    pub normal: Vec3I,
    pub sprite: String,
}

/// The tick-scoped effect queue.
pub struct Effects {
    pub queued: Vec<EffectRequest>,
}

impl Effects {
    pub fn new() -> (q: Effects)
        ensures
            q.queued@ =~= Seq::<EffectRequest>::empty(),
    {
        Effects { queued: Vec::new() }
    }

    /// Append a request for this tick.
    pub fn push(&mut self, position: Vec3I, sprite: String)
        ensures
            final(self).queued@.len() == old(self).queued@.len() + 1,
            forall|j: int|
                0 <= j < old(self).queued@.len() ==> final(self).queued@[j] == old(self).queued@[j],
            final(self).queued@.last().position == position,
            final(self).queued@.last().sprite == sprite,
    {
        self.queued.push(EffectRequest { position, sprite });
    }

    /// Drop every queued request, delivered or not.
    pub fn clear(&mut self)
        ensures
            final(self).queued@ =~= Seq::<EffectRequest>::empty(),
    {
        self.queued.clear();
    }
}

/// The tick-scoped decal queue.
pub struct DecalQueue {
    pub queued: Vec<DecalRequest>,
}

impl DecalQueue {
    pub fn new() -> (q: DecalQueue)
        ensures
            q.queued@ =~= Seq::<DecalRequest>::empty(),
    {
        DecalQueue { queued: Vec::new() }
    }

    /// Append a request for this tick.
    pub fn push(&mut self, position: Vec3I, normal: Vec3I, sprite: String)
        ensures
            final(self).queued@.len() == old(self).queued@.len() + 1,
            forall|j: int|
                0 <= j < old(self).queued@.len() ==> final(self).queued@[j] == old(self).queued@[j],
            final(self).queued@.last().position == position,
            final(self).queued@.last().normal == normal,
            final(self).queued@.last().sprite == sprite,
    {
        self.queued.push(DecalRequest { position, normal, sprite });
    }

    /// Drop every queued request, delivered or not.
    pub fn clear(&mut self)
        ensures
            final(self).queued@ =~= Seq::<DecalRequest>::empty(),
    {
        self.queued.clear();
    }
}

/// One sprite sheet the registry knows: its key and how many frames the
/// sheet holds (at least one).
pub struct SpriteSheet {
    pub key: String,
    pub frames: u32,
}

/// The sprite registry: the core never loads assets, it only resolves a
/// string key to a sheet's frame count.
pub struct Sprites {
    pub sprites: Vec<SpriteSheet>,
}

/// First-match lookup of `key` among `sheets`.
pub open spec fn spec_lookup(sheets: Seq<SpriteSheet>, key: Seq<char>) -> Option<u32>
    decreases sheets.len(),
{
    if sheets.len() == 0 {
        None
    } else if sheets[0].key@ == key {
        Some(sheets[0].frames)
    } else {
        spec_lookup(sheets.drop_first(), key)
    }
}

/// Looking up a key whose first match is at `i` skips the unmatched prefix.
proof fn lemma_lookup_skips_prefix(sheets: Seq<SpriteSheet>, key: Seq<char>, i: int)
    requires
        0 <= i <= sheets.len(),
        forall|j: int| 0 <= j < i ==> sheets[j].key@ != key,
    ensures
        spec_lookup(sheets, key) == spec_lookup(sheets.skip(i), key),
    decreases i,
{
    if i > 0 {
        assert(sheets.skip(i - 1).drop_first() =~= sheets.skip(i));
        lemma_lookup_skips_prefix(sheets, key, i - 1);
    } else {
        assert(sheets.skip(0) =~= sheets);
    }
}

/// Under a well-formed registry every resolvable key yields a sheet of at
/// least one frame.
pub proof fn lemma_lookup_frames(sheets: Seq<SpriteSheet>, key: Seq<char>)
    requires
        forall|j: int| 0 <= j < sheets.len() ==> (#[trigger] sheets[j]).frames >= 1,
    ensures
        spec_lookup(sheets, key) matches Some(f) ==> f >= 1,
    decreases sheets.len(),
{
    if sheets.len() > 0 && sheets[0].key@ != key {
        assert(forall|j: int|
            0 <= j < sheets.drop_first().len() ==> (#[trigger] sheets.drop_first()[j]).frames
                >= 1);
        lemma_lookup_frames(sheets.drop_first(), key);
    }
}

impl Sprites {
    pub open spec fn wf(self) -> bool {
        forall|j: int| 0 <= j < self.sprites@.len() ==> (#[trigger] self.sprites@[j]).frames >= 1
    }

    pub fn new() -> (s: Sprites)
        ensures
            s.sprites@ =~= Seq::<SpriteSheet>::empty(),
            s.wf(),
    {
        Sprites { sprites: Vec::new() }
    }

    /// Register a sheet under `key` with `frames` frames.
    pub fn insert(&mut self, key: String, frames: u32)
        requires
            frames >= 1,
        ensures
            final(self).sprites@.len() == old(self).sprites@.len() + 1,
            forall|j: int|
                0 <= j < old(self).sprites@.len() ==> final(self).sprites@[j] == old(self).sprites@[j],
            final(self).sprites@.last().key == key,
            final(self).sprites@.last().frames == frames,
            old(self).wf() ==> final(self).wf(),
    {
        self.sprites.push(SpriteSheet { key, frames });
    }

    /// Resolve a key to its sheet's frame count: the first sheet registered
    /// under that key, or `None` when the key is unknown.
    pub fn lookup(&self, key: &String) -> (r: Option<u32>)
        ensures
            r == spec_lookup(self.sprites@, key@),
    {
        let n = self.sprites.len();
        let mut i: usize = 0;
        while i < n
            invariant
                i <= n,
                n == self.sprites@.len(),
                forall|j: int| 0 <= j < i ==> (#[trigger] self.sprites@[j]).key@ != key@,
            decreases n - i,
        {
            if self.sprites[i].key == *key {
                proof {
                    lemma_lookup_skips_prefix(self.sprites@, key@, i as int);
                    assert(self.sprites@.skip(i as int)[0] == self.sprites@[i as int]);
                }
                return Some(self.sprites[i].frames);
            }
            i = i + 1;
        }
        proof {
            lemma_lookup_skips_prefix(self.sprites@, key@, n as int);
        }
        None
    }
}

} // verus!
