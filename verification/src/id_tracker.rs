//! Identity resolution: which character stands behind which object.
//!
//! Object ids are handed out anew whenever a character enters a zone; the
//! character id stays. The tracker keeps the association in both directions
//! and remembers which object is the local player.

use std::collections::HashMap;
use vstd::prelude::*;
use vstd::std_specs::hash::*;

verus! {

broadcast use group_hash_axioms;

/// The association as two maps and the local player's object id.
pub struct IdView {
    /// Object id to character id.
    pub characters: Map<u64, u64>,
    /// Character id to object id.
    pub objects: Map<u64, u64>,
    pub local_player: u64,
}

impl IdView {
    pub open spec fn empty() -> IdView {
        IdView { characters: Map::empty(), objects: Map::empty(), local_player: 0 }
    }

    /// The two maps are inverse to each other: every object has at most one
    /// character and every character at most one object.
    pub open spec fn wf(self) -> bool {
        &&& forall|o: u64| #[trigger]
            self.characters.contains_key(o) ==> self.objects.contains_key(self.characters[o])
                && self.objects[self.characters[o]] == o
        &&& forall|c: u64| #[trigger]
            self.objects.contains_key(c) ==> self.characters.contains_key(self.objects[c])
                && self.characters[self.objects[c]] == c
    }

    pub open spec fn character_of(self, object_id: u64) -> Option<u64> {
        if self.characters.contains_key(object_id) {
            Some(self.characters[object_id])
        } else {
            None
        }
    }

    pub open spec fn object_of(self, character_id: u64) -> Option<u64> {
        if self.objects.contains_key(character_id) {
            Some(self.objects[character_id])
        } else {
            None
        }
    }

    /// Ties `object_id` and `character_id` together. Whatever either of them
    /// was tied to before is let go.
    pub open spec fn bind(self, object_id: u64, character_id: u64) -> IdView {
        let characters = match self.object_of(character_id) {
            Some(o) => self.characters.remove(o),
            None => self.characters,
        };
        let objects = match self.character_of(object_id) {
            Some(c) => self.objects.remove(c),
            None => self.objects,
        };
        IdView {
            characters: characters.insert(object_id, character_id),
            objects: objects.insert(character_id, object_id),
            local_player: self.local_player,
        }
    }

    /// All associations forgotten; the local player stays.
    pub open spec fn cleared(self) -> IdView {
        IdView { characters: Map::empty(), objects: Map::empty(), local_player: self.local_player }
    }
}

pub struct IdTracker {
    object_to_character: HashMap<u64, u64>,
    character_to_object: HashMap<u64, u64>,
    local_player: u64,
}

impl View for IdTracker {
    type V = IdView;

    closed spec fn view(&self) -> IdView {
        IdView {
            characters: self.object_to_character@,
            objects: self.character_to_object@,
            local_player: self.local_player,
        }
    }
}

impl IdTracker {
    pub fn new() -> (tracker: IdTracker)
        ensures
            tracker@ == IdView::empty(),
    {
        IdTracker {
            object_to_character: HashMap::new(),
            character_to_object: HashMap::new(),
            local_player: 0,
        }
    }

    /// Records that `character_id` now lives in `object_id`, overwriting what
    /// was known of either.
    pub fn bind(&mut self, object_id: u64, character_id: u64)
        ensures
            final(self)@ == old(self)@.bind(object_id, character_id),
            old(self)@.wf() ==> final(self)@.wf(),
    {
        let stale_object = self.lookup_object_id(character_id);
        let stale_character = self.lookup_character_id(object_id);
        if let Some(o) = stale_object {
            self.object_to_character.remove(&o);
        }
        if let Some(c) = stale_character {
            self.character_to_object.remove(&c);
        }
        self.object_to_character.insert(object_id, character_id);
        self.character_to_object.insert(character_id, object_id);
        proof {
            if old(self)@.wf() {
                lemma_bind_keeps_wf(old(self)@, object_id, character_id);
            }
        }
    }

    /// The character behind `object_id`, if one is known.
    pub fn lookup_character_id(&self, object_id: u64) -> (found: Option<u64>)
        ensures
            found == self@.character_of(object_id),
    {
        match self.object_to_character.get(&object_id) {
            Some(c) => Some(*c),
            None => None,
        }
    }

    /// The object in which `character_id` currently lives, if one is known.
    pub fn lookup_object_id(&self, character_id: u64) -> (found: Option<u64>)
        ensures
            found == self@.object_of(character_id),
    {
        match self.character_to_object.get(&character_id) {
            Some(o) => Some(*o),
            None => None,
        }
    }

    /// The character behind `object_id`, or 0 when none is known.
    pub fn get_local_character_id(&self, object_id: u64) -> (character_id: u64)
        ensures
            character_id == match self@.character_of(object_id) {
                Some(c) => c,
                None => 0,
            },
    {
        match self.lookup_character_id(object_id) {
            Some(c) => c,
            None => 0,
        }
    }

    pub fn set_local_player(&mut self, object_id: u64)
        ensures
            final(self)@ == (IdView { local_player: object_id, ..old(self)@ }),
    {
        self.local_player = object_id;
    }

    pub fn local_player(&self) -> (object_id: u64)
        ensures
            object_id == self@.local_player,
    {
        self.local_player
    }

    /// Forgets every association. The local player's object id stays.
    pub fn clear(&mut self)
        ensures
            final(self)@ == old(self)@.cleared(),
    {
        self.object_to_character.clear();
        self.character_to_object.clear();
    }
}

/// Binding keeps the two maps inverse to each other.
pub proof fn lemma_bind_keeps_wf(v: IdView, object_id: u64, character_id: u64)
    requires
        v.wf(),
    ensures
        v.bind(object_id, character_id).wf(),
{
    let w = v.bind(object_id, character_id);
    assert forall|o: u64| #[trigger] w.characters.contains_key(o) implies w.objects.contains_key(
        w.characters[o],
    ) && w.objects[w.characters[o]] == o by {
        if o != object_id {
            assert(v.characters.contains_key(o));
            assert(v.objects.contains_key(v.characters[o]));
        }
    }
    assert forall|c: u64| #[trigger] w.objects.contains_key(c) implies w.characters.contains_key(
        w.objects[c],
    ) && w.characters[w.objects[c]] == c by {
        if c != character_id {
            assert(v.objects.contains_key(c));
            assert(v.characters.contains_key(v.objects[c]));
        }
    }
}

/// Binding the same pair twice is binding it once.
pub proof fn lemma_bind_idempotent(v: IdView, object_id: u64, character_id: u64)
    ensures
        v.bind(object_id, character_id).bind(object_id, character_id) == v.bind(
            object_id,
            character_id,
        ),
{
    let w = v.bind(object_id, character_id);
    let x = w.bind(object_id, character_id);
    assert(x.characters =~= w.characters);
    assert(x.objects =~= w.objects);
}

/// After a binding each of the two ids resolves to the other.
pub proof fn lemma_bind_resolves(v: IdView, object_id: u64, character_id: u64)
    ensures
        v.bind(object_id, character_id).character_of(object_id) == Some(character_id),
        v.bind(object_id, character_id).object_of(character_id) == Some(object_id),
{
}

} // verus!
