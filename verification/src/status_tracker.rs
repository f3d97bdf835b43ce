//! The status effects in force.
//!
//! Effects are kept in the order in which they were registered and are
//! addressed by their instance id. An effect is either local, tied to the
//! object it was registered against, or party-wide, shared by the party of
//! its owner.

use crate::id_tracker::{IdTracker, IdView};
use crate::lookup::{
    distinct_by, first_match, lemma_filter_all, lemma_filter_keeps_distinct, lemma_filter_source,
    lemma_filter_step, lemma_first_match_unique,
};
use crate::models::{Entity, EntityView, StatusEffectTargetType};
use crate::party_tracker::{share_party, PartyMemberView, PartyTracker};
use vstd::prelude::*;

verus! {

/// One active status effect.
///
/// `expiration` is `None` for an effect that lasts until it is removed.
#[derive(Clone, Copy, Debug, PartialEq, Eq)]
pub struct StatusEffect {
    pub instance_id: u32,
    pub status_effect_id: u32,
    pub source_id: u64,
    pub target_id: u64,
    pub target_type: StatusEffectTargetType,
    pub expiration: Option<u64>,
}

/// The effect has another instance id.
pub open spec fn other_instance(instance_id: u32) -> spec_fn(StatusEffect) -> bool {
    |e: StatusEffect| e.instance_id != instance_id
}

/// The effect has this instance id.
pub open spec fn this_instance(instance_id: u32) -> spec_fn(StatusEffect) -> bool {
    |e: StatusEffect| e.instance_id == instance_id
}

pub open spec fn instance_key() -> spec_fn(StatusEffect) -> u32 {
    |e: StatusEffect| e.instance_id
}

/// No two effects share an instance id.
pub open spec fn unique_instances(effects: Seq<StatusEffect>) -> bool {
    distinct_by(effects, instance_key())
}

/// Some effect has the instance id.
pub open spec fn knows_instance(effects: Seq<StatusEffect>, instance_id: u32) -> bool {
    exists|k: int| 0 <= k < effects.len() && (#[trigger] effects[k]).instance_id == instance_id
}

/// Some effect is owned by the object or rests on it.
pub open spec fn touches(effects: Seq<StatusEffect>, object_id: u64) -> bool {
    exists|k: int|
        0 <= k < effects.len() && ((#[trigger] effects[k]).source_id == object_id
            || effects[k].target_id == object_id)
}

/// The effects after `register`: an earlier effect of the same instance id
/// gives way, the new one comes last.
pub open spec fn registered(effects: Seq<StatusEffect>, effect: StatusEffect) -> Seq<
    StatusEffect,
> {
    effects.filter(other_instance(effect.instance_id)).push(effect)
}

/// The effect is the one a duration update speaks of.
pub open spec fn addressed(
    effect: StatusEffect,
    instance_id: u32,
    target_id: u64,
    target_type: StatusEffectTargetType,
) -> bool {
    effect.instance_id == instance_id && effect.target_id == target_id && effect.target_type
        == target_type
}

pub open spec fn with_expiration(
    instance_id: u32,
    target_id: u64,
    expiration: u64,
    target_type: StatusEffectTargetType,
) -> spec_fn(StatusEffect) -> StatusEffect {
    |e: StatusEffect|
        if addressed(e, instance_id, target_id, target_type) {
            StatusEffect { expiration: Some(expiration), ..e }
        } else {
            e
        }
}

/// The effects after a duration update: the addressed effect expires at the
/// new tick, every other effect is as before.
pub open spec fn duration_updated(
    effects: Seq<StatusEffect>,
    instance_id: u32,
    target_id: u64,
    expiration: u64,
    target_type: StatusEffectTargetType,
) -> Seq<StatusEffect> {
    effects.map_values(with_expiration(instance_id, target_id, expiration, target_type))
}

/// The effect is not among those that a removal names: another scope, an
/// instance id that is not listed, or an effect that neither belongs to the
/// object nor rests on it.
pub open spec fn outlasts(
    object_id: u64,
    instance_ids: Seq<u32>,
    target_type: StatusEffectTargetType,
) -> spec_fn(StatusEffect) -> bool {
    |e: StatusEffect|
        !(e.target_type == target_type && (e.source_id == object_id || e.target_id == object_id)
            && instance_ids.contains(e.instance_id))
}

pub open spec fn effects_removed(
    effects: Seq<StatusEffect>,
    object_id: u64,
    instance_ids: Seq<u32>,
    target_type: StatusEffectTargetType,
) -> Seq<StatusEffect> {
    effects.filter(outlasts(object_id, instance_ids, target_type))
}

/// The effect is neither owned by the object nor rests on it.
pub open spec fn apart_from(object_id: u64) -> spec_fn(StatusEffect) -> bool {
    |e: StatusEffect| e.source_id != object_id && e.target_id != object_id
}

pub open spec fn object_removed(effects: Seq<StatusEffect>, object_id: u64) -> Seq<StatusEffect> {
    effects.filter(apart_from(object_id))
}

/// The character that an entity stands for: the one the identity tracker
/// knows for its object id, else the one the entity itself carries.
pub open spec fn resolved_character(entity: EntityView, ids: IdView) -> u64 {
    match ids.character_of(entity.id) {
        Some(c) => c,
        None => entity.character_id,
    }
}

/// The character that owns an effect. An owner that the identity tracker
/// does not know is taken to be the observer: party-wide effects reach the
/// observer for the observer's own party.
pub open spec fn owner_character(effect: StatusEffect, ids: IdView, local_character_id: u64) -> u64 {
    match ids.character_of(effect.source_id) {
        Some(c) => c,
        None => local_character_id,
    }
}

/// Whether the effect applies to the entity, as far as the observer can
/// tell. A local effect applies to the object it was registered against. A
/// party-wide effect applies to every entity whose character is in one party
/// with the effect's owner.
pub open spec fn visible_on(
    effect: StatusEffect,
    entity: EntityView,
    local_character_id: u64,
    ids: IdView,
    parties: Seq<PartyMemberView>,
) -> bool {
    match effect.target_type {
        StatusEffectTargetType::Local => effect.target_id == entity.id,
        StatusEffectTargetType::Party => {
            let character = resolved_character(entity, ids);
            character != 0 && share_party(
                parties,
                character,
                owner_character(effect, ids, local_character_id),
            )
        },
    }
}

pub open spec fn visible_to(
    entity: EntityView,
    local_character_id: u64,
    ids: IdView,
    parties: Seq<PartyMemberView>,
) -> spec_fn(StatusEffect) -> bool {
    |e: StatusEffect| visible_on(e, entity, local_character_id, ids, parties)
}

/// The effects that apply to the entity, in the order of their registration.
pub open spec fn effects_on(
    effects: Seq<StatusEffect>,
    entity: EntityView,
    local_character_id: u64,
    ids: IdView,
    parties: Seq<PartyMemberView>,
) -> Seq<StatusEffect> {
    effects.filter(visible_to(entity, local_character_id, ids, parties))
}

pub struct StatusTracker {
    effects: Vec<StatusEffect>,
}

impl View for StatusTracker {
    type V = Seq<StatusEffect>;

    closed spec fn view(&self) -> Seq<StatusEffect> {
        self.effects@
    }
}

impl StatusTracker {
    pub fn new() -> (tracker: StatusTracker)
        ensures
            tracker@ == Seq::<StatusEffect>::empty(),
    {
        StatusTracker { effects: Vec::new() }
    }

    /// Creates the effect, or replaces the one that has its instance id.
    pub fn register(&mut self, effect: StatusEffect)
        ensures
            final(self)@ == registered(old(self)@, effect),
            unique_instances(old(self)@) ==> unique_instances(final(self)@),
    {
        let ghost before = self@;
        let ghost keep = other_instance(effect.instance_id);
        let mut kept: Vec<StatusEffect> = Vec::new();
        let mut i: usize = 0;
        while i < self.effects.len()
            invariant
                0 <= i <= self.effects.len(),
                before == self@,
                keep == other_instance(effect.instance_id),
                kept@ == before.take(i as int).filter(keep),
            decreases self.effects.len() - i,
        {
            let e = self.effects[i];
            proof {
                lemma_filter_step(before, keep, i as int);
            }
            if e.instance_id != effect.instance_id {
                kept.push(e);
            }
            i += 1;
        }
        assert(before.take(i as int) == before);
        kept.push(effect);
        self.effects = kept;
        proof {
            if unique_instances(before) {
                lemma_registered_unique(before, effect);
            }
        }
    }

    /// Moves the expiration of the addressed effect. An instance id that is
    /// not registered, or registered for another target or scope, changes
    /// nothing.
    pub fn update_status_duration(
        &mut self,
        instance_id: u32,
        target_id: u64,
        expiration: u64,
        target_type: StatusEffectTargetType,
    )
        ensures
            final(self)@ == duration_updated(
                old(self)@,
                instance_id,
                target_id,
                expiration,
                target_type,
            ),
            !knows_instance(old(self)@, instance_id) ==> final(self)@ == old(self)@,
            unique_instances(old(self)@) ==> unique_instances(final(self)@),
    {
        let ghost before = self@;
        let ghost change = with_expiration(instance_id, target_id, expiration, target_type);
        let mut changed: Vec<StatusEffect> = Vec::new();
        let mut i: usize = 0;
        while i < self.effects.len()
            invariant
                0 <= i <= self.effects.len(),
                before == self@,
                change == with_expiration(instance_id, target_id, expiration, target_type),
                changed@.len() == i,
                forall|k: int| 0 <= k < i ==> changed@[k] == change(#[trigger] before[k]),
            decreases self.effects.len() - i,
        {
            let e = self.effects[i];
            if e.instance_id == instance_id && e.target_id == target_id && e.target_type
                == target_type {
                changed.push(StatusEffect { expiration: Some(expiration), ..e });
            } else {
                changed.push(e);
            }
            i += 1;
        }
        assert(changed@ =~= before.map_values(change));
        self.effects = changed;
        proof {
            lemma_duration_of_unknown_instance(
                before,
                instance_id,
                target_id,
                expiration,
                target_type,
            );
            assert(distinct_by(before, instance_key()) ==> distinct_by(self@, instance_key()));
        }
    }

    /// Removes the listed instances of the given scope that are owned by the
    /// object or rest on it.
    pub fn remove_status_effects(
        &mut self,
        object_id: u64,
        instance_ids: Vec<u32>,
        target_type: StatusEffectTargetType,
    )
        ensures
            final(self)@ == effects_removed(old(self)@, object_id, instance_ids@, target_type),
            unique_instances(old(self)@) ==> unique_instances(final(self)@),
    {
        let ghost before = self@;
        let ghost keep = outlasts(object_id, instance_ids@, target_type);
        let mut kept: Vec<StatusEffect> = Vec::new();
        let mut i: usize = 0;
        while i < self.effects.len()
            invariant
                0 <= i <= self.effects.len(),
                before == self@,
                keep == outlasts(object_id, instance_ids@, target_type),
                kept@ == before.take(i as int).filter(keep),
            decreases self.effects.len() - i,
        {
            let e = self.effects[i];
            proof {
                lemma_filter_step(before, keep, i as int);
            }
            let named = e.target_type == target_type && (e.source_id == object_id || e.target_id
                == object_id) && contains_id(&instance_ids, e.instance_id);
            if !named {
                kept.push(e);
            }
            i += 1;
        }
        assert(before.take(i as int) == before);
        self.effects = kept;
        proof {
            if unique_instances(before) {
                lemma_filter_keeps_distinct(before, instance_key(), keep);
            }
        }
    }

    /// Removes every effect that the object owns or that rests on it. An
    /// object without effects changes nothing.
    pub fn remove_local_object(&mut self, object_id: u64)
        ensures
            final(self)@ == object_removed(old(self)@, object_id),
            !touches(old(self)@, object_id) ==> final(self)@ == old(self)@,
            unique_instances(old(self)@) ==> unique_instances(final(self)@),
    {
        let ghost before = self@;
        let ghost keep = apart_from(object_id);
        let mut kept: Vec<StatusEffect> = Vec::new();
        let mut i: usize = 0;
        while i < self.effects.len()
            invariant
                0 <= i <= self.effects.len(),
                before == self@,
                keep == apart_from(object_id),
                kept@ == before.take(i as int).filter(keep),
            decreases self.effects.len() - i,
        {
            let e = self.effects[i];
            proof {
                lemma_filter_step(before, keep, i as int);
            }
            if e.source_id != object_id && e.target_id != object_id {
                kept.push(e);
            }
            i += 1;
        }
        assert(before.take(i as int) == before);
        self.effects = kept;
        proof {
            lemma_removal_of_untouched_object(before, object_id);
            if unique_instances(before) {
                lemma_filter_keeps_distinct(before, instance_key(), keep);
            }
        }
    }

    /// Forgets every effect.
    pub fn clear(&mut self)
        ensures
            final(self)@ == Seq::<StatusEffect>::empty(),
    {
        self.effects.clear();
    }

    /// Whether the effect applies to the entity.
    fn applies(
        effect: &StatusEffect,
        entity: &Entity,
        local_character_id: u64,
        ids: &IdTracker,
        parties: &PartyTracker,
    ) -> (visible: bool)
        ensures
            visible == visible_on(*effect, entity@, local_character_id, ids@, parties@),
    {
        match effect.target_type {
            StatusEffectTargetType::Local => effect.target_id == entity.id,
            StatusEffectTargetType::Party => {
                let character = match ids.lookup_character_id(entity.id) {
                    Some(c) => c,
                    None => entity.character_id,
                };
                let owner = match ids.lookup_character_id(effect.source_id) {
                    Some(c) => c,
                    None => local_character_id,
                };
                character != 0 && parties.same_party(character, owner)
            },
        }
    }

    /// The effects that apply to one entity.
    fn effects_for(
        &self,
        entity: &Entity,
        local_character_id: u64,
        ids: &IdTracker,
        parties: &PartyTracker,
    ) -> (found: Vec<StatusEffect>)
        ensures
            found@ == effects_on(self@, entity@, local_character_id, ids@, parties@),
    {
        let ghost all = self@;
        let ghost wanted = visible_to(entity@, local_character_id, ids@, parties@);
        let mut found: Vec<StatusEffect> = Vec::new();
        let mut i: usize = 0;
        while i < self.effects.len()
            invariant
                0 <= i <= self.effects.len(),
                all == self@,
                wanted == visible_to(entity@, local_character_id, ids@, parties@),
                found@ == all.take(i as int).filter(wanted),
            decreases self.effects.len() - i,
        {
            let e = self.effects[i];
            proof {
                lemma_filter_step(all, wanted, i as int);
            }
            if Self::applies(&e, entity, local_character_id, ids, parties) {
                found.push(e);
            }
            i += 1;
        }
        assert(all.take(i as int) == all);
        found
    }

    /// The effects that apply to the source of a hit and those that apply to
    /// its target, as the observer sees them.
    pub fn get_status_effects(
        &self,
        source: &Entity,
        target: &Entity,
        local_character_id: u64,
        ids: &IdTracker,
        parties: &PartyTracker,
    ) -> (found: (Vec<StatusEffect>, Vec<StatusEffect>))
        ensures
            found.0@ == effects_on(self@, source@, local_character_id, ids@, parties@),
            found.1@ == effects_on(self@, target@, local_character_id, ids@, parties@),
    {
        let on_source = self.effects_for(source, local_character_id, ids, parties);
        let on_target = self.effects_for(target, local_character_id, ids, parties);
        (on_source, on_target)
    }

    /// How many effects are registered.
    pub fn len(&self) -> (n: usize)
        ensures
            n == self@.len(),
    {
        self.effects.len()
    }

    /// The effect with the instance id, if one is registered.
    pub fn get(&self, instance_id: u32) -> (found: Option<StatusEffect>)
        ensures
            found == effect_of(self@, instance_id),
    {
        let mut i: usize = 0;
        while i < self.effects.len()
            invariant
                0 <= i <= self.effects.len(),
                forall|j: int| 0 <= j < i ==> !this_instance(instance_id)(#[trigger] self@[j]),
            decreases self.effects.len() - i,
        {
            if self.effects[i].instance_id == instance_id {
                proof {
                    lemma_first_match_unique(self@, this_instance(instance_id), i as int);
                }
                return Some(self.effects[i]);
            }
            i += 1;
        }
        proof {
            lemma_first_match_unique(self@, this_instance(instance_id), i as int);
        }
        None
    }
}

/// The first effect with the instance id, if there is one.
pub open spec fn effect_of(effects: Seq<StatusEffect>, instance_id: u32) -> Option<StatusEffect> {
    let i = first_match(effects, this_instance(instance_id));
    if i < effects.len() {
        Some(effects[i])
    } else {
        None
    }
}

/// Whether `id` is in the list.
fn contains_id(ids: &Vec<u32>, id: u32) -> (found: bool)
    ensures
        found == ids@.contains(id),
{
    let mut i: usize = 0;
    while i < ids.len()
        invariant
            0 <= i <= ids.len(),
            forall|j: int| 0 <= j < i ==> ids@[j] != id,
        decreases ids.len() - i,
    {
        if ids[i] == id {
            return true;
        }
        i += 1;
    }
    false
}

/// Registering keeps instance ids unique.
pub proof fn lemma_registered_unique(effects: Seq<StatusEffect>, effect: StatusEffect)
    requires
        unique_instances(effects),
    ensures
        unique_instances(registered(effects, effect)),
{
    let keep = other_instance(effect.instance_id);
    let kept = effects.filter(keep);
    let after = registered(effects, effect);
    lemma_filter_keeps_distinct(effects, instance_key(), keep);
    assert forall|i: int, j: int| 0 <= i < j < after.len() implies instance_key()(
        #[trigger] after[i],
    ) != instance_key()(#[trigger] after[j]) by {
        if j < kept.len() {
            assert(after[i] == kept[i] && after[j] == kept[j]);
        } else {
            let k = lemma_filter_source(effects, keep, i);
            assert(after[i] == kept[i]);
        }
    }
}

/// A duration update for an instance id that is not registered changes
/// nothing.
pub proof fn lemma_duration_of_unknown_instance(
    effects: Seq<StatusEffect>,
    instance_id: u32,
    target_id: u64,
    expiration: u64,
    target_type: StatusEffectTargetType,
)
    ensures
        !knows_instance(effects, instance_id) ==> duration_updated(
            effects,
            instance_id,
            target_id,
            expiration,
            target_type,
        ) == effects,
{
    if !knows_instance(effects, instance_id) {
        let after = duration_updated(effects, instance_id, target_id, expiration, target_type);
        assert forall|k: int| 0 <= k < effects.len() implies after[k] == effects[k] by {
            assert(effects[k].instance_id != instance_id);
        }
        assert(after =~= effects);
    }
}

/// Removing an object that neither owns an effect nor carries one changes
/// nothing.
pub proof fn lemma_removal_of_untouched_object(effects: Seq<StatusEffect>, object_id: u64)
    ensures
        !touches(effects, object_id) ==> object_removed(effects, object_id) == effects,
{
    if !touches(effects, object_id) {
        assert forall|k: int| 0 <= k < effects.len() implies apart_from(object_id)(
            #[trigger] effects[k],
        ) by {}
        lemma_filter_all(effects, apart_from(object_id));
    }
}

/// An instance id that was never registered is not found among the effects
/// that apply to an entity.
pub proof fn lemma_unknown_instance_not_visible(
    effects: Seq<StatusEffect>,
    instance_id: u32,
    entity: EntityView,
    local_character_id: u64,
    ids: IdView,
    parties: Seq<PartyMemberView>,
)
    requires
        !knows_instance(effects, instance_id),
    ensures
        !knows_instance(effects_on(effects, entity, local_character_id, ids, parties), instance_id),
{
    let wanted = visible_to(entity, local_character_id, ids, parties);
    let found = effects_on(effects, entity, local_character_id, ids, parties);
    assert forall|k: int| 0 <= k < found.len() implies (#[trigger] found[k]).instance_id
        != instance_id by {
        let j = lemma_filter_source(effects, wanted, k);
        assert(effects[j].instance_id != instance_id);
    }
}

} // verus!
