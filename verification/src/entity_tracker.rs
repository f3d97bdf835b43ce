//! The registry of live entities, and the bookkeeping that arrival notices
//! set off in the identity, party and status-effect trackers.
//!
//! The registry owns the three other trackers: an arrival changes several of
//! them at once, and each operation says what becomes of all of them.

use crate::events::{
    InitEnv, InitPc, MigrationExecute, NewNpc, NewNpcSummon, NewPc, NewProjectile, PartyInfo,
    PartyMemberData, PartyStatusEffectAdd, PartyStatusEffectRemove, StatPair, StatusEffectData,
};
use crate::id_tracker::{IdTracker, IdView};
use crate::lookup::{entry, first_match, keyed, lemma_first_match_unique};
use crate::models::{Entity, EntityType, EntityView, StatusEffectTargetType};
use crate::names::{hex_name, hex_text};
use crate::party_tracker::{added, one_party_per_raid, PartyMemberView, PartyTracker};
use crate::status_tracker::{
    effects_removed, object_removed, registered, unique_instances, StatusEffect, StatusTracker,
};
use std::collections::HashMap;
use vstd::prelude::*;
use vstd::std_specs::hash::*;

verus! {

broadcast use group_hash_axioms;

/// The stat that holds the current hit points.
pub const HP_STAT: u8 = 1;

/// The stat that holds the maximal hit points.
pub const MAX_HP_STAT: u8 = 27;

/// A non-player entity of a boss grade counts as a boss only with more hit
/// points than this.
pub const BOSS_MIN_HP: i64 = 10_000;

/// One line of the table that says which class a skill belongs to.
#[derive(Clone, Copy, Debug, PartialEq, Eq)]
pub struct SkillClass {
    pub skill_id: u32,
    pub class_id: u32,
}

/// Which class a skill belongs to. Skills that any entity may use are not
/// listed.
#[derive(Debug)]
pub struct SkillClassTable {
    lines: Vec<SkillClass>,
}

pub open spec fn line_skill() -> spec_fn(SkillClass) -> u32 {
    |line: SkillClass| line.skill_id
}

/// The class of the first line for the skill; 0 when the skill is not
/// listed.
pub open spec fn class_of(lines: Seq<SkillClass>, skill_id: u32) -> u32 {
    match entry(lines, line_skill(), skill_id) {
        Some(line) => line.class_id,
        None => 0,
    }
}

impl View for SkillClassTable {
    type V = Seq<SkillClass>;

    closed spec fn view(&self) -> Seq<SkillClass> {
        self.lines@
    }
}

impl SkillClassTable {
    pub fn new(lines: Vec<SkillClass>) -> (table: SkillClassTable)
        ensures
            table@ == lines@,
    {
        SkillClassTable { lines }
    }

    /// The class that the skill belongs to; 0 for a skill that is not
    /// listed.
    pub fn class_of(&self, skill_id: u32) -> (class_id: u32)
        ensures
            class_id == class_of(self@, skill_id),
    {
        let mut i: usize = 0;
        while i < self.lines.len()
            invariant
                0 <= i <= self.lines.len(),
                forall|j: int| 0 <= j < i ==> !keyed(line_skill(), skill_id)(#[trigger] self@[j]),
            decreases self.lines.len() - i,
        {
            if self.lines[i].skill_id == skill_id {
                proof {
                    lemma_first_match_unique(self@, keyed(line_skill(), skill_id), i as int);
                }
                return self.lines[i].class_id;
            }
            i += 1;
        }
        proof {
            lemma_first_match_unique(self@, keyed(line_skill(), skill_id), i as int);
        }
        0
    }
}

pub open spec fn pair_type() -> spec_fn(StatPair) -> u8 {
    |pair: StatPair| pair.stat_type
}

/// The value of the first pair of the stat type; 0 when there is none.
pub open spec fn stat_value(pairs: Seq<StatPair>, stat_type: u8) -> i64 {
    match entry(pairs, pair_type(), stat_type) {
        Some(pair) => pair.value,
        None => 0,
    }
}

fn stat_of(pairs: &Vec<StatPair>, stat_type: u8) -> (value: i64)
    ensures
        value == stat_value(pairs@, stat_type),
{
    let mut i: usize = 0;
    while i < pairs.len()
        invariant
            0 <= i <= pairs.len(),
            forall|j: int| 0 <= j < i ==> !keyed(pair_type(), stat_type)(#[trigger] pairs@[j]),
        decreases pairs.len() - i,
    {
        if pairs[i].stat_type == stat_type {
            proof {
                lemma_first_match_unique(pairs@, keyed(pair_type(), stat_type), i as int);
            }
            return pairs[i].value;
        }
        i += 1;
    }
    proof {
        lemma_first_match_unique(pairs@, keyed(pair_type(), stat_type), i as int);
    }
    0
}

/// The current and the maximal hit points that a stat list reports, each 0
/// where the list does not hold it.
pub fn get_current_and_max_hp(stat_pairs: &Vec<StatPair>) -> (hp: (i64, i64))
    ensures
        hp.0 == stat_value(stat_pairs@, HP_STAT),
        hp.1 == stat_value(stat_pairs@, MAX_HP_STAT),
{
    (stat_of(stat_pairs, HP_STAT), stat_of(stat_pairs, MAX_HP_STAT))
}

/// The effect that a notice describes, tied to its target.
pub open spec fn built(
    data: StatusEffectData,
    target_id: u64,
    target_type: StatusEffectTargetType,
) -> StatusEffect {
    StatusEffect {
        instance_id: data.effect_instance_id,
        status_effect_id: data.status_effect_id,
        source_id: data.source_id,
        target_id,
        target_type,
        expiration: data.expiration,
    }
}

/// The effects after each of `datas` was registered for the target, first
/// to last.
pub open spec fn registered_all(
    effects: Seq<StatusEffect>,
    datas: Seq<StatusEffectData>,
    target_id: u64,
    target_type: StatusEffectTargetType,
) -> Seq<StatusEffect>
    decreases datas.len(),
{
    if datas.len() == 0 {
        effects
    } else {
        registered(
            registered_all(effects, datas.drop_last(), target_id, target_type),
            built(datas.last(), target_id, target_type),
        )
    }
}

/// The entity that stands for an object id of which nothing is known.
pub open spec fn placeholder(id: u64) -> EntityView {
    EntityView {
        id,
        entity_type: EntityType::Unknown,
        name: hex_text(id as nat),
        npc_id: 0,
        class_id: 0,
        character_id: 0,
        owner_id: 0,
        skill_id: 0,
        skill_effect_id: 0,
        is_boss: false,
    }
}

/// A player's entity.
pub open spec fn pc_entity(
    player_id: u64,
    character_id: u64,
    name: Seq<char>,
    class_id: u32,
) -> EntityView {
    EntityView {
        id: player_id,
        entity_type: EntityType::Player,
        name,
        npc_id: 0,
        class_id,
        character_id,
        owner_id: 0,
        skill_id: 0,
        skill_effect_id: 0,
        is_boss: false,
    }
}

/// A non-player entity. It goes by the name of its kind, or by its object
/// id where the kind has no name. It is marked as a boss when its kind is
/// of a boss grade and it has more than `BOSS_MIN_HP` hit points.
pub open spec fn npc_entity(pkt: NewNpc, max_hp: i64) -> EntityView {
    EntityView {
        id: pkt.object_id,
        entity_type: if pkt.esther {
            EntityType::Esther
        } else {
            EntityType::Npc
        },
        name: if pkt.name@.len() == 0 {
            hex_text(pkt.object_id as nat)
        } else {
            pkt.name@
        },
        npc_id: pkt.type_id,
        class_id: 0,
        character_id: 0,
        owner_id: 0,
        skill_id: 0,
        skill_effect_id: 0,
        is_boss: !pkt.esther && pkt.boss_grade && max_hp > BOSS_MIN_HP,
    }
}

/// A summoned entity: what `npc_entity` makes of it, owned by its summoner.
/// It is a summon unless it is an esther or a boss.
pub open spec fn summon_entity(pkt: NewNpcSummon, max_hp: i64) -> EntityView {
    let npc = npc_entity(pkt.npc, max_hp);
    EntityView {
        entity_type: if npc.entity_type == EntityType::Npc && !npc.is_boss {
            EntityType::Summon
        } else {
            npc.entity_type
        },
        owner_id: pkt.owner_id,
        ..npc
    }
}

/// A projectile goes by its owner's object id.
pub open spec fn projectile_entity(pkt: NewProjectile) -> EntityView {
    EntityView {
        id: pkt.projectile_id,
        entity_type: EntityType::Projectile,
        name: hex_text(pkt.owner_id as nat),
        npc_id: 0,
        class_id: 0,
        character_id: 0,
        owner_id: pkt.owner_id,
        skill_id: pkt.skill_id,
        skill_effect_id: pkt.skill_effect_id,
        is_boss: false,
    }
}

/// An entity of unknown type that uses a skill of a class is a player of
/// that class.
pub open spec fn guessed(entity: EntityView, class_id: u32) -> EntityView {
    if entity.entity_type == EntityType::Unknown && class_id != 0 {
        EntityView { entity_type: EntityType::Player, class_id, ..entity }
    } else {
        entity
    }
}

pub open spec fn entity_views(entities: Map<u64, Entity>) -> Map<u64, EntityView> {
    Map::new(|id: u64| entities.contains_key(id), |id: u64| entities[id]@)
}

pub open spec fn member_is(character_id: u64) -> spec_fn(PartyMemberData) -> bool {
    |m: PartyMemberData| m.character_id == character_id
}

/// The members of a party notice, added one by one. A member's object id
/// is taken from the identity tracker, 0 where it is not known.
pub open spec fn members_added(
    parties: Seq<PartyMemberView>,
    ids: IdView,
    raid_instance_id: u32,
    party_instance_id: u32,
    members: Seq<PartyMemberData>,
) -> Seq<PartyMemberView>
    decreases members.len(),
{
    if members.len() == 0 {
        parties
    } else {
        let m = members.last();
        added(
            members_added(parties, ids, raid_instance_id, party_instance_id, members.drop_last()),
            raid_instance_id,
            party_instance_id,
            m.character_id,
            match ids.object_of(m.character_id) {
                Some(o) => o,
                None => 0,
            },
            Some(m.name@),
        )
    }
}

/// All that the registry and the trackers it owns hold.
pub struct TrackerView {
    pub entities: Map<u64, EntityView>,
    pub local_character_id: u64,
    pub ids: IdView,
    pub parties: Seq<PartyMemberView>,
    pub statuses: Seq<StatusEffect>,
}

impl TrackerView {
    /// Nothing known yet.
    pub open spec fn empty() -> TrackerView {
        TrackerView {
            entities: Map::empty(),
            local_character_id: 0,
            ids: IdView::empty(),
            parties: Seq::empty(),
            statuses: Seq::empty(),
        }
    }

    /// Every entity is filed under its own object id.
    pub open spec fn filed_by_id(self) -> bool {
        forall|id: u64| #[trigger] self.entities.contains_key(id) ==> self.entities[id].id == id
    }

    /// Every entity is filed under its own object id, and the invariants of
    /// the three trackers hold.
    pub open spec fn wf(self) -> bool {
        &&& self.filed_by_id()
        &&& self.ids.wf()
        &&& one_party_per_raid(self.parties)
        &&& unique_instances(self.statuses)
    }

    pub open spec fn entity(self, id: u64) -> Option<EntityView> {
        if self.entities.contains_key(id) {
            Some(self.entities[id])
        } else {
            None
        }
    }

    pub open spec fn entity_or_placeholder(self, id: u64) -> EntityView {
        match self.entity(id) {
            Some(e) => e,
            None => placeholder(id),
        }
    }

    pub open spec fn with_entity(self, entity: EntityView) -> TrackerView {
        TrackerView { entities: self.entities.insert(entity.id, entity), ..self }
    }

    /// The registry after a reference to `id`: an unknown id has its
    /// placeholder, a known one is as it was.
    pub open spec fn get_or_create_entity(self, id: u64) -> TrackerView {
        if self.entities.contains_key(id) {
            self
        } else {
            self.with_entity(placeholder(id))
        }
    }

    /// The object behind an event: the owner for a projectile or a summon,
    /// the object itself otherwise.
    pub open spec fn causer_id(self, id: u64) -> u64 {
        match self.entity(id) {
            Some(e) => if e.entity_type == EntityType::Projectile || e.entity_type
                == EntityType::Summon {
                e.owner_id
            } else {
                id
            },
            None => id,
        }
    }

    pub open spec fn get_source_entity(self, id: u64) -> TrackerView {
        self.get_or_create_entity(self.causer_id(id))
    }

    pub open spec fn guess_is_player(self, entity: EntityView, class_id: u32) -> TrackerView {
        if entity.entity_type == EntityType::Unknown && class_id != 0 {
            self.with_entity(guessed(entity, class_id))
        } else {
            self
        }
    }

    /// The local player's entity in a new zone: what was known of the local
    /// player, under the new object id; or a player that goes by the new
    /// object id.
    pub open spec fn local_entity(self, player_id: u64) -> EntityView {
        match self.entity(self.ids.local_player) {
            Some(e) => EntityView { id: player_id, ..e },
            None => pc_entity(player_id, self.local_character_id, hex_text(player_id as nat), 0),
        }
    }

    /// A change of zone: only the local player is left of the entities, the
    /// identities and the effects of the old zone are gone, the parties
    /// stay.
    pub open spec fn init_env(self, pkt: InitEnv) -> TrackerView {
        let local = self.local_entity(pkt.player_id);
        let ids = IdView { local_player: pkt.player_id, ..self.ids.cleared() };
        TrackerView {
            entities: Map::empty().insert(pkt.player_id, local),
            ids: if local.character_id != 0 {
                ids.bind(pkt.player_id, local.character_id)
            } else {
                ids
            },
            statuses: Seq::empty(),
            ..self
        }
    }

    pub open spec fn init_pc(self, pkt: InitPc) -> TrackerView {
        let player = pc_entity(pkt.player_id, pkt.character_id, pkt.name@, pkt.class_id);
        TrackerView {
            entities: Map::empty().insert(pkt.player_id, player),
            local_character_id: pkt.character_id,
            ids: (IdView { local_player: pkt.player_id, ..self.ids }).bind(
                pkt.player_id,
                pkt.character_id,
            ),
            statuses: registered_all(
                object_removed(self.statuses, pkt.player_id),
                pkt.status_effects@,
                pkt.player_id,
                StatusEffectTargetType::Local,
            ),
            ..self
        }
    }

    pub open spec fn new_pc(self, pkt: NewPc) -> TrackerView {
        let player = pc_entity(pkt.player_id, pkt.character_id, pkt.name@, pkt.class_id);
        TrackerView {
            entities: self.entities.insert(pkt.player_id, player),
            ids: self.ids.bind(pkt.player_id, pkt.character_id),
            statuses: registered_all(
                object_removed(self.statuses, pkt.player_id),
                pkt.status_effects@,
                pkt.player_id,
                StatusEffectTargetType::Local,
            ),
            ..self
        }
    }

    /// An arrival of a non-player entity: the entity is filed, the effects
    /// of whatever had its object id before are gone, its own are
    /// registered.
    pub open spec fn npc_arrived(
        self,
        entity: EntityView,
        status_effects: Seq<StatusEffectData>,
    ) -> TrackerView {
        TrackerView {
            entities: self.entities.insert(entity.id, entity),
            statuses: registered_all(
                object_removed(self.statuses, entity.id),
                status_effects,
                entity.id,
                StatusEffectTargetType::Local,
            ),
            ..self
        }
    }

    pub open spec fn new_npc(self, pkt: NewNpc, max_hp: i64) -> TrackerView {
        self.npc_arrived(npc_entity(pkt, max_hp), pkt.status_effects@)
    }

    pub open spec fn new_npc_summon(self, pkt: NewNpcSummon, max_hp: i64) -> TrackerView {
        self.npc_arrived(summon_entity(pkt, max_hp), pkt.npc.status_effects@)
    }

    pub open spec fn new_projectile(self, pkt: NewProjectile) -> TrackerView {
        self.with_entity(projectile_entity(pkt))
    }

    /// The local character becomes known: the smaller of the account's two
    /// character ids. Once known it stays.
    pub open spec fn migration_execute(self, pkt: MigrationExecute) -> TrackerView {
        if self.local_character_id != 0 {
            self
        } else {
            let character_id = if pkt.account_character_id1 < pkt.account_character_id2 {
                pkt.account_character_id1
            } else {
                pkt.account_character_id2
            };
            TrackerView {
                local_character_id: character_id,
                ids: if self.ids.local_player != 0 && character_id != 0 {
                    self.ids.bind(self.ids.local_player, character_id)
                } else {
                    self.ids
                },
                ..self
            }
        }
    }

    /// The local player's entity as a party notice describes it, where the
    /// notice lists the local character and the local player has an
    /// entity.
    pub open spec fn local_member(self, members: Seq<PartyMemberData>) -> Option<EntityView> {
        let i = first_match(members, member_is(self.local_character_id));
        if self.local_character_id != 0 && i < members.len() && self.entities.contains_key(
            self.ids.local_player,
        ) {
            Some(
                EntityView {
                    name: members[i].name@,
                    class_id: members[i].class_id,
                    character_id: members[i].character_id,
                    ..self.entities[self.ids.local_player]
                },
            )
        } else {
            None
        }
    }

    /// A party notice: every member listed is added to the party, and the
    /// local player's entity takes the name and class under which the
    /// notice lists it. No entity is created.
    pub open spec fn party_info(self, pkt: PartyInfo) -> TrackerView {
        TrackerView {
            entities: match self.local_member(pkt.members@) {
                Some(e) => self.entities.insert(e.id, e),
                None => self.entities,
            },
            parties: members_added(
                self.parties,
                self.ids,
                pkt.raid_instance_id,
                pkt.party_instance_id,
                pkt.members@,
            ),
            ..self
        }
    }

    /// Party-wide effects on a character. They are dropped while the
    /// character's object is not known.
    pub open spec fn party_status_effect_add(self, pkt: PartyStatusEffectAdd) -> TrackerView {
        match self.ids.object_of(pkt.character_id) {
            Some(object_id) => TrackerView {
                statuses: registered_all(
                    self.statuses,
                    pkt.status_effects@,
                    object_id,
                    StatusEffectTargetType::Party,
                ),
                ..self
            },
            None => self,
        }
    }

    pub open spec fn party_status_effect_remove(self, pkt: PartyStatusEffectRemove) -> TrackerView {
        match self.ids.object_of(pkt.character_id) {
            Some(object_id) => TrackerView {
                statuses: effects_removed(
                    self.statuses,
                    object_id,
                    pkt.status_effect_ids@,
                    StatusEffectTargetType::Party,
                ),
                ..self
            },
            None => self,
        }
    }

    pub open spec fn build_and_register_status_effect(
        self,
        data: StatusEffectData,
        object_id: u64,
    ) -> TrackerView {
        TrackerView {
            statuses: registered(
                self.statuses,
                built(data, object_id, StatusEffectTargetType::Local),
            ),
            ..self
        }
    }
}

/// Registers each of `datas` for the target, first to last.
fn register_all(
    statuses: &mut StatusTracker,
    datas: &Vec<StatusEffectData>,
    target_id: u64,
    target_type: StatusEffectTargetType,
)
    ensures
        final(statuses)@ == registered_all(old(statuses)@, datas@, target_id, target_type),
        unique_instances(old(statuses)@) ==> unique_instances(final(statuses)@),
{
    let ghost before = statuses@;
    let mut i: usize = 0;
    while i < datas.len()
        invariant
            0 <= i <= datas.len(),
            statuses@ == registered_all(before, datas@.take(i as int), target_id, target_type),
            unique_instances(before) ==> unique_instances(statuses@),
        decreases datas.len() - i,
    {
        let data = datas[i];
        statuses.register(
            StatusEffect {
                instance_id: data.effect_instance_id,
                status_effect_id: data.status_effect_id,
                source_id: data.source_id,
                target_id,
                target_type,
                expiration: data.expiration,
            },
        );
        proof {
            assert(datas@.take(i + 1).drop_last() =~= datas@.take(i as int));
            assert(datas@.take(i + 1).last() == datas@[i as int]);
        }
        i += 1;
    }
    assert(datas@.take(i as int) =~= datas@);
}

/// Adds each of `members` to the party, first to last.
fn add_members(
    parties: &mut PartyTracker,
    ids: &IdTracker,
    raid_instance_id: u32,
    party_instance_id: u32,
    members: &Vec<PartyMemberData>,
)
    ensures
        final(parties)@ == members_added(
            old(parties)@,
            ids@,
            raid_instance_id,
            party_instance_id,
            members@,
        ),
        one_party_per_raid(old(parties)@) ==> one_party_per_raid(final(parties)@),
{
    let ghost before = parties@;
    let mut i: usize = 0;
    while i < members.len()
        invariant
            0 <= i <= members.len(),
            parties@ == members_added(
                before,
                ids@,
                raid_instance_id,
                party_instance_id,
                members@.take(i as int),
            ),
            one_party_per_raid(before) ==> one_party_per_raid(parties@),
        decreases members.len() - i,
    {
        let m = &members[i];
        let entity_id = match ids.lookup_object_id(m.character_id) {
            Some(o) => o,
            None => 0,
        };
        parties.add(
            raid_instance_id,
            party_instance_id,
            m.character_id,
            entity_id,
            Some(m.name.clone()),
        );
        proof {
            assert(members@.take(i + 1).drop_last() =~= members@.take(i as int));
            assert(members@.take(i + 1).last() == members@[i as int]);
        }
        i += 1;
    }
    assert(members@.take(i as int) =~= members@);
}

/// Index of the first member with the character id; the number of members
/// if there is none.
fn member_position(members: &Vec<PartyMemberData>, character_id: u64) -> (i: usize)
    ensures
        i == first_match(members@, member_is(character_id)),
        i <= members.len(),
{
    let mut i: usize = 0;
    while i < members.len()
        invariant
            0 <= i <= members.len(),
            forall|j: int| 0 <= j < i ==> !member_is(character_id)(#[trigger] members@[j]),
        decreases members.len() - i,
    {
        if members[i].character_id == character_id {
            proof {
                lemma_first_match_unique(members@, member_is(character_id), i as int);
            }
            return i;
        }
        i += 1;
    }
    proof {
        lemma_first_match_unique(members@, member_is(character_id), i as int);
    }
    i
}

fn make_placeholder(id: u64) -> (entity: Entity)
    ensures
        entity@ == placeholder(id),
{
    Entity {
        id,
        entity_type: EntityType::Unknown,
        name: hex_name(id),
        npc_id: 0,
        class_id: 0,
        character_id: 0,
        owner_id: 0,
        skill_id: 0,
        skill_effect_id: 0,
        is_boss: false,
    }
}

fn make_pc(player_id: u64, character_id: u64, name: String, class_id: u32) -> (entity: Entity)
    ensures
        entity@ == pc_entity(player_id, character_id, name@, class_id),
{
    Entity {
        id: player_id,
        entity_type: EntityType::Player,
        name,
        npc_id: 0,
        class_id,
        character_id,
        owner_id: 0,
        skill_id: 0,
        skill_effect_id: 0,
        is_boss: false,
    }
}

fn make_npc(pkt: &NewNpc, max_hp: i64) -> (entity: Entity)
    ensures
        entity@ == npc_entity(*pkt, max_hp),
{
    Entity {
        id: pkt.object_id,
        entity_type: if pkt.esther {
            EntityType::Esther
        } else {
            EntityType::Npc
        },
        name: if pkt.name.as_str().is_empty() {
            hex_name(pkt.object_id)
        } else {
            pkt.name.clone()
        },
        npc_id: pkt.type_id,
        class_id: 0,
        character_id: 0,
        owner_id: 0,
        skill_id: 0,
        skill_effect_id: 0,
        is_boss: !pkt.esther && pkt.boss_grade && max_hp > BOSS_MIN_HP,
    }
}

pub struct EntityTracker {
    pub entities: HashMap<u64, Entity>,
    /// The local player's character; 0 until it is known.
    pub local_character_id: u64,
    pub ids: IdTracker,
    pub parties: PartyTracker,
    pub statuses: StatusTracker,
}

impl View for EntityTracker {
    type V = TrackerView;

    open spec fn view(&self) -> TrackerView {
        TrackerView {
            entities: entity_views(self.entities@),
            local_character_id: self.local_character_id,
            ids: self.ids@,
            parties: self.parties@,
            statuses: self.statuses@,
        }
    }
}

impl EntityTracker {
    pub fn new() -> (tracker: EntityTracker)
        ensures
            tracker@ == TrackerView::empty(),
            tracker@.wf(),
    {
        let tracker = EntityTracker {
            entities: HashMap::new(),
            local_character_id: 0,
            ids: IdTracker::new(),
            parties: PartyTracker::new(),
            statuses: StatusTracker::new(),
        };
        assert(tracker@.entities =~= Map::<u64, EntityView>::empty());
        tracker
    }

    /// The object id of the local player; 0 until it is known.
    pub fn local_player_id(&self) -> (object_id: u64)
        ensures
            object_id == self@.ids.local_player,
    {
        self.ids.local_player()
    }

    /// The entity with the object id, if the registry holds one.
    pub fn get(&self, id: u64) -> (found: Option<Entity>)
        ensures
            match found {
                Some(e) => self@.entity(id) == Some(e@),
                None => self@.entity(id) is None,
            },
    {
        match self.entities.get(&id) {
            Some(e) => Some(e.clone()),
            None => None,
        }
    }

    /// Files the entity under its object id.
    fn file(&mut self, entity: Entity)
        ensures
            final(self)@ == old(self)@.with_entity(entity@),
    {
        let ghost filed = entity@;
        self.entities.insert(entity.id, entity);
        assert(self@.entities =~= old(self)@.entities.insert(filed.id, filed));
    }

    /// The entity with the object id. An id that was never introduced gets
    /// a placeholder of unknown type, once: a second reference finds it.
    pub fn get_or_create_entity(&mut self, id: u64) -> (entity: Entity)
        ensures
            entity@ == old(self)@.entity_or_placeholder(id),
            final(self)@ == old(self)@.get_or_create_entity(id),
            old(self)@.entities.contains_key(id) ==> final(self)@ == old(self)@,
            final(self)@.entities.dom() == old(self)@.entities.dom().insert(id),
            old(self)@.wf() ==> final(self)@.wf(),
    {
        match self.get(id) {
            Some(e) => e,
            None => {
                let e = make_placeholder(id);
                self.file(e.clone());
                e
            },
        }
    }

    /// The entity that caused an event of the object: the owner of a
    /// projectile or a summon, the object itself otherwise.
    pub fn get_source_entity(&mut self, id: u64) -> (entity: Entity)
        ensures
            entity@ == old(self)@.entity_or_placeholder(old(self)@.causer_id(id)),
            final(self)@ == old(self)@.get_source_entity(id),
            old(self)@.wf() ==> final(self)@.wf(),
    {
        let causer = match self.get(id) {
            Some(e) => if e.entity_type == EntityType::Projectile || e.entity_type
                == EntityType::Summon {
                e.owner_id
            } else {
                id
            },
            None => id,
        };
        self.get_or_create_entity(causer)
    }

    /// Takes an entity of unknown type that uses a skill of some class for
    /// a player of that class, and files it as such.
    pub fn guess_is_player(&mut self, entity: Entity, skill_id: u32, table: &SkillClassTable) -> (guess:
        Entity)
        ensures
            guess@ == guessed(entity@, class_of(table@, skill_id)),
            final(self)@ == old(self)@.guess_is_player(entity@, class_of(table@, skill_id)),
            old(self)@.wf() ==> final(self)@.wf(),
    {
        let class_id = table.class_of(skill_id);
        if entity.entity_type == EntityType::Unknown && class_id != 0 {
            let mut player = entity;
            player.entity_type = EntityType::Player;
            player.class_id = class_id;
            self.file(player.clone());
            player
        } else {
            entity
        }
    }

    /// The local player entered a zone under a new object id.
    pub fn init_env(&mut self, pkt: InitEnv) -> (local: Entity)
        ensures
            local@ == old(self)@.local_entity(pkt.player_id),
            final(self)@ == old(self)@.init_env(pkt),
            one_party_per_raid(old(self)@.parties) ==> final(self)@.wf(),
    {
        let local = match self.get(self.ids.local_player()) {
            Some(known) => {
                let mut e = known;
                e.id = pkt.player_id;
                e
            },
            None => make_pc(pkt.player_id, self.local_character_id, hex_name(pkt.player_id), 0),
        };
        self.entities.clear();
        self.entities.insert(local.id, local.clone());
        self.ids.clear();
        self.ids.set_local_player(pkt.player_id);
        self.statuses.clear();
        if local.character_id != 0 {
            self.ids.bind(pkt.player_id, local.character_id);
        }
        assert(self@.entities =~= Map::<u64, EntityView>::empty().insert(pkt.player_id, local@));
        local
    }

    /// The local player's character was announced.
    pub fn init_pc(&mut self, pkt: InitPc) -> (player: Entity)
        ensures
            player@ == pc_entity(pkt.player_id, pkt.character_id, pkt.name@, pkt.class_id),
            final(self)@ == old(self)@.init_pc(pkt),
            old(self)@.wf() ==> final(self)@.wf(),
    {
        let player = make_pc(pkt.player_id, pkt.character_id, pkt.name, pkt.class_id);
        self.entities.clear();
        self.entities.insert(player.id, player.clone());
        self.local_character_id = pkt.character_id;
        self.ids.set_local_player(pkt.player_id);
        self.ids.bind(pkt.player_id, pkt.character_id);
        self.statuses.remove_local_object(pkt.player_id);
        register_all(
            &mut self.statuses,
            &pkt.status_effects,
            pkt.player_id,
            StatusEffectTargetType::Local,
        );
        assert(self@.entities =~= Map::<u64, EntityView>::empty().insert(pkt.player_id, player@));
        player
    }

    /// Another player came into view.
    pub fn new_pc(&mut self, pkt: NewPc) -> (player: Entity)
        ensures
            player@ == pc_entity(pkt.player_id, pkt.character_id, pkt.name@, pkt.class_id),
            final(self)@ == old(self)@.new_pc(pkt),
            old(self)@.wf() ==> final(self)@.wf(),
    {
        let player = make_pc(pkt.player_id, pkt.character_id, pkt.name, pkt.class_id);
        self.file(player.clone());
        self.ids.bind(pkt.player_id, pkt.character_id);
        self.statuses.remove_local_object(pkt.player_id);
        register_all(
            &mut self.statuses,
            &pkt.status_effects,
            pkt.player_id,
            StatusEffectTargetType::Local,
        );
        player
    }

    fn npc_arrives(&mut self, entity: &Entity, status_effects: &Vec<StatusEffectData>)
        ensures
            final(self)@ == old(self)@.npc_arrived(entity@, status_effects@),
            old(self)@.wf() ==> final(self)@.wf(),
    {
        self.file(entity.clone());
        self.statuses.remove_local_object(entity.id);
        register_all(&mut self.statuses, status_effects, entity.id, StatusEffectTargetType::Local);
    }

    /// A non-player entity came into view. `max_hp` decides whether one of
    /// a boss grade is marked as a boss.
    pub fn new_npc(&mut self, pkt: NewNpc, max_hp: i64) -> (npc: Entity)
        ensures
            npc@ == npc_entity(pkt, max_hp),
            final(self)@ == old(self)@.new_npc(pkt, max_hp),
            old(self)@.wf() ==> final(self)@.wf(),
    {
        let npc = make_npc(&pkt, max_hp);
        self.npc_arrives(&npc, &pkt.status_effects);
        npc
    }

    /// A summoned entity came into view.
    pub fn new_npc_summon(&mut self, pkt: NewNpcSummon, max_hp: i64) -> (summon: Entity)
        ensures
            summon@ == summon_entity(pkt, max_hp),
            final(self)@ == old(self)@.new_npc_summon(pkt, max_hp),
            old(self)@.wf() ==> final(self)@.wf(),
    {
        let mut summon = make_npc(&pkt.npc, max_hp);
        if summon.entity_type == EntityType::Npc && !summon.is_boss {
            summon.entity_type = EntityType::Summon;
        }
        summon.owner_id = pkt.owner_id;
        self.npc_arrives(&summon, &pkt.npc.status_effects);
        summon
    }

    /// A projectile came into view.
    pub fn new_projectile(&mut self, pkt: NewProjectile)
        ensures
            final(self)@ == old(self)@.new_projectile(pkt),
            old(self)@.wf() ==> final(self)@.wf(),
    {
        self.file(
            Entity {
                id: pkt.projectile_id,
                entity_type: EntityType::Projectile,
                name: hex_name(pkt.owner_id),
                npc_id: 0,
                class_id: 0,
                character_id: 0,
                owner_id: pkt.owner_id,
                skill_id: pkt.skill_id,
                skill_effect_id: pkt.skill_effect_id,
                is_boss: false,
            },
        );
    }

    /// Learns the local character from the account's two character ids.
    pub fn migration_execute(&mut self, pkt: MigrationExecute)
        ensures
            final(self)@ == old(self)@.migration_execute(pkt),
            old(self)@.wf() ==> final(self)@.wf(),
    {
        if self.local_character_id != 0 {
            return;
        }
        let character_id = if pkt.account_character_id1 < pkt.account_character_id2 {
            pkt.account_character_id1
        } else {
            pkt.account_character_id2
        };
        self.local_character_id = character_id;
        let local_player = self.ids.local_player();
        if local_player != 0 && character_id != 0 {
            self.ids.bind(local_player, character_id);
        }
    }

    /// Takes over the composition of a party.
    pub fn party_info(&mut self, pkt: PartyInfo)
        ensures
            final(self)@ == old(self)@.party_info(pkt),
            old(self)@.wf() ==> final(self)@.wf(),
    {
        let i = member_position(&pkt.members, self.local_character_id);
        if self.local_character_id != 0 && i < pkt.members.len() {
            match self.get(self.ids.local_player()) {
                Some(known) => {
                    let mut local = known;
                    local.name = pkt.members[i].name.clone();
                    local.class_id = pkt.members[i].class_id;
                    local.character_id = pkt.members[i].character_id;
                    self.file(local);
                },
                None => {},
            }
        }
        add_members(
            &mut self.parties,
            &self.ids,
            pkt.raid_instance_id,
            pkt.party_instance_id,
            &pkt.members,
        );
    }

    /// Registers party-wide effects on a character.
    pub fn party_status_effect_add(&mut self, pkt: PartyStatusEffectAdd)
        ensures
            final(self)@ == old(self)@.party_status_effect_add(pkt),
            old(self)@.wf() ==> final(self)@.wf(),
    {
        match self.ids.lookup_object_id(pkt.character_id) {
            Some(object_id) => {
                register_all(
                    &mut self.statuses,
                    &pkt.status_effects,
                    object_id,
                    StatusEffectTargetType::Party,
                );
            },
            None => {},
        }
    }

    /// Removes party-wide effects from a character.
    pub fn party_status_effect_remove(&mut self, pkt: PartyStatusEffectRemove)
        ensures
            final(self)@ == old(self)@.party_status_effect_remove(pkt),
            old(self)@.wf() ==> final(self)@.wf(),
    {
        match self.ids.lookup_object_id(pkt.character_id) {
            Some(object_id) => {
                self.statuses.remove_status_effects(
                    object_id,
                    pkt.status_effect_ids,
                    StatusEffectTargetType::Party,
                );
            },
            None => {},
        }
    }

    /// Registers a local effect on the object.
    pub fn build_and_register_status_effect(&mut self, data: &StatusEffectData, object_id: u64)
        ensures
            final(self)@ == old(self)@.build_and_register_status_effect(*data, object_id),
            old(self)@.wf() ==> final(self)@.wf(),
    {
        self.statuses.register(
            StatusEffect {
                instance_id: data.effect_instance_id,
                status_effect_id: data.status_effect_id,
                source_id: data.source_id,
                target_id: object_id,
                target_type: StatusEffectTargetType::Local,
                expiration: data.expiration,
            },
        );
    }
}

} // verus!
