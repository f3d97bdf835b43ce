//! The decoded events, as plain values.
//!
//! Each type holds what the trackers read of one kind of notice. Whoever
//! decodes the wire format fills them in; nothing here depends on how that is
//! done.

use vstd::prelude::*;

verus! {

/// One entry of an entity's stat list.
#[derive(Clone, Copy, Debug, PartialEq, Eq)]
pub struct StatPair {
    pub stat_type: u8,
    pub value: i64,
}

/// A status effect as a notice describes it, before it is tied to a target.
#[derive(Clone, Copy, Debug, PartialEq, Eq)]
pub struct StatusEffectData {
    pub effect_instance_id: u32,
    pub status_effect_id: u32,
    pub source_id: u64,
    /// `None` for an effect that lasts until it is removed.
    pub expiration: Option<u64>,
}

/// The local player entered a zone under a new object id.
#[derive(Clone, Copy, Debug, PartialEq, Eq)]
pub struct InitEnv {
    pub player_id: u64,
}

/// The local player's character.
#[derive(Debug)]
pub struct InitPc {
    pub player_id: u64,
    pub character_id: u64,
    pub name: String,
    pub class_id: u32,
    pub stat_pairs: Vec<StatPair>,
    pub status_effects: Vec<StatusEffectData>,
}

/// The two character ids of the local account; the smaller is the local
/// player's.
#[derive(Clone, Copy, Debug, PartialEq, Eq)]
pub struct MigrationExecute {
    pub account_character_id1: u64,
    pub account_character_id2: u64,
}

/// Another player came into view.
#[derive(Debug)]
pub struct NewPc {
    pub player_id: u64,
    pub character_id: u64,
    pub name: String,
    pub class_id: u32,
    pub stat_pairs: Vec<StatPair>,
    pub status_effects: Vec<StatusEffectData>,
}

/// A non-player entity came into view.
///
/// `name` is empty when the kind of entity has no known name. `esther` and
/// `boss_grade` say what the static data of the game knows of the kind.
#[derive(Debug)]
pub struct NewNpc {
    pub object_id: u64,
    pub type_id: u32,
    pub name: String,
    pub esther: bool,
    pub boss_grade: bool,
    pub stat_pairs: Vec<StatPair>,
    pub status_effects: Vec<StatusEffectData>,
}

/// A non-player entity that another entity summoned.
#[derive(Debug)]
pub struct NewNpcSummon {
    pub owner_id: u64,
    pub npc: NewNpc,
}

#[derive(Clone, Copy, Debug, PartialEq, Eq)]
pub struct NewProjectile {
    pub projectile_id: u64,
    pub owner_id: u64,
    pub skill_id: u32,
    pub skill_effect_id: u32,
}

#[derive(Debug)]
pub struct PartyMemberData {
    pub character_id: u64,
    pub name: String,
    pub class_id: u32,
}

/// The composition of one party.
#[derive(Debug)]
pub struct PartyInfo {
    pub raid_instance_id: u32,
    pub party_instance_id: u32,
    pub members: Vec<PartyMemberData>,
}

#[derive(Debug)]
pub struct PartyStatusEffectAdd {
    pub character_id: u64,
    pub status_effects: Vec<StatusEffectData>,
}

#[derive(Debug)]
pub struct PartyStatusEffectRemove {
    pub character_id: u64,
    pub status_effect_ids: Vec<u32>,
}

/// One hit of a skill.
#[derive(Clone, Copy, Debug, PartialEq, Eq)]
pub struct SkillDamageEvent {
    pub target_id: u64,
    pub damage: i64,
    pub modifier: i32,
    pub cur_hp: i64,
    pub max_hp: i64,
}

/// The hits of one use of a skill.
#[derive(Debug)]
pub struct SkillDamage {
    pub source_id: u64,
    pub skill_id: u32,
    pub skill_effect_id: u32,
    pub hits: Vec<SkillDamageEvent>,
}

/// One decoded event.
#[derive(Debug)]
pub enum Event {
    CounterAttack { source_id: u64 },
    Death { target_id: u64 },
    IdentityGaugeChange { player_id: u64, gauge1: u32, gauge2: u32, gauge3: u32 },
    InitEnv(InitEnv),
    InitPc(InitPc),
    MigrationExecute(MigrationExecute),
    NewPc(NewPc),
    NewNpc(NewNpc),
    NewNpcSummon(NewNpcSummon),
    NewProjectile(NewProjectile),
    ParalyzationState { object_id: u64, paralyzation_point: u32, paralyzation_max_point: u32 },
    PartyInfo(PartyInfo),
    PartyLeave { party_instance_id: u32, name: String },
    PartyStatusEffectAdd(PartyStatusEffectAdd),
    PartyStatusEffectRemove(PartyStatusEffectRemove),
    PartyStatusEffectResult { raid_instance_id: u32, party_instance_id: u32, character_id: u64 },
    RaidBossKill,
    RaidResult,
    RemoveObject { object_ids: Vec<u64> },
    SkillStart { source_id: u64, skill_id: u32 },
    SkillDamage(SkillDamage),
    StatusEffectAdd { object_id: u64, effect: StatusEffectData },
    StatusEffectDuration { effect_instance_id: u32, target_id: u64, expiration_tick: u64 },
    StatusEffectRemove { object_id: u64, status_effect_ids: Vec<u32> },
    TriggerBossBattleStatus,
    ZoneObjectUnpublish { object_id: u64 },
    /// A notice that the meter takes no interest in.
    Other,
}

} // verus!
