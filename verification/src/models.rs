//! The plain data that the trackers exchange.

use vstd::prelude::*;

verus! {

/// What kind of thing an entity is.
#[derive(Clone, Copy, Debug, PartialEq, Eq, Structural)]
pub enum EntityType {
    Unknown,
    Player,
    Npc,
    Esther,
    Summon,
    Projectile,
}

/// Whether a status effect is tied to one observed object or shared by a
/// party.
#[derive(Clone, Copy, Debug, PartialEq, Eq, Structural)]
pub enum StatusEffectTargetType {
    Local,
    Party,
}

/// A live in-world entity as the entity tracker knows it.
#[derive(Debug)]
pub struct Entity {
    pub id: u64,
    pub entity_type: EntityType,
    pub name: String,
    pub npc_id: u32,
    pub class_id: u32,
    pub character_id: u64,
    pub owner_id: u64,
    pub skill_id: u32,
    pub skill_effect_id: u32,
    pub is_boss: bool,
}

/// The mathematical value of an [`Entity`]: its name is a sequence of
/// characters.
pub struct EntityView {
    pub id: u64,
    pub entity_type: EntityType,
    pub name: Seq<char>,
    pub npc_id: u32,
    pub class_id: u32,
    pub character_id: u64,
    pub owner_id: u64,
    pub skill_id: u32,
    pub skill_effect_id: u32,
    pub is_boss: bool,
}

impl View for Entity {
    type V = EntityView;

    open spec fn view(&self) -> EntityView {
        EntityView {
            id: self.id,
            entity_type: self.entity_type,
            name: self.name@,
            npc_id: self.npc_id,
            class_id: self.class_id,
            character_id: self.character_id,
            owner_id: self.owner_id,
            skill_id: self.skill_id,
            skill_effect_id: self.skill_effect_id,
            is_boss: self.is_boss,
        }
    }
}

impl Clone for Entity {
    fn clone(&self) -> (copy: Entity)
        ensures
            copy == *self,
    {
        Entity {
            id: self.id,
            entity_type: self.entity_type,
            name: self.name.clone(),
            npc_id: self.npc_id,
            class_id: self.class_id,
            character_id: self.character_id,
            owner_id: self.owner_id,
            skill_id: self.skill_id,
            skill_effect_id: self.skill_effect_id,
            is_boss: self.is_boss,
        }
    }
}

} // verus!
