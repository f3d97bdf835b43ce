//! The encounter aggregate and the reducers that fold events into it.
//!
//! The aggregate files one row per entity name. Every reducer that is handed
//! an entity first reconciles the row with what the entity tracker knows of
//! that entity (object id, type, class), so that a published copy never shows
//! stale identity next to fresh numbers.

use crate::lookup::{
    all_are, copy_vec, distinct_by, entry, first_match, keyed, lemma_entry_all,
    lemma_filter_keeps_all, lemma_filter_keeps_distinct, lemma_filter_source, lemma_filter_step,
    lemma_first_match_exists, lemma_first_match_unique, lemma_put_all, lemma_put_distinct, put,
};
use crate::models::{Entity, EntityType, EntityView};
use vstd::prelude::*;

verus! {

/// Where the encounter stands.
#[derive(Clone, Copy, Debug, PartialEq, Eq, Structural)]
pub enum Phase {
    Idle,
    InProgress,
    Cleared,
    Wiped,
}

/// What one entity did with one skill.
#[derive(Clone, Copy, Debug, PartialEq, Eq)]
pub struct Skill {
    pub id: u32,
    pub total_damage: i64,
    pub max_damage: i64,
    pub casts: u64,
    pub hits: u64,
    pub crits: u64,
    pub back_attacks: u64,
    pub front_attacks: u64,
}

/// One cast of a skill and when it was seen.
#[derive(Clone, Copy, Debug, PartialEq, Eq)]
pub struct SkillCast {
    pub skill_id: u32,
    pub timestamp: i64,
}

/// The running totals of one entity.
#[derive(Clone, Copy, Debug, PartialEq, Eq)]
pub struct DamageStats {
    pub damage_dealt: i64,
    pub damage_taken: i64,
    /// Damage dealt while an effect applied to the dealer.
    pub buffed_damage: i64,
    /// Damage dealt while an effect applied to the target.
    pub debuffed_damage: i64,
    pub hits: u64,
    pub crits: u64,
    pub back_attacks: u64,
    pub front_attacks: u64,
    pub counters: u64,
    pub deaths: u64,
}

/// One row of the aggregate.
#[derive(Debug)]
pub struct EncounterEntity {
    pub id: u64,
    pub name: String,
    pub entity_type: EntityType,
    pub npc_id: u32,
    pub class_id: u32,
    pub current_hp: i64,
    pub max_hp: i64,
    pub is_dead: bool,
    pub stagger: u32,
    pub stagger_max: u32,
    pub identity_gauge1: u32,
    pub identity_gauge2: u32,
    pub identity_gauge3: u32,
    pub damage_stats: DamageStats,
    pub skills: Vec<Skill>,
    pub cast_log: Vec<SkillCast>,
}

pub struct EncounterEntityView {
    pub id: u64,
    pub name: Seq<char>,
    pub entity_type: EntityType,
    pub npc_id: u32,
    pub class_id: u32,
    pub current_hp: i64,
    pub max_hp: i64,
    pub is_dead: bool,
    pub stagger: u32,
    pub stagger_max: u32,
    pub identity_gauge1: u32,
    pub identity_gauge2: u32,
    pub identity_gauge3: u32,
    pub damage_stats: DamageStats,
    pub skills: Seq<Skill>,
    pub cast_log: Seq<SkillCast>,
}

impl View for EncounterEntity {
    type V = EncounterEntityView;

    open spec fn view(&self) -> EncounterEntityView {
        EncounterEntityView {
            id: self.id,
            name: self.name@,
            entity_type: self.entity_type,
            npc_id: self.npc_id,
            class_id: self.class_id,
            current_hp: self.current_hp,
            max_hp: self.max_hp,
            is_dead: self.is_dead,
            stagger: self.stagger,
            stagger_max: self.stagger_max,
            identity_gauge1: self.identity_gauge1,
            identity_gauge2: self.identity_gauge2,
            identity_gauge3: self.identity_gauge3,
            damage_stats: self.damage_stats,
            skills: self.skills@,
            cast_log: self.cast_log@,
        }
    }
}

impl Clone for EncounterEntity {
    fn clone(&self) -> (copy: EncounterEntity)
        ensures
            copy@ == self@,
    {
        EncounterEntity {
            id: self.id,
            name: self.name.clone(),
            entity_type: self.entity_type,
            npc_id: self.npc_id,
            class_id: self.class_id,
            current_hp: self.current_hp,
            max_hp: self.max_hp,
            is_dead: self.is_dead,
            stagger: self.stagger,
            stagger_max: self.stagger_max,
            identity_gauge1: self.identity_gauge1,
            identity_gauge2: self.identity_gauge2,
            identity_gauge3: self.identity_gauge3,
            damage_stats: self.damage_stats,
            skills: copy_vec(&self.skills),
            cast_log: copy_vec(&self.cast_log),
        }
    }
}

pub open spec fn row_views(rows: Seq<EncounterEntity>) -> Seq<EncounterEntityView> {
    rows.map_values(|r: EncounterEntity| r@)
}

pub open spec fn row_view(row: Option<EncounterEntity>) -> Option<EncounterEntityView> {
    match row {
        Some(r) => Some(r@),
        None => None,
    }
}

/// Rows are filed under the entity's name.
pub open spec fn row_name() -> spec_fn(EncounterEntityView) -> Seq<char> {
    |r: EncounterEntityView| r.name
}

/// Skills are filed under their id.
pub open spec fn skill_id() -> spec_fn(Skill) -> u32 {
    |s: Skill| s.id
}

/// No two rows have the same name.
pub open spec fn unique_names(rows: Seq<EncounterEntityView>) -> bool {
    distinct_by(rows, row_name())
}

/// Neither the hit points of the row nor their limit are below zero.
pub open spec fn vitals_ok() -> spec_fn(EncounterEntityView) -> bool {
    |r: EncounterEntityView| r.current_hp >= 0 && r.max_hp >= 0
}

/// No row shows hit points, or a limit of hit points, below zero.
pub open spec fn vitals_in_range(rows: Seq<EncounterEntityView>) -> bool {
    all_are(rows, vitals_ok())
}

pub open spec fn no_stats() -> DamageStats {
    DamageStats {
        damage_dealt: 0,
        damage_taken: 0,
        buffed_damage: 0,
        debuffed_damage: 0,
        hits: 0,
        crits: 0,
        back_attacks: 0,
        front_attacks: 0,
        counters: 0,
        deaths: 0,
    }
}

/// The row of an entity that the aggregate has not seen yet.
pub open spec fn fresh_row(entity: EntityView) -> EncounterEntityView {
    EncounterEntityView {
        id: entity.id,
        name: entity.name,
        entity_type: entity.entity_type,
        npc_id: entity.npc_id,
        class_id: entity.class_id,
        current_hp: 0,
        max_hp: 0,
        is_dead: false,
        stagger: 0,
        stagger_max: 0,
        identity_gauge1: 0,
        identity_gauge2: 0,
        identity_gauge3: 0,
        damage_stats: no_stats(),
        skills: Seq::empty(),
        cast_log: Seq::empty(),
    }
}

/// The row with the identity that the entity tracker reports.
pub open spec fn reconciled(row: EncounterEntityView, entity: EntityView) -> EncounterEntityView {
    EncounterEntityView {
        id: entity.id,
        entity_type: entity.entity_type,
        npc_id: entity.npc_id,
        class_id: entity.class_id,
        ..row
    }
}

/// The row that a reducer works on: the entity's row, reconciled, or a fresh
/// one.
pub open spec fn row_for(rows: Seq<EncounterEntityView>, entity: EntityView) -> EncounterEntityView {
    match entry(rows, row_name(), entity.name) {
        Some(r) => reconciled(r, entity),
        None => fresh_row(entity),
    }
}

/// A count one higher, stopping at the largest value.
pub open spec fn bumped(count: u64) -> u64 {
    if count == u64::MAX {
        count
    } else {
        (count + 1) as u64
    }
}

/// A count that is one higher where `on` holds.
pub open spec fn bumped_if(on: bool, count: u64) -> u64 {
    if on {
        bumped(count)
    } else {
        count
    }
}

/// The sum of two amounts, held within the range of `i64`.
pub open spec fn sat_sum(a: i64, b: i64) -> i64 {
    if a + b > i64::MAX {
        i64::MAX
    } else if a + b < i64::MIN {
        i64::MIN
    } else {
        (a + b) as i64
    }
}

/// Hit points are never shown below zero.
pub open spec fn at_least_zero(x: i64) -> i64 {
    if x < 0 {
        0
    } else {
        x
    }
}

pub fn sat_add(a: i64, b: i64) -> (sum: i64)
    ensures
        sum == sat_sum(a, b),
{
    if b > 0 && a > i64::MAX - b {
        i64::MAX
    } else if b < 0 && a < i64::MIN - b {
        i64::MIN
    } else {
        a + b
    }
}

pub fn not_negative(x: i64) -> (y: i64)
    ensures
        y == at_least_zero(x),
{
    if x < 0 {
        0
    } else {
        x
    }
}

fn bump(count: u64) -> (next: u64)
    ensures
        next == bumped(count),
{
    count.saturating_add(1)
}

fn bump_if(on: bool, count: u64) -> (next: u64)
    ensures
        next == bumped_if(on, count),
{
    if on {
        bump(count)
    } else {
        count
    }
}

/// Index of the row with the name; the number of rows if there is none.
fn row_position(entities: &Vec<EncounterEntity>, name: &String) -> (i: usize)
    ensures
        i == first_match(row_views(entities@), keyed(row_name(), name@)),
        i <= entities.len(),
{
    let ghost rows = row_views(entities@);
    let mut i: usize = 0;
    while i < entities.len()
        invariant
            0 <= i <= entities.len(),
            rows == row_views(entities@),
            forall|j: int| 0 <= j < i ==> !keyed(row_name(), name@)(#[trigger] rows[j]),
        decreases entities.len() - i,
    {
        if entities[i].name == *name {
            proof {
                lemma_first_match_unique(rows, keyed(row_name(), name@), i as int);
            }
            return i;
        }
        i += 1;
    }
    proof {
        lemma_first_match_unique(rows, keyed(row_name(), name@), i as int);
    }
    i
}

/// The row that a reducer works on, as an owned value.
fn fetch(entities: &Vec<EncounterEntity>, entity: &Entity) -> (row: EncounterEntity)
    ensures
        row@ == row_for(row_views(entities@), entity@),
        vitals_in_range(row_views(entities@)) ==> vitals_ok()(row@),
{
    proof {
        if vitals_in_range(row_views(entities@)) {
            lemma_entry_all(row_views(entities@), row_name(), entity@.name, vitals_ok());
        }
    }
    let i = row_position(entities, &entity.name);
    if i < entities.len() {
        let mut row = entities[i].clone();
        row.id = entity.id;
        row.entity_type = entity.entity_type;
        row.npc_id = entity.npc_id;
        row.class_id = entity.class_id;
        row
    } else {
        EncounterEntity {
            id: entity.id,
            name: entity.name.clone(),
            entity_type: entity.entity_type,
            npc_id: entity.npc_id,
            class_id: entity.class_id,
            current_hp: 0,
            max_hp: 0,
            is_dead: false,
            stagger: 0,
            stagger_max: 0,
            identity_gauge1: 0,
            identity_gauge2: 0,
            identity_gauge3: 0,
            damage_stats: DamageStats {
                damage_dealt: 0,
                damage_taken: 0,
                buffed_damage: 0,
                debuffed_damage: 0,
                hits: 0,
                crits: 0,
                back_attacks: 0,
                front_attacks: 0,
                counters: 0,
                deaths: 0,
            },
            skills: Vec::new(),
            cast_log: Vec::new(),
        }
    }
}

/// Files the row under its name.
fn store(entities: &mut Vec<EncounterEntity>, row: EncounterEntity)
    ensures
        row_views(final(entities)@) == put(row_views(old(entities)@), row_name(), row@),
        unique_names(row_views(old(entities)@)) ==> unique_names(row_views(final(entities)@)),
        vitals_in_range(row_views(old(entities)@)) && vitals_ok()(row@) ==> vitals_in_range(
            row_views(final(entities)@),
        ),
{
    let ghost before = row_views(entities@);
    let ghost filed = row@;
    let i = row_position(entities, &row.name);
    if i < entities.len() {
        entities.set(i, row);
        assert(row_views(entities@) =~= before.update(i as int, filed));
    } else {
        entities.push(row);
        assert(row_views(entities@) =~= before.push(filed));
    }
    proof {
        if unique_names(before) {
            lemma_put_distinct(before, row_name(), filed);
        }
        if vitals_in_range(before) && vitals_ok()(filed) {
            lemma_put_all(before, row_name(), filed, vitals_ok());
        }
    }
}

/// The first skill with the id, or a blank one.
pub open spec fn skill_for(skills: Seq<Skill>, id: u32) -> Skill {
    match entry(skills, skill_id(), id) {
        Some(s) => s,
        None => Skill {
            id,
            total_damage: 0,
            max_damage: 0,
            casts: 0,
            hits: 0,
            crits: 0,
            back_attacks: 0,
            front_attacks: 0,
        },
    }
}

/// The low four bits of a modifier say how the hit landed.
pub open spec fn hit_flag(modifier: i32) -> i32 {
    modifier & 0xf
}

/// The next three bits say from where it landed.
pub open spec fn hit_option(modifier: i32) -> i32 {
    (modifier >> 4) & 0x7
}

/// Critical hits and critical ticks of damage over time.
pub open spec fn is_crit(modifier: i32) -> bool {
    hit_flag(modifier) == 1 || hit_flag(modifier) == 8
}

pub open spec fn is_back_attack(modifier: i32) -> bool {
    hit_option(modifier) == 1
}

pub open spec fn is_front_attack(modifier: i32) -> bool {
    hit_option(modifier) == 2
}

/// The skill under which a hit is filed: the skill it names, else the skill
/// effect it names, else the skill of the projectile that delivered it.
pub open spec fn skill_key(source: EntityView, skill_id: u32, skill_effect_id: u32) -> u32 {
    if skill_id != 0 {
        skill_id
    } else if skill_effect_id != 0 {
        skill_effect_id
    } else if source.entity_type == EntityType::Projectile {
        source.skill_id
    } else {
        0
    }
}

/// The row after a counterattack of its entity.
pub open spec fn countered(row: EncounterEntityView) -> EncounterEntityView {
    EncounterEntityView {
        damage_stats: DamageStats {
            counters: bumped(row.damage_stats.counters),
            ..row.damage_stats
        },
        ..row
    }
}

/// The row after the death of its entity.
pub open spec fn died(row: EncounterEntityView) -> EncounterEntityView {
    EncounterEntityView {
        is_dead: true,
        damage_stats: DamageStats { deaths: bumped(row.damage_stats.deaths), ..row.damage_stats },
        ..row
    }
}

pub open spec fn gauged(
    row: EncounterEntityView,
    gauge1: u32,
    gauge2: u32,
    gauge3: u32,
) -> EncounterEntityView {
    EncounterEntityView {
        identity_gauge1: gauge1,
        identity_gauge2: gauge2,
        identity_gauge3: gauge3,
        ..row
    }
}

pub open spec fn staggered(row: EncounterEntityView, point: u32, max_point: u32) -> EncounterEntityView {
    EncounterEntityView { stagger: point, stagger_max: max_point, ..row }
}

/// The row with the vitals that an event reports.
pub open spec fn measured(row: EncounterEntityView, hp: i64, max_hp: i64) -> EncounterEntityView {
    EncounterEntityView { current_hp: at_least_zero(hp), max_hp: at_least_zero(max_hp), ..row }
}

/// The row after a cast of the skill.
pub open spec fn cast(row: EncounterEntityView, id: u32, timestamp: i64) -> EncounterEntityView {
    let skill = skill_for(row.skills, id);
    EncounterEntityView {
        skills: put(row.skills, skill_id(), Skill { casts: bumped(skill.casts), ..skill }),
        cast_log: row.cast_log.push(SkillCast { skill_id: id, timestamp }),
        ..row
    }
}

/// The skill after a hit with it.
pub open spec fn struck(skill: Skill, damage: i64, modifier: i32) -> Skill {
    Skill {
        total_damage: sat_sum(skill.total_damage, damage),
        max_damage: if damage > skill.max_damage {
            damage
        } else {
            skill.max_damage
        },
        hits: bumped(skill.hits),
        crits: bumped_if(is_crit(modifier), skill.crits),
        back_attacks: bumped_if(is_back_attack(modifier), skill.back_attacks),
        front_attacks: bumped_if(is_front_attack(modifier), skill.front_attacks),
        ..skill
    }
}

/// The dealer's row after a hit.
pub open spec fn dealt(
    row: EncounterEntityView,
    key: u32,
    damage: i64,
    modifier: i32,
    buffed: bool,
    debuffed: bool,
) -> EncounterEntityView {
    let stats = row.damage_stats;
    EncounterEntityView {
        damage_stats: DamageStats {
            damage_dealt: sat_sum(stats.damage_dealt, damage),
            buffed_damage: if buffed {
                sat_sum(stats.buffed_damage, damage)
            } else {
                stats.buffed_damage
            },
            debuffed_damage: if debuffed {
                sat_sum(stats.debuffed_damage, damage)
            } else {
                stats.debuffed_damage
            },
            hits: bumped(stats.hits),
            crits: bumped_if(is_crit(modifier), stats.crits),
            back_attacks: bumped_if(is_back_attack(modifier), stats.back_attacks),
            front_attacks: bumped_if(is_front_attack(modifier), stats.front_attacks),
            ..stats
        },
        skills: put(row.skills, skill_id(), struck(skill_for(row.skills, key), damage, modifier)),
        ..row
    }
}

/// The target's row after a hit.
pub open spec fn taken(
    row: EncounterEntityView,
    damage: i64,
    cur_hp: i64,
    max_hp: i64,
) -> EncounterEntityView {
    EncounterEntityView {
        current_hp: at_least_zero(cur_hp),
        max_hp: at_least_zero(max_hp),
        damage_stats: DamageStats {
            damage_taken: sat_sum(row.damage_stats.damage_taken, damage),
            ..row.damage_stats
        },
        ..row
    }
}

/// The row has another name.
pub open spec fn not_named(name: Seq<char>) -> spec_fn(EncounterEntityView) -> bool {
    |r: EncounterEntityView| r.name != name
}

/// The rows after the row named `from` took the name `to`: a row that had
/// that name before gives way. Without a row named `from` nothing changes.
pub open spec fn renamed(
    rows: Seq<EncounterEntityView>,
    from: Seq<char>,
    to: Seq<char>,
) -> Seq<EncounterEntityView> {
    if from == to || entry(rows, row_name(), from) is None {
        rows
    } else {
        let others = rows.filter(not_named(to));
        let j = first_match(others, keyed(row_name(), from));
        others.update(j, EncounterEntityView { name: to, ..others[j] })
    }
}

/// What a published copy shows: players and esthers that have dealt damage
/// and have hit points to their name.
pub open spec fn shown() -> spec_fn(EncounterEntityView) -> bool {
    |r: EncounterEntityView|
        (r.entity_type == EntityType::Player || r.entity_type == EntityType::Esther)
            && r.damage_stats.damage_dealt > 0 && r.max_hp > 0
}

/// The aggregate: the rows, the boss, the local player's name and the phase.
#[derive(Debug)]
pub struct Encounter {
    pub entities: Vec<EncounterEntity>,
    /// Empty while no boss is tracked.
    pub current_boss_name: String,
    /// The boss's row as of the last publication; `None` in the live
    /// aggregate.
    pub current_boss: Option<EncounterEntity>,
    pub local_player: String,
    pub phase: Phase,
}

pub struct EncounterView {
    pub entities: Seq<EncounterEntityView>,
    pub current_boss_name: Seq<char>,
    pub current_boss: Option<EncounterEntityView>,
    pub local_player: Seq<char>,
    pub phase: Phase,
}

impl View for Encounter {
    type V = EncounterView;

    open spec fn view(&self) -> EncounterView {
        EncounterView {
            entities: row_views(self.entities@),
            current_boss_name: self.current_boss_name@,
            current_boss: row_view(self.current_boss),
            local_player: self.local_player@,
            phase: self.phase,
        }
    }
}

impl EncounterView {
    /// The row of the tracked boss, if a boss is tracked and has a row.
    pub open spec fn boss_row(self) -> Option<EncounterEntityView> {
        if self.current_boss_name.len() == 0 {
            None
        } else {
            entry(self.entities, row_name(), self.current_boss_name)
        }
    }

    /// The aggregate with its boss looked up. A boss that has no row is
    /// forgotten.
    pub open spec fn resolved(self) -> EncounterView {
        if self.current_boss_name.len() == 0 {
            self
        } else {
            match entry(self.entities, row_name(), self.current_boss_name) {
                Some(row) => EncounterView { current_boss: Some(row), ..self },
                None => EncounterView {
                    current_boss_name: Seq::empty(),
                    current_boss: None,
                    ..self
                },
            }
        }
    }

    /// The copy that is published: the boss resolved, the rows reduced to
    /// those that are shown.
    pub open spec fn snapshot(self) -> EncounterView {
        let resolved = self.resolved();
        EncounterView { entities: resolved.entities.filter(shown()), ..resolved }
    }
}

/// The encounter state machine: the aggregate and the two flags that steer
/// publication.
#[derive(Debug)]
pub struct EncounterState {
    pub encounter: Encounter,
    /// Set by a notice that the raid is over; the next publication is
    /// followed by a reset.
    pub raid_end: bool,
    /// Whether this encounter has been reported once.
    pub saved: bool,
}

pub struct StateView {
    pub encounter: EncounterView,
    pub raid_end: bool,
    pub saved: bool,
}

impl View for EncounterState {
    type V = StateView;

    open spec fn view(&self) -> StateView {
        StateView { encounter: self.encounter@, raid_end: self.raid_end, saved: self.saved }
    }
}

impl StateView {
    /// No rows, no boss, idle, both flags down.
    pub open spec fn empty(local_player: Seq<char>) -> StateView {
        StateView {
            encounter: EncounterView {
                entities: Seq::empty(),
                current_boss_name: Seq::empty(),
                current_boss: None,
                local_player,
                phase: Phase::Idle,
            },
            raid_end: false,
            saved: false,
        }
    }

    pub open spec fn rows(self) -> Seq<EncounterEntityView> {
        self.encounter.entities
    }

    pub open spec fn with_rows(self, rows: Seq<EncounterEntityView>) -> StateView {
        StateView { encounter: EncounterView { entities: rows, ..self.encounter }, ..self }
    }

    pub open spec fn soft_reset(self) -> StateView {
        StateView::empty(self.encounter.local_player)
    }

    pub open spec fn on_counterattack(self, entity: EntityView) -> StateView {
        self.with_rows(put(self.rows(), row_name(), countered(row_for(self.rows(), entity))))
    }

    pub open spec fn on_death(self, entity: EntityView) -> StateView {
        self.with_rows(put(self.rows(), row_name(), died(row_for(self.rows(), entity))))
    }

    pub open spec fn on_identity_gain(
        self,
        entity: EntityView,
        gauge1: u32,
        gauge2: u32,
        gauge3: u32,
    ) -> StateView {
        self.with_rows(
            put(
                self.rows(),
                row_name(),
                gauged(row_for(self.rows(), entity), gauge1, gauge2, gauge3),
            ),
        )
    }

    pub open spec fn on_stagger_change(self, entity: EntityView, point: u32, max_point: u32) -> StateView {
        self.with_rows(
            put(self.rows(), row_name(), staggered(row_for(self.rows(), entity), point, max_point)),
        )
    }

    /// The entity's row inserted or refreshed, with the vitals reported.
    pub open spec fn arrive(self, entity: EntityView, hp: i64, max_hp: i64) -> StateView {
        self.with_rows(
            put(self.rows(), row_name(), measured(row_for(self.rows(), entity), hp, max_hp)),
        )
    }

    pub open spec fn update_local_player(self, name: Seq<char>) -> StateView {
        StateView {
            encounter: EncounterView {
                entities: renamed(self.rows(), self.encounter.local_player, name),
                local_player: name,
                ..self.encounter
            },
            ..self
        }
    }

    /// A change of zone: the local player's row follows the player into the
    /// new object, and the boss of the zone left behind is let go. Totals
    /// stay.
    pub open spec fn on_init_env(self, entity: EntityView) -> StateView {
        StateView {
            encounter: EncounterView {
                entities: put(self.rows(), row_name(), row_for(self.rows(), entity)),
                current_boss_name: Seq::empty(),
                current_boss: None,
                local_player: entity.name,
                ..self.encounter
            },
            ..self
        }
    }

    pub open spec fn on_init_pc(self, entity: EntityView, hp: i64, max_hp: i64) -> StateView {
        self.update_local_player(entity.name).arrive(entity, hp, max_hp)
    }

    pub open spec fn on_new_pc(self, entity: EntityView, hp: i64, max_hp: i64) -> StateView {
        self.arrive(entity, hp, max_hp)
    }

    /// Whether a newly arrived entity takes over as the tracked boss: it is
    /// marked as a boss, has hit points, and no tracked boss has more.
    pub open spec fn takes_over(self, entity: EntityView, max_hp: i64) -> bool {
        &&& entity.is_boss
        &&& at_least_zero(max_hp) > 0
        &&& match self.encounter.boss_row() {
            Some(boss) => at_least_zero(max_hp) >= boss.max_hp,
            None => true,
        }
    }

    pub open spec fn on_new_npc(self, entity: EntityView, hp: i64, max_hp: i64) -> StateView {
        let arrived = self.arrive(entity, hp, max_hp);
        if self.takes_over(entity, max_hp) {
            StateView {
                encounter: EncounterView { current_boss_name: entity.name, ..arrived.encounter },
                ..arrived
            }
        } else {
            arrived
        }
    }

    pub open spec fn on_skill_start(self, entity: EntityView, id: u32, timestamp: i64) -> StateView {
        self.with_rows(
            put(self.rows(), row_name(), cast(row_for(self.rows(), entity), id, timestamp)),
        )
    }

    /// One hit: the owner's row is credited, then the target's row is
    /// charged and takes the vitals that the hit reports.
    pub open spec fn on_damage(
        self,
        owner: EntityView,
        source: EntityView,
        target: EntityView,
        damage: i64,
        skill_id: u32,
        skill_effect_id: u32,
        modifier: i32,
        cur_hp: i64,
        max_hp: i64,
        buffed: bool,
        debuffed: bool,
    ) -> StateView {
        let key = skill_key(source, skill_id, skill_effect_id);
        let credited = put(
            self.rows(),
            row_name(),
            dealt(row_for(self.rows(), owner), key, damage, modifier, buffed, debuffed),
        );
        let charged = put(
            credited,
            row_name(),
            taken(row_for(credited, target), damage, cur_hp, max_hp),
        );
        self.with_rows(charged)
    }

    /// Code 0 (the raid's result came in) and code 1 (the boss was killed)
    /// end the encounter; code 2 (a boss battle was triggered) starts one
    /// that has not started. Any other code changes nothing.
    pub open spec fn on_phase_transition(self, code: i32) -> StateView {
        if code == 0 || code == 1 {
            StateView {
                encounter: EncounterView { phase: Phase::Cleared, ..self.encounter },
                raid_end: true,
                ..self
            }
        } else if code == 2 && self.encounter.phase == Phase::Idle {
            StateView {
                encounter: EncounterView { phase: Phase::InProgress, ..self.encounter },
                ..self
            }
        } else {
            self
        }
    }
}

/// Index of the skill with the id; the number of skills if there is none.
fn skill_position(skills: &Vec<Skill>, id: u32) -> (i: usize)
    ensures
        i == first_match(skills@, keyed(skill_id(), id)),
        i <= skills.len(),
{
    let mut i: usize = 0;
    while i < skills.len()
        invariant
            0 <= i <= skills.len(),
            forall|j: int| 0 <= j < i ==> !keyed(skill_id(), id)(#[trigger] skills@[j]),
        decreases skills.len() - i,
    {
        if skills[i].id == id {
            proof {
                lemma_first_match_unique(skills@, keyed(skill_id(), id), i as int);
            }
            return i;
        }
        i += 1;
    }
    proof {
        lemma_first_match_unique(skills@, keyed(skill_id(), id), i as int);
    }
    i
}

fn fetch_skill(skills: &Vec<Skill>, id: u32) -> (skill: Skill)
    ensures
        skill == skill_for(skills@, id),
{
    let i = skill_position(skills, id);
    if i < skills.len() {
        skills[i]
    } else {
        Skill {
            id,
            total_damage: 0,
            max_damage: 0,
            casts: 0,
            hits: 0,
            crits: 0,
            back_attacks: 0,
            front_attacks: 0,
        }
    }
}

fn store_skill(skills: &mut Vec<Skill>, skill: Skill)
    ensures
        final(skills)@ == put(old(skills)@, skill_id(), skill),
{
    let i = skill_position(skills, skill.id);
    if i < skills.len() {
        skills.set(i, skill);
    } else {
        skills.push(skill);
    }
}

fn crit(modifier: i32) -> (yes: bool)
    ensures
        yes == is_crit(modifier),
{
    let flag = modifier & 0xf;
    flag == 1 || flag == 8
}

fn back_attack(modifier: i32) -> (yes: bool)
    ensures
        yes == is_back_attack(modifier),
{
    ((modifier >> 4) & 0x7) == 1
}

fn front_attack(modifier: i32) -> (yes: bool)
    ensures
        yes == is_front_attack(modifier),
{
    ((modifier >> 4) & 0x7) == 2
}

/// A row of the same value, when there is one.
fn copy_row(row: &Option<EncounterEntity>) -> (copy: Option<EncounterEntity>)
    ensures
        row_view(copy) == row_view(*row),
{
    match row {
        Some(r) => Some(r.clone()),
        None => None,
    }
}

/// Renaming keeps names unique.
pub proof fn lemma_renamed_unique(rows: Seq<EncounterEntityView>, from: Seq<char>, to: Seq<char>)
    requires
        unique_names(rows),
    ensures
        unique_names(renamed(rows, from, to)),
{
    if !(from == to || entry(rows, row_name(), from) is None) {
        let others = rows.filter(not_named(to));
        let i = first_match(rows, keyed(row_name(), from));
        lemma_first_match_exists(rows, keyed(row_name(), from));
        lemma_survivor_found(rows, not_named(to), i);
        let j = first_match(others, keyed(row_name(), from));
        let after = others.update(j, EncounterEntityView { name: to, ..others[j] });
        assert(after == renamed(rows, from, to));
        lemma_filter_keeps_distinct(rows, row_name(), not_named(to));
        lemma_first_match_exists(others, keyed(row_name(), from));
        assert forall|a: int, b: int| 0 <= a < b < after.len() implies row_name()(
            #[trigger] after[a],
        ) != row_name()(#[trigger] after[b]) by {
            let ka = lemma_filter_source(rows, not_named(to), a);
            let kb = lemma_filter_source(rows, not_named(to), b);
            assert(row_name()(others[a]) != row_name()(others[b]));
        }
    }
}

/// A row that a filter lets pass is found under its name afterwards.
proof fn lemma_survivor_found(
    rows: Seq<EncounterEntityView>,
    keep: spec_fn(EncounterEntityView) -> bool,
    i: int,
)
    requires
        0 <= i < rows.len(),
        keep(rows[i]),
    ensures
        first_match(rows.filter(keep), keyed(row_name(), rows[i].name)) < rows.filter(keep).len(),
{
    let kept = rows.filter(keep);
    let p = keyed(row_name(), rows[i].name);
    rows.lemma_filter_contains(keep, i);
    let k = choose|k: int| 0 <= k < kept.len() && kept[k] == rows[i];
    lemma_first_match_exists(kept, p);
    if first_match(kept, p) == kept.len() {
        assert(!p(kept[k]));
    }
}

impl EncounterState {
    pub fn new() -> (state: EncounterState)
        ensures
            state@ == StateView::empty(Seq::empty()),
    {
        let state = EncounterState {
            encounter: Encounter {
                entities: Vec::new(),
                current_boss_name: String::new(),
                current_boss: None,
                local_player: String::new(),
                phase: Phase::Idle,
            },
            raid_end: false,
            saved: false,
        };
        assert(state@.encounter.entities =~= Seq::empty());
        state
    }

    /// Clears the aggregate for the next fight: no rows, no boss, idle, both
    /// flags down. The local player's name stays.
    pub fn soft_reset(&mut self)
        ensures
            final(self)@ == old(self)@.soft_reset(),
            final(self)@.rows().len() == 0,
            final(self)@.encounter.phase == Phase::Idle,
            !final(self)@.raid_end,
            !final(self)@.saved,
    {
        self.encounter.entities = Vec::new();
        self.encounter.current_boss_name = String::new();
        self.encounter.current_boss = None;
        self.encounter.phase = Phase::Idle;
        self.raid_end = false;
        self.saved = false;
        assert(self@.encounter.entities =~= Seq::empty());
    }

    /// Counts a counterattack of the entity.
    pub fn on_counterattack(&mut self, entity: &Entity)
        ensures
            final(self)@ == old(self)@.on_counterattack(entity@),
            unique_names(old(self)@.rows()) ==> unique_names(final(self)@.rows()),
            vitals_in_range(old(self)@.rows()) ==> vitals_in_range(final(self)@.rows()),
    {
        let mut row = fetch(&self.encounter.entities, entity);
        row.damage_stats.counters = bump(row.damage_stats.counters);
        store(&mut self.encounter.entities, row);
    }

    /// Marks the entity as dead and counts the death. The encounter goes on.
    pub fn on_death(&mut self, entity: &Entity)
        ensures
            final(self)@ == old(self)@.on_death(entity@),
            unique_names(old(self)@.rows()) ==> unique_names(final(self)@.rows()),
            vitals_in_range(old(self)@.rows()) ==> vitals_in_range(final(self)@.rows()),
    {
        let mut row = fetch(&self.encounter.entities, entity);
        row.is_dead = true;
        row.damage_stats.deaths = bump(row.damage_stats.deaths);
        store(&mut self.encounter.entities, row);
    }

    /// Takes note of the entity's three identity gauges.
    pub fn on_identity_gain(&mut self, entity: &Entity, gauge1: u32, gauge2: u32, gauge3: u32)
        ensures
            final(self)@ == old(self)@.on_identity_gain(entity@, gauge1, gauge2, gauge3),
            unique_names(old(self)@.rows()) ==> unique_names(final(self)@.rows()),
            vitals_in_range(old(self)@.rows()) ==> vitals_in_range(final(self)@.rows()),
    {
        let mut row = fetch(&self.encounter.entities, entity);
        row.identity_gauge1 = gauge1;
        row.identity_gauge2 = gauge2;
        row.identity_gauge3 = gauge3;
        store(&mut self.encounter.entities, row);
    }

    /// Takes note of the entity's stagger value and its limit.
    pub fn on_stagger_change(&mut self, entity: &Entity, point: u32, max_point: u32)
        ensures
            final(self)@ == old(self)@.on_stagger_change(entity@, point, max_point),
            unique_names(old(self)@.rows()) ==> unique_names(final(self)@.rows()),
            vitals_in_range(old(self)@.rows()) ==> vitals_in_range(final(self)@.rows()),
    {
        let mut row = fetch(&self.encounter.entities, entity);
        row.stagger = point;
        row.stagger_max = max_point;
        store(&mut self.encounter.entities, row);
    }

    /// Inserts or refreshes the entity's row with the vitals reported.
    fn arrive(&mut self, entity: &Entity, hp: i64, max_hp: i64)
        ensures
            final(self)@ == old(self)@.arrive(entity@, hp, max_hp),
            unique_names(old(self)@.rows()) ==> unique_names(final(self)@.rows()),
            vitals_in_range(old(self)@.rows()) ==> vitals_in_range(final(self)@.rows()),
    {
        let mut row = fetch(&self.encounter.entities, entity);
        row.current_hp = not_negative(hp);
        row.max_hp = not_negative(max_hp);
        store(&mut self.encounter.entities, row);
    }

    /// The local player entered a zone.
    pub fn on_init_env(&mut self, entity: Entity)
        ensures
            final(self)@ == old(self)@.on_init_env(entity@),
            unique_names(old(self)@.rows()) ==> unique_names(final(self)@.rows()),
            vitals_in_range(old(self)@.rows()) ==> vitals_in_range(final(self)@.rows()),
    {
        let row = fetch(&self.encounter.entities, &entity);
        store(&mut self.encounter.entities, row);
        self.encounter.current_boss_name = String::new();
        self.encounter.current_boss = None;
        self.encounter.local_player = entity.name;
    }

    /// The local player's character was announced.
    pub fn on_init_pc(&mut self, entity: Entity, hp: i64, max_hp: i64)
        ensures
            final(self)@ == old(self)@.on_init_pc(entity@, hp, max_hp),
            unique_names(old(self)@.rows()) ==> unique_names(final(self)@.rows()),
            vitals_in_range(old(self)@.rows()) ==> vitals_in_range(final(self)@.rows()),
    {
        self.update_local_player(&entity.name);
        self.arrive(&entity, hp, max_hp);
    }

    /// Another player came into view.
    pub fn on_new_pc(&mut self, entity: Entity, hp: i64, max_hp: i64)
        ensures
            final(self)@ == old(self)@.on_new_pc(entity@, hp, max_hp),
            unique_names(old(self)@.rows()) ==> unique_names(final(self)@.rows()),
            vitals_in_range(old(self)@.rows()) ==> vitals_in_range(final(self)@.rows()),
    {
        self.arrive(&entity, hp, max_hp);
    }

    /// The hit points of the tracked boss, if a boss is tracked and has a
    /// row.
    fn boss_max_hp(&self) -> (max_hp: Option<i64>)
        ensures
            max_hp == match self@.encounter.boss_row() {
                Some(boss) => Some(boss.max_hp),
                None => None,
            },
    {
        if self.encounter.current_boss_name.as_str().is_empty() {
            None
        } else {
            let i = row_position(&self.encounter.entities, &self.encounter.current_boss_name);
            if i < self.encounter.entities.len() {
                Some(self.encounter.entities[i].max_hp)
            } else {
                None
            }
        }
    }

    /// A non-player entity came into view. One that is marked as a boss and
    /// has at least the hit points of the tracked boss becomes the tracked
    /// boss.
    pub fn on_new_npc(&mut self, entity: Entity, hp: i64, max_hp: i64)
        ensures
            final(self)@ == old(self)@.on_new_npc(entity@, hp, max_hp),
            unique_names(old(self)@.rows()) ==> unique_names(final(self)@.rows()),
            vitals_in_range(old(self)@.rows()) ==> vitals_in_range(final(self)@.rows()),
    {
        let bounded = not_negative(max_hp);
        let takes_over = entity.is_boss && bounded > 0 && match self.boss_max_hp() {
            Some(boss_max_hp) => bounded >= boss_max_hp,
            None => true,
        };
        self.arrive(&entity, hp, max_hp);
        if takes_over {
            self.encounter.current_boss_name = entity.name;
        }
    }

    /// Records a cast of the skill by the entity.
    pub fn on_skill_start(&mut self, entity: Entity, id: u32, timestamp: i64)
        ensures
            final(self)@ == old(self)@.on_skill_start(entity@, id, timestamp),
            unique_names(old(self)@.rows()) ==> unique_names(final(self)@.rows()),
            vitals_in_range(old(self)@.rows()) ==> vitals_in_range(final(self)@.rows()),
    {
        let mut row = fetch(&self.encounter.entities, &entity);
        let mut skill = fetch_skill(&row.skills, id);
        skill.casts = bump(skill.casts);
        store_skill(&mut row.skills, skill);
        row.cast_log.push(SkillCast { skill_id: id, timestamp });
        store(&mut self.encounter.entities, row);
    }

    /// Folds one hit into the aggregate. `owner` is credited with the
    /// damage, `source` is what delivered it (the owner itself, or a
    /// projectile or summon of the owner), `target` is charged. A hit that
    /// brings the boss to zero does not end the encounter.
    pub fn on_damage(
        &mut self,
        owner: &Entity,
        source: &Entity,
        target: &Entity,
        damage: i64,
        skill_id: u32,
        skill_effect_id: u32,
        modifier: i32,
        cur_hp: i64,
        max_hp: i64,
        se_on_source: Vec<crate::status_tracker::StatusEffect>,
        se_on_target: Vec<crate::status_tracker::StatusEffect>,
    )
        ensures
            final(self)@ == old(self)@.on_damage(
                owner@,
                source@,
                target@,
                damage,
                skill_id,
                skill_effect_id,
                modifier,
                cur_hp,
                max_hp,
                se_on_source@.len() > 0,
                se_on_target@.len() > 0,
            ),
            unique_names(old(self)@.rows()) ==> unique_names(final(self)@.rows()),
            vitals_in_range(old(self)@.rows()) ==> vitals_in_range(final(self)@.rows()),
    {
        let key = if skill_id != 0 {
            skill_id
        } else if skill_effect_id != 0 {
            skill_effect_id
        } else if source.entity_type == EntityType::Projectile {
            source.skill_id
        } else {
            0
        };
        let buffed = se_on_source.len() > 0;
        let debuffed = se_on_target.len() > 0;
        let is_crit = crit(modifier);
        let is_back = back_attack(modifier);
        let is_front = front_attack(modifier);

        let mut dealer = fetch(&self.encounter.entities, owner);
        let mut skill = fetch_skill(&dealer.skills, key);
        skill.total_damage = sat_add(skill.total_damage, damage);
        if damage > skill.max_damage {
            skill.max_damage = damage;
        }
        skill.hits = bump(skill.hits);
        skill.crits = bump_if(is_crit, skill.crits);
        skill.back_attacks = bump_if(is_back, skill.back_attacks);
        skill.front_attacks = bump_if(is_front, skill.front_attacks);
        store_skill(&mut dealer.skills, skill);
        dealer.damage_stats.damage_dealt = sat_add(dealer.damage_stats.damage_dealt, damage);
        if buffed {
            dealer.damage_stats.buffed_damage = sat_add(dealer.damage_stats.buffed_damage, damage);
        }
        if debuffed {
            dealer.damage_stats.debuffed_damage = sat_add(
                dealer.damage_stats.debuffed_damage,
                damage,
            );
        }
        dealer.damage_stats.hits = bump(dealer.damage_stats.hits);
        dealer.damage_stats.crits = bump_if(is_crit, dealer.damage_stats.crits);
        dealer.damage_stats.back_attacks = bump_if(is_back, dealer.damage_stats.back_attacks);
        dealer.damage_stats.front_attacks = bump_if(is_front, dealer.damage_stats.front_attacks);
        store(&mut self.encounter.entities, dealer);

        let mut victim = fetch(&self.encounter.entities, target);
        victim.current_hp = not_negative(cur_hp);
        victim.max_hp = not_negative(max_hp);
        victim.damage_stats.damage_taken = sat_add(victim.damage_stats.damage_taken, damage);
        store(&mut self.encounter.entities, victim);
    }

    /// Applies a phase notice: 0 and 1 end the encounter, 2 starts it.
    pub fn on_phase_transition(&mut self, code: i32)
        ensures
            final(self)@ == old(self)@.on_phase_transition(code),
    {
        if code == 0 || code == 1 {
            self.encounter.phase = Phase::Cleared;
            self.raid_end = true;
        } else if code == 2 && self.encounter.phase == Phase::Idle {
            self.encounter.phase = Phase::InProgress;
        }
    }

    /// Gives the local player's row the name under which the player is now
    /// known.
    pub fn update_local_player(&mut self, name: &String)
        ensures
            final(self)@ == old(self)@.update_local_player(name@),
            unique_names(old(self)@.rows()) ==> unique_names(final(self)@.rows()),
            vitals_in_range(old(self)@.rows()) ==> vitals_in_range(final(self)@.rows()),
    {
        let ghost before = self@.rows();
        let ghost old_name = self.encounter.local_player@;
        let ghost keep = not_named(name@);
        let i = row_position(&self.encounter.entities, &self.encounter.local_player);
        if self.encounter.local_player == *name || i >= self.encounter.entities.len() {
            self.encounter.local_player = name.clone();
            return;
        }
        let mut others: Vec<EncounterEntity> = Vec::new();
        let mut k: usize = 0;
        while k < self.encounter.entities.len()
            invariant
                0 <= k <= self.encounter.entities.len(),
                before == row_views(self.encounter.entities@),
                keep == not_named(name@),
                row_views(others@) == before.take(k as int).filter(keep),
            decreases self.encounter.entities.len() - k,
        {
            let row = &self.encounter.entities[k];
            proof {
                lemma_filter_step(before, keep, k as int);
            }
            if row.name != *name {
                let ghost prior = others@;
                others.push(row.clone());
                assert(row_views(others@) =~= row_views(prior).push(before[k as int]));
            }
            k += 1;
        }
        proof {
            assert(before.take(k as int) == before);
            lemma_first_match_exists(before, keyed(row_name(), old_name));
            lemma_survivor_found(before, keep, i as int);
        }
        let j = row_position(&others, &self.encounter.local_player);
        let ghost kept = row_views(others@);
        let mut row = others[j].clone();
        row.name = name.clone();
        others.set(j, row);
        assert(row_views(others@) =~= kept.update(
            j as int,
            EncounterEntityView { name: name@, ..kept[j as int] },
        ));
        self.encounter.entities = others;
        self.encounter.local_player = name.clone();
        proof {
            if unique_names(before) {
                lemma_renamed_unique(before, old_name, name@);
            }
            if vitals_in_range(before) {
                lemma_filter_keeps_all(before, keep, vitals_ok());
            }
        }
    }

    /// The copy to publish: the boss looked up, the rows reduced to players
    /// and esthers that dealt damage. The state itself is left as it is, so
    /// that two publications in a row show the same.
    pub fn snapshot(&self) -> (copy: Encounter)
        ensures
            copy@ == self@.encounter.snapshot(),
            unique_names(self@.rows()) ==> unique_names(copy@.entities),
            vitals_in_range(self@.rows()) ==> vitals_in_range(copy@.entities),
    {
        let ghost all = self@.rows();
        let ghost keep = shown();
        let mut boss_name = self.encounter.current_boss_name.clone();
        let mut boss = copy_row(&self.encounter.current_boss);
        if !boss_name.as_str().is_empty() {
            let i = row_position(&self.encounter.entities, &boss_name);
            if i < self.encounter.entities.len() {
                boss = Some(self.encounter.entities[i].clone());
            } else {
                boss = None;
                boss_name = String::new();
            }
        }
        let mut rows: Vec<EncounterEntity> = Vec::new();
        let mut k: usize = 0;
        while k < self.encounter.entities.len()
            invariant
                0 <= k <= self.encounter.entities.len(),
                all == row_views(self.encounter.entities@),
                keep == shown(),
                row_views(rows@) == all.take(k as int).filter(keep),
            decreases self.encounter.entities.len() - k,
        {
            let row = &self.encounter.entities[k];
            proof {
                lemma_filter_step(all, keep, k as int);
            }
            if (row.entity_type == EntityType::Player || row.entity_type == EntityType::Esther)
                && row.damage_stats.damage_dealt > 0 && row.max_hp > 0 {
                let ghost prior = rows@;
                rows.push(row.clone());
                assert(row_views(rows@) =~= row_views(prior).push(all[k as int]));
            }
            k += 1;
        }
        proof {
            assert(all.take(k as int) == all);
            if unique_names(all) {
                lemma_filter_keeps_distinct(all, row_name(), keep);
            }
            if vitals_in_range(all) {
                lemma_filter_keeps_all(all, keep, vitals_ok());
            }
        }
        Encounter {
            entities: rows,
            current_boss_name: boss_name,
            current_boss: boss,
            local_player: self.encounter.local_player.clone(),
            phase: self.encounter.phase,
        }
    }

    /// The row filed under the name, if there is one.
    pub fn row(&self, name: &String) -> (found: Option<EncounterEntity>)
        ensures
            row_view(found) == entry(self@.rows(), row_name(), name@),
    {
        let i = row_position(&self.encounter.entities, name);
        if i < self.encounter.entities.len() {
            Some(self.encounter.entities[i].clone())
        } else {
            None
        }
    }
}

} // verus!
