//! What holds of the encounter aggregate over whole runs of events.

use crate::encounter_state::{
    dealt, row_for, row_name, sat_sum, skill_key, taken, EncounterEntityView, EncounterView,
    StateView,
};
use crate::lookup::{entry, keyed, lemma_first_match_exists, lemma_put_entry, put};
use crate::models::EntityView;
use vstd::prelude::*;

verus! {

/// One hit, as `on_damage` is told of it.
pub struct Hit {
    pub owner: EntityView,
    pub source: EntityView,
    pub target: EntityView,
    pub damage: i64,
    pub skill_id: u32,
    pub skill_effect_id: u32,
    pub modifier: i32,
    pub cur_hp: i64,
    pub max_hp: i64,
    pub buffed: bool,
    pub debuffed: bool,
}

pub open spec fn after_hit(state: StateView, hit: Hit) -> StateView {
    state.on_damage(
        hit.owner,
        hit.source,
        hit.target,
        hit.damage,
        hit.skill_id,
        hit.skill_effect_id,
        hit.modifier,
        hit.cur_hp,
        hit.max_hp,
        hit.buffed,
        hit.debuffed,
    )
}

/// The state after the hits, folded in from first to last.
pub open spec fn after_hits(state: StateView, hits: Seq<Hit>) -> StateView
    decreases hits.len(),
{
    if hits.len() == 0 {
        state
    } else {
        after_hit(after_hits(state, hits.drop_last()), hits.last())
    }
}

/// The damage that the row of this name has dealt; 0 without such a row.
pub open spec fn damage_dealt_by(rows: Seq<EncounterEntityView>, name: Seq<char>) -> int {
    match entry(rows, row_name(), name) {
        Some(row) => row.damage_stats.damage_dealt as int,
        None => 0,
    }
}

/// The damage that the row of this name has taken; 0 without such a row.
pub open spec fn damage_taken_by(rows: Seq<EncounterEntityView>, name: Seq<char>) -> int {
    match entry(rows, row_name(), name) {
        Some(row) => row.damage_stats.damage_taken as int,
        None => 0,
    }
}

/// The damage of the hits that the entity of this name owns.
pub open spec fn dealt_in(hits: Seq<Hit>, name: Seq<char>) -> int
    decreases hits.len(),
{
    if hits.len() == 0 {
        0
    } else {
        dealt_in(hits.drop_last(), name) + if hits.last().owner.name == name {
            hits.last().damage as int
        } else {
            0
        }
    }
}

/// The damage of the hits that land on the entity of this name.
pub open spec fn taken_in(hits: Seq<Hit>, name: Seq<char>) -> int
    decreases hits.len(),
{
    if hits.len() == 0 {
        0
    } else {
        taken_in(hits.drop_last(), name) + if hits.last().target.name == name {
            hits.last().damage as int
        } else {
            0
        }
    }
}

pub open spec fn fits_i64(x: int) -> bool {
    i64::MIN <= x <= i64::MAX
}

/// Starting from `base`, the damage dealt under this name stays within the
/// range of `i64` after every one of the hits.
pub open spec fn dealt_fits(base: int, hits: Seq<Hit>, name: Seq<char>) -> bool
    decreases hits.len(),
{
    if hits.len() == 0 {
        fits_i64(base)
    } else {
        dealt_fits(base, hits.drop_last(), name) && fits_i64(base + dealt_in(hits, name))
    }
}

/// Starting from `base`, the damage taken under this name stays within the
/// range of `i64` after every one of the hits.
pub open spec fn taken_fits(base: int, hits: Seq<Hit>, name: Seq<char>) -> bool
    decreases hits.len(),
{
    if hits.len() == 0 {
        fits_i64(base)
    } else {
        taken_fits(base, hits.drop_last(), name) && fits_i64(base + taken_in(hits, name))
    }
}

/// The row that a reducer works on carries the entity's name and the totals
/// that were filed under that name.
pub proof fn lemma_row_for(rows: Seq<EncounterEntityView>, entity: EntityView)
    ensures
        row_for(rows, entity).name == entity.name,
        row_for(rows, entity).damage_stats.damage_dealt == damage_dealt_by(rows, entity.name),
        row_for(rows, entity).damage_stats.damage_taken == damage_taken_by(rows, entity.name),
{
    lemma_first_match_exists(rows, keyed(row_name(), entity.name));
}

/// One hit adds its damage to what the owner has dealt and to what the
/// target has taken, and to no other row's totals.
pub proof fn lemma_hit_totals(state: StateView, hit: Hit, name: Seq<char>)
    ensures
        damage_dealt_by(after_hit(state, hit).rows(), name) == if hit.owner.name == name {
            sat_sum(damage_dealt_by(state.rows(), name) as i64, hit.damage) as int
        } else {
            damage_dealt_by(state.rows(), name)
        },
        damage_taken_by(after_hit(state, hit).rows(), name) == if hit.target.name == name {
            sat_sum(damage_taken_by(state.rows(), name) as i64, hit.damage) as int
        } else {
            damage_taken_by(state.rows(), name)
        },
{
    let rows = state.rows();
    let key = skill_key(hit.source, hit.skill_id, hit.skill_effect_id);
    let dealer = dealt(
        row_for(rows, hit.owner),
        key,
        hit.damage,
        hit.modifier,
        hit.buffed,
        hit.debuffed,
    );
    let credited = put(rows, row_name(), dealer);
    let victim = taken(row_for(credited, hit.target), hit.damage, hit.cur_hp, hit.max_hp);
    let charged = put(credited, row_name(), victim);
    assert(after_hit(state, hit).rows() == charged);
    lemma_row_for(rows, hit.owner);
    lemma_row_for(credited, hit.target);
    lemma_put_entry(rows, row_name(), dealer, name);
    lemma_put_entry(rows, row_name(), dealer, hit.target.name);
    lemma_put_entry(credited, row_name(), victim, name);
    lemma_first_match_exists(rows, keyed(row_name(), name));
    lemma_first_match_exists(rows, keyed(row_name(), hit.target.name));
}

/// Whatever hits are folded in, in whatever order they fall among hits of
/// other entities: the damage dealt under a name grows by the sum of the
/// damage of the hits that the entity of this name owns, as long as the
/// total stays within the range of `i64`.
pub proof fn lemma_damage_dealt_adds_up(state: StateView, hits: Seq<Hit>, name: Seq<char>)
    requires
        dealt_fits(damage_dealt_by(state.rows(), name), hits, name),
    ensures
        damage_dealt_by(after_hits(state, hits).rows(), name) == damage_dealt_by(
            state.rows(),
            name,
        ) + dealt_in(hits, name),
    decreases hits.len(),
{
    if hits.len() > 0 {
        lemma_damage_dealt_adds_up(state, hits.drop_last(), name);
        lemma_hit_totals(after_hits(state, hits.drop_last()), hits.last(), name);
    }
}

/// The same for the damage taken under a name: it grows by the sum of the
/// damage of the hits that land on the entity of this name.
pub proof fn lemma_damage_taken_adds_up(state: StateView, hits: Seq<Hit>, name: Seq<char>)
    requires
        taken_fits(damage_taken_by(state.rows(), name), hits, name),
    ensures
        damage_taken_by(after_hits(state, hits).rows(), name) == damage_taken_by(
            state.rows(),
            name,
        ) + taken_in(hits, name),
    decreases hits.len(),
{
    if hits.len() > 0 {
        lemma_damage_taken_adds_up(state, hits.drop_last(), name);
        lemma_hit_totals(after_hits(state, hits.drop_last()), hits.last(), name);
    }
}

/// Hits leave the phase and the two flags alone: no hit ends the encounter.
pub proof fn lemma_hits_keep_phase(state: StateView, hits: Seq<Hit>)
    ensures
        after_hits(state, hits).encounter.phase == state.encounter.phase,
        after_hits(state, hits).raid_end == state.raid_end,
        after_hits(state, hits).saved == state.saved,
        after_hits(state, hits).encounter.current_boss_name == state.encounter.current_boss_name,
    decreases hits.len(),
{
    if hits.len() > 0 {
        lemma_hits_keep_phase(state, hits.drop_last());
    }
}

/// Looking the boss up a second time changes nothing: a publication depends
/// on the aggregate alone.
pub proof fn lemma_resolved_idempotent(encounter: EncounterView)
    ensures
        encounter.resolved().resolved() == encounter.resolved(),
{
}

/// A boss that is named but has no row is forgotten by the publication, not
/// made up.
pub proof fn lemma_absent_boss_is_cleared(encounter: EncounterView)
    requires
        encounter.boss_row() is None,
        encounter.current_boss_name.len() > 0,
    ensures
        encounter.snapshot().current_boss is None,
        encounter.snapshot().current_boss_name.len() == 0,
{
}

/// After a reset the aggregate is empty whatever it held, and a second reset
/// changes nothing.
pub proof fn lemma_soft_reset(state: StateView)
    ensures
        state.soft_reset().rows().len() == 0,
        state.soft_reset().encounter.snapshot().entities.len() == 0,
        state.soft_reset().encounter.boss_row() is None,
        state.soft_reset().encounter.phase == crate::encounter_state::Phase::Idle,
        !state.soft_reset().raid_end,
        !state.soft_reset().saved,
        state.soft_reset().soft_reset() == state.soft_reset(),
{
    reveal(Seq::filter);
    assert(state.soft_reset().rows() =~= Seq::empty());
}

} // verus!
