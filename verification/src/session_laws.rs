//! What holds of a session across its components.

use crate::encounter_laws::{after_hit, Hit};
use crate::encounter_state::Phase;
use crate::entity_tracker::{placeholder, TrackerView};
use crate::events::SkillDamage;
use crate::session::SessionView;
use crate::status_tracker::effects_on;
use vstd::prelude::*;

verus! {

/// A reset, whether requested by signal or due after the end of a raid,
/// leaves an empty encounter: no rows, idle, both flags down. What the
/// trackers know of identities, parties and effects is as before.
pub proof fn lemma_reset_spares_trackers(session: SessionView)
    ensures
        session.poll_signals(Some(true)).state == session.state.soft_reset(),
        session.poll_signals(Some(true)).tracker == session.tracker,
        session.poll_signals(Some(true)).state.rows().len() == 0,
        session.poll_signals(Some(true)).state.encounter.phase == Phase::Idle,
        !session.poll_signals(Some(true)).state.raid_end,
        !session.poll_signals(Some(true)).state.saved,
        session.after_event().tracker == session.tracker,
        session.state.raid_end ==> session.after_event().state == session.state.soft_reset(),
        !session.after_event().state.raid_end,
{
}

/// While the raid has not ended, asking what is due changes nothing: two
/// copies taken in a row, with no event between them, are the same.
pub proof fn lemma_publication_repeats(session: SessionView)
    requires
        !session.state.raid_end,
    ensures
        session.after_event() == session,
        session.after_event().state.encounter.snapshot() == session.state.encounter.snapshot(),
{
}

/// A signal that is down, or could not be read, changes nothing.
pub proof fn lemma_no_reset_without_request(session: SessionView, reset: Option<bool>)
    requires
        reset != Some(true),
    ensures
        session.poll_signals(reset) == session,
{
}

/// A second reference to an object id finds what the first one left: no
/// entity is made twice.
pub proof fn lemma_reference_idempotent(tracker: TrackerView, id: u64)
    ensures
        tracker.get_or_create_entity(id).get_or_create_entity(id) == tracker.get_or_create_entity(
            id,
        ),
        tracker.get_or_create_entity(id).entities.dom() == tracker.entities.dom().insert(id),
        tracker.get_or_create_entity(id).entity_or_placeholder(id) == tracker.entity_or_placeholder(
            id,
        ),
{
    assert(tracker.get_or_create_entity(id).entities.dom() =~= tracker.entities.dom().insert(id));
}

/// The hit that a session makes of the single hit of `pkt`, where neither
/// source nor target is known: both are placeholders.
pub open spec fn hit_between_strangers(session: SessionView, pkt: SkillDamage) -> Hit {
    let event = pkt.hits@[0];
    let tracker = session.tracker.with_entity(placeholder(pkt.source_id)).with_entity(
        placeholder(event.target_id),
    );
    let local = session.local_character();
    Hit {
        owner: placeholder(pkt.source_id),
        source: placeholder(pkt.source_id),
        target: placeholder(event.target_id),
        damage: event.damage,
        skill_id: pkt.skill_id,
        skill_effect_id: pkt.skill_effect_id,
        modifier: event.modifier,
        cur_hp: event.cur_hp,
        max_hp: event.max_hp,
        buffed: effects_on(
            tracker.statuses,
            placeholder(pkt.source_id),
            local,
            tracker.ids,
            tracker.parties,
        ).len() > 0,
        debuffed: effects_on(
            tracker.statuses,
            placeholder(event.target_id),
            local,
            tracker.ids,
            tracker.parties,
        ).len() > 0,
    }
}

/// A hit between two objects that were never introduced makes exactly two
/// entities, a placeholder for each, and folds the hit into the encounter
/// with the source's placeholder as dealer and the target's as victim. The
/// same notice a second time makes no further entity.
pub proof fn lemma_hit_between_strangers(session: SessionView, pkt: SkillDamage)
    requires
        pkt.hits@.len() == 1,
        pkt.source_id != pkt.hits@[0].target_id,
        !session.tracker.entities.contains_key(pkt.source_id),
        !session.tracker.entities.contains_key(pkt.hits@[0].target_id),
    ensures
        session.skill_damage(pkt).tracker == session.tracker.with_entity(
            placeholder(pkt.source_id),
        ).with_entity(placeholder(pkt.hits@[0].target_id)),
        session.skill_damage(pkt).tracker.entities.dom() == session.tracker.entities.dom().insert(
            pkt.source_id,
        ).insert(pkt.hits@[0].target_id),
        session.tracker.entities.dom().finite() ==> session.skill_damage(
            pkt,
        ).tracker.entities.dom().len() == session.tracker.entities.dom().len() + 2,
        session.skill_damage(pkt).state == after_hit(
            session.state,
            hit_between_strangers(session, pkt),
        ),
        session.skill_damage(pkt).skill_damage(pkt).tracker == session.skill_damage(pkt).tracker,
{
    let event = pkt.hits@[0];
    let started = session.with_tracker(session.tracker.get_source_entity(pkt.source_id));
    assert(pkt.hits@.drop_last() =~= Seq::empty());
    assert(pkt.hits@.last() == event);
    let none = started.hits(
        placeholder(pkt.source_id),
        pkt.source_id,
        pkt.skill_id,
        pkt.skill_effect_id,
        pkt.hits@.drop_last(),
    );
    assert(none == started);
    let after = session.skill_damage(pkt);
    assert(after == started.hit(
        placeholder(pkt.source_id),
        pkt.source_id,
        pkt.skill_id,
        pkt.skill_effect_id,
        event,
    ));
    assert(after.tracker.entities.dom() =~= session.tracker.entities.dom().insert(
        pkt.source_id,
    ).insert(event.target_id));

    let again = after.with_tracker(after.tracker.get_source_entity(pkt.source_id));
    assert(again.tracker == after.tracker);
    let again_none = again.hits(
        after.tracker.entity_or_placeholder(after.tracker.causer_id(pkt.source_id)),
        pkt.source_id,
        pkt.skill_id,
        pkt.skill_effect_id,
        pkt.hits@.drop_last(),
    );
    assert(again_none == again);
}

/// A duration notice for an effect that was never registered is dropped:
/// the effects are as before, and no query finds the instance.
pub proof fn lemma_unknown_duration_dropped(
    session: SessionView,
    effect_instance_id: u32,
    target_id: u64,
    expiration_tick: u64,
    now: i64,
)
    requires
        !crate::status_tracker::knows_instance(session.tracker.statuses, effect_instance_id),
    ensures
        session.handle(
            crate::events::Event::StatusEffectDuration {
                effect_instance_id,
                target_id,
                expiration_tick,
            },
            now,
        ) == session,
{
    crate::status_tracker::lemma_duration_of_unknown_instance(
        session.tracker.statuses,
        effect_instance_id,
        target_id,
        expiration_tick,
        crate::models::StatusEffectTargetType::Local,
    );
}

} // verus!
