//! One metering session: the trackers, the encounter state, and the rules by
//! which events are routed to them.
//!
//! The session does no waiting and no sending. Whoever runs the loop polls
//! the two signals, hands over each decoded event, and asks after each event
//! whether a copy of the encounter is due.

use crate::clock::now_millis;
use crate::encounter_state::{
    unique_names, vitals_in_range, Encounter, EncounterState, StateView,
};
use crate::entity_tracker::{
    class_of, get_current_and_max_hp, guessed, npc_entity, pc_entity, stat_value, summon_entity,
    EntityTracker, SkillClass, SkillClassTable, TrackerView, HP_STAT, MAX_HP_STAT,
};
use crate::events::{Event, SkillDamage, SkillDamageEvent};
use crate::models::{Entity, EntityView, StatusEffectTargetType};
use crate::party_tracker::{added, removed};
use crate::status_tracker::{
    duration_updated, effects_on, effects_removed, object_removed, StatusEffect,
};
use vstd::prelude::*;

verus! {

/// A copy of the encounter is due when this many milliseconds have passed
/// since the last one.
pub const PUBLISH_INTERVAL_MS: u64 = 100;

/// What the loop is to do with the event at hand, after the signals were
/// polled.
#[derive(Clone, Copy, Debug, PartialEq, Eq)]
pub struct Intake {
    /// The reset request was seen and carried out: the loop lowers the
    /// signal.
    pub reset_done: bool,
    /// The session is paused: the loop drops the event.
    pub discard: bool,
}

/// What the loop is to do after an event.
#[derive(Debug)]
pub struct Publication {
    /// The copy to hand to the display, if one is due and shows anything.
    pub snapshot: Option<Encounter>,
    /// Whether a copy was due: the loop restarts its timer.
    pub restart_timer: bool,
}

pub struct Session {
    pub tracker: EntityTracker,
    pub state: EncounterState,
    pub skills: SkillClassTable,
}

pub struct SessionView {
    pub tracker: TrackerView,
    pub state: StateView,
    pub skills: Seq<SkillClass>,
}

impl View for Session {
    type V = SessionView;

    open spec fn view(&self) -> SessionView {
        SessionView { tracker: self.tracker@, state: self.state@, skills: self.skills@ }
    }
}

/// The effects after every listed object was removed, first to last.
pub open spec fn objects_removed(effects: Seq<StatusEffect>, object_ids: Seq<u64>) -> Seq<
    StatusEffect,
>
    decreases object_ids.len(),
{
    if object_ids.len() == 0 {
        effects
    } else {
        object_removed(objects_removed(effects, object_ids.drop_last()), object_ids.last())
    }
}

/// Whether a copy is due: the interval has passed, or the raid has ended.
pub open spec fn publish_due(elapsed_ms: u64, raid_end: bool) -> bool {
    elapsed_ms >= PUBLISH_INTERVAL_MS || raid_end
}

impl SessionView {
    /// The invariants of the trackers hold, no two rows share a name, and
    /// no row shows hit points below zero.
    pub open spec fn wf(self) -> bool {
        self.tracker.wf() && unique_names(self.state.rows()) && vitals_in_range(
            self.state.rows(),
        )
    }

    pub open spec fn with_tracker(self, tracker: TrackerView) -> SessionView {
        SessionView { tracker, ..self }
    }

    pub open spec fn with_state(self, state: StateView) -> SessionView {
        SessionView { state, ..self }
    }

    /// The character of the local player as the identity tracker knows it;
    /// 0 when it does not.
    pub open spec fn local_character(self) -> u64 {
        match self.tracker.ids.character_of(self.tracker.ids.local_player) {
            Some(c) => c,
            None => 0,
        }
    }

    /// One hit of a skill that `owner` used through the object `source_id`.
    /// Target and source are looked up, or made up where they are not
    /// known, and the hit is folded into the encounter together with what
    /// is known of the effects on owner and target.
    pub open spec fn hit(
        self,
        owner: EntityView,
        source_id: u64,
        skill_id: u32,
        skill_effect_id: u32,
        event: SkillDamageEvent,
    ) -> SessionView {
        let target = self.tracker.entity_or_placeholder(event.target_id);
        let with_target = self.tracker.get_or_create_entity(event.target_id);
        let source = with_target.entity_or_placeholder(source_id);
        let tracker = with_target.get_or_create_entity(source_id);
        let local = self.local_character();
        let on_source = effects_on(tracker.statuses, owner, local, tracker.ids, tracker.parties);
        let on_target = effects_on(tracker.statuses, target, local, tracker.ids, tracker.parties);
        SessionView {
            tracker,
            state: self.state.on_damage(
                owner,
                source,
                target,
                event.damage,
                skill_id,
                skill_effect_id,
                event.modifier,
                event.cur_hp,
                event.max_hp,
                on_source.len() > 0,
                on_target.len() > 0,
            ),
            ..self
        }
    }

    /// The hits of one use of a skill, first to last.
    pub open spec fn hits(
        self,
        owner: EntityView,
        source_id: u64,
        skill_id: u32,
        skill_effect_id: u32,
        events: Seq<SkillDamageEvent>,
    ) -> SessionView
        decreases events.len(),
    {
        if events.len() == 0 {
            self
        } else {
            self.hits(owner, source_id, skill_id, skill_effect_id, events.drop_last()).hit(
                owner,
                source_id,
                skill_id,
                skill_effect_id,
                events.last(),
            )
        }
    }

    /// One use of a skill: the damage goes to whoever stands behind the
    /// source.
    pub open spec fn skill_damage(self, pkt: SkillDamage) -> SessionView {
        let owner = self.tracker.entity_or_placeholder(self.tracker.causer_id(pkt.source_id));
        self.with_tracker(self.tracker.get_source_entity(pkt.source_id)).hits(
            owner,
            pkt.source_id,
            pkt.skill_id,
            pkt.skill_effect_id,
            pkt.hits@,
        )
    }

    /// The start of a skill: whoever stands behind the source is taken for
    /// a player where the skill says so, and the cast is recorded.
    pub open spec fn skill_start(self, source_id: u64, skill_id: u32, now: i64) -> SessionView {
        let found = self.tracker.entity_or_placeholder(self.tracker.causer_id(source_id));
        let class_id = class_of(self.skills, skill_id);
        SessionView {
            tracker: self.tracker.get_source_entity(source_id).guess_is_player(found, class_id),
            state: self.state.on_skill_start(guessed(found, class_id), skill_id, now),
            ..self
        }
    }

    /// An event that concerns one known entity: the state changes by
    /// `change`, or not at all when the entity is not known.
    pub open spec fn for_known(
        self,
        object_id: u64,
        change: spec_fn(StateView, EntityView) -> StateView,
    ) -> SessionView {
        match self.tracker.entity(object_id) {
            Some(entity) => self.with_state(change(self.state, entity)),
            None => self,
        }
    }

    /// A party notice: the tracker takes it over, and the local player's
    /// row takes the name that the local player's entity then has.
    pub open spec fn party_info(self, pkt: crate::events::PartyInfo) -> SessionView {
        let tracker = self.tracker.party_info(pkt);
        SessionView {
            tracker,
            state: match tracker.entity(tracker.ids.local_player) {
                Some(local) => self.state.update_local_player(local.name),
                None => self.state,
            },
            ..self
        }
    }

    /// The session after the event, handled at the time `now`.
    pub open spec fn handle(self, event: Event, now: i64) -> SessionView {
        match event {
            Event::CounterAttack { source_id } => self.for_known(
                source_id,
                |s: StateView, e: EntityView| s.on_counterattack(e),
            ),
            Event::Death { target_id } => self.for_known(
                target_id,
                |s: StateView, e: EntityView| s.on_death(e),
            ),
            Event::IdentityGaugeChange { player_id, gauge1, gauge2, gauge3 } => self.for_known(
                player_id,
                |s: StateView, e: EntityView| s.on_identity_gain(e, gauge1, gauge2, gauge3),
            ),
            Event::InitEnv(pkt) => SessionView {
                tracker: self.tracker.init_env(pkt),
                state: self.state.on_init_env(self.tracker.local_entity(pkt.player_id)),
                ..self
            },
            Event::InitPc(pkt) => SessionView {
                tracker: self.tracker.init_pc(pkt),
                state: self.state.on_init_pc(
                    pc_entity(pkt.player_id, pkt.character_id, pkt.name@, pkt.class_id),
                    stat_value(pkt.stat_pairs@, HP_STAT),
                    stat_value(pkt.stat_pairs@, MAX_HP_STAT),
                ),
                ..self
            },
            Event::MigrationExecute(pkt) => self.with_tracker(self.tracker.migration_execute(pkt)),
            Event::NewPc(pkt) => SessionView {
                tracker: self.tracker.new_pc(pkt),
                state: self.state.on_new_pc(
                    pc_entity(pkt.player_id, pkt.character_id, pkt.name@, pkt.class_id),
                    stat_value(pkt.stat_pairs@, HP_STAT),
                    stat_value(pkt.stat_pairs@, MAX_HP_STAT),
                ),
                ..self
            },
            Event::NewNpc(pkt) => {
                let max_hp = stat_value(pkt.stat_pairs@, MAX_HP_STAT);
                SessionView {
                    tracker: self.tracker.new_npc(pkt, max_hp),
                    state: self.state.on_new_npc(
                        npc_entity(pkt, max_hp),
                        stat_value(pkt.stat_pairs@, HP_STAT),
                        max_hp,
                    ),
                    ..self
                }
            },
            Event::NewNpcSummon(pkt) => {
                let max_hp = stat_value(pkt.npc.stat_pairs@, MAX_HP_STAT);
                SessionView {
                    tracker: self.tracker.new_npc_summon(pkt, max_hp),
                    state: self.state.on_new_npc(
                        summon_entity(pkt, max_hp),
                        stat_value(pkt.npc.stat_pairs@, HP_STAT),
                        max_hp,
                    ),
                    ..self
                }
            },
            Event::NewProjectile(pkt) => self.with_tracker(self.tracker.new_projectile(pkt)),
            Event::ParalyzationState {
                object_id,
                paralyzation_point,
                paralyzation_max_point,
            } => self.for_known(
                object_id,
                |s: StateView, e: EntityView|
                    s.on_stagger_change(e, paralyzation_point, paralyzation_max_point),
            ),
            Event::PartyInfo(pkt) => self.party_info(pkt),
            Event::PartyLeave { party_instance_id, name } => self.with_tracker(
                TrackerView {
                    parties: removed(self.tracker.parties, party_instance_id, name@),
                    ..self.tracker
                },
            ),
            Event::PartyStatusEffectAdd(pkt) => self.with_tracker(
                self.tracker.party_status_effect_add(pkt),
            ),
            Event::PartyStatusEffectRemove(pkt) => self.with_tracker(
                self.tracker.party_status_effect_remove(pkt),
            ),
            Event::PartyStatusEffectResult {
                raid_instance_id,
                party_instance_id,
                character_id,
            } => self.with_tracker(
                TrackerView {
                    parties: added(
                        self.tracker.parties,
                        raid_instance_id,
                        party_instance_id,
                        character_id,
                        0,
                        None,
                    ),
                    ..self.tracker
                },
            ),
            Event::RaidBossKill => self.with_state(self.state.on_phase_transition(1)),
            Event::RaidResult => self.with_state(self.state.on_phase_transition(0)),
            Event::RemoveObject { object_ids } => self.with_tracker(
                TrackerView {
                    statuses: objects_removed(self.tracker.statuses, object_ids@),
                    ..self.tracker
                },
            ),
            Event::SkillStart { source_id, skill_id } => self.skill_start(source_id, skill_id, now),
            Event::SkillDamage(pkt) => self.skill_damage(pkt),
            Event::StatusEffectAdd { object_id, effect } => self.with_tracker(
                self.tracker.build_and_register_status_effect(effect, object_id),
            ),
            Event::StatusEffectDuration {
                effect_instance_id,
                target_id,
                expiration_tick,
            } => self.with_tracker(
                TrackerView {
                    statuses: duration_updated(
                        self.tracker.statuses,
                        effect_instance_id,
                        target_id,
                        expiration_tick,
                        StatusEffectTargetType::Local,
                    ),
                    ..self.tracker
                },
            ),
            Event::StatusEffectRemove { object_id, status_effect_ids } => self.with_tracker(
                TrackerView {
                    statuses: effects_removed(
                        self.tracker.statuses,
                        object_id,
                        status_effect_ids@,
                        StatusEffectTargetType::Local,
                    ),
                    ..self.tracker
                },
            ),
            Event::TriggerBossBattleStatus => self.with_state(self.state.on_phase_transition(2)),
            Event::ZoneObjectUnpublish { object_id } => self.with_tracker(
                TrackerView {
                    statuses: object_removed(self.tracker.statuses, object_id),
                    ..self.tracker
                },
            ),
            Event::Other => self,
        }
    }

    /// The session after the signals were polled: a reset request that was
    /// seen clears the encounter and nothing else.
    pub open spec fn poll_signals(self, reset: Option<bool>) -> SessionView {
        if reset == Some(true) {
            self.with_state(self.state.soft_reset())
        } else {
            self
        }
    }

    /// The session after an event was handled: an encounter that has ended
    /// is cleared, once its copy is taken.
    pub open spec fn after_event(self) -> SessionView {
        if self.state.raid_end {
            self.with_state(self.state.soft_reset())
        } else {
            self
        }
    }
}

impl Session {
    /// A session that has seen nothing yet.
    pub fn new(skills: SkillClassTable) -> (session: Session)
        ensures
            session@.tracker == TrackerView::empty(),
            session@.state == StateView::empty(Seq::empty()),
            session@.skills == skills@,
            session@.wf(),
    {
        Session { tracker: EntityTracker::new(), state: EncounterState::new(), skills }
    }

    /// Takes in what the loop read of the two signals at the top of an
    /// iteration. `None` stands for a signal that could not be read this
    /// time: it is looked at again with the next event. A reset request
    /// clears the encounter and leaves identities, parties and effects as
    /// they are. While the session is paused, events are dropped.
    pub fn poll_signals(&mut self, reset: Option<bool>, pause: Option<bool>) -> (intake: Intake)
        ensures
            intake.reset_done == (reset == Some(true)),
            intake.discard == (pause == Some(true)),
            final(self)@ == old(self)@.poll_signals(reset),
            final(self)@.tracker == old(self)@.tracker,
            old(self)@.wf() ==> final(self)@.wf(),
    {
        let reset_done = match reset {
            Some(requested) => requested,
            None => false,
        };
        if reset_done {
            self.state.soft_reset();
        }
        let discard = match pause {
            Some(paused) => paused,
            None => false,
        };
        Intake { reset_done, discard }
    }

    /// Folds the hits of one use of a skill into the session.
    fn apply_hits(&mut self, owner: &Entity, pkt: &SkillDamage)
        ensures
            final(self)@ == old(self)@.hits(
                owner@,
                pkt.source_id,
                pkt.skill_id,
                pkt.skill_effect_id,
                pkt.hits@,
            ),
            old(self)@.wf() ==> final(self)@.wf(),
    {
        let ghost before = self@;
        let mut i: usize = 0;
        while i < pkt.hits.len()
            invariant
                0 <= i <= pkt.hits.len(),
                self@ == before.hits(
                    owner@,
                    pkt.source_id,
                    pkt.skill_id,
                    pkt.skill_effect_id,
                    pkt.hits@.take(i as int),
                ),
                before.wf() ==> self@.wf(),
            decreases pkt.hits.len() - i,
        {
            let event = pkt.hits[i];
            let local = self.tracker.ids.get_local_character_id(self.tracker.ids.local_player());
            let target = self.tracker.get_or_create_entity(event.target_id);
            let source = self.tracker.get_or_create_entity(pkt.source_id);
            let (on_source, on_target) = self.tracker.statuses.get_status_effects(
                owner,
                &target,
                local,
                &self.tracker.ids,
                &self.tracker.parties,
            );
            self.state.on_damage(
                owner,
                &source,
                &target,
                event.damage,
                pkt.skill_id,
                pkt.skill_effect_id,
                event.modifier,
                event.cur_hp,
                event.max_hp,
                on_source,
                on_target,
            );
            proof {
                assert(pkt.hits@.take(i + 1).drop_last() =~= pkt.hits@.take(i as int));
                assert(pkt.hits@.take(i + 1).last() == pkt.hits@[i as int]);
            }
            i += 1;
        }
        assert(pkt.hits@.take(i as int) =~= pkt.hits@);
    }

    /// Removes the effects of every listed object.
    fn remove_objects(&mut self, object_ids: &Vec<u64>)
        ensures
            final(self)@ == old(self)@.with_tracker(
                TrackerView {
                    statuses: objects_removed(old(self)@.tracker.statuses, object_ids@),
                    ..old(self)@.tracker
                },
            ),
            old(self)@.wf() ==> final(self)@.wf(),
    {
        let ghost before = self@;
        let mut i: usize = 0;
        while i < object_ids.len()
            invariant
                0 <= i <= object_ids.len(),
                self@ == before.with_tracker(
                    TrackerView {
                        statuses: objects_removed(
                            before.tracker.statuses,
                            object_ids@.take(i as int),
                        ),
                        ..before.tracker
                    },
                ),
                before.wf() ==> self@.wf(),
            decreases object_ids.len() - i,
        {
            self.tracker.statuses.remove_local_object(object_ids[i]);
            proof {
                assert(object_ids@.take(i + 1).drop_last() =~= object_ids@.take(i as int));
                assert(object_ids@.take(i + 1).last() == object_ids@[i as int]);
            }
            i += 1;
        }
        assert(object_ids@.take(i as int) =~= object_ids@);
    }

    /// Routes one event to the trackers and the encounter state, as of the
    /// time `now` in milliseconds. Tells whether the event was of a kind
    /// that the session takes an interest in; after one that was not, no
    /// copy of the encounter is due.
    pub fn handle_event_at(&mut self, event: Event, now: i64) -> (handled: bool)
        ensures
            final(self)@ == old(self)@.handle(event, now),
            handled == !(event is Other),
            old(self)@.wf() ==> final(self)@.wf(),
    {
        match event {
            Event::CounterAttack { source_id } => {
                match self.tracker.get(source_id) {
                    Some(entity) => self.state.on_counterattack(&entity),
                    None => {},
                }
            },
            Event::Death { target_id } => {
                match self.tracker.get(target_id) {
                    Some(entity) => self.state.on_death(&entity),
                    None => {},
                }
            },
            Event::IdentityGaugeChange { player_id, gauge1, gauge2, gauge3 } => {
                match self.tracker.get(player_id) {
                    Some(entity) => self.state.on_identity_gain(&entity, gauge1, gauge2, gauge3),
                    None => {},
                }
            },
            Event::InitEnv(pkt) => {
                let entity = self.tracker.init_env(pkt);
                self.state.on_init_env(entity);
            },
            Event::InitPc(pkt) => {
                let (hp, max_hp) = get_current_and_max_hp(&pkt.stat_pairs);
                let entity = self.tracker.init_pc(pkt);
                self.state.on_init_pc(entity, hp, max_hp);
            },
            Event::MigrationExecute(pkt) => {
                self.tracker.migration_execute(pkt);
            },
            Event::NewPc(pkt) => {
                let (hp, max_hp) = get_current_and_max_hp(&pkt.stat_pairs);
                let entity = self.tracker.new_pc(pkt);
                self.state.on_new_pc(entity, hp, max_hp);
            },
            Event::NewNpc(pkt) => {
                let (hp, max_hp) = get_current_and_max_hp(&pkt.stat_pairs);
                let entity = self.tracker.new_npc(pkt, max_hp);
                self.state.on_new_npc(entity, hp, max_hp);
            },
            Event::NewNpcSummon(pkt) => {
                let (hp, max_hp) = get_current_and_max_hp(&pkt.npc.stat_pairs);
                let entity = self.tracker.new_npc_summon(pkt, max_hp);
                self.state.on_new_npc(entity, hp, max_hp);
            },
            Event::NewProjectile(pkt) => {
                self.tracker.new_projectile(pkt);
            },
            Event::ParalyzationState { object_id, paralyzation_point, paralyzation_max_point } => {
                match self.tracker.get(object_id) {
                    Some(entity) => self.state.on_stagger_change(
                        &entity,
                        paralyzation_point,
                        paralyzation_max_point,
                    ),
                    None => {},
                }
            },
            Event::PartyInfo(pkt) => {
                self.tracker.party_info(pkt);
                match self.tracker.get(self.tracker.local_player_id()) {
                    Some(local) => self.state.update_local_player(&local.name),
                    None => {},
                }
            },
            Event::PartyLeave { party_instance_id, name } => {
                self.tracker.parties.remove(party_instance_id, name);
            },
            Event::PartyStatusEffectAdd(pkt) => {
                self.tracker.party_status_effect_add(pkt);
            },
            Event::PartyStatusEffectRemove(pkt) => {
                self.tracker.party_status_effect_remove(pkt);
            },
            Event::PartyStatusEffectResult { raid_instance_id, party_instance_id, character_id } => {
                self.tracker.parties.add(raid_instance_id, party_instance_id, character_id, 0, None);
            },
            Event::RaidBossKill => {
                self.state.on_phase_transition(1);
            },
            Event::RaidResult => {
                self.state.on_phase_transition(0);
            },
            Event::RemoveObject { object_ids } => {
                self.remove_objects(&object_ids);
            },
            Event::SkillStart { source_id, skill_id } => {
                let found = self.tracker.get_source_entity(source_id);
                let entity = self.tracker.guess_is_player(found, skill_id, &self.skills);
                self.state.on_skill_start(entity, skill_id, now);
            },
            Event::SkillDamage(pkt) => {
                let owner = self.tracker.get_source_entity(pkt.source_id);
                self.apply_hits(&owner, &pkt);
            },
            Event::StatusEffectAdd { object_id, effect } => {
                self.tracker.build_and_register_status_effect(&effect, object_id);
            },
            Event::StatusEffectDuration { effect_instance_id, target_id, expiration_tick } => {
                self.tracker.statuses.update_status_duration(
                    effect_instance_id,
                    target_id,
                    expiration_tick,
                    StatusEffectTargetType::Local,
                );
            },
            Event::StatusEffectRemove { object_id, status_effect_ids } => {
                self.tracker.statuses.remove_status_effects(
                    object_id,
                    status_effect_ids,
                    StatusEffectTargetType::Local,
                );
            },
            Event::TriggerBossBattleStatus => {
                self.state.on_phase_transition(2);
            },
            Event::ZoneObjectUnpublish { object_id } => {
                self.tracker.statuses.remove_local_object(object_id);
            },
            Event::Other => {
                return false;
            },
        }
        true
    }

    /// Routes one event, as of now. Which time the clock gave cannot be
    /// known beforehand: the session is what `handle_event_at` makes of the
    /// event at some time.
    pub fn handle_event(&mut self, event: Event) -> (handled: bool)
        ensures
            exists|now: i64| final(self)@ == old(self)@.handle(event, now),
            handled == !(event is Other),
            old(self)@.wf() ==> final(self)@.wf(),
    {
        let now = now_millis();
        self.handle_event_at(event, now)
    }

    /// Says what is due after an event, `elapsed_ms` milliseconds after the
    /// last copy was due. A copy is due when the interval has passed or the
    /// raid has ended; it is handed out unless it shows no entity. After
    /// the copy of an ended raid is taken, the encounter is cleared.
    pub fn after_event(&mut self, elapsed_ms: u64) -> (publication: Publication)
        ensures
            publication.restart_timer == publish_due(elapsed_ms, old(self)@.state.raid_end),
            match publication.snapshot {
                Some(copy) => {
                    &&& publish_due(elapsed_ms, old(self)@.state.raid_end)
                    &&& copy@ == old(self)@.state.encounter.snapshot()
                    &&& copy@.entities.len() > 0
                },
                None => !publish_due(elapsed_ms, old(self)@.state.raid_end) || old(
                    self,
                )@.state.encounter.snapshot().entities.len() == 0,
            },
            final(self)@ == old(self)@.after_event(),
            final(self)@.tracker == old(self)@.tracker,
            old(self)@.wf() ==> final(self)@.wf(),
    {
        let due = elapsed_ms >= PUBLISH_INTERVAL_MS || self.state.raid_end;
        let mut snapshot: Option<Encounter> = None;
        if due {
            let copy = self.state.snapshot();
            if copy.entities.len() > 0 {
                snapshot = Some(copy);
            }
        }
        if self.state.raid_end {
            self.state.soft_reset();
        }
        Publication { snapshot, restart_timer: due }
    }
}

} // verus!
