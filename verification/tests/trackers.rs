use encounter_tracker::entity_tracker::{
    get_current_and_max_hp, EntityTracker, SkillClass, SkillClassTable,
};
use encounter_tracker::events::{
    InitEnv, InitPc, MigrationExecute, NewNpc, NewNpcSummon, NewPc, NewProjectile, PartyInfo,
    PartyMemberData, PartyStatusEffectAdd, PartyStatusEffectRemove, StatPair, StatusEffectData,
};
use encounter_tracker::id_tracker::IdTracker;
use encounter_tracker::models::{Entity, EntityType, StatusEffectTargetType};
use encounter_tracker::names::hex_name;
use encounter_tracker::party_tracker::PartyTracker;
use encounter_tracker::status_tracker::{StatusEffect, StatusTracker};

fn local_effect(instance_id: u32, source_id: u64, target_id: u64) -> StatusEffect {
    StatusEffect {
        instance_id,
        status_effect_id: 500 + instance_id,
        source_id,
        target_id,
        target_type: StatusEffectTargetType::Local,
        expiration: None,
    }
}

fn party_effect(instance_id: u32, source_id: u64, target_id: u64) -> StatusEffect {
    StatusEffect {
        instance_id,
        status_effect_id: 900 + instance_id,
        source_id,
        target_id,
        target_type: StatusEffectTargetType::Party,
        expiration: Some(77),
    }
}

fn entity(id: u64, character_id: u64, name: &str, entity_type: EntityType) -> Entity {
    Entity {
        id,
        entity_type,
        name: name.to_string(),
        npc_id: 0,
        class_id: 0,
        character_id,
        owner_id: 0,
        skill_id: 0,
        skill_effect_id: 0,
        is_boss: false,
    }
}

fn npc(object_id: u64, name: &str, boss_grade: bool, max_hp: i64) -> NewNpc {
    NewNpc {
        object_id,
        type_id: 4242,
        name: name.to_string(),
        esther: false,
        boss_grade,
        stat_pairs: vec![
            StatPair { stat_type: 1, value: max_hp },
            StatPair { stat_type: 27, value: max_hp },
        ],
        status_effects: vec![],
    }
}

#[test]
fn hex_name_writes_lower_case_hexadecimal() {
    assert_eq!(hex_name(0), "0");
    assert_eq!(hex_name(9), "9");
    assert_eq!(hex_name(10), "a");
    assert_eq!(hex_name(15), "f");
    assert_eq!(hex_name(16), "10");
    assert_eq!(hex_name(255), "ff");
    assert_eq!(hex_name(0x1234_abcd), "1234abcd");
    assert_eq!(hex_name(u64::MAX), "ffffffffffffffff");
}

#[test]
fn hex_name_agrees_with_std_formatting() {
    for id in [1u64, 17, 4096, 65_535, 1_000_000, 0xdead_beef, u64::MAX - 1] {
        assert_eq!(hex_name(id), format!("{:x}", id));
    }
}

#[test]
fn bind_and_lookup_in_both_directions() {
    let mut ids = IdTracker::new();
    assert_eq!(ids.lookup_character_id(7), None);
    assert_eq!(ids.lookup_object_id(70), None);
    ids.bind(7, 70);
    assert_eq!(ids.lookup_character_id(7), Some(70));
    assert_eq!(ids.lookup_object_id(70), Some(7));
    assert_eq!(ids.get_local_character_id(7), 70);
    assert_eq!(ids.get_local_character_id(8), 0);
}

#[test]
fn bind_is_idempotent() {
    let mut ids = IdTracker::new();
    ids.bind(1, 10);
    ids.bind(2, 20);
    ids.bind(1, 10);
    assert_eq!(ids.lookup_character_id(1), Some(10));
    assert_eq!(ids.lookup_object_id(10), Some(1));
    assert_eq!(ids.lookup_character_id(2), Some(20));
    assert_eq!(ids.lookup_object_id(20), Some(2));
}

#[test]
fn rebinding_an_object_overwrites_its_character() {
    let mut ids = IdTracker::new();
    ids.bind(1, 10);
    ids.bind(1, 11);
    assert_eq!(ids.lookup_character_id(1), Some(11));
    assert_eq!(ids.lookup_object_id(11), Some(1));
    assert_eq!(ids.lookup_object_id(10), None);
}

#[test]
fn a_character_that_moves_to_a_new_object_leaves_the_old_one() {
    let mut ids = IdTracker::new();
    ids.bind(1, 10);
    ids.bind(5, 10);
    assert_eq!(ids.lookup_object_id(10), Some(5));
    assert_eq!(ids.lookup_character_id(5), Some(10));
    assert_eq!(ids.lookup_character_id(1), None);
}

#[test]
fn local_player_is_remembered_and_survives_clear() {
    let mut ids = IdTracker::new();
    assert_eq!(ids.local_player(), 0);
    ids.set_local_player(42);
    ids.bind(42, 4200);
    assert_eq!(ids.local_player(), 42);
    ids.clear();
    assert_eq!(ids.local_player(), 42);
    assert_eq!(ids.lookup_character_id(42), None);
    assert_eq!(ids.lookup_object_id(4200), None);
}

#[test]
fn party_add_inserts_then_updates() {
    let mut parties = PartyTracker::new();
    parties.add(1, 100, 10, 0, None);
    parties.add(1, 100, 11, 0, None);
    assert_eq!(parties.len(), 2);
    assert_eq!(parties.members_of(100), vec![10, 11]);
    parties.add(1, 200, 10, 7, Some("Alice".to_string()));
    assert_eq!(parties.len(), 2);
    assert_eq!(parties.members_of(100), vec![11]);
    assert_eq!(parties.members_of(200), vec![10]);
    let first = parties.member(0).unwrap();
    assert_eq!(first.party_instance_id, 200);
    assert_eq!(first.entity_id, 7);
    assert_eq!(first.name, Some("Alice".to_string()));
    parties.add(1, 200, 10, 0, None);
    let first = parties.member(0).unwrap();
    assert_eq!(first.entity_id, 7);
    assert_eq!(first.name, Some("Alice".to_string()));
    assert!(parties.member(2).is_none());
}

#[test]
fn a_character_may_be_in_one_party_per_raid() {
    let mut parties = PartyTracker::new();
    parties.add(1, 100, 10, 0, None);
    parties.add(2, 300, 10, 0, None);
    assert_eq!(parties.len(), 2);
    assert_eq!(parties.members_of(100), vec![10]);
    assert_eq!(parties.members_of(300), vec![10]);
}

#[test]
fn party_remove_by_name() {
    let mut parties = PartyTracker::new();
    parties.add(1, 100, 10, 0, Some("Alice".to_string()));
    parties.add(1, 100, 11, 0, Some("Bob".to_string()));
    parties.add(1, 200, 12, 0, Some("Alice".to_string()));
    parties.remove(100, "Alice".to_string());
    assert_eq!(parties.members_of(100), vec![11]);
    assert_eq!(parties.members_of(200), vec![12]);
}

#[test]
fn party_remove_of_a_stranger_changes_nothing() {
    let mut parties = PartyTracker::new();
    parties.add(1, 100, 10, 0, Some("Alice".to_string()));
    parties.add(1, 100, 11, 0, None);
    parties.add(1, 200, 12, 0, Some("Carol".to_string()));
    parties.remove(100, "Carol".to_string());
    parties.remove(300, "Alice".to_string());
    parties.remove(100, "".to_string());
    assert_eq!(parties.len(), 3);
    assert_eq!(parties.members_of(100), vec![10, 11]);
    assert_eq!(parties.members_of(200), vec![12]);
    assert_eq!(parties.member(0).unwrap().name, Some("Alice".to_string()));
    assert_eq!(parties.member(1).unwrap().name, None);
}

#[test]
fn same_party_needs_one_raid_and_one_party() {
    let mut parties = PartyTracker::new();
    parties.add(1, 100, 10, 0, None);
    parties.add(1, 100, 11, 0, None);
    parties.add(1, 200, 12, 0, None);
    parties.add(2, 100, 13, 0, None);
    assert!(parties.same_party(10, 11));
    assert!(parties.same_party(11, 10));
    assert!(parties.same_party(10, 10));
    assert!(!parties.same_party(10, 12));
    assert!(!parties.same_party(10, 13));
    assert!(!parties.same_party(10, 99));
    assert!(!parties.same_party(99, 99));
}

#[test]
fn register_creates_and_replaces() {
    let mut statuses = StatusTracker::new();
    statuses.register(local_effect(1, 5, 6));
    statuses.register(local_effect(2, 5, 7));
    assert_eq!(statuses.len(), 2);
    let mut replacement = local_effect(1, 8, 9);
    replacement.expiration = Some(1234);
    statuses.register(replacement);
    assert_eq!(statuses.len(), 2);
    assert_eq!(statuses.get(1), Some(replacement));
    assert_eq!(statuses.get(2), Some(local_effect(2, 5, 7)));
    assert_eq!(statuses.get(3), None);
}

#[test]
fn duration_update_moves_the_expiration() {
    let mut statuses = StatusTracker::new();
    statuses.register(local_effect(1, 5, 6));
    statuses.update_status_duration(1, 6, 999, StatusEffectTargetType::Local);
    assert_eq!(statuses.get(1).unwrap().expiration, Some(999));
}

#[test]
fn duration_update_for_another_target_or_scope_is_ignored() {
    let mut statuses = StatusTracker::new();
    statuses.register(local_effect(1, 5, 6));
    statuses.update_status_duration(1, 7, 999, StatusEffectTargetType::Local);
    statuses.update_status_duration(1, 6, 999, StatusEffectTargetType::Party);
    assert_eq!(statuses.get(1), Some(local_effect(1, 5, 6)));
}

#[test]
fn duration_update_for_an_absent_instance_is_a_no_op() {
    let mut statuses = StatusTracker::new();
    statuses.register(local_effect(1, 5, 6));
    statuses.register(party_effect(2, 5, 6));
    statuses.update_status_duration(3, 6, 999, StatusEffectTargetType::Local);
    assert_eq!(statuses.len(), 2);
    assert_eq!(statuses.get(1), Some(local_effect(1, 5, 6)));
    assert_eq!(statuses.get(2), Some(party_effect(2, 5, 6)));
    assert_eq!(statuses.get(3), None);
}

#[test]
fn remove_status_effects_takes_listed_instances_of_the_object_and_scope() {
    let mut statuses = StatusTracker::new();
    statuses.register(local_effect(1, 5, 6));
    statuses.register(local_effect(2, 5, 6));
    statuses.register(local_effect(3, 5, 7));
    statuses.register(party_effect(4, 5, 6));
    statuses.remove_status_effects(6, vec![1, 3, 4, 9], StatusEffectTargetType::Local);
    assert_eq!(statuses.get(1), None);
    assert_eq!(statuses.get(2), Some(local_effect(2, 5, 6)));
    assert_eq!(statuses.get(3), Some(local_effect(3, 5, 7)));
    assert_eq!(statuses.get(4), Some(party_effect(4, 5, 6)));
    statuses.remove_status_effects(5, vec![3], StatusEffectTargetType::Local);
    assert_eq!(statuses.get(3), None);
    statuses.remove_status_effects(6, vec![], StatusEffectTargetType::Local);
    assert_eq!(statuses.len(), 2);
}

#[test]
fn remove_local_object_takes_what_it_owns_and_what_rests_on_it() {
    let mut statuses = StatusTracker::new();
    statuses.register(local_effect(1, 5, 6));
    statuses.register(local_effect(2, 6, 7));
    statuses.register(party_effect(3, 8, 6));
    statuses.register(local_effect(4, 8, 9));
    statuses.remove_local_object(6);
    assert_eq!(statuses.len(), 1);
    assert_eq!(statuses.get(4), Some(local_effect(4, 8, 9)));
}

#[test]
fn remove_local_object_without_effects_is_a_no_op() {
    let mut statuses = StatusTracker::new();
    statuses.register(local_effect(1, 5, 6));
    statuses.register(party_effect(2, 5, 6));
    statuses.remove_local_object(7);
    assert_eq!(statuses.len(), 2);
    assert_eq!(statuses.get(1), Some(local_effect(1, 5, 6)));
    assert_eq!(statuses.get(2), Some(party_effect(2, 5, 6)));
    let mut empty = StatusTracker::new();
    empty.remove_local_object(7);
    assert_eq!(empty.len(), 0);
}

#[test]
fn local_effects_are_seen_on_their_exact_target() {
    let ids = IdTracker::new();
    let parties = PartyTracker::new();
    let mut statuses = StatusTracker::new();
    statuses.register(local_effect(1, 9, 5));
    statuses.register(local_effect(2, 9, 6));
    statuses.register(local_effect(3, 9, 5));
    let source = entity(5, 0, "src", EntityType::Player);
    let target = entity(6, 0, "dst", EntityType::Npc);
    let (on_source, on_target) = statuses.get_status_effects(&source, &target, 0, &ids, &parties);
    assert_eq!(on_source, vec![local_effect(1, 9, 5), local_effect(3, 9, 5)]);
    assert_eq!(on_target, vec![local_effect(2, 9, 6)]);
}

#[test]
fn party_effects_are_seen_on_the_members_of_the_owners_party() {
    let mut ids = IdTracker::new();
    ids.bind(1, 10);
    ids.bind(2, 20);
    ids.bind(3, 30);
    let mut parties = PartyTracker::new();
    parties.add(1, 100, 10, 1, None);
    parties.add(1, 100, 20, 2, None);
    parties.add(1, 200, 30, 3, None);
    let mut statuses = StatusTracker::new();
    statuses.register(party_effect(1, 1, 1));
    let owner = entity(1, 10, "owner", EntityType::Player);
    let mate = entity(2, 20, "mate", EntityType::Player);
    let other = entity(3, 30, "other", EntityType::Player);
    let stranger = entity(4, 0, "stranger", EntityType::Npc);
    let (on_owner, on_mate) = statuses.get_status_effects(&owner, &mate, 10, &ids, &parties);
    assert_eq!(on_owner, vec![party_effect(1, 1, 1)]);
    assert_eq!(on_mate, vec![party_effect(1, 1, 1)]);
    let (on_other, on_stranger) =
        statuses.get_status_effects(&other, &stranger, 10, &ids, &parties);
    assert!(on_other.is_empty());
    assert!(on_stranger.is_empty());
}

#[test]
fn a_party_effect_of_an_unknown_owner_counts_for_the_observers_party() {
    let mut ids = IdTracker::new();
    ids.bind(2, 20);
    let mut parties = PartyTracker::new();
    parties.add(1, 100, 10, 0, None);
    parties.add(1, 100, 20, 2, None);
    let mut statuses = StatusTracker::new();
    statuses.register(party_effect(1, 99, 2));
    let mate = entity(2, 20, "mate", EntityType::Player);
    let stranger = entity(4, 0, "stranger", EntityType::Npc);
    let (on_mate, on_stranger) = statuses.get_status_effects(&mate, &stranger, 10, &ids, &parties);
    assert_eq!(on_mate.len(), 1);
    assert!(on_stranger.is_empty());
    let (on_mate, _) = statuses.get_status_effects(&mate, &stranger, 11, &ids, &parties);
    assert!(on_mate.is_empty());
}

#[test]
fn an_entity_that_carries_its_character_is_resolved_without_a_binding() {
    let ids = IdTracker::new();
    let mut parties = PartyTracker::new();
    parties.add(1, 100, 10, 0, None);
    parties.add(1, 100, 20, 0, None);
    let mut statuses = StatusTracker::new();
    statuses.register(party_effect(1, 99, 2));
    let mate = entity(2, 20, "mate", EntityType::Player);
    let (on_mate, on_same) = statuses.get_status_effects(&mate, &mate, 10, &ids, &parties);
    assert_eq!(on_mate, vec![party_effect(1, 99, 2)]);
    assert_eq!(on_same, on_mate);
}

#[test]
fn stat_pairs_give_current_and_max_hp() {
    let pairs = vec![
        StatPair { stat_type: 3, value: 9 },
        StatPair { stat_type: 27, value: 5000 },
        StatPair { stat_type: 1, value: 4000 },
        StatPair { stat_type: 1, value: 1 },
    ];
    assert_eq!(get_current_and_max_hp(&pairs), (4000, 5000));
    assert_eq!(get_current_and_max_hp(&vec![]), (0, 0));
    assert_eq!(get_current_and_max_hp(&vec![StatPair { stat_type: 27, value: 8 }]), (0, 8));
    assert_eq!(get_current_and_max_hp(&vec![StatPair { stat_type: 1, value: -3 }]), (-3, 0));
}

#[test]
fn skill_class_table_looks_up_the_first_line() {
    let table = SkillClassTable::new(vec![
        SkillClass { skill_id: 16000, class_id: 102 },
        SkillClass { skill_id: 37000, class_id: 204 },
        SkillClass { skill_id: 16000, class_id: 999 },
    ]);
    assert_eq!(table.class_of(16000), 102);
    assert_eq!(table.class_of(37000), 204);
    assert_eq!(table.class_of(1), 0);
}

#[test]
fn get_or_create_entity_makes_one_placeholder_per_id() {
    let mut tracker = EntityTracker::new();
    let first = tracker.get_or_create_entity(0xabc);
    assert_eq!(first.id, 0xabc);
    assert_eq!(first.entity_type, EntityType::Unknown);
    assert_eq!(first.name, "abc");
    assert_eq!(tracker.entities.len(), 1);
    let second = tracker.get_or_create_entity(0xabc);
    assert_eq!(second.name, "abc");
    assert_eq!(tracker.entities.len(), 1);
    tracker.get_or_create_entity(0xabd);
    assert_eq!(tracker.entities.len(), 2);
}

#[test]
fn get_or_create_entity_returns_what_is_known() {
    let mut tracker = EntityTracker::new();
    tracker.new_pc(NewPc {
        player_id: 2,
        character_id: 20,
        name: "Alice".to_string(),
        class_id: 102,
        stat_pairs: vec![],
        status_effects: vec![],
    });
    let found = tracker.get_or_create_entity(2);
    assert_eq!(found.name, "Alice");
    assert_eq!(found.entity_type, EntityType::Player);
    assert_eq!(found.class_id, 102);
    assert_eq!(found.character_id, 20);
    assert_eq!(tracker.entities.len(), 1);
    assert_eq!(tracker.ids.lookup_character_id(2), Some(20));
}

#[test]
fn get_source_entity_resolves_projectiles_and_summons_to_their_owner() {
    let mut tracker = EntityTracker::new();
    tracker.new_pc(NewPc {
        player_id: 2,
        character_id: 20,
        name: "Alice".to_string(),
        class_id: 102,
        stat_pairs: vec![],
        status_effects: vec![],
    });
    tracker.new_projectile(NewProjectile {
        projectile_id: 50,
        owner_id: 2,
        skill_id: 16000,
        skill_effect_id: 3,
    });
    tracker.new_npc_summon(NewNpcSummon { owner_id: 2, npc: npc(60, "Wolf", false, 100) }, 100);
    assert_eq!(tracker.get_source_entity(50).name, "Alice");
    assert_eq!(tracker.get_source_entity(60).name, "Alice");
    assert_eq!(tracker.get_source_entity(2).name, "Alice");
    let projectile = tracker.get(50).unwrap();
    assert_eq!(projectile.entity_type, EntityType::Projectile);
    assert_eq!(projectile.name, "2");
    assert_eq!(projectile.skill_id, 16000);
    assert_eq!(projectile.skill_effect_id, 3);
    assert_eq!(tracker.entities.len(), 3);
}

#[test]
fn get_source_entity_makes_up_an_unseen_owner() {
    let mut tracker = EntityTracker::new();
    tracker.new_projectile(NewProjectile {
        projectile_id: 50,
        owner_id: 0x2f,
        skill_id: 1,
        skill_effect_id: 0,
    });
    let owner = tracker.get_source_entity(50);
    assert_eq!(owner.id, 0x2f);
    assert_eq!(owner.entity_type, EntityType::Unknown);
    assert_eq!(owner.name, "2f");
    assert_eq!(tracker.entities.len(), 2);
    let unseen = tracker.get_source_entity(0x77);
    assert_eq!(unseen.name, "77");
    assert_eq!(tracker.entities.len(), 3);
}

#[test]
fn guess_is_player_promotes_unknown_entities_only() {
    let table = SkillClassTable::new(vec![SkillClass { skill_id: 16000, class_id: 102 }]);
    let mut tracker = EntityTracker::new();
    let unknown = tracker.get_or_create_entity(9);
    let guess = tracker.guess_is_player(unknown, 16000, &table);
    assert_eq!(guess.entity_type, EntityType::Player);
    assert_eq!(guess.class_id, 102);
    assert_eq!(guess.name, "9");
    assert_eq!(tracker.get(9).unwrap().entity_type, EntityType::Player);
    assert_eq!(tracker.get(9).unwrap().class_id, 102);

    let unknown = tracker.get_or_create_entity(10);
    let guess = tracker.guess_is_player(unknown, 5, &table);
    assert_eq!(guess.entity_type, EntityType::Unknown);
    assert_eq!(tracker.get(10).unwrap().entity_type, EntityType::Unknown);

    let wolf = tracker.new_npc(npc(11, "Wolf", false, 100), 100);
    let guess = tracker.guess_is_player(wolf, 16000, &table);
    assert_eq!(guess.entity_type, EntityType::Npc);
    assert_eq!(guess.class_id, 0);
    assert_eq!(tracker.get(11).unwrap().entity_type, EntityType::Npc);
}

#[test]
fn new_npc_marks_bosses_by_grade_and_hit_points() {
    let mut tracker = EntityTracker::new();
    assert!(tracker.new_npc(npc(1, "Valtan", true, 1_000_000), 1_000_000).is_boss);
    assert!(tracker.new_npc(npc(2, "Valtan", true, 10_001), 10_001).is_boss);
    assert!(!tracker.new_npc(npc(3, "Valtan", true, 10_000), 10_000).is_boss);
    assert!(!tracker.new_npc(npc(4, "Wolf", false, 1_000_000), 1_000_000).is_boss);
    let mut esther = npc(5, "Thirain", true, 1_000_000);
    esther.esther = true;
    let esther = tracker.new_npc(esther, 1_000_000);
    assert!(!esther.is_boss);
    assert_eq!(esther.entity_type, EntityType::Esther);
    let nameless = tracker.new_npc(npc(0x1f, "", false, 5), 5);
    assert_eq!(nameless.name, "1f");
    assert_eq!(nameless.entity_type, EntityType::Npc);
    assert_eq!(nameless.npc_id, 4242);
}

#[test]
fn new_npc_summon_is_a_summon_unless_boss_or_esther() {
    let mut tracker = EntityTracker::new();
    let wolf = tracker.new_npc_summon(NewNpcSummon { owner_id: 2, npc: npc(60, "Wolf", false, 9) }, 9);
    assert_eq!(wolf.entity_type, EntityType::Summon);
    assert_eq!(wolf.owner_id, 2);
    let boss = tracker.new_npc_summon(
        NewNpcSummon { owner_id: 2, npc: npc(61, "Clone", true, 50_000) },
        50_000,
    );
    assert_eq!(boss.entity_type, EntityType::Npc);
    assert!(boss.is_boss);
    assert_eq!(boss.owner_id, 2);
    let mut esther = npc(62, "Thirain", false, 9);
    esther.esther = true;
    let esther = tracker.new_npc_summon(NewNpcSummon { owner_id: 2, npc: esther }, 9);
    assert_eq!(esther.entity_type, EntityType::Esther);
}

#[test]
fn arrival_replaces_the_effects_of_the_object() {
    let mut tracker = EntityTracker::new();
    tracker.statuses.register(local_effect(1, 9, 60));
    tracker.statuses.register(local_effect(2, 60, 9));
    tracker.statuses.register(local_effect(3, 9, 9));
    let mut wolf = npc(60, "Wolf", false, 9);
    wolf.status_effects = vec![
        StatusEffectData { effect_instance_id: 7, status_effect_id: 70, source_id: 5, expiration: None },
        StatusEffectData { effect_instance_id: 8, status_effect_id: 80, source_id: 6, expiration: Some(4) },
    ];
    tracker.new_npc(wolf, 9);
    assert_eq!(tracker.statuses.len(), 3);
    assert_eq!(tracker.statuses.get(1), None);
    assert_eq!(tracker.statuses.get(2), None);
    assert_eq!(tracker.statuses.get(3), Some(local_effect(3, 9, 9)));
    assert_eq!(
        tracker.statuses.get(8),
        Some(StatusEffect {
            instance_id: 8,
            status_effect_id: 80,
            source_id: 6,
            target_id: 60,
            target_type: StatusEffectTargetType::Local,
            expiration: Some(4),
        })
    );
}

#[test]
fn init_pc_sets_up_the_local_player() {
    let mut tracker = EntityTracker::new();
    tracker.get_or_create_entity(99);
    let player = tracker.init_pc(InitPc {
        player_id: 2,
        character_id: 20,
        name: "Alice".to_string(),
        class_id: 102,
        stat_pairs: vec![],
        status_effects: vec![StatusEffectData {
            effect_instance_id: 1,
            status_effect_id: 10,
            source_id: 2,
            expiration: None,
        }],
    });
    assert_eq!(player.name, "Alice");
    assert_eq!(player.entity_type, EntityType::Player);
    assert_eq!(tracker.entities.len(), 1);
    assert_eq!(tracker.local_player_id(), 2);
    assert_eq!(tracker.local_character_id, 20);
    assert_eq!(tracker.ids.lookup_character_id(2), Some(20));
    assert_eq!(tracker.statuses.get(1).unwrap().target_id, 2);
}

#[test]
fn init_env_keeps_the_local_player_and_the_parties() {
    let mut tracker = EntityTracker::new();
    tracker.init_pc(InitPc {
        player_id: 2,
        character_id: 20,
        name: "Alice".to_string(),
        class_id: 102,
        stat_pairs: vec![],
        status_effects: vec![],
    });
    tracker.new_npc(npc(60, "Wolf", false, 9), 9);
    tracker.parties.add(1, 100, 20, 2, None);
    tracker.statuses.register(local_effect(1, 2, 60));
    let local = tracker.init_env(InitEnv { player_id: 7 });
    assert_eq!(local.id, 7);
    assert_eq!(local.name, "Alice");
    assert_eq!(local.class_id, 102);
    assert_eq!(tracker.entities.len(), 1);
    assert_eq!(tracker.get(7).unwrap().name, "Alice");
    assert_eq!(tracker.local_player_id(), 7);
    assert_eq!(tracker.ids.lookup_character_id(7), Some(20));
    assert_eq!(tracker.ids.lookup_character_id(2), None);
    assert_eq!(tracker.statuses.len(), 0);
    assert_eq!(tracker.parties.len(), 1);
}

#[test]
fn init_env_of_an_unknown_local_player_makes_a_player() {
    let mut tracker = EntityTracker::new();
    let local = tracker.init_env(InitEnv { player_id: 0x2a });
    assert_eq!(local.id, 0x2a);
    assert_eq!(local.entity_type, EntityType::Player);
    assert_eq!(local.name, "2a");
    assert_eq!(local.character_id, 0);
    assert_eq!(tracker.ids.lookup_character_id(0x2a), None);
    assert_eq!(tracker.local_player_id(), 0x2a);
}

#[test]
fn migration_execute_learns_the_local_character_once() {
    let mut tracker = EntityTracker::new();
    tracker.init_env(InitEnv { player_id: 5 });
    tracker.migration_execute(MigrationExecute { account_character_id1: 30, account_character_id2: 20 });
    assert_eq!(tracker.local_character_id, 20);
    assert_eq!(tracker.ids.lookup_character_id(5), Some(20));
    tracker.migration_execute(MigrationExecute { account_character_id1: 3, account_character_id2: 4 });
    assert_eq!(tracker.local_character_id, 20);
    assert_eq!(tracker.ids.lookup_character_id(5), Some(20));
    assert_eq!(tracker.entities.len(), 1);
}

#[test]
fn party_info_adds_members_and_names_the_local_player() {
    let mut tracker = EntityTracker::new();
    tracker.init_env(InitEnv { player_id: 5 });
    tracker.migration_execute(MigrationExecute { account_character_id1: 20, account_character_id2: 30 });
    tracker.new_pc(NewPc {
        player_id: 6,
        character_id: 21,
        name: "Bob".to_string(),
        class_id: 204,
        stat_pairs: vec![],
        status_effects: vec![],
    });
    tracker.party_info(PartyInfo {
        raid_instance_id: 1,
        party_instance_id: 100,
        members: vec![
            PartyMemberData { character_id: 21, name: "Bob".to_string(), class_id: 204 },
            PartyMemberData { character_id: 20, name: "Alice".to_string(), class_id: 102 },
            PartyMemberData { character_id: 22, name: "Carol".to_string(), class_id: 305 },
        ],
    });
    assert_eq!(tracker.parties.members_of(100), vec![21, 20, 22]);
    assert_eq!(tracker.parties.member(0).unwrap().entity_id, 6);
    assert_eq!(tracker.parties.member(1).unwrap().entity_id, 5);
    assert_eq!(tracker.parties.member(2).unwrap().entity_id, 0);
    assert_eq!(tracker.parties.member(2).unwrap().name, Some("Carol".to_string()));
    let local = tracker.get(5).unwrap();
    assert_eq!(local.name, "Alice");
    assert_eq!(local.class_id, 102);
    assert_eq!(local.character_id, 20);
    assert_eq!(tracker.entities.len(), 2);
}

#[test]
fn party_status_effects_need_a_known_character() {
    let mut tracker = EntityTracker::new();
    let data = StatusEffectData {
        effect_instance_id: 1,
        status_effect_id: 10,
        source_id: 6,
        expiration: Some(3),
    };
    tracker.party_status_effect_add(PartyStatusEffectAdd { character_id: 20, status_effects: vec![data] });
    assert_eq!(tracker.statuses.len(), 0);
    tracker.ids.bind(2, 20);
    tracker.party_status_effect_add(PartyStatusEffectAdd { character_id: 20, status_effects: vec![data] });
    assert_eq!(
        tracker.statuses.get(1),
        Some(StatusEffect {
            instance_id: 1,
            status_effect_id: 10,
            source_id: 6,
            target_id: 2,
            target_type: StatusEffectTargetType::Party,
            expiration: Some(3),
        })
    );
    tracker.party_status_effect_remove(PartyStatusEffectRemove { character_id: 21, status_effect_ids: vec![1] });
    assert_eq!(tracker.statuses.len(), 1);
    tracker.party_status_effect_remove(PartyStatusEffectRemove { character_id: 20, status_effect_ids: vec![1] });
    assert_eq!(tracker.statuses.len(), 0);
}

#[test]
fn build_and_register_status_effect_is_local_to_the_object() {
    let mut tracker = EntityTracker::new();
    let data = StatusEffectData {
        effect_instance_id: 4,
        status_effect_id: 40,
        source_id: 6,
        expiration: None,
    };
    tracker.build_and_register_status_effect(&data, 9);
    assert_eq!(
        tracker.statuses.get(4),
        Some(StatusEffect {
            instance_id: 4,
            status_effect_id: 40,
            source_id: 6,
            target_id: 9,
            target_type: StatusEffectTargetType::Local,
            expiration: None,
        })
    );
}

#[test]
fn members_of_lists_each_character_once() {
    let mut parties = PartyTracker::new();
    parties.add(1, 100, 10, 0, None);
    parties.add(2, 100, 10, 0, None);
    parties.add(2, 100, 11, 0, None);
    assert_eq!(parties.len(), 3);
    assert_eq!(parties.members_of(100), vec![10, 11]);
    assert!(parties.members_of(101).is_empty());
}
