use encounter_tracker::encounter_state::{
    not_negative, sat_add, EncounterEntity, EncounterState, Phase, Skill, SkillCast,
};
use encounter_tracker::models::{Entity, EntityType, StatusEffectTargetType};
use encounter_tracker::status_tracker::StatusEffect;

fn entity(id: u64, name: &str, entity_type: EntityType) -> Entity {
    Entity {
        id,
        entity_type,
        name: name.to_string(),
        npc_id: 0,
        class_id: 0,
        character_id: 0,
        owner_id: 0,
        skill_id: 0,
        skill_effect_id: 0,
        is_boss: false,
    }
}

fn boss(id: u64, name: &str) -> Entity {
    let mut e = entity(id, name, EntityType::Npc);
    e.is_boss = true;
    e.npc_id = 480_000 + id as u32;
    e
}

fn player(id: u64, name: &str) -> Entity {
    let mut e = entity(id, name, EntityType::Player);
    e.class_id = 102;
    e.character_id = id * 10;
    e
}

fn effect(instance_id: u32) -> StatusEffect {
    StatusEffect {
        instance_id,
        status_effect_id: 1,
        source_id: 1,
        target_id: 1,
        target_type: StatusEffectTargetType::Local,
        expiration: None,
    }
}

fn row(state: &EncounterState, name: &str) -> EncounterEntity {
    state.row(&name.to_string()).unwrap()
}

fn hit(state: &mut EncounterState, owner: &Entity, target: &Entity, damage: i64, cur_hp: i64, max_hp: i64) {
    state.on_damage(owner, owner, target, damage, 100, 0, 0, cur_hp, max_hp, vec![], vec![]);
}

#[test]
fn a_new_state_is_empty_and_idle() {
    let state = EncounterState::new();
    assert!(state.encounter.entities.is_empty());
    assert_eq!(state.encounter.current_boss_name, "");
    assert!(state.encounter.current_boss.is_none());
    assert_eq!(state.encounter.local_player, "");
    assert_eq!(state.encounter.phase, Phase::Idle);
    assert!(!state.raid_end);
    assert!(!state.saved);
}

#[test]
fn saturating_sum_and_floor() {
    assert_eq!(sat_add(2, 3), 5);
    assert_eq!(sat_add(-2, -3), -5);
    assert_eq!(sat_add(i64::MAX, 1), i64::MAX);
    assert_eq!(sat_add(i64::MAX - 1, 1), i64::MAX);
    assert_eq!(sat_add(i64::MIN, -1), i64::MIN);
    assert_eq!(sat_add(i64::MIN, i64::MAX), -1);
    assert_eq!(sat_add(i64::MAX, i64::MIN), -1);
    assert_eq!(not_negative(-1), 0);
    assert_eq!(not_negative(0), 0);
    assert_eq!(not_negative(7), 7);
    assert_eq!(not_negative(i64::MIN), 0);
}

#[test]
fn damage_adds_up_per_entity_whatever_the_interleaving() {
    let alice = player(2, "Alice");
    let bob = player(3, "Bob");
    let wolf = entity(1, "Wolf", EntityType::Npc);
    let mut state = EncounterState::new();
    hit(&mut state, &alice, &wolf, 100, 900, 1000);
    hit(&mut state, &bob, &wolf, 7, 893, 1000);
    hit(&mut state, &alice, &wolf, 250, 643, 1000);
    hit(&mut state, &wolf, &bob, 40, 60, 100);
    hit(&mut state, &bob, &wolf, 3, 640, 1000);
    hit(&mut state, &alice, &wolf, 1, 639, 1000);
    assert_eq!(row(&state, "Alice").damage_stats.damage_dealt, 351);
    assert_eq!(row(&state, "Bob").damage_stats.damage_dealt, 10);
    assert_eq!(row(&state, "Wolf").damage_stats.damage_dealt, 40);
    assert_eq!(row(&state, "Wolf").damage_stats.damage_taken, 361);
    assert_eq!(row(&state, "Bob").damage_stats.damage_taken, 40);
    assert_eq!(row(&state, "Alice").damage_stats.damage_taken, 0);
    assert_eq!(row(&state, "Alice").damage_stats.hits, 3);
    assert_eq!(state.encounter.entities.len(), 3);

    let mut other_order = EncounterState::new();
    hit(&mut other_order, &wolf, &bob, 40, 60, 100);
    hit(&mut other_order, &alice, &wolf, 1, 999, 1000);
    hit(&mut other_order, &alice, &wolf, 250, 749, 1000);
    hit(&mut other_order, &bob, &wolf, 3, 746, 1000);
    hit(&mut other_order, &alice, &wolf, 100, 646, 1000);
    hit(&mut other_order, &bob, &wolf, 7, 639, 1000);
    assert_eq!(row(&other_order, "Alice").damage_stats.damage_dealt, 351);
    assert_eq!(row(&other_order, "Bob").damage_stats.damage_dealt, 10);
    assert_eq!(row(&other_order, "Wolf").damage_stats.damage_taken, 361);
}

#[test]
fn damage_totals_stop_at_the_largest_value() {
    let alice = player(2, "Alice");
    let wolf = entity(1, "Wolf", EntityType::Npc);
    let mut state = EncounterState::new();
    hit(&mut state, &alice, &wolf, i64::MAX, 0, 10);
    hit(&mut state, &alice, &wolf, 1, 0, 10);
    assert_eq!(row(&state, "Alice").damage_stats.damage_dealt, i64::MAX);
    assert_eq!(row(&state, "Wolf").damage_stats.damage_taken, i64::MAX);
    assert_eq!(row(&state, "Alice").skills[0].total_damage, i64::MAX);
}

#[test]
fn a_hit_on_oneself_is_dealt_and_taken() {
    let alice = player(2, "Alice");
    let mut state = EncounterState::new();
    hit(&mut state, &alice, &alice, 30, 70, 100);
    let alice_row = row(&state, "Alice");
    assert_eq!(alice_row.damage_stats.damage_dealt, 30);
    assert_eq!(alice_row.damage_stats.damage_taken, 30);
    assert_eq!(alice_row.current_hp, 70);
    assert_eq!(state.encounter.entities.len(), 1);
}

#[test]
fn a_hit_sets_the_targets_vitals_never_below_zero() {
    let alice = player(2, "Alice");
    let wolf = entity(1, "Wolf", EntityType::Npc);
    let mut state = EncounterState::new();
    hit(&mut state, &alice, &wolf, 100, 900, 1000);
    assert_eq!(row(&state, "Wolf").current_hp, 900);
    assert_eq!(row(&state, "Wolf").max_hp, 1000);
    hit(&mut state, &alice, &wolf, 2000, -1100, 1000);
    assert_eq!(row(&state, "Wolf").current_hp, 0);
    assert_eq!(row(&state, "Wolf").damage_stats.damage_taken, 2100);
    hit(&mut state, &alice, &wolf, 1, 5, -3);
    assert_eq!(row(&state, "Wolf").max_hp, 0);
    assert_eq!(row(&state, "Wolf").current_hp, 5);
    assert_eq!(row(&state, "Alice").current_hp, 0);
}

#[test]
fn modifier_bits_count_crits_and_directions() {
    let alice = player(2, "Alice");
    let wolf = entity(1, "Wolf", EntityType::Npc);
    let mut state = EncounterState::new();
    let modifiers: [i32; 8] = [
        0,
        1,
        8,
        1 | (1 << 4),
        2 << 4,
        8 | (2 << 4),
        3 << 4,
        2,
    ];
    for m in modifiers {
        state.on_damage(&alice, &alice, &wolf, 10, 100, 0, m, 1, 1, vec![], vec![]);
    }
    let stats = row(&state, "Alice").damage_stats;
    assert_eq!(stats.hits, 8);
    assert_eq!(stats.crits, 4);
    assert_eq!(stats.back_attacks, 1);
    assert_eq!(stats.front_attacks, 2);
    let skill = row(&state, "Alice").skills[0];
    assert_eq!(skill.hits, 8);
    assert_eq!(skill.crits, 4);
    assert_eq!(skill.back_attacks, 1);
    assert_eq!(skill.front_attacks, 2);
    assert_eq!(skill.total_damage, 80);
}

#[test]
fn hits_are_broken_down_by_skill() {
    let alice = player(2, "Alice");
    let wolf = entity(1, "Wolf", EntityType::Npc);
    let mut projectile = entity(9, "2", EntityType::Projectile);
    projectile.owner_id = 2;
    projectile.skill_id = 777;
    let mut state = EncounterState::new();
    state.on_damage(&alice, &alice, &wolf, 10, 100, 5, 0, 1, 1, vec![], vec![]);
    state.on_damage(&alice, &alice, &wolf, 30, 100, 0, 0, 1, 1, vec![], vec![]);
    state.on_damage(&alice, &alice, &wolf, 4, 0, 5, 0, 1, 1, vec![], vec![]);
    state.on_damage(&alice, &projectile, &wolf, 2, 0, 0, 0, 1, 1, vec![], vec![]);
    state.on_damage(&alice, &alice, &wolf, 1, 0, 0, 0, 1, 1, vec![], vec![]);
    let skills = row(&state, "Alice").skills;
    assert_eq!(skills.len(), 4);
    assert_eq!(
        skills[0],
        Skill {
            id: 100,
            total_damage: 40,
            max_damage: 30,
            casts: 0,
            hits: 2,
            crits: 0,
            back_attacks: 0,
            front_attacks: 0,
        }
    );
    assert_eq!((skills[1].id, skills[1].total_damage), (5, 4));
    assert_eq!((skills[2].id, skills[2].total_damage), (777, 2));
    assert_eq!((skills[3].id, skills[3].total_damage), (0, 1));
    assert_eq!(row(&state, "Alice").damage_stats.damage_dealt, 47);
    assert!(state.row(&"2".to_string()).is_none());
}

#[test]
fn effects_on_source_and_target_mark_the_damage() {
    let alice = player(2, "Alice");
    let wolf = entity(1, "Wolf", EntityType::Npc);
    let mut state = EncounterState::new();
    state.on_damage(&alice, &alice, &wolf, 10, 1, 0, 0, 1, 1, vec![effect(1)], vec![]);
    state.on_damage(&alice, &alice, &wolf, 20, 1, 0, 0, 1, 1, vec![], vec![effect(2), effect(3)]);
    state.on_damage(&alice, &alice, &wolf, 40, 1, 0, 0, 1, 1, vec![effect(1)], vec![effect(2)]);
    state.on_damage(&alice, &alice, &wolf, 80, 1, 0, 0, 1, 1, vec![], vec![]);
    let stats = row(&state, "Alice").damage_stats;
    assert_eq!(stats.damage_dealt, 150);
    assert_eq!(stats.buffed_damage, 50);
    assert_eq!(stats.debuffed_damage, 60);
}

#[test]
fn a_reducer_reconciles_the_row_with_the_entity() {
    let mut state = EncounterState::new();
    let stranger = entity(2, "2", EntityType::Unknown);
    let wolf = entity(1, "Wolf", EntityType::Npc);
    hit(&mut state, &stranger, &wolf, 10, 1, 1);
    assert_eq!(row(&state, "2").entity_type, EntityType::Unknown);
    let mut promoted = entity(5, "2", EntityType::Player);
    promoted.class_id = 102;
    state.on_skill_start(promoted, 100, 1234);
    let found = row(&state, "2");
    assert_eq!(found.id, 5);
    assert_eq!(found.entity_type, EntityType::Player);
    assert_eq!(found.class_id, 102);
    assert_eq!(found.damage_stats.damage_dealt, 10);
}

#[test]
fn skill_starts_are_counted_and_logged() {
    let alice = player(2, "Alice");
    let mut state = EncounterState::new();
    state.on_skill_start(alice.clone(), 100, 1000);
    state.on_skill_start(alice.clone(), 200, 1500);
    state.on_skill_start(alice.clone(), 100, 2000);
    let found = row(&state, "Alice");
    assert_eq!(found.skills.len(), 2);
    assert_eq!((found.skills[0].id, found.skills[0].casts), (100, 2));
    assert_eq!((found.skills[1].id, found.skills[1].casts), (200, 1));
    assert_eq!(
        found.cast_log,
        vec![
            SkillCast { skill_id: 100, timestamp: 1000 },
            SkillCast { skill_id: 200, timestamp: 1500 },
            SkillCast { skill_id: 100, timestamp: 2000 },
        ]
    );
    assert_eq!(found.damage_stats.damage_dealt, 0);
}

#[test]
fn counters_deaths_gauges_and_stagger() {
    let alice = player(2, "Alice");
    let mut state = EncounterState::new();
    state.on_counterattack(&alice);
    state.on_counterattack(&alice);
    state.on_identity_gain(&alice, 1, 2, 3);
    state.on_stagger_change(&alice, 40, 100);
    assert!(!row(&state, "Alice").is_dead);
    state.on_death(&alice);
    let found = row(&state, "Alice");
    assert_eq!(found.damage_stats.counters, 2);
    assert_eq!(found.damage_stats.deaths, 1);
    assert!(found.is_dead);
    assert_eq!((found.identity_gauge1, found.identity_gauge2, found.identity_gauge3), (1, 2, 3));
    assert_eq!((found.stagger, found.stagger_max), (40, 100));
    assert_eq!(state.encounter.phase, Phase::Idle);
    assert!(!state.raid_end);
    assert_eq!(state.encounter.entities.len(), 1);
}

#[test]
fn arrivals_insert_and_refresh_rows() {
    let mut state = EncounterState::new();
    state.on_new_pc(player(2, "Alice"), 500, 1000);
    let wolf = entity(1, "Wolf", EntityType::Npc);
    hit(&mut state, &player(2, "Alice"), &wolf, 10, 1, 1);
    let mut moved = player(7, "Alice");
    moved.class_id = 204;
    state.on_new_pc(moved, -5, 2000);
    let found = row(&state, "Alice");
    assert_eq!(found.id, 7);
    assert_eq!(found.class_id, 204);
    assert_eq!(found.current_hp, 0);
    assert_eq!(found.max_hp, 2000);
    assert_eq!(found.damage_stats.damage_dealt, 10);
    assert_eq!(state.encounter.entities.len(), 2);
}

#[test]
fn the_boss_is_the_marked_npc_with_the_most_hit_points() {
    let mut state = EncounterState::new();
    state.on_new_npc(entity(1, "Wolf", EntityType::Npc), 900, 5_000_000);
    assert_eq!(state.encounter.current_boss_name, "");
    state.on_new_npc(boss(2, "Valtan"), 1_000_000, 1_000_000);
    assert_eq!(state.encounter.current_boss_name, "Valtan");
    state.on_new_npc(boss(3, "Ghost"), 500, 999_999);
    assert_eq!(state.encounter.current_boss_name, "Valtan");
    state.on_new_npc(boss(4, "Vykas"), 1_000_000, 1_000_000);
    assert_eq!(state.encounter.current_boss_name, "Vykas");
    state.on_new_npc(boss(5, "Husk"), 0, 0);
    assert_eq!(state.encounter.current_boss_name, "Vykas");
    state.on_new_npc(boss(6, "Husk"), 0, -9);
    assert_eq!(state.encounter.current_boss_name, "Vykas");
    assert_eq!(state.encounter.entities.len(), 5);
    assert!(state.encounter.current_boss.is_none());
}

#[test]
fn a_boss_without_a_row_gives_way_to_any_marked_npc() {
    let mut state = EncounterState::new();
    state.encounter.current_boss_name = "Gone".to_string();
    state.on_new_npc(boss(3, "Ghost"), 5, 5);
    assert_eq!(state.encounter.current_boss_name, "Ghost");
}

#[test]
fn phase_transitions() {
    let mut state = EncounterState::new();
    state.on_phase_transition(7);
    state.on_phase_transition(-1);
    assert_eq!(state.encounter.phase, Phase::Idle);
    assert!(!state.raid_end);
    state.on_phase_transition(2);
    assert_eq!(state.encounter.phase, Phase::InProgress);
    state.on_phase_transition(2);
    assert_eq!(state.encounter.phase, Phase::InProgress);
    assert!(!state.raid_end);
    state.on_phase_transition(1);
    assert_eq!(state.encounter.phase, Phase::Cleared);
    assert!(state.raid_end);
    state.on_phase_transition(2);
    assert_eq!(state.encounter.phase, Phase::Cleared);
    assert!(state.raid_end);

    let mut other = EncounterState::new();
    other.on_phase_transition(0);
    assert_eq!(other.encounter.phase, Phase::Cleared);
    assert!(other.raid_end);
}

#[test]
fn soft_reset_clears_the_encounter() {
    let mut state = EncounterState::new();
    state.on_init_pc(player(2, "Alice"), 100, 100);
    state.on_new_npc(boss(1, "Valtan"), 1_000_000, 1_000_000);
    hit(&mut state, &player(2, "Alice"), &boss(1, "Valtan"), 10, 1, 1);
    state.on_phase_transition(2);
    state.on_phase_transition(1);
    state.saved = true;
    state.soft_reset();
    assert!(state.encounter.entities.is_empty());
    assert_eq!(state.encounter.current_boss_name, "");
    assert!(state.encounter.current_boss.is_none());
    assert_eq!(state.encounter.phase, Phase::Idle);
    assert!(!state.raid_end);
    assert!(!state.saved);
    assert_eq!(state.encounter.local_player, "Alice");
    assert!(state.row(&"Alice".to_string()).is_none());
    let copy = state.snapshot();
    assert!(copy.entities.is_empty());
    assert!(copy.current_boss.is_none());
    state.soft_reset();
    assert!(state.encounter.entities.is_empty());
    assert_eq!(state.encounter.phase, Phase::Idle);
}

#[test]
fn init_env_lets_the_boss_go_and_keeps_the_totals() {
    let mut state = EncounterState::new();
    state.on_init_pc(player(2, "Alice"), 100, 100);
    state.on_new_npc(boss(1, "Valtan"), 1_000_000, 1_000_000);
    hit(&mut state, &player(2, "Alice"), &boss(1, "Valtan"), 10, 1, 1);
    state.on_phase_transition(2);
    state.on_init_env(player(9, "Alice"));
    assert_eq!(state.encounter.current_boss_name, "");
    assert_eq!(state.encounter.local_player, "Alice");
    assert_eq!(row(&state, "Alice").id, 9);
    assert_eq!(row(&state, "Alice").damage_stats.damage_dealt, 10);
    assert_eq!(row(&state, "Alice").max_hp, 100);
    assert_eq!(state.encounter.entities.len(), 2);
    assert_eq!(state.encounter.phase, Phase::InProgress);
}

#[test]
fn update_local_player_renames_the_row() {
    let mut state = EncounterState::new();
    state.on_init_env(player(2, "2"));
    let wolf = entity(1, "Wolf", EntityType::Npc);
    hit(&mut state, &player(2, "2"), &wolf, 10, 1, 1);
    state.update_local_player(&"Alice".to_string());
    assert_eq!(state.encounter.local_player, "Alice");
    assert!(state.row(&"2".to_string()).is_none());
    assert_eq!(row(&state, "Alice").damage_stats.damage_dealt, 10);
    assert_eq!(state.encounter.entities.len(), 2);
    state.update_local_player(&"Alice".to_string());
    assert_eq!(state.encounter.entities.len(), 2);
    assert_eq!(row(&state, "Alice").damage_stats.damage_dealt, 10);
}

#[test]
fn update_local_player_replaces_a_row_of_the_new_name() {
    let mut state = EncounterState::new();
    state.on_init_env(player(2, "2"));
    let wolf = entity(1, "Wolf", EntityType::Npc);
    hit(&mut state, &player(3, "Alice"), &wolf, 99, 1, 1);
    hit(&mut state, &player(2, "2"), &wolf, 10, 1, 1);
    assert_eq!(state.encounter.entities.len(), 3);
    state.update_local_player(&"Alice".to_string());
    assert_eq!(state.encounter.entities.len(), 2);
    assert_eq!(row(&state, "Alice").damage_stats.damage_dealt, 10);
    assert_eq!(row(&state, "Alice").id, 2);
    assert_eq!(row(&state, "Wolf").damage_stats.damage_taken, 109);
}

#[test]
fn update_local_player_without_a_row_only_takes_the_name() {
    let mut state = EncounterState::new();
    let wolf = entity(1, "Wolf", EntityType::Npc);
    hit(&mut state, &player(3, "Alice"), &wolf, 99, 1, 1);
    state.update_local_player(&"Alice".to_string());
    assert_eq!(state.encounter.local_player, "Alice");
    assert_eq!(state.encounter.entities.len(), 2);
    assert_eq!(row(&state, "Alice").damage_stats.damage_dealt, 99);
}

#[test]
fn snapshot_shows_players_and_esthers_that_dealt_damage() {
    let mut state = EncounterState::new();
    let valtan = boss(1, "Valtan");
    state.on_new_npc(valtan.clone(), 1000, 1000);
    state.on_new_pc(player(2, "Alice"), 100, 100);
    state.on_new_pc(player(3, "Idle"), 100, 100);
    state.on_new_pc(player(4, "Frail"), 0, 0);
    state.on_new_npc(entity(5, "Thirain", EntityType::Esther), 50, 50);
    state.on_new_npc(entity(6, "Wolf", EntityType::Summon), 50, 50);
    hit(&mut state, &player(2, "Alice"), &valtan, 10, 990, 1000);
    hit(&mut state, &player(4, "Frail"), &valtan, 10, 980, 1000);
    hit(&mut state, &entity(5, "Thirain", EntityType::Esther), &valtan, 10, 970, 1000);
    hit(&mut state, &entity(6, "Wolf", EntityType::Summon), &valtan, 10, 960, 1000);
    hit(&mut state, &valtan, &player(2, "Alice"), 10, 90, 100);
    let copy = state.snapshot();
    let names: Vec<&str> = copy.entities.iter().map(|e| e.name.as_str()).collect();
    assert_eq!(names, vec!["Alice", "Thirain"]);
    assert_eq!(copy.current_boss_name, "Valtan");
    let shown_boss = copy.current_boss.unwrap();
    assert_eq!(shown_boss.name, "Valtan");
    assert_eq!(shown_boss.current_hp, 960);
    assert_eq!(shown_boss.damage_stats.damage_taken, 40);
    assert_eq!(state.encounter.entities.len(), 6);
    assert!(state.encounter.current_boss.is_none());
}

#[test]
fn snapshot_forgets_a_boss_that_has_no_row() {
    let mut state = EncounterState::new();
    state.on_new_pc(player(2, "Alice"), 100, 100);
    state.encounter.current_boss_name = "Gone".to_string();
    let copy = state.snapshot();
    assert_eq!(copy.current_boss_name, "");
    assert!(copy.current_boss.is_none());
    assert_eq!(state.encounter.current_boss_name, "Gone");
}

#[test]
fn two_snapshots_in_a_row_are_the_same() {
    let mut state = EncounterState::new();
    let valtan = boss(1, "Valtan");
    state.on_new_npc(valtan.clone(), 1000, 1000);
    state.on_new_pc(player(2, "Alice"), 100, 100);
    hit(&mut state, &player(2, "Alice"), &valtan, 10, 990, 1000);
    let first = state.snapshot();
    let second = state.snapshot();
    assert_eq!(format!("{:?}", first), format!("{:?}", second));
    assert_eq!(first.entities.len(), 1);
}
