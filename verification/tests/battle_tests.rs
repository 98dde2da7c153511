use mira_logic::abilities::{
    battle_input_system, choose_battle_operation, fetch_battle_operation, AbilityType, BattleOperation, OperationChoice,
};
use mira_logic::turn::{PreparedAbility, TurnCurrentMemberInfo, TurnOrder};
use mira_logic::battle::{
    contains_entity, detect_current_character_operation, expansion_target_operation, hits_on,
    remove_defeated_enemy, select_encounter_target, setup_battle_entities, single_target_operation,
    aoe_target_operation, expansion_in_range, try_detect_current_character_operation, try_expansion_target_operation,
    update_enemy_position, AttackOperation, BattleCurrentEntities,
    BattleSelectedStatus, CharacterOperation,
};
use mira_logic::slot_table::SlotTable;

fn sorted_entries(table: &SlotTable) -> Vec<(usize, u64)> {
    let mut entries = table.all_entries();
    entries.sort();
    entries
}

fn battle_with(members: &[(u64, bool)]) -> BattleCurrentEntities {
    let mut battle = BattleCurrentEntities::default();
    setup_battle_entities(&members.to_vec(), &mut battle);
    battle
}

#[test]
fn setup_numbers_characters_and_enemies_from_one() {
    let battle = battle_with(&[(10, true), (20, false), (30, false), (40, true)]);
    assert_eq!(sorted_entries(&battle.characters), vec![(1, 10), (2, 40)]);
    assert_eq!(sorted_entries(&battle.enemies), vec![(1, 20), (2, 30)]);
    assert!(!battle.need_patch);
}

#[test]
fn character_operation_default_lists_three_operations() {
    let ops = CharacterOperation::default();
    assert_eq!(ops.0, vec![AttackOperation::Attack(1), AttackOperation::Ability(1), AttackOperation::Ultimate]);
}

#[test]
fn encounter_selects_enemy_in_slot_one_once() {
    let battle = battle_with(&[(10, true), (20, false), (30, false)]);
    let mut selected = BattleSelectedStatus::default();
    assert_eq!(select_encounter_target(&battle, &mut selected), Some(20));
    assert_eq!(selected.selected, Some((1, 20)));
    assert_eq!(select_encounter_target(&battle, &mut selected), None);
    assert_eq!(selected.selected, Some((1, 20)));
}

#[test]
fn encounter_without_enemies_selects_nothing() {
    let battle = battle_with(&[(10, true)]);
    let mut selected = BattleSelectedStatus::default();
    assert_eq!(select_encounter_target(&battle, &mut selected), None);
    assert_eq!(selected.selected, None);
}

#[test]
fn single_target_keeps_only_the_selection() {
    let battle = battle_with(&[(20, false), (30, false)]);
    let mut selected = BattleSelectedStatus::default();
    selected.selected = Some((1, 20));
    selected.sub_selected.assign(2, 30);
    let plan = single_target_operation(&battle, &mut selected, &vec![20, 30]);
    assert!(plan.clear_all);
    assert_eq!(plan.primary, Some(20));
    assert!(plan.secondary.is_empty());
    assert_eq!(selected.sub_selected.size(), 0);
}

#[test]
fn single_target_of_vanished_entity_outlines_nothing() {
    let battle = battle_with(&[(20, false)]);
    let mut selected = BattleSelectedStatus::default();
    selected.selected = Some((1, 20));
    let plan = single_target_operation(&battle, &mut selected, &vec![30]);
    assert_eq!(plan.primary, None);
}

#[test]
fn expansion_targets_both_neighbours_left_first() {
    let battle = battle_with(&[(20, false), (30, false), (50, false)]);
    let mut selected = BattleSelectedStatus::default();
    selected.selected = Some((2, 30));
    let plan = expansion_target_operation(&battle, &mut selected, &vec![20, 30, 50]);
    assert!(plan.clear_all);
    assert_eq!(plan.primary, Some(30));
    assert_eq!(plan.secondary, vec![20, 50]);
    assert_eq!(plan.secondary_slots, vec![1, 3]);
    assert_eq!(sorted_entries(&selected.sub_selected), vec![(1, 20), (3, 50)]);
}

#[test]
fn expansion_at_the_edge_has_one_neighbour() {
    let battle = battle_with(&[(20, false), (30, false), (50, false)]);
    let mut selected = BattleSelectedStatus::default();
    selected.selected = Some((1, 20));
    let plan = expansion_target_operation(&battle, &mut selected, &vec![20, 30]);
    assert_eq!(plan.primary, Some(20));
    assert_eq!(plan.secondary, vec![30]);
    assert_eq!(plan.secondary_slots, vec![2]);
}

#[test]
fn expansion_without_selection_changes_nothing() {
    let battle = battle_with(&[(20, false)]);
    let mut selected = BattleSelectedStatus::default();
    let plan = expansion_target_operation(&battle, &mut selected, &vec![20]);
    assert!(!plan.clear_all);
    assert_eq!(plan.primary, None);
    assert!(plan.secondary.is_empty());
}

#[test]
fn aoe_targets_every_existing_enemy() {
    let battle = battle_with(&[(20, false), (30, false), (50, false)]);
    let mut selected = BattleSelectedStatus::default();
    selected.selected = Some((1, 20));
    let plan = aoe_target_operation(&battle, &mut selected, &vec![20, 30, 50]);
    assert!(!plan.clear_all);
    assert_eq!(plan.primary, None);
    let mut slots = plan.secondary_slots.clone();
    slots.sort();
    assert_eq!(slots, vec![1, 2, 3]);
    let mut entities = plan.secondary.clone();
    entities.sort();
    assert_eq!(entities, vec![20, 30, 50]);
    assert_eq!(selected.sub_selected.size(), 3);
}

#[test]
fn operation_dispatch_ignores_other_levels() {
    let battle = battle_with(&[(20, false)]);
    let mut selected = BattleSelectedStatus::default();
    selected.selected = Some((1, 20));
    assert!(detect_current_character_operation(AttackOperation::Attack(2), &battle, &mut selected, &vec![20]).is_none());
    let plan = detect_current_character_operation(AttackOperation::Attack(1), &battle, &mut selected, &vec![20]).unwrap();
    assert_eq!(plan.primary, Some(20));
}

#[test]
fn defeated_enemy_leaves_and_renumbering_closes_the_gap() {
    let mut battle = battle_with(&[(10, true), (20, false), (30, false), (50, false)]);
    remove_defeated_enemy(&mut battle, 30);
    assert!(battle.need_patch);
    assert_eq!(sorted_entries(&battle.enemies), vec![(1, 20), (3, 50)]);
    let placed = update_enemy_position(&mut battle, &vec![20, 50]).unwrap();
    assert_eq!(placed, vec![(1, 20), (3, 50)]);
    assert_eq!(sorted_entries(&battle.enemies), vec![(1, 20), (2, 50)]);
    assert!(!battle.need_patch);
}

#[test]
fn renumbering_without_patch_does_nothing() {
    let mut battle = battle_with(&[(10, true), (20, false)]);
    assert_eq!(update_enemy_position(&mut battle, &vec![20]), None);
    assert_eq!(sorted_entries(&battle.enemies), vec![(1, 20)]);
}

#[test]
fn removing_unknown_enemy_empties_slot_zero_only() {
    let mut battle = battle_with(&[(20, false)]);
    remove_defeated_enemy(&mut battle, 99);
    assert_eq!(sorted_entries(&battle.enemies), vec![(1, 20)]);
    assert!(battle.need_patch);
}

#[test]
fn hits_count_selection_once_and_each_further_slot() {
    let mut selected = BattleSelectedStatus::default();
    selected.selected = Some((1, 20));
    selected.sub_selected.assign(1, 20);
    selected.sub_selected.assign(2, 30);
    selected.sub_selected.assign(3, 30);
    assert_eq!(hits_on(&selected, 20), 1);
    assert_eq!(hits_on(&selected, 30), 2);
    assert_eq!(hits_on(&selected, 40), 0);
}

#[test]
fn contains_entity_finds_ids() {
    assert!(contains_entity(&vec![1, 2, 3], 2));
    assert!(!contains_entity(&vec![1, 2, 3], 4));
}

#[test]
fn battle_keys_prefer_attack_then_spell() {
    assert_eq!(battle_input_system(true, true, true), Some(AbilityType::Attack));
    assert_eq!(battle_input_system(false, true, true), Some(AbilityType::Ability));
    assert_eq!(battle_input_system(false, false, true), Some(AbilityType::Ultimate));
    assert_eq!(battle_input_system(false, false, false), None);
}

#[test]
fn battle_operation_reuses_or_prepares_first_of_family() {
    let families = vec![AbilityType::Attack, AbilityType::Ability, AbilityType::Ability, AbilityType::Ultimate];
    assert_eq!(choose_battle_operation(Some(AbilityType::Ability), &families, AbilityType::Ability), OperationChoice::Reuse);
    assert_eq!(choose_battle_operation(Some(AbilityType::Attack), &families, AbilityType::Ability), OperationChoice::Prepare(Some(1)));
    assert_eq!(choose_battle_operation(None, &vec![AbilityType::Attack], AbilityType::Ultimate), OperationChoice::Prepare(None));
}

#[test]
fn battle_key_works_for_the_character_in_turn() {
    let characters = vec![(7, vec![AbilityType::Attack, AbilityType::Ultimate])];
    let turn = TurnOrder { order: vec![7, 9], current_index: 1, next: false };
    let mut info = TurnCurrentMemberInfo::default();
    assert_eq!(
        fetch_battle_operation(&turn, &characters, &mut info, AbilityType::Ultimate),
        BattleOperation::Prepare { entity: 7, ability: 1 }
    );
    let prepared = PreparedAbility { index: 1, family: AbilityType::Ultimate };
    let basic = PreparedAbility { index: 0, family: AbilityType::Attack };
    assert_eq!(info, TurnCurrentMemberInfo { character: Some(7), pre_operation: Some(prepared), selected_operation: Some(basic) });
    assert_eq!(fetch_battle_operation(&turn, &characters, &mut info, AbilityType::Ultimate), BattleOperation::Reuse);
    assert_eq!(info.selected_operation, Some(prepared));
    let before = info;
    assert_eq!(fetch_battle_operation(&turn, &characters, &mut info, AbilityType::Ability), BattleOperation::NoAbility);
    assert_eq!(info, before);
    let enemy_turn = TurnOrder { order: vec![7, 9], current_index: 2, next: false };
    assert_eq!(fetch_battle_operation(&enemy_turn, &characters, &mut info, AbilityType::Attack), BattleOperation::NotYourTurn);
    let empty = TurnOrder { order: vec![], current_index: 0, next: false };
    assert_eq!(fetch_battle_operation(&empty, &characters, &mut info, AbilityType::Attack), BattleOperation::NoTurn);
    assert_eq!(info, before);
}

#[test]
fn expansion_is_checked_before_it_runs() {
    let battle = battle_with(&[(20, false), (30, false)]);
    let mut selected = BattleSelectedStatus::default();
    selected.selected = Some((1, 20));
    assert!(expansion_in_range(&battle, &selected));
    let plan = try_expansion_target_operation(&battle, &mut selected, &vec![20, 30]).unwrap();
    assert_eq!(plan.secondary, vec![30]);
    let mut edge = BattleCurrentEntities::default();
    edge.enemies.assign(0, 20);
    let mut sel = BattleSelectedStatus::default();
    sel.selected = Some((0, 20));
    assert!(!expansion_in_range(&edge, &sel));
    assert!(try_expansion_target_operation(&edge, &mut sel, &vec![20]).is_none());
    assert!(try_detect_current_character_operation(AttackOperation::Ability(1), &edge, &mut sel, &vec![20]).is_none());
    assert_eq!(
        try_detect_current_character_operation(AttackOperation::Attack(1), &edge, &mut sel, &vec![20]).unwrap().primary,
        Some(20)
    );
    assert_eq!(sel.selected, Some((0, 20)));
}
