use mira_logic::battle::{setup_battle_entities, BattleCurrentEntities};
use mira_logic::abilities::AbilityType;
use mira_logic::turn::{
    PreparedAbility, TurnCurrentMemberInfo, attack_ready, battle_order_system, end_attack_turn, finish_character_attack, find_member, setup_battle_order, sort_by_speed, turn_entity,
    TurnMember, TurnOrder, TurnStep,
};

fn member(entity: u64, alive: bool, is_character: bool, has_abilities: bool) -> TurnMember {
    TurnMember {
        entity,
        alive,
        is_character,
        has_abilities,
        first_ability: if has_abilities { Some(AbilityType::Ability) } else { None },
    }
}

fn order(order: Vec<u64>, current_index: usize, next: bool) -> TurnOrder {
    TurnOrder { order, current_index, next }
}

#[test]
fn turn_order_default_is_empty_and_ready() {
    let t = TurnOrder::default();
    assert!(t.order.is_empty());
    assert_eq!(t.current_index, 0);
    assert!(t.next);
}

#[test]
fn dead_participants_are_dropped_before_the_turn() {
    let mut info = TurnCurrentMemberInfo::default();
    let members = vec![member(1, false, true, true), member(2, true, true, true), member(3, true, false, false)];
    let mut t = order(vec![1, 2, 3], 0, true);
    assert_eq!(battle_order_system(&mut t, &members, &mut info), TurnStep::CharacterTurn(2));
    assert_eq!(info.character, Some(2));
    assert_eq!(info.pre_operation, Some(PreparedAbility { index: 0, family: AbilityType::Ability }));
    assert_eq!(t.order, vec![2, 3]);
    assert_eq!(t.current_index, 1);
    assert!(!t.next);
}

#[test]
fn enemy_turn_lets_the_next_turn_begin() {
    let mut info = TurnCurrentMemberInfo::default();
    let members = vec![member(2, true, true, true), member(3, true, false, false)];
    let mut t = order(vec![2, 3], 1, true);
    assert_eq!(battle_order_system(&mut t, &members, &mut info), TurnStep::OtherTurn(3));
    assert_eq!(info, TurnCurrentMemberInfo::default());
    assert_eq!(t.order, vec![2, 3]);
    assert_eq!(t.current_index, 0);
    assert!(t.next);
}

#[test]
fn search_wraps_around_to_the_start() {
    let mut info = TurnCurrentMemberInfo::default();
    let members = vec![member(1, true, false, false), member(2, true, false, false), member(3, false, false, false)];
    let mut t = order(vec![1, 2, 3], 2, true);
    assert_eq!(battle_order_system(&mut t, &members, &mut info), TurnStep::OtherTurn(1));
    assert_eq!(t.order, vec![1, 2]);
    assert_eq!(t.current_index, 1);
}

#[test]
fn nobody_alive_empties_the_order() {
    let mut info = TurnCurrentMemberInfo::default();
    let members = vec![member(1, false, true, true)];
    let mut t = order(vec![1, 7], 1, true);
    assert_eq!(battle_order_system(&mut t, &members, &mut info), TurnStep::Emptied);
    assert!(t.order.is_empty());
    assert_eq!(t.current_index, 0);
    assert!(!t.next);
}

#[test]
fn character_without_abilities_keeps_the_index() {
    let mut info = TurnCurrentMemberInfo::default();
    let members = vec![member(5, true, true, false)];
    let mut t = order(vec![5], 0, true);
    assert_eq!(battle_order_system(&mut t, &members, &mut info), TurnStep::CharacterWithoutAbilities(5));
    assert_eq!(info.character, Some(5));
    assert_eq!(info.pre_operation, None);
    assert_eq!(t.current_index, 0);
    assert!(!t.next);
}

#[test]
fn waiting_when_the_turn_is_not_over() {
    let mut info = TurnCurrentMemberInfo::default();
    let members = vec![member(5, true, true, true)];
    let mut t = order(vec![5], 0, false);
    assert_eq!(battle_order_system(&mut t, &members, &mut info), TurnStep::Waiting);
    assert_eq!(t.order, vec![5]);
    let mut empty = order(vec![], 0, true);
    assert_eq!(battle_order_system(&mut empty, &members, &mut info), TurnStep::Waiting);
}

#[test]
fn find_member_gives_first_report() {
    let members = vec![member(4, false, true, true), member(4, true, true, true)];
    assert_eq!(find_member(&members, 4), Some(member(4, false, true, true)));
    assert_eq!(find_member(&members, 9), None);
}

#[test]
fn fastest_first_and_ties_keep_their_order() {
    let sorted = sort_by_speed(&vec![(10, 50), (11, 70), (20, 70), (21, 35)]);
    assert_eq!(sorted, vec![(11, 70), (20, 70), (10, 50), (21, 35)]);
}

#[test]
fn battle_order_lists_characters_then_enemies_by_speed() {
    let mut t = order(vec![99], 3, false);
    setup_battle_order(&mut t, &vec![(10, 50), (11, 70)], &vec![(20, 70), (21, 35)]);
    assert_eq!(t.order, vec![11, 20, 10, 21]);
    assert_eq!(t.current_index, 3);
    assert!(!t.next);
}

#[test]
fn turn_entity_looks_one_back() {
    assert_eq!(turn_entity(&order(vec![4, 5, 6], 0, false)), Some(4));
    assert_eq!(turn_entity(&order(vec![4, 5, 6], 2, false)), Some(5));
    assert_eq!(turn_entity(&order(vec![], 0, false)), None);
}

#[test]
fn last_enemy_defeated_ends_the_battle() {
    let mut battle = BattleCurrentEntities::default();
    setup_battle_entities(&vec![(1, true)], &mut battle);
    let mut t = order(vec![1], 0, false);
    assert!(end_attack_turn(&mut t, &mut battle));
    assert!(t.next);
    assert_eq!(battle.characters.size(), 0);
}

#[test]
fn battle_goes_on_while_enemies_remain() {
    let mut battle = BattleCurrentEntities::default();
    setup_battle_entities(&vec![(1, true), (2, false)], &mut battle);
    let mut t = order(vec![1, 2], 0, false);
    assert!(!end_attack_turn(&mut t, &mut battle));
    assert!(t.next);
    assert_eq!(battle.characters.size(), 1);
}

#[test]
fn member_info_default_selects_the_basic_attack() {
    let info = TurnCurrentMemberInfo::default();
    assert_eq!(info.character, None);
    assert_eq!(info.pre_operation, None);
    assert_eq!(info.selected_operation, Some(PreparedAbility { index: 0, family: AbilityType::Attack }));
    assert!(!attack_ready(&info));
}

#[test]
fn finished_attack_clears_the_turn() {
    let prepared = PreparedAbility { index: 1, family: AbilityType::Ability };
    let mut info = TurnCurrentMemberInfo { character: Some(4), pre_operation: Some(prepared), selected_operation: Some(prepared) };
    assert!(attack_ready(&info));
    let mut t = order(vec![4, 9], 1, false);
    let mut battle = BattleCurrentEntities::default();
    battle.enemies.assign(0, 9);
    battle.characters.assign(0, 4);
    assert!(!finish_character_attack(&mut info, &mut t, &mut battle));
    assert_eq!(info, TurnCurrentMemberInfo { character: None, pre_operation: Some(prepared), selected_operation: None });
    assert!(!attack_ready(&info));
    assert!(t.next);
    assert_eq!(t.order, vec![4, 9]);
    assert_eq!(t.current_index, 1);
    assert_eq!(battle.characters.size(), 1);
}

#[test]
fn finished_attack_without_enemies_ends_the_battle() {
    let mut info = TurnCurrentMemberInfo { character: Some(4), pre_operation: None, selected_operation: Some(PreparedAbility { index: 0, family: AbilityType::Attack }) };
    let mut t = order(vec![4], 0, false);
    let mut battle = BattleCurrentEntities::default();
    battle.characters.assign(0, 4);
    assert!(finish_character_attack(&mut info, &mut t, &mut battle));
    assert_eq!(battle.characters.size(), 0);
    assert_eq!(info.character, None);
    assert_eq!(info.selected_operation, None);
    assert!(t.next);
}
