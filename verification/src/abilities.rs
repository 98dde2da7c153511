//! Kinds of abilities and how they pick their targets.
use vstd::prelude::*;
use crate::turn::{PreparedAbility, TurnCurrentMemberInfo, TurnOrder, turn_entity};

verus! {

/// How an ability selects its targets.
#[derive(Clone, Copy, Debug, PartialEq, Eq, Structural)]
pub enum SelectionType {
    Single,
    Aoe,
    /// The target and its neighbours; the number is the width.
    Expansion(usize),
}

/// The family of an ability.
#[derive(Clone, Copy, Debug, PartialEq, Eq, Structural)]
pub enum AbilityType {
    Attack,
    Ability,
    Ultimate,
}

/// Whom an ability may target.
#[derive(Clone, Copy, Debug, PartialEq, Eq, Structural)]
pub enum TargetType {
    Allay,
    Enemy,
    All,
}

/// Which statistic an ability scales with.
#[derive(Clone, Copy, Debug, PartialEq, Eq, Structural)]
pub enum ScalingType {
    Hp,
    Defense,
    Attack,
    Speed,
}

/// The family of ability asked for by the battle keys that went down: attack before ability
/// before ultimate.
pub fn battle_input_system(attack_pressed: bool, spell_pressed: bool, ultimate_pressed: bool) -> (r: Option<AbilityType>)
    ensures
        r == (if attack_pressed {
            Some(AbilityType::Attack)
        } else if spell_pressed {
            Some(AbilityType::Ability)
        } else if ultimate_pressed {
            Some(AbilityType::Ultimate)
        } else {
            None::<AbilityType>
        }),
{
    if attack_pressed {
        Some(AbilityType::Attack)
    } else if spell_pressed {
        Some(AbilityType::Ability)
    } else if ultimate_pressed {
        Some(AbilityType::Ultimate)
    } else {
        None
    }
}

/// The operation a character takes when a battle key is pressed.
#[derive(Clone, Copy, Debug, PartialEq, Eq, Structural)]
pub enum OperationChoice {
    /// The prepared ability is of the wanted family: it is selected.
    Reuse,
    /// The first ability of the wanted family (by its index), if the character has one, is prepared.
    Prepare(Option<usize>),
}

/// Chooses the operation for the pressed family: the prepared ability if it is of that family,
/// else the first of the character's abilities (given by their families, in order) of that family.
pub fn choose_battle_operation(
    prepared: Option<AbilityType>,
    families: &Vec<AbilityType>,
    family: AbilityType,
) -> (r: OperationChoice)
    ensures
        prepared == Some(family) ==> r == OperationChoice::Reuse,
        prepared != Some(family) ==> match r {
            OperationChoice::Prepare(None) => forall|j: int| 0 <= j < families@.len() ==> families@[j] != family,
            OperationChoice::Prepare(Some(i)) => {
                &&& i < families@.len()
                &&& families@[i as int] == family
                &&& forall|j: int| 0 <= j < i ==> families@[j] != family
            },
            OperationChoice::Reuse => false,
        },
{
    if prepared == Some(family) {
        return OperationChoice::Reuse;
    }
    let mut i: usize = 0;
    while i < families.len()
        invariant
            0 <= i <= families@.len(),
            prepared != Some(family),
            forall|j: int| 0 <= j < i ==> families@[j] != family,
        decreases families@.len() - i,
    {
        if families[i] == family {
            return OperationChoice::Prepare(Some(i));
        }
        i = i + 1;
    }
    OperationChoice::Prepare(None)
}

/// The abilities (by family, in order) of the character with this entity: the first entry for
/// it, if any.
pub open spec fn abilities_of(characters: Seq<(u64, Seq<AbilityType>)>, entity: u64) -> Option<Seq<AbilityType>>
    decreases characters.len(),
{
    if characters.len() == 0 {
        None
    } else if characters[0].0 == entity {
        Some(characters[0].1)
    } else {
        abilities_of(characters.drop_first(), entity)
    }
}

/// The characters as (entity, families of its abilities).
pub open spec fn character_view(characters: Seq<(u64, Vec<AbilityType>)>) -> Seq<(u64, Seq<AbilityType>)> {
    characters.map_values(|c: (u64, Vec<AbilityType>)| (c.0, c.1@))
}

/// The entity whose turn it is during the selection (see [`turn_entity`]).
pub open spec fn selecting_entity(turn_order: TurnOrder) -> Option<u64> {
    let i = if turn_order.current_index > 0 { turn_order.current_index - 1 } else { 0 };
    if i < turn_order.order@.len() { Some(turn_order.order@[i]) } else { None }
}

/// What a battle key does for the character whose turn it is.
#[derive(Clone, Copy, Debug, PartialEq, Eq, Structural)]
pub enum BattleOperation {
    /// Nobody's turn is being selected.
    NoTurn,
    /// The entity whose turn it is is not one of the player's characters.
    NotYourTurn,
    /// The prepared ability is of the asked family: it is selected.
    Reuse,
    /// The character's first ability of the asked family (by its index) is prepared.
    Prepare { entity: u64, ability: usize },
    /// The character has no ability of the asked family: nothing happens.
    NoAbility,
}

/// A battle key asks for a family of abilities, for the character whose turn it is. When the
/// prepared ability is of that family, it is selected. Otherwise the character's first ability
/// of that family is prepared and the character recorded as the member of the turn; a
/// character without such an ability, an entity that is no character, or no turn at all, change
/// nothing.
pub fn fetch_battle_operation(
    turn_order: &TurnOrder,
    characters: &Vec<(u64, Vec<AbilityType>)>,
    info: &mut TurnCurrentMemberInfo,
    family: AbilityType,
) -> (r: BattleOperation)
    ensures
        match selecting_entity(*turn_order) {
            None => r == BattleOperation::NoTurn,
            Some(e) => match abilities_of(character_view(characters@), e) {
                None => r == BattleOperation::NotYourTurn,
                Some(families) => if prepared_family(old(info).pre_operation) == Some(family) {
                    r == BattleOperation::Reuse
                } else if exists|j: int| 0 <= j < families.len() && families[j] == family {
                    r matches BattleOperation::Prepare { entity, ability } && entity == e && ability < families.len()
                        && families[ability as int] == family && (forall|j: int|
                        0 <= j < ability ==> families[j] != family)
                } else {
                    r == BattleOperation::NoAbility
                },
            },
        },
        r == BattleOperation::Reuse ==> *final(info) == (TurnCurrentMemberInfo {
            selected_operation: old(info).pre_operation,
            ..*old(info)
        }),
        r matches BattleOperation::Prepare { entity, ability } ==> *final(info) == (TurnCurrentMemberInfo {
            character: Some(entity),
            pre_operation: Some(PreparedAbility { index: ability, family }),
            selected_operation: old(info).selected_operation,
        }),
        !(r is Reuse || r is Prepare) ==> *final(info) == *old(info),
{
    let entity = match turn_entity(turn_order) {
        Some(e) => e,
        None => return BattleOperation::NoTurn,
    };
    let ghost view = character_view(characters@);
    proof {
        assert(view.skip(0) =~= view);
    }
    let mut i: usize = 0;
    while i < characters.len()
        invariant
            0 <= i <= characters@.len(),
            view == character_view(characters@),
            abilities_of(view, entity) == abilities_of(view.skip(i as int), entity),
            selecting_entity(*turn_order) == Some(entity),
            *info == *old(info),
        decreases characters@.len() - i,
    {
        proof {
            assert(view.skip(i as int).drop_first() =~= view.skip(i + 1));
        }
        if characters[i].0 == entity {
            let families = &characters[i].1;
            proof {
                assert(view[i as int] == (entity, families@));
                assert(view.skip(i as int)[0] == view[i as int]);
                assert(abilities_of(view, entity) == Some(families@));
            }
            let prepared = match info.pre_operation {
                Some(p) => Some(p.family),
                None => None,
            };
            return match choose_battle_operation(prepared, families, family) {
                OperationChoice::Reuse => {
                    info.selected_operation = info.pre_operation;
                    BattleOperation::Reuse
                },
                OperationChoice::Prepare(Some(ability)) => {
                    info.character = Some(entity);
                    info.pre_operation = Some(PreparedAbility { index: ability, family });
                    BattleOperation::Prepare { entity, ability }
                },
                OperationChoice::Prepare(None) => BattleOperation::NoAbility,
            };
        }
        i = i + 1;
    }
    proof {
        assert(view.skip(i as int) =~= Seq::<(u64, Seq<AbilityType>)>::empty());
    }
    BattleOperation::NotYourTurn
}

/// The family of a prepared ability.
pub open spec fn prepared_family(p: Option<PreparedAbility>) -> Option<AbilityType> {
    match p {
        Some(a) => Some(a.family),
        None => None,
    }
}

} // verus!
