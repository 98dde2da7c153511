//! Battle bookkeeping: who stands in which slot, what is selected, and the turn order.
use vstd::prelude::*;
use crate::slot_table::{SlotTable, slot_contents};

verus! {

/// What a character can do in combat.
#[derive(Clone, Copy, Debug, PartialEq, Eq, Structural)]
pub enum AttackOperation {
    /// A basic attack; the number is its level.
    Attack(u8),
    /// A special ability; the number is its level.
    Ability(u8),
    /// The ultimate ability.
    Ultimate,
}

/// The operations available to a character.
pub struct CharacterOperation(pub Vec<AttackOperation>);

impl Default for CharacterOperation {
    /// Attack(1), Ability(1) and Ultimate, in that order.
    fn default() -> (r: Self)
        ensures
            r.0@ == seq![AttackOperation::Attack(1), AttackOperation::Ability(1), AttackOperation::Ultimate],
    {
        CharacterOperation(vec![AttackOperation::Attack(1), AttackOperation::Ability(1), AttackOperation::Ultimate])
    }
}

/// The battle slot of a character or an enemy.
#[derive(Clone, Copy, Debug, PartialEq, Eq, Structural)]
pub struct Slot(pub usize);

/// The selected target (its slot and entity) and the further targets of an area attack.
pub struct BattleSelectedStatus {
    pub selected: Option<(usize, u64)>,
    pub sub_selected: SlotTable,
}

impl Default for BattleSelectedStatus {
    /// Nothing selected.
    fn default() -> (r: Self)
        ensures
            r.selected is None,
            slot_contents(r.sub_selected).dom() == Set::<usize>::empty(),
    {
        BattleSelectedStatus { selected: None, sub_selected: SlotTable::new() }
    }
}

/// The entities taking part in the current battle, by slot.
pub struct BattleCurrentEntities {
    /// The enemies' slots must be renumbered.
    pub need_patch: bool,
    pub enemies: SlotTable,
    pub characters: SlotTable,
}

impl Default for BattleCurrentEntities {
    /// No participants, nothing to renumber.
    fn default() -> (r: Self)
        ensures
            !r.need_patch,
            slot_contents(r.enemies).dom() == Set::<usize>::empty(),
            slot_contents(r.characters).dom() == Set::<usize>::empty(),
    {
        BattleCurrentEntities { need_patch: false, enemies: SlotTable::new(), characters: SlotTable::new() }
    }
}

/// Which outlines the engine must change after a target operation.
pub struct OutlinePlan {
    /// Remove the outline of every enemy first.
    pub clear_all: bool,
    /// The entity to outline as the main target.
    pub primary: Option<u64>,
    /// The entities to outline as further targets, in this order.
    pub secondary: Vec<u64>,
    /// The slots of the further targets, in the same order.
    pub secondary_slots: Vec<usize>,
}

/// Whether an id occurs in a list.
pub fn contains_entity(list: &Vec<u64>, entity: u64) -> (r: bool)
    ensures
        r == list@.contains(entity),
{
    let mut i: usize = 0;
    while i < list.len()
        invariant
            0 <= i <= list@.len(),
            forall|j: int| 0 <= j < i ==> list@[j] != entity,
        decreases list@.len() - i,
    {
        if list[i] == entity {
            return true;
        }
        i = i + 1;
    }
    false
}

/// The entity of the current selection, if any.
pub open spec fn selected_entity(selected: Option<(usize, u64)>) -> Option<u64> {
    match selected {
        Some((_, e)) => Some(e),
        None => None,
    }
}

/// What a single-target operation does (see [`single_target_operation`]).
pub open spec fn single_target_outcome(
    existing: Seq<u64>,
    old_selected: Option<(usize, u64)>,
    new_selected: Option<(usize, u64)>,
    new_sub: Map<usize, u64>,
    plan: OutlinePlan,
) -> bool {
    &&& plan.clear_all
    &&& plan.secondary@.len() == 0
    &&& plan.secondary_slots@.len() == 0
    &&& plan.primary == (match old_selected {
        Some((_, e)) => if existing.contains(e) { Some(e) } else { None::<u64> },
        None => None::<u64>,
    })
    &&& new_selected == old_selected
    &&& new_sub.dom() == Set::<usize>::empty()
}

/// Single target: every outline is cleared, the further targets are dropped, and the
/// selected entity (if it still exists) becomes the main target.
pub fn single_target_operation(
    battle_members: &BattleCurrentEntities,
    selected: &mut BattleSelectedStatus,
    existing: &Vec<u64>,
) -> (plan: OutlinePlan)
    ensures
        single_target_outcome(
            existing@,
            old(selected).selected,
            final(selected).selected,
            slot_contents(final(selected).sub_selected),
            plan,
        ),
{
    if !selected.sub_selected.is_empty() {
        selected.sub_selected.clear();
    }
    proof {
        assert(slot_contents(selected.sub_selected).dom() =~= Set::<usize>::empty());
    }
    let mut primary: Option<u64> = None;
    if let Some((_, entity)) = selected.selected {
        if contains_entity(existing, entity) {
            primary = Some(entity);
        }
    }
    OutlinePlan { clear_all: true, primary, secondary: Vec::new(), secondary_slots: Vec::new() }
}


/// The enemy in the slot left of `slot`, if the slot is taken and its entity exists.
pub open spec fn left_target(enemies: Map<usize, u64>, existing: Seq<u64>, slot: usize) -> bool {
    slot >= 1 && enemies.contains_key((slot - 1) as usize) && existing.contains(enemies[(slot - 1) as usize])
}

/// The enemy in the slot right of `slot`, if the slot is taken and its entity exists.
pub open spec fn right_target(enemies: Map<usize, u64>, existing: Seq<u64>, slot: usize) -> bool {
    slot < usize::MAX && enemies.contains_key((slot + 1) as usize) && existing.contains(
        enemies[(slot + 1) as usize],
    )
}

/// The neighbours of `slot` that become further targets: left one first.
pub open spec fn neighbour_entities(enemies: Map<usize, u64>, existing: Seq<u64>, slot: usize) -> Seq<u64> {
    (if left_target(enemies, existing, slot) {
        seq![enemies[(slot - 1) as usize]]
    } else {
        Seq::<u64>::empty()
    }) + (if right_target(enemies, existing, slot) {
        seq![enemies[(slot + 1) as usize]]
    } else {
        Seq::<u64>::empty()
    })
}

/// The slots of the neighbours of `slot` that become further targets: left one first.
pub open spec fn neighbour_slots(enemies: Map<usize, u64>, existing: Seq<u64>, slot: usize) -> Seq<usize> {
    (if left_target(enemies, existing, slot) {
        seq![(slot - 1) as usize]
    } else {
        Seq::<usize>::empty()
    }) + (if right_target(enemies, existing, slot) {
        seq![(slot + 1) as usize]
    } else {
        Seq::<usize>::empty()
    })
}

/// The further targets of `slot`, by their slots.
pub open spec fn neighbour_map(enemies: Map<usize, u64>, existing: Seq<u64>, slot: usize) -> Map<usize, u64> {
    let m = if left_target(enemies, existing, slot) {
        Map::<usize, u64>::empty().insert((slot - 1) as usize, enemies[(slot - 1) as usize])
    } else {
        Map::<usize, u64>::empty()
    };
    if right_target(enemies, existing, slot) {
        m.insert((slot + 1) as usize, enemies[(slot + 1) as usize])
    } else {
        m
    }
}

/// Whether some slot holds the entity.
pub open spec fn holds_entity(slots: Map<usize, u64>, entity: u64) -> bool {
    exists|s: usize| slots.contains_key(s) && #[trigger] slots[s] == entity
}

/// The selected entity's slots leave room for a left and a right neighbour.
pub open spec fn expansion_slots_in_range(enemies: Map<usize, u64>, selected: Option<(usize, u64)>) -> bool {
    forall|s: usize|
        #![trigger enemies[s]]
        enemies.contains_key(s) && selected_entity(selected) == Some(enemies[s]) ==> 1 <= s < usize::MAX
}

/// What an expansion operation does (see [`expansion_target_operation`]).
pub open spec fn expansion_target_outcome(
    enemies: Map<usize, u64>,
    existing: Seq<u64>,
    old_selected: Option<(usize, u64)>,
    old_sub: Map<usize, u64>,
    new_selected: Option<(usize, u64)>,
    new_sub: Map<usize, u64>,
    plan: OutlinePlan,
) -> bool {
    &&& new_selected == old_selected
    &&& match old_selected {
        None => {
            &&& !plan.clear_all
            &&& plan.primary is None
            &&& plan.secondary@.len() == 0
            &&& plan.secondary_slots@.len() == 0
            &&& new_sub == old_sub
        },
        Some((_, sel)) => {
            &&& plan.clear_all
            &&& if holds_entity(enemies, sel) && existing.contains(sel) {
                exists|s: usize|
                    #![trigger enemies[s]]
                    enemies.contains_key(s) && enemies[s] == sel && plan.primary == Some(sel)
                        && plan.secondary@ == neighbour_entities(enemies, existing, s)
                        && plan.secondary_slots@ == neighbour_slots(enemies, existing, s)
                        && new_sub == neighbour_map(enemies, existing, s)
            } else {
                &&& plan.primary is None
                &&& plan.secondary@.len() == 0
                &&& plan.secondary_slots@.len() == 0
                &&& new_sub.dom() == Set::<usize>::empty()
            }
        },
    }
}

/// Expansion: the selected enemy and the enemies next to it (slot - 1 and slot + 1) are targets.
///
/// With nothing selected nothing changes. Otherwise every outline is cleared and the further
/// targets are dropped; then, if the selected entity stands in a slot and still exists, it becomes
/// the main target and its existing neighbours become further targets.
pub fn expansion_target_operation(
    battle_members: &BattleCurrentEntities,
    selected: &mut BattleSelectedStatus,
    existing: &Vec<u64>,
) -> (plan: OutlinePlan)
    requires
        expansion_slots_in_range(slot_contents(battle_members.enemies), old(selected).selected),
    ensures
        expansion_target_outcome(
            slot_contents(battle_members.enemies),
            existing@,
            old(selected).selected,
            slot_contents(old(selected).sub_selected),
            final(selected).selected,
            slot_contents(final(selected).sub_selected),
            plan,
        ),
{
    let sel = match selected.selected {
        Some((_, e)) => e,
        None => {
            return OutlinePlan { clear_all: false, primary: None, secondary: Vec::new(), secondary_slots: Vec::new() };
        },
    };
    let ghost enemies = slot_contents(battle_members.enemies);
    if !selected.sub_selected.is_empty() {
        selected.sub_selected.clear();
    }
    proof {
        assert(slot_contents(selected.sub_selected).dom() =~= Set::<usize>::empty());
    }
    let entries = battle_members.enemies.entries();
    let mut found: Option<usize> = None;
    let mut i: usize = 0;
    while i < entries.len()
        invariant
            0 <= i <= entries@.len(),
            forall|j: int|
                0 <= j < entries@.len() ==> #[trigger] enemies.contains_key(entries@[j].0)
                    && enemies[entries@[j].0] == entries@[j].1,
            found is None ==> forall|j: int| 0 <= j < i ==> #[trigger] entries@[j].1 != sel,
            found matches Some(s) ==> enemies.contains_key(s) && enemies[s] == sel,
        decreases entries@.len() - i,
    {
        if entries[i].1 == sel {
            found = Some(entries[i].0);
        }
        i = i + 1;
    }
    let slot = match found {
        Some(s) => s,
        None => {
            proof {
                assert(!holds_entity(enemies, sel)) by {
                    if holds_entity(enemies, sel) {
                        let s = choose|s: usize| enemies.contains_key(s) && #[trigger] enemies[s] == sel;
                        let j = choose|j: int| 0 <= j < entries@.len() && entries@[j].0 == s;
                        assert(entries@[j].1 == sel);
                    }
                }
            }
            return OutlinePlan { clear_all: true, primary: None, secondary: Vec::new(), secondary_slots: Vec::new() };
        },
    };
    if !contains_entity(existing, sel) {
        return OutlinePlan { clear_all: true, primary: None, secondary: Vec::new(), secondary_slots: Vec::new() };
    }
    let mut secondary: Vec<u64> = Vec::new();
    let mut secondary_slots: Vec<usize> = Vec::new();
    let mut adjacent_slots: Vec<usize> = Vec::new();
    if battle_members.enemies.contains_key(slot - 1) {
        adjacent_slots.push(slot - 1);
    }
    if battle_members.enemies.contains_key(slot + 1) {
        adjacent_slots.push(slot + 1);
    }
    let ghost sub0 = slot_contents(selected.sub_selected);
    let mut k: usize = 0;
    while k < adjacent_slots.len()
        invariant
            enemies == slot_contents(battle_members.enemies),
            selected.selected == old(selected).selected,
            enemies.contains_key(slot) && enemies[slot] == sel,
            1 <= slot < usize::MAX,
            adjacent_slots@ == (if enemies.contains_key((slot - 1) as usize) {
                seq![(slot - 1) as usize]
            } else {
                Seq::<usize>::empty()
            }) + (if enemies.contains_key((slot + 1) as usize) {
                seq![(slot + 1) as usize]
            } else {
                Seq::<usize>::empty()
            }),
            0 <= k <= adjacent_slots@.len(),
            secondary_slots@.len() == secondary@.len(),
            forall|j: int| 0 <= j < secondary@.len() ==> enemies.contains_key(#[trigger] secondary_slots@[j]) && enemies[secondary_slots@[j]] == secondary@[j],
            k == 0 ==> secondary_slots@.len() == 0,
            k == 1 && adjacent_slots@[0] == (slot - 1) as usize ==> secondary_slots@ == (if left_target(enemies, existing@, slot) {
                seq![(slot - 1) as usize] } else { Seq::<usize>::empty() }),
            k >= 1 && adjacent_slots@[0] == (slot + 1) as usize ==> secondary_slots@ == neighbour_slots(enemies, existing@, slot),
            k == 2 ==> secondary_slots@ == neighbour_slots(enemies, existing@, slot),
            k == 0 ==> secondary@.len() == 0 && slot_contents(selected.sub_selected).dom()
                == Set::<usize>::empty(),
            k == 1 && adjacent_slots@[0] == (slot - 1) as usize ==> secondary@ == (if left_target(
                enemies,
                existing@,
                slot,
            ) {
                seq![enemies[(slot - 1) as usize]]
            } else {
                Seq::<u64>::empty()
            }) && slot_contents(selected.sub_selected) == (if left_target(enemies, existing@, slot) {
                Map::<usize, u64>::empty().insert((slot - 1) as usize, enemies[(slot - 1) as usize])
            } else {
                Map::<usize, u64>::empty()
            }),
            k >= 1 && adjacent_slots@[0] == (slot + 1) as usize ==> k == 1 && secondary@
                == neighbour_entities(enemies, existing@, slot) && slot_contents(selected.sub_selected)
                == neighbour_map(enemies, existing@, slot),
            k == 2 ==> secondary@ == neighbour_entities(enemies, existing@, slot) && slot_contents(
                selected.sub_selected,
            ) == neighbour_map(enemies, existing@, slot),
        decreases adjacent_slots@.len() - k,
    {
        let adj_slot = adjacent_slots[k];
        if let Some(adj_entity) = battle_members.enemies.get(adj_slot) {
            if contains_entity(existing, adj_entity) {
                secondary.push(adj_entity);
                secondary_slots.push(adj_slot);
                if !selected.sub_selected.contains_key(adj_slot) {
                    selected.sub_selected.insert(adj_slot, adj_entity);
                }
            }
        }
        proof {
            assert(slot_contents(selected.sub_selected) =~= slot_contents(selected.sub_selected));
        }
        k = k + 1;
    }
    proof {
        if k == 0 {
            assert(!enemies.contains_key((slot - 1) as usize) && !enemies.contains_key((slot + 1) as usize));
            assert(neighbour_entities(enemies, existing@, slot) =~= Seq::<u64>::empty());
            assert(neighbour_map(enemies, existing@, slot) =~= Map::<usize, u64>::empty());
            assert(slot_contents(selected.sub_selected) =~= Map::<usize, u64>::empty());
        }
        if k == 1 && adjacent_slots@[0] == (slot - 1) as usize {
            assert(!enemies.contains_key((slot + 1) as usize));
            assert(neighbour_entities(enemies, existing@, slot) =~= secondary@);
        }
        if k == 0 {
            assert(neighbour_slots(enemies, existing@, slot) =~= Seq::<usize>::empty());
        }
        if k == 1 && adjacent_slots@[0] == (slot - 1) as usize {
            assert(neighbour_slots(enemies, existing@, slot) =~= secondary_slots@);
        }
    }
    let plan = OutlinePlan { clear_all: true, primary: Some(sel), secondary, secondary_slots };
    proof {
        assert(enemies[slot] == sel);
        assert(holds_entity(enemies, sel));
        assert(plan.secondary@ == neighbour_entities(enemies, existing@, slot));
        assert(plan.secondary_slots@ == neighbour_slots(enemies, existing@, slot));
        assert(slot_contents(selected.sub_selected) == neighbour_map(enemies, existing@, slot));
    }
    plan
}


/// The map 1 -> s[0], 2 -> s[1], ..., n -> s[n - 1].
pub open spec fn numbered_from_one(s: Seq<u64>) -> Map<usize, u64> {
    Map::new(|k: usize| 1 <= k <= s.len(), |k: usize| s[k - 1])
}

/// What an area-of-effect operation does (see [`aoe_target_operation`]).
pub open spec fn aoe_target_outcome(
    enemies: Map<usize, u64>,
    existing: Seq<u64>,
    old_selected: Option<(usize, u64)>,
    old_sub: Map<usize, u64>,
    new_selected: Option<(usize, u64)>,
    new_sub: Map<usize, u64>,
    plan: OutlinePlan,
) -> bool {
    &&& new_selected == old_selected
    &&& !plan.clear_all
    &&& plan.primary is None
    &&& plan.secondary_slots@.len() == plan.secondary@.len()
    &&& old_selected is None ==> plan.secondary@.len() == 0 && new_sub == old_sub
    &&& old_selected is Some ==> {
        &&& forall|i: int|
            0 <= i < plan.secondary@.len() ==> enemies.contains_key(#[trigger] plan.secondary_slots@[i])
                && enemies[plan.secondary_slots@[i]] == plan.secondary@[i] && existing.contains(
                plan.secondary@[i],
            )
        &&& forall|i: int, j: int|
            0 <= i < j < plan.secondary@.len() ==> #[trigger] plan.secondary_slots@[i]
                != #[trigger] plan.secondary_slots@[j]
        &&& forall|s: usize|
            #[trigger] enemies.contains_key(s) && existing.contains(enemies[s])
                ==> plan.secondary_slots@.contains(s)
        &&& new_sub == numbered_from_one(plan.secondary@).union_prefer_right(old_sub)
    }
}

/// Area of effect: with a selection, every existing enemy becomes a further target, in the
/// enemy table's iteration order; the k-th of them is recorded as further target number k unless
/// that number is taken already. Outlines are not cleared. Without a selection nothing happens.
pub fn aoe_target_operation(
    battle_members: &BattleCurrentEntities,
    selected: &mut BattleSelectedStatus,
    existing: &Vec<u64>,
) -> (plan: OutlinePlan)
    ensures
        aoe_target_outcome(
            slot_contents(battle_members.enemies),
            existing@,
            old(selected).selected,
            slot_contents(old(selected).sub_selected),
            final(selected).selected,
            slot_contents(final(selected).sub_selected),
            plan,
        ),
{
    let ghost enemies = slot_contents(battle_members.enemies);
    let ghost old_sub = slot_contents(selected.sub_selected);
    let mut secondary: Vec<u64> = Vec::new();
    let mut secondary_slots: Vec<usize> = Vec::new();
    if selected.selected.is_none() {
        return OutlinePlan { clear_all: false, primary: None, secondary, secondary_slots };
    }
    let entries = battle_members.enemies.entries();
    let ghost mut idx: Seq<int> = Seq::empty();
    let mut i: usize = 0;
    proof {
        assert(numbered_from_one(secondary@).union_prefer_right(old_sub) =~= old_sub);
    }
    while i < entries.len()
        invariant
            0 <= i <= entries@.len(),
            selected.selected == old(selected).selected,
            enemies == slot_contents(battle_members.enemies),
            forall|j: int|
                0 <= j < entries@.len() ==> #[trigger] enemies.contains_key(entries@[j].0)
                    && enemies[entries@[j].0] == entries@[j].1,
            forall|a: int, b: int| 0 <= a < b < entries@.len() ==> #[trigger] entries@[a].0 != #[trigger] entries@[b].0,
            forall|slot: usize|
                #[trigger] enemies.contains_key(slot) ==> exists|j: int| 0 <= j < entries@.len() && entries@[j].0 == slot,
            secondary@.len() == secondary_slots@.len(),
            idx.len() == secondary@.len(),
            secondary@.len() <= i,
            forall|j: int| 0 <= j < idx.len() ==> 0 <= #[trigger] idx[j] < i && secondary_slots@[j] == entries@[idx[j]].0
                && secondary@[j] == entries@[idx[j]].1 && existing@.contains(secondary@[j]),
            forall|a: int, b: int| 0 <= a < b < idx.len() ==> #[trigger] idx[a] < #[trigger] idx[b],
            forall|m: int| 0 <= m < i && #[trigger] existing@.contains(entries@[m].1) ==> exists|j: int| 0 <= j < idx.len() && idx[j] == m,
            slot_contents(selected.sub_selected) == numbered_from_one(secondary@).union_prefer_right(old_sub),
        decreases entries@.len() - i,
    {
        let entity = entries[i].1;
        if contains_entity(existing, entity) {
            let n = secondary.len();
            let ghost before = numbered_from_one(secondary@);
            secondary.push(entity);
            secondary_slots.push(entries[i].0);
            proof {
                let old_idx = idx;
                idx = idx.push(i as int);
                assert forall|m: int| 0 <= m < i + 1 && #[trigger] existing@.contains(entries@[m].1) implies exists|j: int| 0 <= j < idx.len() && idx[j] == m by {
                    if m == i {
                        assert(idx[idx.len() - 1] == m);
                    } else {
                        let j = choose|j: int| 0 <= j < old_idx.len() && old_idx[j] == m;
                        assert(idx[j] == m);
                    }
                }
            }
            let key = n + 1;
            if !selected.sub_selected.contains_key(key) {
                selected.sub_selected.insert(key, entity);
                proof {
                    assert(!old_sub.contains_key(key));
                    assert(slot_contents(selected.sub_selected) =~= numbered_from_one(secondary@).union_prefer_right(old_sub));
                }
            } else {
                proof {
                    assert(old_sub.contains_key(key));
                    assert(slot_contents(selected.sub_selected) =~= numbered_from_one(secondary@).union_prefer_right(old_sub));
                }
            }
        }
        i = i + 1;
    }
    proof {
        assert forall|j: int| 0 <= j < secondary@.len() implies enemies.contains_key(#[trigger] secondary_slots@[j])
            && enemies[secondary_slots@[j]] == secondary@[j] && existing@.contains(secondary@[j]) by {
            let k = idx[j];
            assert(enemies.contains_key(entries@[k].0));
        }
        assert forall|a: int, b: int| 0 <= a < b < secondary@.len() implies #[trigger] secondary_slots@[a]
            != #[trigger] secondary_slots@[b] by {
            assert(idx[a] < idx[b]);
        }
        assert forall|s: usize| #[trigger] enemies.contains_key(s) && existing@.contains(enemies[s]) implies secondary_slots@.contains(s) by {
            let m = choose|m: int| 0 <= m < entries@.len() && entries@[m].0 == s;
            assert(existing@.contains(entries@[m].1));
            let j = choose|j: int| 0 <= j < idx.len() && idx[j] == m;
            assert(secondary_slots@[j] == s);
        }
    }
    OutlinePlan { clear_all: false, primary: None, secondary, secondary_slots }
}


/// Applies the target operation that belongs to the selected attack operation:
/// `Attack(1)` a single target, `Ability(1)` an expansion, `Ultimate` an area of effect.
/// Any other operation changes nothing and gives `None`.
pub fn detect_current_character_operation(
    operation: AttackOperation,
    battle_members: &BattleCurrentEntities,
    selected: &mut BattleSelectedStatus,
    existing: &Vec<u64>,
) -> (plan: Option<OutlinePlan>)
    requires
        operation == AttackOperation::Ability(1) ==> expansion_slots_in_range(
            slot_contents(battle_members.enemies),
            old(selected).selected,
        ),
    ensures
        match operation {
            AttackOperation::Attack(1) => plan matches Some(p) && single_target_outcome(
                existing@,
                old(selected).selected,
                final(selected).selected,
                slot_contents(final(selected).sub_selected),
                p,
            ),
            AttackOperation::Ability(1) => plan matches Some(p) && expansion_target_outcome(
                slot_contents(battle_members.enemies),
                existing@,
                old(selected).selected,
                slot_contents(old(selected).sub_selected),
                final(selected).selected,
                slot_contents(final(selected).sub_selected),
                p,
            ),
            AttackOperation::Ultimate => plan matches Some(p) && aoe_target_outcome(
                slot_contents(battle_members.enemies),
                existing@,
                old(selected).selected,
                slot_contents(old(selected).sub_selected),
                final(selected).selected,
                slot_contents(final(selected).sub_selected),
                p,
            ),
            _ => plan is None && final(selected).selected == old(selected).selected && slot_contents(
                final(selected).sub_selected,
            ) == slot_contents(old(selected).sub_selected),
        },
{
    match operation {
        AttackOperation::Attack(1) => Some(single_target_operation(battle_members, selected, existing)),
        AttackOperation::Ability(1) => Some(expansion_target_operation(battle_members, selected, existing)),
        AttackOperation::Ultimate => Some(aoe_target_operation(battle_members, selected, existing)),
        _ => None,
    }
}

/// Whether the slots of the selected entity leave room for a left and a right neighbour (see
/// [`expansion_slots_in_range`]); always so when nothing is selected.
pub fn expansion_in_range(battle_members: &BattleCurrentEntities, selected: &BattleSelectedStatus) -> (r: bool)
    ensures
        r == expansion_slots_in_range(slot_contents(battle_members.enemies), selected.selected),
{
    let ghost enemies = slot_contents(battle_members.enemies);
    let sel = match selected.selected {
        None => return true,
        Some((_, e)) => e,
    };
    let entries = battle_members.enemies.entries();
    let mut i: usize = 0;
    while i < entries.len()
        invariant
            0 <= i <= entries@.len(),
            selected_entity(selected.selected) == Some(sel),
            enemies == slot_contents(battle_members.enemies),
            forall|j: int|
                0 <= j < entries@.len() ==> #[trigger] enemies.contains_key(entries@[j].0)
                    && enemies[entries@[j].0] == entries@[j].1,
            forall|slot: usize|
                #[trigger] enemies.contains_key(slot) ==> exists|j: int| 0 <= j < entries@.len() && entries@[j].0 == slot,
            forall|j: int| 0 <= j < i && #[trigger] entries@[j].1 == sel ==> 1 <= entries@[j].0 < usize::MAX,
        decreases entries@.len() - i,
    {
        let (slot, entity) = entries[i];
        if entity == sel && (slot == 0 || slot == usize::MAX) {
            proof {
                assert(entries@[i as int] == (slot, entity));
                assert(enemies.contains_key(entries@[i as int].0));
                assert(enemies.contains_key(slot) && enemies[slot] == sel);
            }
            return false;
        }
        i = i + 1;
    }
    proof {
        assert forall|s: usize| #![trigger enemies[s]] enemies.contains_key(s) && selected_entity(selected.selected) == Some(enemies[s]) implies 1 <= s < usize::MAX by {
            let j = choose|j: int| 0 <= j < entries@.len() && entries@[j].0 == s;
            assert(entries@[j].1 == sel);
        }
    }
    true
}

/// An expansion (see [`expansion_target_operation`]) where the selected entity's slots leave
/// room for its neighbours; `None`, with nothing changed, where they do not.
pub fn try_expansion_target_operation(
    battle_members: &BattleCurrentEntities,
    selected: &mut BattleSelectedStatus,
    existing: &Vec<u64>,
) -> (plan: Option<OutlinePlan>)
    ensures
        !expansion_slots_in_range(slot_contents(battle_members.enemies), old(selected).selected) ==> plan is None
            && final(selected).selected == old(selected).selected && slot_contents(final(selected).sub_selected)
            == slot_contents(old(selected).sub_selected),
        expansion_slots_in_range(slot_contents(battle_members.enemies), old(selected).selected) ==> (plan matches Some(
            p,
        ) && expansion_target_outcome(
            slot_contents(battle_members.enemies),
            existing@,
            old(selected).selected,
            slot_contents(old(selected).sub_selected),
            final(selected).selected,
            slot_contents(final(selected).sub_selected),
            p,
        )),
{
    if !expansion_in_range(battle_members, selected) {
        return None;
    }
    Some(expansion_target_operation(battle_members, selected, existing))
}

/// The target operation of an attack operation (see [`detect_current_character_operation`]),
/// where an expansion's selected entity leaves room for its neighbours; for an expansion where
/// it does not, `None` with nothing changed.
pub fn try_detect_current_character_operation(
    operation: AttackOperation,
    battle_members: &BattleCurrentEntities,
    selected: &mut BattleSelectedStatus,
    existing: &Vec<u64>,
) -> (plan: Option<OutlinePlan>)
    ensures
        operation == AttackOperation::Ability(1) && !expansion_slots_in_range(
            slot_contents(battle_members.enemies),
            old(selected).selected,
        ) ==> plan is None && final(selected).selected == old(selected).selected && slot_contents(
            final(selected).sub_selected,
        ) == slot_contents(old(selected).sub_selected),
        operation == AttackOperation::Ability(1) && expansion_slots_in_range(
            slot_contents(battle_members.enemies),
            old(selected).selected,
        ) ==> (plan matches Some(p) && expansion_target_outcome(
            slot_contents(battle_members.enemies),
            existing@,
            old(selected).selected,
            slot_contents(old(selected).sub_selected),
            final(selected).selected,
            slot_contents(final(selected).sub_selected),
            p,
        )),
        operation == AttackOperation::Attack(1) ==> (plan matches Some(p) && single_target_outcome(
            existing@,
            old(selected).selected,
            final(selected).selected,
            slot_contents(final(selected).sub_selected),
            p,
        )),
        operation == AttackOperation::Ultimate ==> (plan matches Some(p) && aoe_target_outcome(
            slot_contents(battle_members.enemies),
            existing@,
            old(selected).selected,
            slot_contents(old(selected).sub_selected),
            final(selected).selected,
            slot_contents(final(selected).sub_selected),
            p,
        )),
        !(operation == AttackOperation::Ability(1) || operation == AttackOperation::Attack(1) || operation
            == AttackOperation::Ultimate) ==> plan is None && final(selected).selected == old(selected).selected
            && slot_contents(final(selected).sub_selected) == slot_contents(old(selected).sub_selected),
{
    if operation == AttackOperation::Ability(1) && !expansion_in_range(battle_members, selected) {
        return None;
    }
    detect_current_character_operation(operation, battle_members, selected, existing)
}

/// At the start of a battle the enemy in slot 1 is selected, unless something is selected
/// already. Gives the entity that must be outlined, if one was selected here.
pub fn select_encounter_target(
    battle_members: &BattleCurrentEntities,
    selected: &mut BattleSelectedStatus,
) -> (outlined: Option<u64>)
    ensures
        slot_contents(final(selected).sub_selected) == slot_contents(old(selected).sub_selected),
        if slot_contents(battle_members.enemies).contains_key(1) && old(selected).selected is None {
            &&& final(selected).selected == Some((1usize, slot_contents(battle_members.enemies)[1]))
            &&& outlined == Some(slot_contents(battle_members.enemies)[1])
        } else {
            &&& final(selected).selected == old(selected).selected
            &&& outlined is None
        },
{
    if let Some(target) = battle_members.enemies.get(1) {
        if selected.selected.is_none() {
            selected.selected = Some((1, target));
            return Some(target);
        }
    }
    None
}


/// The ids of the members that are characters, in order.
pub open spec fn character_ids(members: Seq<(u64, bool)>) -> Seq<u64>
    decreases members.len(),
{
    if members.len() == 0 {
        Seq::empty()
    } else if members.last().1 {
        character_ids(members.drop_last()).push(members.last().0)
    } else {
        character_ids(members.drop_last())
    }
}

/// The ids of the members that are not characters (the enemies), in order.
pub open spec fn enemy_ids(members: Seq<(u64, bool)>) -> Seq<u64>
    decreases members.len(),
{
    if members.len() == 0 {
        Seq::empty()
    } else if !members.last().1 {
        enemy_ids(members.drop_last()).push(members.last().0)
    } else {
        enemy_ids(members.drop_last())
    }
}

/// Numbers the battle members (entity, is a character) in their order: the characters get the
/// slots 1, 2, ... among the characters, the others the slots 1, 2, ... among the enemies.
/// What stood in those slots before is replaced; other slots are kept.
pub fn setup_battle_entities(members: &Vec<(u64, bool)>, battle_entities: &mut BattleCurrentEntities)
    ensures
        slot_contents(final(battle_entities).characters) == slot_contents(old(battle_entities).characters).union_prefer_right(
            numbered_from_one(character_ids(members@)),
        ),
        slot_contents(final(battle_entities).enemies) == slot_contents(old(battle_entities).enemies).union_prefer_right(
            numbered_from_one(enemy_ids(members@)),
        ),
        final(battle_entities).need_patch == old(battle_entities).need_patch,
{
    let ghost old_chars = slot_contents(battle_entities.characters);
    let ghost old_enemies = slot_contents(battle_entities.enemies);
    let mut c_index: usize = 0;
    let mut e_index: usize = 0;
    let mut i: usize = 0;
    proof {
        assert(old_chars.union_prefer_right(numbered_from_one(Seq::empty())) =~= old_chars);
        assert(old_enemies.union_prefer_right(numbered_from_one(Seq::empty())) =~= old_enemies);
        assert(members@.take(0) =~= Seq::<(u64, bool)>::empty());
    }
    while i < members.len()
        invariant
            0 <= i <= members@.len(),
            c_index == character_ids(members@.take(i as int)).len(),
            e_index == enemy_ids(members@.take(i as int)).len(),
            c_index + e_index == i,
            battle_entities.need_patch == old(battle_entities).need_patch,
            slot_contents(battle_entities.characters) == old_chars.union_prefer_right(
                numbered_from_one(character_ids(members@.take(i as int))),
            ),
            slot_contents(battle_entities.enemies) == old_enemies.union_prefer_right(
                numbered_from_one(enemy_ids(members@.take(i as int))),
            ),
        decreases members@.len() - i,
    {
        let (entity, is_character) = members[i];
        let ghost prefix = members@.take(i as int);
        proof {
            assert(members@.take(i + 1).drop_last() =~= prefix);
            assert(members@.take(i + 1).last() == members@[i as int]);
        }
        if is_character {
            c_index = c_index + 1;
            battle_entities.characters.insert(c_index, entity);
            proof {
                assert(slot_contents(battle_entities.characters) =~= old_chars.union_prefer_right(
                    numbered_from_one(character_ids(members@.take(i + 1))),
                ));
                assert(enemy_ids(members@.take(i + 1)) == enemy_ids(prefix));
            }
        } else {
            e_index = e_index + 1;
            battle_entities.enemies.insert(e_index, entity);
            proof {
                assert(slot_contents(battle_entities.enemies) =~= old_enemies.union_prefer_right(
                    numbered_from_one(enemy_ids(members@.take(i + 1))),
                ));
                assert(character_ids(members@.take(i + 1)) == character_ids(prefix));
            }
        }
        i = i + 1;
    }
    proof {
        assert(members@.take(i as int) =~= members@);
    }
}


/// Slots strictly increase along the sequence.
pub open spec fn slots_increasing(s: Seq<(usize, u64)>) -> bool {
    forall|a: int, b: int| 0 <= a < b < s.len() ==> #[trigger] s[a].0 < #[trigger] s[b].0
}

/// Inserts an entry at its place by slot.
fn insert_by_slot(placed: &mut Vec<(usize, u64)>, item: (usize, u64))
    requires
        slots_increasing(old(placed)@),
        forall|k: int| 0 <= k < old(placed)@.len() ==> #[trigger] old(placed)@[k].0 != item.0,
    ensures
        slots_increasing(final(placed)@),
        forall|x: (usize, u64)| #[trigger] final(placed)@.contains(x) <==> (old(placed)@.contains(x) || x == item),
{
    let mut p: usize = 0;
    while p < placed.len() && placed[p].0 < item.0
        invariant
            0 <= p <= placed@.len(),
            forall|k: int| 0 <= k < p ==> #[trigger] placed@[k].0 < item.0,
        decreases placed@.len() - p,
    {
        p = p + 1;
    }
    let ghost before = placed@;
    proof {
        assert forall|k: int| p <= k < before.len() implies #[trigger] before[k].0 > item.0 by {
            assert(before[p as int].0 >= item.0);
            if k > p {
                assert(before[p as int].0 < before[k].0);
            }
        }
    }
    placed.insert(p, item);
    proof {
        assert forall|a: int, b: int| 0 <= a < b < placed@.len() implies #[trigger] placed@[a].0
            < #[trigger] placed@[b].0 by {
            if a < p && b < p {
            } else if a < p && b == p {
            } else if a < p {
                assert(placed@[b] == before[b - 1]);
            } else if a == p {
                assert(placed@[b] == before[b - 1]);
            } else {
                assert(placed@[a] == before[a - 1] && placed@[b] == before[b - 1]);
            }
        }
        assert forall|x: (usize, u64)| #[trigger] placed@.contains(x) <==> (before.contains(x) || x == item) by {
            if placed@.contains(x) {
                let k = choose|k: int| 0 <= k < placed@.len() && placed@[k] == x;
                if k < p {
                    assert(before[k] == x);
                } else if k > p {
                    assert(before[k - 1] == x);
                }
            }
            if before.contains(x) {
                let k = choose|k: int| 0 <= k < before.len() && before[k] == x;
                if k < p {
                    assert(placed@[k] == x);
                } else {
                    assert(placed@[k + 1] == x);
                }
            }
            if x == item {
                assert(placed@[p as int] == x);
            }
        }
    }
}

/// Renumbers the enemies after some were defeated, when a renumbering is due and both sides
/// still have members. The enemies whose entity can be placed (`placeable`) are taken in the
/// order of their slots and get the slots 1, 2, ...; the others leave the table. Gives those
/// enemies (old slot, entity) in their new order; without a renumbering, `None` and no change.
pub fn update_enemy_position(
    battle_entities: &mut BattleCurrentEntities,
    placeable: &Vec<u64>,
) -> (placed: Option<Vec<(usize, u64)>>)
    ensures
        slot_contents(final(battle_entities).characters) == slot_contents(old(battle_entities).characters),
        ({
            let enemies = slot_contents(old(battle_entities).enemies);
            if enemies.dom() == Set::<usize>::empty() || slot_contents(old(battle_entities).characters).dom()
                == Set::<usize>::empty() || !old(battle_entities).need_patch {
                &&& placed is None
                &&& final(battle_entities).need_patch == old(battle_entities).need_patch
                &&& slot_contents(final(battle_entities).enemies) == enemies
            } else {
                &&& placed matches Some(p) && {
                    &&& slots_increasing(p@)
                    &&& forall|k: int|
                        0 <= k < p@.len() ==> enemies.contains_key(#[trigger] p@[k].0) && enemies[p@[k].0]
                            == p@[k].1 && placeable@.contains(p@[k].1)
                    &&& forall|s: usize|
                        #[trigger] enemies.contains_key(s) && placeable@.contains(enemies[s]) ==> p@.contains(
                            (s, enemies[s]),
                        )
                    &&& slot_contents(final(battle_entities).enemies) == numbered_from_one(
                        p@.map_values(|e: (usize, u64)| e.1),
                    )
                }
                &&& !final(battle_entities).need_patch
            }
        }),
{
    if battle_entities.enemies.is_empty() || battle_entities.characters.is_empty() {
        return None;
    }
    if !battle_entities.need_patch {
        return None;
    }
    let ghost enemies = slot_contents(battle_entities.enemies);
    let entries = battle_entities.enemies.entries();
    let mut placed: Vec<(usize, u64)> = Vec::new();
    let mut i: usize = 0;
    while i < entries.len()
        invariant
            0 <= i <= entries@.len(),
            enemies == slot_contents(battle_entities.enemies),
            enemies == slot_contents(old(battle_entities).enemies),
            battle_entities.need_patch,
            slot_contents(battle_entities.characters) == slot_contents(old(battle_entities).characters),
            forall|j: int|
                0 <= j < entries@.len() ==> #[trigger] enemies.contains_key(entries@[j].0)
                    && enemies[entries@[j].0] == entries@[j].1,
            forall|a: int, b: int| 0 <= a < b < entries@.len() ==> #[trigger] entries@[a].0 != #[trigger] entries@[b].0,
            slots_increasing(placed@),
            forall|x: (usize, u64)|
                #[trigger] placed@.contains(x) ==> placeable@.contains(x.1) && exists|m: int|
                    0 <= m < i && entries@[m] == x,
            forall|m: int| 0 <= m < i && #[trigger] placeable@.contains(entries@[m].1) ==> placed@.contains(entries@[m]),
        decreases entries@.len() - i,
    {
        let (slot, entity) = entries[i];
        if contains_entity(placeable, entity) {
            proof {
                assert forall|k: int| 0 <= k < placed@.len() implies #[trigger] placed@[k].0 != slot by {
                    assert(placed@.contains(placed@[k]));
                    let m = choose|m: int| 0 <= m < i && entries@[m] == placed@[k];
                    assert(entries@[m].0 != entries@[i as int].0);
                }
            }
            insert_by_slot(&mut placed, (slot, entity));
            proof {
                assert forall|x: (usize, u64)| #[trigger] placed@.contains(x) implies placeable@.contains(x.1) && exists|m: int|
                    0 <= m < i + 1 && entries@[m] == x by {
                    if x == entries@[i as int] {
                    } else {
                    }
                }
            }
        }
        i = i + 1;
    }
    proof {
        assert forall|k: int| 0 <= k < placed@.len() implies enemies.contains_key(#[trigger] placed@[k].0)
            && enemies[placed@[k].0] == placed@[k].1 && placeable@.contains(placed@[k].1) by {
            assert(placed@.contains(placed@[k]));
            let m = choose|m: int| 0 <= m < i && entries@[m] == placed@[k];
        }
        assert forall|s: usize| #[trigger] enemies.contains_key(s) && placeable@.contains(enemies[s]) implies placed@.contains(
            (s, enemies[s]),
        ) by {
            let m = choose|m: int| 0 <= m < entries@.len() && entries@[m].0 == s;
            assert(placeable@.contains(entries@[m].1));
        }
    }
    battle_entities.enemies.clear();
    let mut k: usize = 0;
    proof {
        assert(slot_contents(battle_entities.enemies) =~= numbered_from_one(
            placed@.take(0).map_values(|e: (usize, u64)| e.1),
        ));
    }
    while k < placed.len()
        invariant
            0 <= k <= placed@.len(),
            battle_entities.need_patch,
            slot_contents(battle_entities.characters) == slot_contents(old(battle_entities).characters),
            slot_contents(battle_entities.enemies) == numbered_from_one(
                placed@.take(k as int).map_values(|e: (usize, u64)| e.1),
            ),
        decreases placed@.len() - k,
    {
        battle_entities.enemies.insert(k + 1, placed[k].1);
        proof {
            assert(slot_contents(battle_entities.enemies) =~= numbered_from_one(
                placed@.take(k + 1).map_values(|e: (usize, u64)| e.1),
            ));
        }
        k = k + 1;
    }
    proof {
        assert(placed@.take(k as int) =~= placed@);
    }
    battle_entities.need_patch = false;
    Some(placed)
}


/// Takes a defeated enemy out of the battle: the slot that holds it (the first met in the
/// table's order; slot 0 when none does) is emptied, and a renumbering becomes due.
#[verifier::spinoff_prover]
pub fn remove_defeated_enemy(battle_members: &mut BattleCurrentEntities, entity: u64)
    ensures
        final(battle_members).need_patch,
        slot_contents(final(battle_members).characters) == slot_contents(old(battle_members).characters),
        ({
            let enemies = slot_contents(old(battle_members).enemies);
            if holds_entity(enemies, entity) {
                exists|s: usize|
                    #![trigger enemies[s]]
                    enemies.contains_key(s) && enemies[s] == entity && slot_contents(final(battle_members).enemies)
                        == enemies.remove(s)
            } else {
                slot_contents(final(battle_members).enemies) == enemies.remove(0)
            }
        }),
{
    let entries = battle_members.enemies.entries();
    let ghost enemies = slot_contents(battle_members.enemies);
    assert(enemies == slot_contents(old(battle_members).enemies));
    let mut slot_to_remove: usize = 0;
    let mut found = false;
    let mut i: usize = 0;
    while i < entries.len()
        invariant_except_break
            !found,
            slot_to_remove == 0,
            forall|j: int| 0 <= j < i ==> #[trigger] entries@[j].1 != entity,
        invariant
            0 <= i <= entries@.len(),
            forall|j: int|
                0 <= j < entries@.len() ==> #[trigger] enemies.contains_key(entries@[j].0)
                    && enemies[entries@[j].0] == entries@[j].1,
        ensures
            !found ==> slot_to_remove == 0 && forall|j: int| 0 <= j < entries@.len() ==> #[trigger] entries@[j].1 != entity,
            found ==> enemies.contains_key(slot_to_remove) && enemies[slot_to_remove] == entity,
        decreases entries@.len() - i,
    {
        if entries[i].1 == entity {
            slot_to_remove = entries[i].0;
            found = true;
            break;
        }
        i = i + 1;
    }
    battle_members.enemies.remove(slot_to_remove);
    battle_members.need_patch = true;
    proof {
        if found {
            assert(enemies[slot_to_remove] == entity);
        } else {
            assert(!holds_entity(enemies, entity)) by {
                if holds_entity(enemies, entity) {
                    let s = choose|s: usize| enemies.contains_key(s) && #[trigger] enemies[s] == entity;
                    let j = choose|j: int| 0 <= j < entries@.len() && entries@[j].0 == s;
                    assert(entries@[j].1 == entity);
                }
            }
        }
    }
}

/// The slots that hold an entity.
pub open spec fn slots_holding(slots: Map<usize, u64>, entity: u64) -> Set<usize> {
    slots.dom().filter(|s: usize| slots[s] == entity)
}

/// How many times an attack hits an enemy: once if it is the selected target, else once for
/// every further-target slot that holds it.
pub fn hits_on(selected: &BattleSelectedStatus, entity: u64) -> (hits: usize)
    ensures
        hits == (if selected_entity(selected.selected) == Some(entity) {
            1
        } else {
            slots_holding(slot_contents(selected.sub_selected), entity).len()
        }),
{
    if let Some((_, selected_entity)) = selected.selected {
        if selected_entity == entity {
            return 1;
        }
    }
    let ghost sub = slot_contents(selected.sub_selected);
    let entries = selected.sub_selected.entries();
    let ghost mut seen: Set<usize> = Set::empty();
    let mut count: usize = 0;
    let mut i: usize = 0;
    while i < entries.len()
        invariant
            0 <= i <= entries@.len(),
            forall|j: int|
                0 <= j < entries@.len() ==> #[trigger] sub.contains_key(entries@[j].0) && sub[entries@[j].0]
                    == entries@[j].1,
            forall|a: int, b: int| 0 <= a < b < entries@.len() ==> #[trigger] entries@[a].0 != #[trigger] entries@[b].0,
            seen.finite(),
            count == seen.len(),
            count <= i,
            forall|s: usize| #[trigger] seen.contains(s) <==> exists|j: int| 0 <= j < i && entries@[j].0 == s && entries@[j].1 == entity,
        decreases entries@.len() - i,
    {
        if entries[i].1 == entity {
            proof {
                assert(!seen.contains(entries@[i as int].0)) by {
                    if seen.contains(entries@[i as int].0) {
                        let j = choose|j: int| 0 <= j < i && entries@[j].0 == entries@[i as int].0 && entries@[j].1 == entity;
                    }
                }
                seen = seen.insert(entries@[i as int].0);
            }
            count = count + 1;
        }
        i = i + 1;
    }
    proof {
        assert(seen =~= slots_holding(sub, entity)) by {
            assert forall|s: usize| #[trigger] slots_holding(sub, entity).contains(s) implies seen.contains(s) by {
                let j = choose|j: int| 0 <= j < entries@.len() && entries@[j].0 == s;
            }
        }
    }
    count
}

} // verus!
