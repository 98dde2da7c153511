//! Who is put on the battlefield when a battle begins, and the names and models they get.
use vstd::prelude::*;
use crate::strings::{decimal, decimal_text, lowercase, to_lowercase};

verus! {

/// The enemies of a battle, by slot: 1 to 4.
pub open spec fn enemy_slots() -> Seq<usize> {
    seq![1usize, 2usize, 3usize, 4usize]
}

/// Who enters the battlefield, in the order of their places from left to right.
pub struct SpawnPlan {
    /// For each party member, in the party's order: it is the character the player shows in
    /// the world (the player itself moves to the battlefield), or not (a new character is
    /// created for it).
    pub members: Vec<bool>,
    /// The slots of the enemies created.
    pub enemy_slots: Vec<usize>,
}

/// A battle begins: every member of the party takes a place on the battlefield, the member that
/// the player shows in the world by moving the player there, the others as new characters; then
/// four enemies are created, in the slots 1 to 4.
pub fn spawn_entities(party: &Vec<String>, displayed: &str) -> (r: SpawnPlan)
    ensures
        r.members@.len() == party@.len(),
        forall|i: int| 0 <= i < party@.len() ==> (#[trigger] r.members@[i] <==> party@[i]@ == displayed@),
        r.enemy_slots@ == enemy_slots(),
{
    let name = String::from_str(displayed);
    let mut members: Vec<bool> = Vec::new();
    let mut i: usize = 0;
    while i < party.len()
        invariant
            0 <= i <= party@.len(),
            name@ == displayed@,
            members@.len() == i,
            forall|j: int| 0 <= j < i ==> (#[trigger] members@[j] <==> party@[j]@ == displayed@),
        decreases party@.len() - i,
    {
        members.push(party[i] == name);
        i = i + 1;
    }
    let mut slots: Vec<usize> = Vec::new();
    let mut index: usize = 1;
    while index <= 4
        invariant
            1 <= index <= 5,
            slots@ == enemy_slots().take(index - 1),
        decreases 5 - index,
    {
        slots.push(index);
        proof {
            assert(enemy_slots().take(index as int) =~= enemy_slots().take(index - 1).push(index));
        }
        index = index + 1;
    }
    proof {
        assert(enemy_slots().take(4) =~= enemy_slots());
    }
    SpawnPlan { members, enemy_slots: slots }
}

/// The name of the enemy in a slot: `Enemy-0` and the slot's number.
pub fn enemy_name(index: usize) -> (r: String)
    ensures
        r@ == "Enemy-0"@ + decimal(index as nat),
{
    let mut name = String::from_str("Enemy-0");
    let digits = decimal_text(index);
    name.append(digits.as_str());
    name
}

/// The model of an enemy: `entities/enemies/`, its family, `/`, its name, `.glb`.
pub fn enemy_model_path(family: &str, name: &str) -> (r: String)
    ensures
        r@ == "entities/enemies/"@ + family@ + "/"@ + name@ + ".glb"@,
{
    let mut path = String::from_str("entities/enemies/");
    path.append(family);
    path.append("/");
    path.append(name);
    path.append(".glb");
    path
}

/// The model of a character created for a battle: `entities/characters/model/`, its name in
/// lower case, `.glb`.
pub fn character_model_path(name: &str) -> (r: String)
    ensures
        r@ == "entities/characters/model/"@ + lowercase(name@) + ".glb"@,
{
    let mut path = String::from_str("entities/characters/model/");
    let lower = to_lowercase(name);
    path.append(lower.as_str());
    path.append(".glb");
    path
}

} // verus!
