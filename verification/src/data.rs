//! Character data as it is described in the character files.
use vstd::prelude::*;

verus! {

/// How an ability selects its target.
#[derive(Clone, Copy, Debug, PartialEq, Eq, Structural)]
pub enum ESelectionType {
    Single,
    Aoe,
    Expansion(usize),
}

/// The kind of an ability.
#[derive(Clone, Copy, Debug, PartialEq, Eq, Structural)]
pub enum EAbilityType {
    Attack,
    Ability,
    Ultimate,
}

/// Whom an ability can affect.
#[derive(Clone, Copy, Debug, PartialEq, Eq, Structural)]
pub enum ETargetType {
    Allay,
    Enemy,
    All,
}

/// The statistic an ability scales with.
#[derive(Clone, Copy, Debug, PartialEq, Eq, Structural)]
pub enum EScalingType {
    Hp,
    Defense,
    Attack,
    Speed,
}

/// An animation of a character: its key (such as "idle" or "walk") and its index in the model file.
pub struct CharacterAnimation {
    pub key: String,
    pub index: u32,
}

/// An ability as the character file describes it (its numeric scaling stays with the caller).
pub struct JSONCharacterAbility {
    pub name: String,
    pub family: EAbilityType,
    pub selection_type: ESelectionType,
    pub target_type: ETargetType,
    pub scaling_type: EScalingType,
}

/// A character as the character file describes it: names, model, animations and abilities.
pub struct JSONCharacter {
    pub name: String,
    pub lastname: String,
    pub model: String,
    pub animations: Vec<CharacterAnimation>,
    pub abilities: Vec<JSONCharacterAbility>,
}

impl JSONCharacter {
    /// The first animation whose key is `name`, or `None` when the character has none.
    pub fn get_animation_by_name(&self, name: &str) -> (r: Option<&CharacterAnimation>)
        ensures
            match r {
                Some(a) => exists|i: int|
                    0 <= i < self.animations@.len() && #[trigger] self.animations@[i] == *a && a.key@ == name@
                        && forall|j: int| 0 <= j < i ==> #[trigger] self.animations@[j].key@ != name@,
                None => forall|j: int| 0 <= j < self.animations@.len() ==> #[trigger] self.animations@[j].key@ != name@,
            },
    {
        let key = String::from_str(name);
        let mut i: usize = 0;
        while i < self.animations.len()
            invariant
                0 <= i <= self.animations@.len(),
                key@ == name@,
                forall|j: int| 0 <= j < i ==> #[trigger] self.animations@[j].key@ != name@,
            decreases self.animations@.len() - i,
        {
            if self.animations[i].key == key {
                return Some(&self.animations[i]);
            }
            i = i + 1;
        }
        None
    }
}

/// Whether the player asked to switch to another character.
pub struct ChangeCharacter(pub bool);

impl Default for ChangeCharacter {
    /// No switch asked for.
    fn default() -> (r: Self)
        ensures
            !r.0,
    {
        ChangeCharacter(false)
    }
}

} // verus!
