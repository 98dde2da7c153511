//! Switching the character the player plays in the world.
use vstd::prelude::*;
use crate::config::DummySaveData;
use crate::data::{ChangeCharacter, CharacterAnimation, JSONCharacter};
use crate::strings::{lowercase, to_lowercase};
use crate::turn::TurnCurrentMemberInfo;

verus! {

/// The character keys that went down in this frame.
#[derive(Clone, Copy, Debug, PartialEq, Eq, Structural)]
pub struct CharacterKeys {
    pub first: bool,
    pub second: bool,
    pub third: bool,
    pub fourth: bool,
}

/// A character key asks for a switch: the first key for "ignara", the second for "lira" (the
/// third and fourth keys ask for nothing yet). A switch already asked for stays asked for, and
/// then no name is chosen. Gives the name of the character to read while a switch is asked for.
pub fn trigger_switch_character(keys: CharacterKeys, change_character: &mut ChangeCharacter) -> (r: Option<String>)
    ensures
        final(change_character).0 == (old(change_character).0 || keys.first || keys.second),
        r is Some <==> final(change_character).0,
        r matches Some(name) ==> name@ == (if old(change_character).0 {
            ""@
        } else if keys.first {
            "ignara"@
        } else {
            "lira"@
        }),
{
    let mut name = "";
    if keys.first && !change_character.0 {
        name = "ignara";
        change_character.0 = true;
    }
    if keys.second && !change_character.0 {
        name = "lira";
        change_character.0 = true;
    }
    if keys.third && !change_character.0 {
        name = "ignara";
    }
    if keys.fourth && !change_character.0 {
        name = "ignara";
    }
    if change_character.0 {
        Some(String::from_str(name))
    } else {
        None
    }
}

/// Stores the character read for a switch as the current one, unless the current one already
/// has the asked name. When reading failed, the current character stays (there must be one).
pub fn store_fetched_character(save: &mut DummySaveData, name: &str, fetched: Result<JSONCharacter, String>)
    requires
        fetched is Err ==> old(save).current_char is Some,
    ensures
        final(save).current_environment == old(save).current_environment,
        final(save).current_area == old(save).current_area,
        match fetched {
            Ok(c) => if old(save).current_char matches Some(cur) && cur.name@ == name@ {
                final(save).current_char == old(save).current_char
            } else {
                final(save).current_char == Some(c)
            },
            Err(_) => final(save).current_char == old(save).current_char,
        },
{
    let key = String::from_str(name);
    match fetched {
        Ok(c) => {
            let keep = match &save.current_char {
                Some(cur) => cur.name == key,
                None => false,
            };
            if !keep {
                save.current_char = Some(c);
            }
        },
        Err(_) => {},
    }
}

/// The animation at `i` is the first one with the given key.
pub open spec fn first_animation(animations: Seq<CharacterAnimation>, key: Seq<char>, i: int) -> bool {
    &&& 0 <= i < animations.len()
    &&& animations[i].key@ == key
    &&& forall|j: int| 0 <= j < i ==> #[trigger] animations[j].key@ != key
}

/// The character has an animation with the given key.
pub open spec fn has_animation(character: JSONCharacter, key: Seq<char>) -> bool {
    exists|i: int| 0 <= i < character.animations@.len() && #[trigger] character.animations@[i].key@ == key
}

/// `index` is the model index of the character's first animation with the given key.
pub open spec fn animation_index_is(character: JSONCharacter, key: Seq<char>, index: u32) -> bool {
    exists|i: int| first_animation(character.animations@, key, i) && #[trigger] character.animations@[i].index == index
}

/// The model indices of the animations a world character plays.
#[derive(Clone, Copy, Debug, PartialEq, Eq, Structural)]
pub struct WorldAnimations {
    pub idle: u32,
    pub walk: u32,
    pub sprint: u32,
    pub idle_alt: u32,
}

/// The party's members by their place, each by its character's name, held in the engine's hash
/// map (`bevy::utils::HashMap`); its contents are named by [`party_contents`].
#[verifier::external_body]
pub struct PartyTable {
    map: bevy::utils::HashMap<usize, String>,
}

/// What a party table holds: place to character name.
pub uninterp spec fn party_contents(table: PartyTable) -> Map<usize, Seq<char>>;

impl PartyTable {
    /// An empty table (`HashMap::default`).
    #[verifier::external_body]
    pub(crate) fn new() -> (r: PartyTable)
        ensures
            party_contents(r).dom() == Set::<usize>::empty(),
    {
        PartyTable { map: bevy::utils::HashMap::default() }
    }

    /// Puts a member at a place, replacing who was there (`HashMap::insert`).
    #[verifier::external_body]
    pub(crate) fn insert(&mut self, place: usize, name: String)
        ensures
            party_contents(*final(self)) == party_contents(*old(self)).insert(place, name@),
    {
        self.map.insert(place, name);
    }

    /// The member at a place, if any (`HashMap::get`, cloned out).
    #[verifier::external_body]
    pub(crate) fn get(&self, place: usize) -> (r: Option<String>)
        ensures
            match r {
                Some(name) => party_contents(*self).contains_key(place) && name@ == party_contents(*self)[place],
                None => !party_contents(*self).contains_key(place),
            },
    {
        self.map.get(&place).cloned()
    }

    /// An empty party.
    pub fn empty() -> (r: PartyTable)
        ensures
            party_contents(r).dom() == Set::<usize>::empty(),
    {
        PartyTable::new()
    }

    /// Puts a member at a place.
    pub fn assign(&mut self, place: usize, name: String)
        ensures
            party_contents(*final(self)) == party_contents(*old(self)).insert(place, name@),
    {
        self.insert(place, name);
    }

    /// The member at a place, if any.
    pub fn member(&self, place: usize) -> (r: Option<String>)
        ensures
            match r {
                Some(name) => party_contents(*self).contains_key(place) && name@ == party_contents(*self)[place],
                None => !party_contents(*self).contains_key(place),
            },
    {
        self.get(place)
    }
}

/// The character party: its members by place (the team leader's statistics stay with the
/// engine).
pub struct CharacterParty {
    pub members: PartyTable,
}

/// What switching the character does in the world.
pub enum SwitchPlan {
    /// No switch is asked for.
    Idle,
    /// No character is stored: the switch is dropped.
    NoCharacter,
    /// The stored character already is the one in the world: the switch is dropped.
    AlreadyActive,
    /// The position of the character in the world is unknown: nothing happens this time.
    Wait,
    /// The stored character is put into the world (where the one it replaces stood, when
    /// `replace`), with the model at `model_path` and these animations.
    Spawn { replace: bool, model_path: String, animations: WorldAnimations },
}

/// The path of a character's model: `entities/characters/`, the model's name in lower case,
/// and `.glb`.
pub fn model_path(model: &str) -> (r: String)
    ensures
        r@ == "entities/characters/"@ + lowercase(model@) + ".glb"@,
{
    let mut path = String::from_str("entities/characters/");
    let lower = to_lowercase(model);
    path.append(lower.as_str());
    path.append(".glb");
    path
}

/// Decides a character switch. With a switch asked for and a stored character: if it is already
/// the character in the world, the switch is dropped; if the world character's position is
/// unknown, nothing happens; otherwise the stored character is spawned (replacing the world
/// character, if there is one) and the switch is done. The stored character must have the
/// animations "idle", "walk", "sprint" and "idle-02". When it is spawned (as `new_entity`), the
/// party's second place takes it and the third a "placeholder", and the member info of the turn
/// starts over with it, nothing prepared or selected; otherwise the party and the member info
/// stay as they are.
pub fn switch_character(
    change_character: &mut ChangeCharacter,
    stored: Option<&JSONCharacter>,
    world_character: Option<&String>,
    world_position_known: bool,
    new_entity: u64,
    party: &mut CharacterParty,
    info: &mut TurnCurrentMemberInfo,
) -> (r: SwitchPlan)
    requires
        old(change_character).0 ==> (stored matches Some(c) ==> {
            ||| (world_character matches Some(w) && w@ == c.name@)
            ||| (world_character is Some && !world_position_known)
            ||| {
                &&& has_animation(*c, "idle"@)
                &&& has_animation(*c, "walk"@)
                &&& has_animation(*c, "sprint"@)
                &&& has_animation(*c, "idle-02"@)
            }
        }),
    ensures
        r is Spawn ==> (stored matches Some(c) && party_contents(final(party).members) == party_contents(
            old(party).members,
        ).insert(1, c.name@).insert(2, "placeholder"@) && *final(info) == (TurnCurrentMemberInfo {
            character: Some(new_entity),
            pre_operation: None,
            selected_operation: None,
        })),
        !(r is Spawn) ==> party_contents(final(party).members) == party_contents(old(party).members)
            && *final(info) == *old(info),
        !old(change_character).0 ==> r is Idle && !final(change_character).0,
        old(change_character).0 ==> match stored {
            None => r is NoCharacter && !final(change_character).0,
            Some(c) => if world_character matches Some(w) && w@ == c.name@ {
                r is AlreadyActive && !final(change_character).0
            } else if world_character is Some && !world_position_known {
                r is Wait && final(change_character).0
            } else {
                &&& !final(change_character).0
                &&& r matches SwitchPlan::Spawn { replace, model_path, animations } && {
                    &&& replace == world_character is Some
                    &&& model_path@ == "entities/characters/"@ + lowercase(c.model@) + ".glb"@
                    &&& animation_index_is(*c, "idle"@, animations.idle)
                    &&& animation_index_is(*c, "walk"@, animations.walk)
                    &&& animation_index_is(*c, "sprint"@, animations.sprint)
                    &&& animation_index_is(*c, "idle-02"@, animations.idle_alt)
                }
            },
        },
{
    if !change_character.0 {
        return SwitchPlan::Idle;
    }
    let c = match stored {
        None => {
            change_character.0 = false;
            return SwitchPlan::NoCharacter;
        },
        Some(c) => c,
    };
    let mut replace = false;
    match world_character {
        Some(w) => {
            if *w == c.name {
                change_character.0 = false;
                return SwitchPlan::AlreadyActive;
            }
            if !world_position_known {
                return SwitchPlan::Wait;
            }
            replace = true;
        },
        None => {},
    }
    let idle = c.get_animation_by_name("idle");
    let walk = c.get_animation_by_name("walk");
    let sprint = c.get_animation_by_name("sprint");
    let idle_alt = c.get_animation_by_name("idle-02");
    match (idle, walk, sprint, idle_alt) {
        (Some(a), Some(b), Some(s), Some(d)) => {
            let animations = WorldAnimations { idle: a.index, walk: b.index, sprint: s.index, idle_alt: d.index };
            let path = model_path(c.model.as_str());
            *info = TurnCurrentMemberInfo { character: Some(new_entity), pre_operation: None, selected_operation: None };
            party.members.insert(1, c.name.clone());
            party.members.insert(2, String::from_str("placeholder"));
            change_character.0 = false;
            SwitchPlan::Spawn { replace, model_path: path, animations }
        },
        _ => {
            proof {
                assert(false);
            }
            change_character.0 = false;
            SwitchPlan::NoCharacter
        },
    }
}

} // verus!
