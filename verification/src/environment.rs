//! Environments and their areas: which area is loaded, how the scenes of a loaded area are
//! named, and when touching an enemy starts a battle.
use vstd::prelude::*;
use crate::strings::{decimal, decimal_text};

verus! {

/// What is happening in an environment.
#[derive(Clone, Copy, Debug, PartialEq, Eq, Structural)]
pub enum EnvironmentState {
    Exploring,
    Battle,
    Boss,
}

/// The names the scenes of a loaded area are stored under, with the scene's position in the
/// area's file, when the file holds `found_scenes` scenes.
pub open spec fn area_scene_names(found_scenes: nat) -> Seq<(Seq<char>, usize)> {
    let battles = if found_scenes > 3 { (found_scenes - 3) as nat } else { 0 };
    let battle_scenes = Seq::new(battles, |i: int| ("battle_"@ + decimal((i + 1) as nat), (i + 3) as usize));
    let layers = Seq::new(
        if found_scenes < 3 { found_scenes } else { 3 },
        |i: int| (if i == 0 { "layer_0"@ } else if i == 1 { "layer_1"@ } else { "layer_2"@ }, i as usize),
    );
    battle_scenes + layers
}

/// The scenes of a loaded area, by name: the first three are the area's layers (`layer_0`,
/// `layer_1`, `layer_2`), as far as the file has them; every further scene is a battle scene
/// (`battle_1` for the fourth, `battle_2` for the fifth, ...). A file without scenes is refused
/// (the area needs at least one).
pub fn process_loaded_area(found_scenes: usize) -> (r: Vec<(String, usize)>)
    requires
        found_scenes >= 1,
    ensures
        r@.len() == area_scene_names(found_scenes as nat).len(),
        forall|i: int| 0 <= i < r@.len() ==> (#[trigger] r@[i]).0@ == area_scene_names(found_scenes as nat)[i].0
            && r@[i].1 == area_scene_names(found_scenes as nat)[i].1,
{
    let ghost names = area_scene_names(found_scenes as nat);
    let mut scenes: Vec<(String, usize)> = Vec::new();
    let mut index: usize = 3;
    let mut count: usize = 1;
    if found_scenes > 3 {
        while index < found_scenes
            invariant
                3 <= index <= found_scenes,
                found_scenes > 3,
                count == index - 2,
                names == area_scene_names(found_scenes as nat),
                scenes@.len() == index - 3,
                forall|i: int| 0 <= i < scenes@.len() ==> (#[trigger] scenes@[i]).0@ == names[i].0
                    && scenes@[i].1 == names[i].1,
            decreases found_scenes - index,
        {
            let mut key = String::from_str("battle_");
            let digits = decimal_text(count);
            key.append(digits.as_str());
            scenes.push((key, index));
            index = index + 1;
            count = count + 1;
        }
    }
    let ghost battles: int = scenes@.len() as int;
    proof {
        reveal_strlit("layer_0");
        reveal_strlit("layer_1");
        reveal_strlit("layer_2");
    }
    scenes.push((String::from_str("layer_0"), 0));
    if found_scenes > 1 {
        scenes.push((String::from_str("layer_1"), 1));
    }
    if found_scenes > 2 {
        scenes.push((String::from_str("layer_2"), 2));
    }
    proof {
        assert(battles == (if found_scenes > 3 { found_scenes - 3 } else { 0 }));
        assert forall|i: int| 0 <= i < scenes@.len() implies (#[trigger] scenes@[i]).0@ == names[i].0
            && scenes@[i].1 == names[i].1 by {
            if i >= battles {
                assert(names[i] == (if i - battles == 0 { "layer_0"@ } else if i - battles == 1 { "layer_1"@ } else { "layer_2"@ }, (i - battles) as usize));
            }
        }
    }
    scenes
}

/// The path of an area's scene file: `environments/`, the environment's name, `/`, the area's
/// name.
pub fn pre_load_area(environment_name: &str, area_name: &str) -> (r: String)
    ensures
        r@ == "environments/"@ + environment_name@ + "/"@ + area_name@,
{
    let mut path = String::from_str("environments/");
    path.append(environment_name);
    path.append("/");
    path.append(area_name);
    path
}

/// Who enters a battle when the player and an enemy touch.
#[derive(Clone, Copy, Debug, PartialEq, Eq, Structural)]
pub struct BattleEntry {
    /// The sender of the touch is the player (else the touched entity is): the player enters the
    /// battle from where it stands, and the other is removed after the battle.
    pub player_is_sender: bool,
}

/// A touch between the player and an enemy starts a battle when the area has battle scenes
/// (more than three scenes); otherwise nothing happens. One of the two must be the player.
pub fn pre_load_battle(scene_count: usize, sender_is_player: bool, entity_is_player: bool) -> (r: Option<BattleEntry>)
    requires
        scene_count > 3 ==> sender_is_player || entity_is_player,
    ensures
        r == (if scene_count > 3 {
            Some(BattleEntry { player_is_sender: sender_is_player })
        } else {
            None::<BattleEntry>
        }),
{
    if scene_count > 3 {
        Some(BattleEntry { player_is_sender: sender_is_player })
    } else {
        None
    }
}

/// An environment as its list is walked: its key and the index of each of its areas, in the
/// order the areas are walked. The engine keeps the environments in a hash map whose values hold
/// further maps (areas, battle scenes, music); the choice below reads only the keys and the
/// area indices, and their order is the map's walk order, which is not fixed. So the caller
/// walks the maps and hands the entries over, and the choice is stated for every walk order.
pub struct EnvironmentEntry {
    pub key: String,
    pub area_indices: Vec<usize>,
}

/// The environment (by its position in the walked list) and its area (by its position in the
/// environment's areas) to load.
#[derive(Clone, Copy, Debug, PartialEq, Eq, Structural)]
pub struct AreaChoice {
    pub environment: usize,
    pub area: usize,
}

/// Where the saved position was found in the walked list of environments.
#[derive(Clone, Copy, Debug, PartialEq, Eq, Structural)]
pub enum EnvironmentChoice {
    /// There are no environments: nothing is loaded and the loading does not go on.
    NoEnvironments,
    /// The loading goes on; what to load, when the saved environment and area were found.
    Load(Option<AreaChoice>),
}

/// Chooses what to load from the walked environments: the last environment whose key is the
/// saved environment, and in it the last area, in the walked order, whose index is the saved
/// area. Without a match nothing is chosen, but the loading goes on.
pub fn pre_load_environments(entries: &Vec<EnvironmentEntry>, current_environment: &str, current_area: usize) -> (r: EnvironmentChoice)
    ensures
        entries@.len() == 0 <==> r == EnvironmentChoice::NoEnvironments,
        r matches EnvironmentChoice::Load(Some(AreaChoice { environment: e, area: a })) ==> {
            &&& e < entries@.len()
            &&& entries@[e as int].key@ == current_environment@
            &&& forall|j: int| e < j < entries@.len() ==> (#[trigger] entries@[j]).key@ != current_environment@
            &&& a < entries@[e as int].area_indices@.len()
            &&& entries@[e as int].area_indices@[a as int] == current_area
            &&& forall|j: int| a < j < entries@[e as int].area_indices@.len() ==> #[trigger] entries@[e as int].area_indices@[j] != current_area
        },
        r matches EnvironmentChoice::Load(None) ==> forall|e: int|
            0 <= e < entries@.len() && (#[trigger] entries@[e]).key@ == current_environment@ && (forall|j: int|
                e < j < entries@.len() ==> (#[trigger] entries@[j]).key@ != current_environment@) ==> forall|j: int|
                0 <= j < entries@[e].area_indices@.len() ==> #[trigger] entries@[e].area_indices@[j] != current_area,
{
    if entries.len() == 0 {
        return EnvironmentChoice::NoEnvironments;
    }
    let key = String::from_str(current_environment);
    let mut found: Option<usize> = None;
    let mut i: usize = 0;
    while i < entries.len()
        invariant
            0 <= i <= entries@.len(),
            key@ == current_environment@,
            match found {
                Some(e) => e < i && entries@[e as int].key@ == current_environment@ && forall|j: int|
                    e < j < i ==> (#[trigger] entries@[j]).key@ != current_environment@,
                None => forall|j: int| 0 <= j < i ==> (#[trigger] entries@[j]).key@ != current_environment@,
            },
        decreases entries@.len() - i,
    {
        if entries[i].key == key {
            found = Some(i);
        }
        i = i + 1;
    }
    match found {
        None => {
            assert forall|e: int| 0 <= e < entries@.len() implies (#[trigger] entries@[e]).key@ != current_environment@ by {
                assert(0 <= e < i);
            }
            EnvironmentChoice::Load(None)
        },
        Some(e) => {
            let areas = &entries[e].area_indices;
            let mut area: Option<usize> = None;
            let mut k: usize = 0;
            while k < areas.len()
                invariant
                    0 <= k <= areas@.len(),
                    match area {
                        Some(a) => a < k && areas@[a as int] == current_area && forall|j: int|
                            a < j < k ==> #[trigger] areas@[j] != current_area,
                        None => forall|j: int| 0 <= j < k ==> #[trigger] areas@[j] != current_area,
                    },
                decreases areas@.len() - k,
            {
                if areas[k] == current_area {
                    area = Some(k);
                }
                k = k + 1;
            }
            match area {
                Some(a) => EnvironmentChoice::Load(Some(AreaChoice { environment: e, area: a })),
                None => EnvironmentChoice::Load(None),
            }
        },
    }
}

} // verus!
