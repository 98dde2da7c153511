//! Settings of the game and the save data it starts from.
use vstd::prelude::*;
use crate::data::JSONCharacter;

verus! {

/// General settings: the rendering backend and the languages of text and voice.
pub struct GameConfig {
    pub bevy_backend: String,
    pub lang_text: String,
    pub lang_voice: String,
}

impl Default for GameConfig {
    /// The primary backend, English (United States) text and voice.
    fn default() -> (r: Self)
        ensures
            r.bevy_backend@ == "PRIMARY"@,
            r.lang_text@ == "en-US"@,
            r.lang_voice@ == "en-US"@,
    {
        GameConfig {
            bevy_backend: String::from_str("PRIMARY"),
            lang_text: String::from_str("en-US"),
            lang_voice: String::from_str("en-US"),
        }
    }
}

/// Graphics settings: the resolution and whether the game runs full screen.
pub struct GraphicsConfig {
    pub resolution: String,
    pub fullscreen: bool,
}

impl Default for GraphicsConfig {
    /// 1270x720, in a window.
    fn default() -> (r: Self)
        ensures
            r.resolution@ == "1270x720"@,
            !r.fullscreen,
    {
        GraphicsConfig { resolution: String::from_str("1270x720"), fullscreen: false }
    }
}

/// Whether the world inspector is shown.
pub struct WorldInspectorState(pub bool);

impl Default for WorldInspectorState {
    /// Hidden.
    fn default() -> (r: Self)
        ensures
            !r.0,
    {
        WorldInspectorState(false)
    }
}

/// The save data the game starts from.
pub struct DummySaveData {
    pub current_environment: String,
    pub current_area: usize,
    pub current_char: Option<JSONCharacter>,
}

impl DummySaveData {
    /// The start of the tutorial (environment "tutorial", area 3), with the character that was
    /// read for it, or none when reading it failed.
    pub fn new(fetched: Result<JSONCharacter, String>) -> (r: DummySaveData)
        ensures
            r.current_environment@ == "tutorial"@,
            r.current_area == 3,
            match fetched {
                Ok(c) => r.current_char == Some(c),
                Err(_) => r.current_char is None,
            },
    {
        let current_char = match fetched {
            Ok(c) => Some(c),
            Err(_) => None,
        };
        DummySaveData { current_environment: String::from_str("tutorial"), current_area: 3, current_char }
    }
}

} // verus!
