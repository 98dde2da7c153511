use vstd::prelude::*;

verus! {

/// Sub-states the game can be in while the world is being played.
#[derive(Clone, Copy, Debug, PartialEq, Eq, Structural, Hash)]
pub enum InGameState {
    /// The main in-game state: free exploration.
    Main,
    /// A battle is running.
    Battle,
    /// The battle has ended and the world is being restored.
    BattleEnd,
    /// A dialogue or cut scene is shown.
    Dialogue,
}

/// Screens of the user interface.
#[derive(Clone, Copy, Debug, PartialEq, Eq, Structural, Hash)]
pub enum UiState {
    Loading,
    Main,
    Settings,
    Shop,
    Wish,
}

/// The top level state of the game.
#[derive(Clone, Copy, Debug, PartialEq, Eq, Structural, Hash)]
pub enum GameState {
    PreLoad,
    SplashScreen,
    MainMenu,
    EnvironmentPreLoad,
    EnvironmentLoad,
    EnvironmentPostLoad,
    InGame(InGameState),
    InUi(UiState),
}

impl Default for InGameState {
    /// Free exploration.
    fn default() -> (r: Self)
        ensures
            r == InGameState::Main,
    {
        InGameState::Main
    }
}

impl Default for UiState {
    /// The main screen.
    fn default() -> (r: Self)
        ensures
            r == UiState::Main,
    {
        UiState::Main
    }
}

impl Default for GameState {
    /// The game starts in the preload phase.
    fn default() -> (r: Self)
        ensures
            r == GameState::PreLoad,
    {
        GameState::PreLoad
    }
}

/// Whether a state is one of the in-game states, whatever the sub-state.
pub open spec fn is_in_game(state: GameState) -> bool {
    state is InGame
}

/// Run condition: the game is in one of its `InGame` states.
pub fn in_game_states(game_state: &GameState) -> (r: bool)
    ensures
        r == is_in_game(*game_state),
{
    match game_state {
        GameState::InGame(_) => true,
        _ => false,
    }
}

} // verus!
