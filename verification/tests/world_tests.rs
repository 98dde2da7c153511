use mira_logic::audio::{
    battle_music_plan, environment_music_plan, AudioManager, AudioType, MusicStart, PlaybackSettings, VolumeCategory,
    VolumeSource,
};
use mira_logic::camera::{cursor_lock_condition, toggle_cursor, CursorMode};
use mira_logic::character::{
    model_path, store_fetched_character, switch_character, trigger_switch_character, CharacterKeys, CharacterParty,
    PartyTable, SwitchPlan,
};
use mira_logic::strings::decimal_text;
use mira_logic::turn::{PreparedAbility, TurnCurrentMemberInfo};
use mira_logic::abilities::AbilityType;
use mira_logic::collision::{attack_collision_system, HitCandidate, PairSet};
use mira_logic::config::{DummySaveData, GameConfig, GraphicsConfig, WorldInspectorState};
use mira_logic::data::{CharacterAnimation, ChangeCharacter, JSONCharacter};
use mira_logic::environment::{
    pre_load_area, pre_load_battle, pre_load_environments, process_loaded_area, AreaChoice, BattleEntry,
    EnvironmentChoice, EnvironmentEntry,
};
use mira_logic::player::{
    fetch_keyboard_input, update, update_movement, AnimationCommand, AnimationFrame, Motion, PlayerAction,
    WorldPlayerState,
};
use mira_logic::splash::{
    display_timer, fade_overlay_system, splash_screen_update, FadeDirection, SplashFadePhase, SplashTimerKind,
};
use mira_logic::states::{in_game_states, GameState, InGameState, UiState};

fn character(name: &str, model: &str, keys: &[(&str, u32)]) -> JSONCharacter {
    JSONCharacter {
        name: name.to_string(),
        lastname: String::from("Doe"),
        model: model.to_string(),
        animations: keys.iter().map(|(k, i)| CharacterAnimation { key: k.to_string(), index: *i }).collect(),
        abilities: Vec::new(),
    }
}

fn full_character(name: &str) -> JSONCharacter {
    character(name, "Ignara_Model", &[("walk", 4), ("idle", 1), ("sprint", 5), ("idle-02", 2), ("idle", 9)])
}

#[test]
fn state_defaults_and_in_game_condition() {
    assert_eq!(GameState::default(), GameState::PreLoad);
    assert_eq!(InGameState::default(), InGameState::Main);
    assert_eq!(UiState::default(), UiState::Main);
    assert!(in_game_states(&GameState::InGame(InGameState::Battle)));
    assert!(!in_game_states(&GameState::InUi(UiState::Shop)));
    assert!(!in_game_states(&GameState::MainMenu));
}

#[test]
fn configuration_defaults() {
    let game = GameConfig::default();
    assert_eq!((game.bevy_backend.as_str(), game.lang_text.as_str(), game.lang_voice.as_str()), ("PRIMARY", "en-US", "en-US"));
    let graphics = GraphicsConfig::default();
    assert_eq!(graphics.resolution, "1270x720");
    assert!(!graphics.fullscreen);
    assert!(!WorldInspectorState::default().0);
    assert!(!ChangeCharacter::default().0);
}

#[test]
fn save_data_starts_in_the_tutorial() {
    let save = DummySaveData::new(Ok(full_character("Ignara")));
    assert_eq!(save.current_environment, "tutorial");
    assert_eq!(save.current_area, 3);
    assert_eq!(save.current_char.unwrap().name, "Ignara");
    let empty = DummySaveData::new(Err(String::from("missing file")));
    assert!(empty.current_char.is_none());
}

#[test]
fn animation_lookup_gives_the_first_match() {
    let c = full_character("Ignara");
    assert_eq!(c.get_animation_by_name("idle").unwrap().index, 1);
    assert_eq!(c.get_animation_by_name("sprint").unwrap().index, 5);
    assert!(c.get_animation_by_name("jump").is_none());
}

#[test]
fn splash_runs_through_its_phases() {
    let mut phase = SplashFadePhase::default();
    assert_eq!(phase, SplashFadePhase::FadeInStudio);
    assert_eq!(fade_overlay_system(phase, false), None);
    phase = fade_overlay_system(phase, true).unwrap();
    assert_eq!(phase, SplashFadePhase::StudioDisplay);
    assert_eq!(display_timer(phase), Some(SplashTimerKind::Studio));
    assert_eq!(splash_screen_update(phase, false, false, false).next_phase, None);
    let step = splash_screen_update(phase, true, false, false);
    assert_eq!(step.next_phase, Some(SplashFadePhase::FadeOutStudio));
    assert_eq!(step.restart_fade, Some(FadeDirection::Cover));
    phase = step.next_phase.unwrap();
    phase = fade_overlay_system(phase, true).unwrap();
    assert_eq!(phase, SplashFadePhase::FadeInPowered);
    let step = splash_screen_update(phase, false, false, false);
    assert!(step.show_powered_by);
    assert_eq!(step.restart_fade, Some(FadeDirection::Reveal));
    phase = step.next_phase.unwrap();
    assert_eq!(phase, SplashFadePhase::PoweredDisplay);
    assert_eq!(display_timer(phase), Some(SplashTimerKind::Powered));
    let step = splash_screen_update(phase, false, true, false);
    phase = step.next_phase.unwrap();
    assert_eq!(phase, SplashFadePhase::FadeOutPowered);
    assert_eq!(display_timer(phase), None);
    assert!(!splash_screen_update(phase, false, false, false).finish);
    assert!(splash_screen_update(phase, false, false, true).finish);
    assert_eq!(fade_overlay_system(phase, true), None);
}

#[test]
fn character_keys_ask_for_a_switch() {
    let mut change = ChangeCharacter(false);
    let none = CharacterKeys { first: false, second: false, third: true, fourth: true };
    assert_eq!(trigger_switch_character(none, &mut change), None);
    assert!(!change.0);
    let second = CharacterKeys { first: false, second: true, third: false, fourth: false };
    assert_eq!(trigger_switch_character(second, &mut change), Some(String::from("lira")));
    assert!(change.0);
    let first = CharacterKeys { first: true, second: false, third: false, fourth: false };
    assert_eq!(trigger_switch_character(first, &mut change), Some(String::new()));
    let mut fresh = ChangeCharacter(false);
    let both = CharacterKeys { first: true, second: true, third: false, fourth: false };
    assert_eq!(trigger_switch_character(both, &mut fresh), Some(String::from("ignara")));
}

#[test]
fn fetched_character_replaces_another_one() {
    let mut save = DummySaveData::new(Ok(full_character("Ignara")));
    store_fetched_character(&mut save, "lira", Ok(full_character("Lira")));
    assert_eq!(save.current_char.as_ref().unwrap().name, "Lira");
    store_fetched_character(&mut save, "Lira", Ok(full_character("Other")));
    assert_eq!(save.current_char.as_ref().unwrap().name, "Lira");
    store_fetched_character(&mut save, "x", Err(String::from("unreadable")));
    assert_eq!(save.current_char.as_ref().unwrap().name, "Lira");
}

#[test]
fn model_path_uses_the_lower_case_model() {
    assert_eq!(model_path("Ignara_Model"), "entities/characters/ignara_model.glb");
}

#[test]
fn switch_spawns_the_stored_character() {
    let stored = full_character("Ignara");
    let mut party = CharacterParty { members: PartyTable::empty() };
    party.members.assign(0, String::from("Leader"));
    party.members.assign(1, String::from("Lira"));
    let mut info = TurnCurrentMemberInfo {
        character: Some(5),
        pre_operation: Some(PreparedAbility { index: 0, family: AbilityType::Attack }),
        selected_operation: None,
    };
    let mut change = ChangeCharacter(true);
    let world = String::from("Lira");
    match switch_character(&mut change, Some(&stored), Some(&world), true, 77, &mut party, &mut info) {
        SwitchPlan::Spawn { replace, model_path, animations } => {
            assert!(replace);
            assert_eq!(model_path, "entities/characters/ignara_model.glb");
            assert_eq!((animations.idle, animations.walk, animations.sprint, animations.idle_alt), (1, 4, 5, 2));
        },
        _ => panic!("the character must be spawned"),
    }
    assert!(!change.0);
    assert_eq!(party.members.member(0), Some(String::from("Leader")));
    assert_eq!(party.members.member(1), Some(String::from("Ignara")));
    assert_eq!(party.members.member(2), Some(String::from("placeholder")));
    assert_eq!(info, TurnCurrentMemberInfo { character: Some(77), pre_operation: None, selected_operation: None });
}

#[test]
fn switch_to_the_active_character_is_dropped() {
    let stored = full_character("Ignara");
    let mut party = CharacterParty { members: PartyTable::empty() };
    let mut info = TurnCurrentMemberInfo::default();
    let world = String::from("Ignara");
    let mut change = ChangeCharacter(true);
    assert!(matches!(switch_character(&mut change, Some(&stored), Some(&world), true, 77, &mut party, &mut info), SwitchPlan::AlreadyActive));
    assert!(!change.0);
    let mut waiting = ChangeCharacter(true);
    let other = String::from("Lira");
    assert!(matches!(switch_character(&mut waiting, Some(&stored), Some(&other), false, 77, &mut party, &mut info), SwitchPlan::Wait));
    assert!(waiting.0);
    let mut idle = ChangeCharacter(false);
    assert!(matches!(switch_character(&mut idle, Some(&stored), None, true, 77, &mut party, &mut info), SwitchPlan::Idle));
    let mut nothing = ChangeCharacter(true);
    assert!(matches!(switch_character(&mut nothing, None, None, true, 77, &mut party, &mut info), SwitchPlan::NoCharacter));
    assert!(!nothing.0);
    assert_eq!(party.members.member(1), None);
    assert_eq!(info, TurnCurrentMemberInfo::default());
}

#[test]
fn numbers_are_written_in_decimal() {
    assert_eq!(decimal_text(0), "0");
    assert_eq!(decimal_text(7), "7");
    assert_eq!(decimal_text(1204), "1204");
}

#[test]
fn audio_channels_register_once() {
    let mut manager = AudioManager::new();
    assert!(!manager.muted);
    assert_eq!(
        manager.add_audio("ui_click", AudioType::Ui),
        Some(PlaybackSettings { looped: false, volume: VolumeSource::Category(VolumeCategory::Ui) })
    );
    assert_eq!(manager.add_audio("ui_click", AudioType::Sfx), None);
    assert!(manager.contains_channel("ui_click"));
    assert_eq!(
        manager.play_channel("ui_click"),
        Some(PlaybackSettings { looped: false, volume: VolumeSource::Category(VolumeCategory::Ui) })
    );
    assert!(manager.stop_channel("ui_click", true));
    assert!(!manager.pause_channel("ui_click", false));
    assert!(manager.resume_channel("ui_click"));
    assert!(manager.remove_audio("ui_click"));
    assert!(!manager.remove_audio("ui_click"));
    assert!(!manager.contains_channel("ui_click"));
    assert_eq!(manager.play_channel("ui_click"), None);
}

#[test]
fn audio_kinds_loop_and_take_their_volume() {
    let manager = AudioManager::new();
    assert!(manager.looped_time(AudioType::Battle));
    assert!(!manager.looped_time(AudioType::Character));
    assert_eq!(manager.load_correct_volume(AudioType::Battle), VolumeSource::Category(VolumeCategory::Environment));
    assert_eq!(manager.load_correct_volume(AudioType::Unknown), VolumeSource::Quiet);
    assert_eq!(VolumeCategory::Character.key(), "character");
    assert_eq!(AudioType::default(), AudioType::Unknown);
}

#[test]
fn music_switches_between_world_and_battle() {
    let mut manager = AudioManager::new();
    let world = environment_music_plan(&mut manager);
    assert_eq!(world.channel, "environment_test");
    assert_eq!(world.track, "audio/ambient.ogg");
    assert_eq!(world.silence, None);
    assert_eq!(world.start, MusicStart::Add(PlaybackSettings { looped: true, volume: VolumeSource::Category(VolumeCategory::Environment) }));
    let battle = battle_music_plan(&mut manager);
    assert_eq!(battle.silence, Some("environment_test"));
    assert_eq!(battle.track, "audio/battle.ogg");
    assert!(matches!(battle.start, MusicStart::Add(_)));
    let again = battle_music_plan(&mut manager);
    assert!(matches!(again.start, MusicStart::Play(_)));
    let back = environment_music_plan(&mut manager);
    assert_eq!(back.silence, Some("battle_ch"));
    assert_eq!(back.start, MusicStart::Resume);
}

#[test]
fn area_scenes_are_named_layers_and_battles() {
    let names: Vec<(String, usize)> = process_loaded_area(7);
    let expected: Vec<(String, usize)> = vec![
        (String::from("battle_1"), 3),
        (String::from("battle_2"), 4),
        (String::from("battle_3"), 5),
        (String::from("battle_4"), 6),
        (String::from("layer_0"), 0),
        (String::from("layer_1"), 1),
        (String::from("layer_2"), 2),
    ];
    assert_eq!(names, expected);
    assert_eq!(process_loaded_area(2), vec![(String::from("layer_0"), 0), (String::from("layer_1"), 1)]);
    assert_eq!(process_loaded_area(3).len(), 3);
    assert_eq!(process_loaded_area(4)[0], (String::from("battle_1"), 3));
    assert_eq!(process_loaded_area(15)[10], (String::from("battle_11"), 13));
}

#[test]
fn area_path_joins_environment_and_area() {
    assert_eq!(pre_load_area("tutorial", "forest.glb"), "environments/tutorial/forest.glb");
}

#[test]
fn battle_starts_only_with_battle_scenes() {
    assert_eq!(pre_load_battle(5, true, false), Some(BattleEntry { player_is_sender: true }));
    assert_eq!(pre_load_battle(4, false, true), Some(BattleEntry { player_is_sender: false }));
    assert_eq!(pre_load_battle(3, true, false), None);
}

#[test]
fn saved_environment_and_area_are_found() {
    let entries = vec![
        EnvironmentEntry { key: String::from("desert"), area_indices: vec![3] },
        EnvironmentEntry { key: String::from("tutorial"), area_indices: vec![1, 3, 2, 3] },
    ];
    assert_eq!(
        pre_load_environments(&entries, "tutorial", 3),
        EnvironmentChoice::Load(Some(AreaChoice { environment: 1, area: 3 }))
    );
    assert_eq!(pre_load_environments(&entries, "tutorial", 9), EnvironmentChoice::Load(None));
    assert_eq!(pre_load_environments(&entries, "city", 3), EnvironmentChoice::Load(None));
    assert_eq!(pre_load_environments(&vec![], "tutorial", 3), EnvironmentChoice::NoEnvironments);
}

#[test]
fn actions_set_the_movement_state() {
    let mut state = WorldPlayerState::default();
    assert_eq!(update_movement(&mut state, false, PlayerAction::Move { moving: true }), Motion::Walk);
    assert_eq!(state, WorldPlayerState::Walking);
    assert_eq!(update_movement(&mut state, false, PlayerAction::Sprinting { moving: true }), Motion::Sprint);
    assert_eq!(state, WorldPlayerState::Sprinting);
    assert_eq!(update_movement(&mut state, false, PlayerAction::Move { moving: false }), Motion::Keep);
    assert_eq!(state, WorldPlayerState::Sprinting);
    assert_eq!(update_movement(&mut state, true, PlayerAction::Attacking), Motion::Keep);
    assert_eq!(state, WorldPlayerState::Sprinting);
    assert_eq!(update_movement(&mut state, false, PlayerAction::Attacking), Motion::Stop);
    assert_eq!(state, WorldPlayerState::Idle);
}

#[test]
fn keyboard_gives_move_and_sprint() {
    let a = fetch_keyboard_input(true, true, true);
    assert_eq!(a.movement, PlayerAction::Move { moving: true });
    assert_eq!(a.sprint, Some(PlayerAction::Sprinting { moving: true }));
    let b = fetch_keyboard_input(true, false, false);
    assert_eq!(b.movement, PlayerAction::Idle);
    assert_eq!(b.sprint, None);
}

fn animation(state: WorldPlayerState, finished: bool, idle: bool, walking_node: bool, walk: bool, sprint: bool) -> AnimationFrame {
    AnimationFrame {
        state,
        idle_timer_finished: finished,
        playing_idle: idle,
        walking_node_unfinished: walking_node,
        playing_walk: walk,
        playing_sprint: sprint,
    }
}

#[test]
fn animations_follow_the_state() {
    assert_eq!(
        update(&animation(WorldPlayerState::Idle, true, true, false, false, false)),
        AnimationCommand::Play { slot: 1, blend_ms: 425, repeat: false, reset_timer: true }
    );
    assert_eq!(update(&animation(WorldPlayerState::Idle, false, true, false, false, false)), AnimationCommand::Keep);
    assert_eq!(update(&animation(WorldPlayerState::Idle, false, false, true, false, false)), AnimationCommand::Stop);
    assert_eq!(
        update(&animation(WorldPlayerState::Idle, false, false, false, false, false)),
        AnimationCommand::Play { slot: 0, blend_ms: 425, repeat: true, reset_timer: false }
    );
    assert_eq!(
        update(&animation(WorldPlayerState::Walking, false, false, false, false, false)),
        AnimationCommand::Play { slot: 2, blend_ms: 450, repeat: true, reset_timer: true }
    );
    assert_eq!(update(&animation(WorldPlayerState::Sprinting, false, false, false, false, true)), AnimationCommand::ResetTimer);
}

#[test]
fn cursor_lock_toggles() {
    let mut lock = false;
    assert_eq!(toggle_cursor(&mut lock, true, false), CursorMode::Locked);
    assert!(lock);
    assert_eq!(toggle_cursor(&mut lock, false, true), CursorMode::ShownAsIs);
    assert_eq!(toggle_cursor(&mut lock, true, false), CursorMode::Free);
    assert!(cursor_lock_condition(None));
    assert!(!cursor_lock_condition(Some(false)));
}

#[test]
fn hits_are_reported_once_per_pair() {
    let mut processed = PairSet::empty();
    let candidates = vec![
        HitCandidate { attacker: 1, entity: 2, intersecting: true },
        HitCandidate { attacker: 1, entity: 1, intersecting: true },
        HitCandidate { attacker: 1, entity: 3, intersecting: false },
        HitCandidate { attacker: 1, entity: 2, intersecting: true },
        HitCandidate { attacker: 4, entity: 2, intersecting: true },
    ];
    assert_eq!(attack_collision_system(&mut processed, &candidates), vec![(1, 2), (4, 2)]);
    assert_eq!(attack_collision_system(&mut processed, &candidates), vec![(1, 2), (4, 2)]);
}
