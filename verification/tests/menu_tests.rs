use mira_logic::menu::{
    detect_button_hit, fade_in_overlay, fade_title_text, setup_account_screen, setup_main_menu, MainMenuState,
    TitleFade,
};
use mira_logic::spawn::{character_model_path, enemy_model_path, enemy_name, spawn_entities};
use mira_logic::text_input::InputType;

#[test]
fn title_fades_in_then_out_then_leaves() {
    let mut fading_out = false;
    assert_eq!(fade_title_text(&mut fading_out, false), TitleFade::Continue);
    assert!(!fading_out);
    assert_eq!(fade_title_text(&mut fading_out, true), TitleFade::FadeOut);
    assert!(fading_out);
    assert_eq!(fade_title_text(&mut fading_out, false), TitleFade::Continue);
    assert_eq!(fade_title_text(&mut fading_out, true), TitleFade::Leave);
}

#[test]
fn overlay_fades_on_the_title_screen_only() {
    assert_eq!(MainMenuState::default(), MainMenuState::TitleScreen);
    assert!(fade_in_overlay(MainMenuState::TitleScreen));
    assert!(!fade_in_overlay(MainMenuState::AccountScreen));
}

#[test]
fn title_screen_leaves_on_keys_or_clicks() {
    assert!(detect_button_hit(false, true, false, false));
    assert!(detect_button_hit(false, false, false, true));
    assert!(!detect_button_hit(false, false, false, false));
}

#[test]
fn account_screen_widgets() {
    let w = setup_account_screen(10);
    assert_eq!(w.username.id, 10);
    assert_eq!(w.username.placeholder, "Username");
    assert_eq!(w.password.id, 11);
    assert_eq!(w.password.placeholder, "Password");
    assert_eq!(w.password_type, InputType::Password);
    assert_eq!(w.remember_me.label, "Remember me");
    assert!(!w.remember_me.checked);
    assert_eq!(w.login.0, "Login");
    assert_eq!(w.test_login.0, "Test Login");
    assert_eq!(w.slider.max, 100);
    let labels: Vec<&str> = w.login_choice.options.iter().map(|o| o.label.as_str()).collect();
    assert_eq!(labels, vec!["Google", "GitHub", "Discord", "Youtube"]);
    assert_eq!(w.login_choice.value.label, "Google");
    assert!(w.login_choice.options[0].selected && !w.login_choice.options[3].selected);
    assert!(w.login_choice.options.iter().all(|o| o.internal_val == "option1"));
    assert_eq!(setup_main_menu().0, "Game Start");
}

#[test]
fn battle_lineup_moves_the_shown_character() {
    let party = vec![String::from("placeholder"), String::from("Ignara")];
    let plan = spawn_entities(&party, "Ignara");
    assert_eq!(plan.members, vec![false, true]);
    assert_eq!(plan.enemy_slots, vec![1, 2, 3, 4]);
}

#[test]
fn spawned_names_and_models() {
    assert_eq!(enemy_name(3), "Enemy-03");
    assert_eq!(enemy_name(12), "Enemy-012");
    assert_eq!(enemy_model_path("test_enemy", "placeholder"), "entities/enemies/test_enemy/placeholder.glb");
    assert_eq!(character_model_path("Lira"), "entities/characters/model/lira.glb");
}
