use mira_logic::text_input::{InputType, TextField};
use mira_logic::ui::{
    check_selected_status, mark_color, on_click_checkbox, on_click_main_root, on_click_option, on_enter_option,
    on_hover_enter_button, on_hover_enter_field, on_hover_leave_button, on_hover_leave_field, on_leave_option,
    option_colors, update_cursor_visibility, ButtonImageOrientation, CheckBox, ChoiceBox, ChoiceOption, ColorRole,
    CursorShown, CursorVisibility, OptionColors, Slider, UiButton, UiElementState,
};

#[test]
fn checkbox_click_flips_and_selects() {
    let mut checkbox = CheckBox::default();
    assert!(!checkbox.checked);
    assert_eq!(checkbox.label, "Checkbox");
    let mut state = UiElementState::default();
    assert_eq!(on_click_checkbox(&mut checkbox, &mut state), ColorRole::Checked);
    assert!(checkbox.checked);
    assert!(state.selected);
    assert_eq!(on_click_checkbox(&mut checkbox, &mut state), ColorRole::Transparent);
    assert!(!checkbox.checked);
    assert_eq!(mark_color(&checkbox), ColorRole::Transparent);
}

#[test]
fn choice_option_value_is_lower_case_and_trimmed() {
    let option = ChoiceOption::new("  Hard Mode ", true);
    assert_eq!(option.label, "  Hard Mode ");
    assert_eq!(option.internal_val, "hard mode");
    assert!(option.disabled);
    assert!(!option.selected);
}

#[test]
fn choice_box_default_has_two_options() {
    let choice = ChoiceBox::default();
    assert_eq!(choice.value.label, "Option 1");
    assert!(choice.value.selected);
    assert_eq!(choice.options.len(), 2);
    assert_eq!(choice.options[0].internal_val, "option1");
    assert!(choice.options[0].selected);
    assert_eq!(choice.options[1].label, "Option 2");
    assert_eq!(choice.options[1].internal_val, "option 2");
    assert!(!choice.options[1].selected);
}

#[test]
fn clicking_an_option_selects_exactly_it() {
    let mut choice = ChoiceBox::default();
    on_click_option(&mut choice, 1);
    assert_eq!(choice.options.iter().map(|o| o.selected).collect::<Vec<_>>(), vec![false, true]);
    assert_eq!(choice.value.label, "Option 2");
    assert_eq!(choice.value.internal_val, "option 2");
    assert!(!choice.value.selected);
    assert_eq!(choice.options[0].label, "Option 1");
    on_click_option(&mut choice, 1);
    assert!(choice.value.selected);
}

#[test]
fn option_colours_follow_selection() {
    let mut option = ChoiceOption::default();
    let plain = OptionColors { background: ColorRole::Normal, text: ColorRole::Text };
    let focused = OptionColors { background: ColorRole::Focus, text: ColorRole::TextOnFocus };
    assert_eq!(option_colors(&option), plain);
    assert_eq!(on_enter_option(&option), OptionColors { background: ColorRole::Hover, text: ColorRole::TextOnFocus });
    assert_eq!(on_leave_option(&option), plain);
    option.selected = true;
    assert_eq!(option_colors(&option), focused);
    assert_eq!(on_enter_option(&option), focused);
    assert_eq!(on_leave_option(&option), focused);
}

#[test]
fn options_are_drawn_by_selection() {
    let choice = ChoiceBox::default();
    assert_eq!(option_colors(&choice.options[0]), OptionColors { background: ColorRole::Focus, text: ColorRole::TextOnFocus });
    assert_eq!(option_colors(&choice.options[1]), OptionColors { background: ColorRole::Normal, text: ColorRole::Text });
}

#[test]
fn choice_list_toggles() {
    assert!(on_click_main_root(false));
    assert!(!on_click_main_root(true));
}

#[test]
fn slider_and_button_defaults() {
    let slider = Slider::default();
    assert_eq!((slider.value, slider.step, slider.min, slider.max), (0, 1, 0, 100));
    assert_eq!(UiButton::default().0, "Button");
    assert_eq!(ButtonImageOrientation::default(), ButtonImageOrientation::Right);
}

#[test]
fn button_border_follows_state() {
    let mut state = UiElementState::default();
    assert_eq!(on_hover_enter_button(&mut state), Some(ColorRole::Hover));
    assert!(state.hovered);
    assert_eq!(on_hover_leave_button(&mut state), Some(ColorRole::Normal));
    assert!(!state.hovered);
    state.selected = true;
    assert_eq!(on_hover_enter_button(&mut state), None);
    assert_eq!(check_selected_status(&state), ColorRole::Focus);
    state.selected = false;
    assert_eq!(check_selected_status(&state), ColorRole::Normal);
}

#[test]
fn field_border_under_the_pointer() {
    let mut field = TextField::with_id(1);
    assert_eq!(on_hover_enter_field(&mut field), Some(ColorRole::Hover));
    assert!(field.is_hovered);
    field.is_focused = true;
    assert_eq!(on_hover_leave_field(&mut field), None);
    assert!(!field.is_hovered);
}

#[test]
fn cursor_shows_with_focus_and_hides_without() {
    let mut field = TextField::new("pin", false, 1);
    field.is_focused = true;
    match update_cursor_visibility(&field, InputType::Password, CursorShown::Hidden) {
        CursorVisibility::Show { shown_text } => assert_eq!(shown_text, "***"),
        _ => panic!("the cursor must show"),
    }
    assert!(matches!(update_cursor_visibility(&field, InputType::Text, CursorShown::Visible), CursorVisibility::Keep));
    let empty = TextField::with_id(2);
    assert!(matches!(
        update_cursor_visibility(&empty, InputType::Text, CursorShown::Visible),
        CursorVisibility::Hide { placeholder: true }
    ));
    assert!(matches!(update_cursor_visibility(&empty, InputType::Text, CursorShown::Hidden), CursorVisibility::Keep));
}
