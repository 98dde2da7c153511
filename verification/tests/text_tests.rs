use mira_logic::text_input::{keycode_to_char, InputType, Key, TextField, TypeOutcome};
use mira_logic::typing::{handle_input_focus, handle_typing, on_click, typing_text_color, HeldKey, TypingFrame, TypingOutcome};
use mira_logic::ui::ColorRole;

fn field(text: &str, cursor: usize) -> TextField {
    let mut f = TextField::new(text, false, 0);
    f.cursor_position = cursor;
    f
}

fn focused(text: &str, cursor: usize) -> TextField {
    let mut f = field(text, cursor);
    f.is_focused = true;
    f
}

fn frame(enter: bool, backspace: bool, keys: Vec<HeldKey>, backspace_repeat_due: bool) -> TypingFrame {
    TypingFrame { enter, backspace, keys, backspace_repeat_due }
}

fn typed(ch: char) -> HeldKey {
    HeldKey { ch, just_pressed: true, repeat_due: false }
}

fn repeated(ch: char) -> HeldKey {
    HeldKey { ch, just_pressed: false, repeat_due: true }
}

#[test]
fn letters_follow_the_german_layout() {
    assert_eq!(keycode_to_char(Key::KeyA, false, false), Some('a'));
    assert_eq!(keycode_to_char(Key::KeyA, true, false), Some('A'));
    assert_eq!(keycode_to_char(Key::KeyY, false, false), Some('z'));
    assert_eq!(keycode_to_char(Key::KeyZ, true, false), Some('Y'));
    assert_eq!(keycode_to_char(Key::KeyQ, false, true), Some('@'));
    assert_eq!(keycode_to_char(Key::Digit7, false, true), Some('{'));
    assert_eq!(keycode_to_char(Key::Digit2, true, false), Some('"'));
    assert_eq!(keycode_to_char(Key::Minus, false, true), Some('\\'));
    assert_eq!(keycode_to_char(Key::Space, true, true), Some(' '));
}

#[test]
fn editing_keys_type_nothing() {
    assert_eq!(keycode_to_char(Key::Enter, false, false), None);
    assert_eq!(keycode_to_char(Key::Backspace, true, false), None);
    assert_eq!(keycode_to_char(Key::Tab, false, true), None);
    assert_eq!(keycode_to_char(Key::Other, false, false), None);
}

#[test]
fn every_typed_character_is_printable_ascii() {
    let keys = [Key::KeyA, Key::KeyE, Key::Digit0, Key::NumpadDecimal, Key::Backslash, Key::IntlBackslash, Key::Space];
    for key in keys {
        for shift in [false, true] {
            for alt in [false, true] {
                let c = keycode_to_char(key, shift, alt).unwrap();
                assert!((' '..='~').contains(&c));
            }
        }
    }
}

#[test]
fn new_field_has_the_default_settings() {
    let f = TextField::new("name", true, 7);
    assert_eq!(f.id, 7);
    assert_eq!(f.text, "");
    assert_eq!(f.placeholder, "name");
    assert!(f.is_enabled && !f.is_focused && !f.is_hovered && !f.is_delete_after_enter);
    assert_eq!(f.cursor_position, 0);
    assert_eq!(f.max_length, 20);
    let g = TextField::with_id(3);
    assert_eq!(g.placeholder, "Text");
    assert_eq!(g.text, "");
    assert_eq!(g.initial_text(), "Text");
    assert_eq!(TextField::new("abc", false, 1).initial_text(), "abc");
}

#[test]
fn typing_inserts_at_the_cursor() {
    let mut f = field("ac", 1);
    assert_eq!(f.type_char('b'), TypeOutcome::Typed);
    assert_eq!(f.text, "abc");
    assert_eq!(f.cursor_position, 2);
}

#[test]
fn typing_stops_at_the_maximum_length() {
    let mut f = field("ab", 2);
    f.max_length = 2;
    assert_eq!(f.type_char('c'), TypeOutcome::MaxLengthReached);
    assert_eq!(f.text, "ab");
    assert_eq!(f.cursor_position, 2);
}

#[test]
fn backspace_undoes_typing() {
    let mut f = field("hllo", 1);
    f.type_char('e');
    assert_eq!(f.text, "hello");
    f.press_backspace();
    assert_eq!(f.text, "hllo");
    assert_eq!(f.cursor_position, 1);
}

#[test]
fn backspace_at_the_start_does_nothing() {
    let mut f = field("abc", 0);
    f.press_backspace();
    assert_eq!(f.text, "abc");
    assert_eq!(f.cursor_position, 0);
}

#[test]
fn repeats_append_at_the_end_and_remove_the_last() {
    let mut f = field("ab", 0);
    f.repeat_char('x');
    assert_eq!(f.text, "abx");
    assert_eq!(f.cursor_position, 1);
    f.repeat_backspace();
    assert_eq!(f.text, "ab");
    assert_eq!(f.cursor_position, 0);
    f.repeat_backspace();
    assert_eq!(f.text, "ab");
}

#[test]
fn enter_releases_the_focus_and_may_clear() {
    let mut f = focused("abc", 3);
    f.is_delete_after_enter = true;
    assert!(f.press_enter());
    assert_eq!(f.text, "");
    assert!(!f.is_focused);
    let mut g = focused("abc", 3);
    assert!(!g.press_enter());
    assert_eq!(g.text, "abc");
}

#[test]
fn arrows_move_the_cursor_inside_the_text() {
    let mut f = field("abc", 0);
    f.update_cursor_position(true, false);
    assert_eq!(f.cursor_position, 0);
    f.update_cursor_position(false, true);
    assert_eq!(f.cursor_position, 1);
    f.cursor_position = 3;
    f.update_cursor_position(false, true);
    assert_eq!(f.cursor_position, 3);
    f.cursor_position = 9;
    f.clamp_cursor();
    assert_eq!(f.cursor_position, 3);
}

#[test]
fn passwords_show_stars() {
    let f = field("secret", 0);
    assert_eq!(f.display_text(InputType::Password), "******");
    assert_eq!(f.display_text(InputType::Text), "secret");
    assert_eq!(InputType::default(), InputType::Text);
}

#[test]
fn placeholder_shows_for_empty_unfocused_fields() {
    assert!(field("", 0).shows_placeholder());
    assert!(!field("a", 0).shows_placeholder());
    assert!(!focused("", 0).shows_placeholder());
}

#[test]
fn unfocused_field_ignores_keys() {
    let mut f = field("ab", 1);
    let out = handle_typing(&mut f, &frame(false, false, vec![typed('x')], false));
    assert_eq!(out, TypingOutcome::NotFocused);
    assert_eq!(f.text, "ab");
}

#[test]
fn frame_with_enter_only_releases_focus() {
    let mut f = focused("ab", 2);
    let out = handle_typing(&mut f, &frame(true, true, vec![typed('x')], false));
    assert_eq!(out, TypingOutcome::Entered { cleared: false });
    assert_eq!(f.text, "ab");
    assert!(!f.is_focused);
}

#[test]
fn frame_with_backspace_only_erases() {
    let mut f = focused("ab", 2);
    let out = handle_typing(&mut f, &frame(false, true, vec![typed('x')], false));
    assert_eq!(out, TypingOutcome::Erased);
    assert_eq!(f.text, "a");
    assert_eq!(f.cursor_position, 1);
}

#[test]
fn frame_types_new_keys_and_repeats_held_ones() {
    let mut f = focused("ab", 1);
    let out = handle_typing(&mut f, &frame(false, false, vec![typed('x'), repeated('y'), HeldKey { ch: 'z', just_pressed: false, repeat_due: false }], false));
    assert_eq!(out, TypingOutcome::Keys { handled: 3, stopped: false });
    assert_eq!(f.text, "axby");
    assert_eq!(f.cursor_position, 3);
}

#[test]
fn frame_stops_at_the_maximum_length() {
    let mut f = focused("ab", 1);
    f.max_length = 2;
    let out = handle_typing(&mut f, &frame(false, false, vec![typed('x'), typed('y'), typed('z')], true));
    assert_eq!(out, TypingOutcome::Keys { handled: 1, stopped: true });
    assert_eq!(f.text, "axb");
    assert_eq!(f.cursor_position, 2);
}

#[test]
fn held_backspace_repeats_after_the_keys() {
    let mut f = focused("abc", 3);
    let out = handle_typing(&mut f, &frame(false, false, vec![], true));
    assert_eq!(out, TypingOutcome::Keys { handled: 0, stopped: false });
    assert_eq!(f.text, "ab");
    assert_eq!(f.cursor_position, 2);
}

#[test]
fn typed_text_takes_the_text_colour() {
    let mut f = focused("ab", 1);
    let keys = vec![typed('x')];
    let out = handle_typing(&mut f, &frame(false, false, keys.clone(), false));
    assert_eq!(typing_text_color(out, &keys, &f), Some(ColorRole::Text));
    let held = vec![repeated('y')];
    let out = handle_typing(&mut f, &frame(false, false, held.clone(), false));
    assert_eq!(typing_text_color(out, &held, &f), None);
}

#[test]
fn key_stopped_at_the_maximum_length_keeps_the_colour() {
    let mut f = focused("ab", 2);
    f.max_length = 2;
    let keys = vec![typed('x')];
    let out = handle_typing(&mut f, &frame(false, false, keys.clone(), false));
    assert_eq!(out, TypingOutcome::Keys { handled: 0, stopped: true });
    assert_eq!(typing_text_color(out, &keys, &f), None);
}

#[test]
fn erasing_the_last_character_shows_the_placeholder_colour() {
    let mut f = focused("a", 1);
    let out = handle_typing(&mut f, &frame(false, true, vec![], false));
    assert_eq!(typing_text_color(out, &vec![], &f), Some(ColorRole::Placeholder));
    let mut g = focused("ab", 2);
    let out = handle_typing(&mut g, &frame(false, true, vec![], false));
    assert_eq!(typing_text_color(out, &vec![], &g), None);
    assert_eq!(typing_text_color(TypingOutcome::NotFocused, &vec![typed('x')], &g), None);
}

fn fields(ids: &[usize], focus: &[bool]) -> Vec<TextField> {
    ids.iter()
        .zip(focus.iter())
        .map(|(id, f)| {
            let mut t = TextField::with_id(*id);
            t.is_focused = *f;
            t
        })
        .collect()
}

fn focus_of(fields: &[TextField]) -> Vec<bool> {
    fields.iter().map(|f| f.is_focused).collect()
}

#[test]
fn tab_moves_focus_in_order_of_ids() {
    let mut f = fields(&[5, 2, 9], &[false, true, false]);
    handle_input_focus(&mut f, true);
    assert_eq!(focus_of(&f), vec![true, false, false]);
    handle_input_focus(&mut f, true);
    assert_eq!(focus_of(&f), vec![false, false, true]);
    handle_input_focus(&mut f, true);
    assert_eq!(focus_of(&f), vec![false, true, false]);
}

#[test]
fn tab_without_focus_focuses_the_first_field() {
    let mut f = fields(&[5, 2, 9], &[false, false, false]);
    handle_input_focus(&mut f, true);
    assert_eq!(focus_of(&f), vec![false, true, false]);
}

#[test]
fn no_tab_no_change() {
    let mut f = fields(&[5, 2], &[true, false]);
    handle_input_focus(&mut f, false);
    assert_eq!(focus_of(&f), vec![true, false]);
    let mut none: Vec<TextField> = Vec::new();
    handle_input_focus(&mut none, true);
    assert!(none.is_empty());
}

#[test]
fn equal_ids_keep_their_order() {
    let mut f = fields(&[3, 3, 3], &[false, true, false]);
    handle_input_focus(&mut f, true);
    assert_eq!(focus_of(&f), vec![false, false, true]);
}

#[test]
fn click_focuses_only_the_target() {
    let mut f = fields(&[1, 2, 3], &[true, false, true]);
    on_click(&mut f, 1);
    assert_eq!(focus_of(&f), vec![false, true, false]);
}
