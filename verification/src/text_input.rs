//! Text fields: the keys they read, the characters those keys type, and how typing edits a field.
use vstd::prelude::*;
use vstd::utf8::is_ascii_chars;

verus! {

/// The keys of the keyboard that the text fields read; every other key is `Other`.
#[derive(Clone, Copy, Debug, PartialEq, Eq, Structural, Hash)]
pub enum Key {
    KeyA,
    KeyB,
    KeyC,
    KeyD,
    KeyE,
    KeyF,
    KeyG,
    KeyH,
    KeyI,
    KeyJ,
    KeyK,
    KeyL,
    KeyM,
    KeyN,
    KeyO,
    KeyP,
    KeyQ,
    KeyR,
    KeyS,
    KeyT,
    KeyU,
    KeyV,
    KeyW,
    KeyX,
    KeyY,
    KeyZ,
    Digit0,
    Digit1,
    Digit2,
    Digit3,
    Digit4,
    Digit5,
    Digit6,
    Digit7,
    Digit8,
    Digit9,
    NumpadMultiply,
    NumpadAdd,
    NumpadSubtract,
    NumpadDivide,
    NumpadDecimal,
    Numpad0,
    Numpad1,
    Numpad2,
    Numpad3,
    Numpad4,
    Numpad5,
    Numpad6,
    Numpad7,
    Numpad8,
    Numpad9,
    Comma,
    Period,
    Slash,
    IntlBackslash,
    Backquote,
    Minus,
    BracketRight,
    Backslash,
    Space,
    Enter,
    Backspace,
    Tab,
    ArrowLeft,
    ArrowRight,
    ShiftLeft,
    ShiftRight,
    AltLeft,
    AltRight,
    Escape,
    Other,
}

/// The character a key types, by the German keyboard layout the game uses, with Shift or
/// AltGr held; `None` for keys that type nothing.
pub open spec fn key_char(key: Key, shift: bool, alt: bool) -> Option<char> {
    match key {
        Key::KeyA => Some(if shift { 'A' } else { 'a' }),
        Key::KeyB => Some(if shift { 'B' } else { 'b' }),
        Key::KeyC => Some(if shift { 'C' } else { 'c' }),
        Key::KeyD => Some(if shift { 'D' } else { 'd' }),
        Key::KeyE => Some(if shift { 'E' } else if alt { 'E' } else { 'e' }),
        Key::KeyF => Some(if shift { 'F' } else { 'f' }),
        Key::KeyG => Some(if shift { 'G' } else { 'g' }),
        Key::KeyH => Some(if shift { 'H' } else { 'h' }),
        Key::KeyI => Some(if shift { 'I' } else { 'i' }),
        Key::KeyJ => Some(if shift { 'J' } else { 'j' }),
        Key::KeyK => Some(if shift { 'K' } else { 'k' }),
        Key::KeyL => Some(if shift { 'L' } else { 'l' }),
        Key::KeyM => Some(if shift { 'M' } else { 'm' }),
        Key::KeyN => Some(if shift { 'N' } else { 'n' }),
        Key::KeyO => Some(if shift { 'O' } else { 'o' }),
        Key::KeyP => Some(if shift { 'P' } else { 'p' }),
        Key::KeyQ => Some(if shift { 'Q' } else if alt { '@' } else { 'q' }),
        Key::KeyR => Some(if shift { 'R' } else { 'r' }),
        Key::KeyS => Some(if shift { 'S' } else { 's' }),
        Key::KeyT => Some(if shift { 'T' } else { 't' }),
        Key::KeyU => Some(if shift { 'U' } else { 'u' }),
        Key::KeyV => Some(if shift { 'V' } else { 'v' }),
        Key::KeyW => Some(if shift { 'W' } else { 'w' }),
        Key::KeyX => Some(if shift { 'X' } else { 'x' }),
        Key::KeyY => Some(if shift { 'Z' } else { 'z' }),
        Key::KeyZ => Some(if shift { 'Y' } else { 'y' }),
        Key::Digit0 => Some(if shift { '=' } else if alt { '}' } else { '0' }),
        Key::Digit1 => Some(if shift { '!' } else if alt { '1' } else { '1' }),
        Key::Digit2 => Some(if shift { '"' } else if alt { '2' } else { '2' }),
        Key::Digit3 => Some(if shift { '3' } else if alt { '3' } else { '3' }),
        Key::Digit4 => Some(if shift { '$' } else if alt { '4' } else { '4' }),
        Key::Digit5 => Some(if shift { '%' } else if alt { '5' } else { '5' }),
        Key::Digit6 => Some(if shift { '&' } else if alt { '6' } else { '6' }),
        Key::Digit7 => Some(if shift { '/' } else if alt { '{' } else { '7' }),
        Key::Digit8 => Some(if shift { '(' } else if alt { '[' } else { '8' }),
        Key::Digit9 => Some(if shift { ')' } else if alt { ']' } else { '9' }),
        Key::NumpadMultiply => Some('*'),
        Key::NumpadAdd => Some('+'),
        Key::NumpadSubtract => Some('-'),
        Key::NumpadDivide => Some('/'),
        Key::NumpadDecimal => Some(','),
        Key::Numpad0 => Some('0'),
        Key::Numpad1 => Some('1'),
        Key::Numpad2 => Some('2'),
        Key::Numpad3 => Some('3'),
        Key::Numpad4 => Some('4'),
        Key::Numpad5 => Some('5'),
        Key::Numpad6 => Some('6'),
        Key::Numpad7 => Some('7'),
        Key::Numpad8 => Some('8'),
        Key::Numpad9 => Some('9'),
        Key::Comma => Some(if shift { ';' } else { ',' }),
        Key::Period => Some(if shift { ':' } else { '.' }),
        Key::Slash => Some(if shift { '_' } else { '-' }),
        Key::IntlBackslash => Some(if shift { '>' } else if alt { '|' } else { '<' }),
        Key::Backquote => Some(if shift { '?' } else { '^' }),
        Key::Minus => Some(if shift { '?' } else if alt { '\\' } else { '?' }),
        Key::BracketRight => Some(if shift { '*' } else if alt { '~' } else { '+' }),
        Key::Backslash => Some(if shift { '\'' } else { '#' }),
        Key::Space => Some(' '),
        _ => None,
    }
}

/// The character typed by a key (see [`key_char`]).
pub fn keycode_to_char(key: Key, shift: bool, alt: bool) -> (r: Option<char>)
    ensures
        r == key_char(key, shift, alt),
{
    match key {
        Key::KeyA => Some(if shift { 'A' } else { 'a' }),
        Key::KeyB => Some(if shift { 'B' } else { 'b' }),
        Key::KeyC => Some(if shift { 'C' } else { 'c' }),
        Key::KeyD => Some(if shift { 'D' } else { 'd' }),
        Key::KeyE => Some(if shift { 'E' } else if alt { 'E' } else { 'e' }),
        Key::KeyF => Some(if shift { 'F' } else { 'f' }),
        Key::KeyG => Some(if shift { 'G' } else { 'g' }),
        Key::KeyH => Some(if shift { 'H' } else { 'h' }),
        Key::KeyI => Some(if shift { 'I' } else { 'i' }),
        Key::KeyJ => Some(if shift { 'J' } else { 'j' }),
        Key::KeyK => Some(if shift { 'K' } else { 'k' }),
        Key::KeyL => Some(if shift { 'L' } else { 'l' }),
        Key::KeyM => Some(if shift { 'M' } else { 'm' }),
        Key::KeyN => Some(if shift { 'N' } else { 'n' }),
        Key::KeyO => Some(if shift { 'O' } else { 'o' }),
        Key::KeyP => Some(if shift { 'P' } else { 'p' }),
        Key::KeyQ => Some(if shift { 'Q' } else if alt { '@' } else { 'q' }),
        Key::KeyR => Some(if shift { 'R' } else { 'r' }),
        Key::KeyS => Some(if shift { 'S' } else { 's' }),
        Key::KeyT => Some(if shift { 'T' } else { 't' }),
        Key::KeyU => Some(if shift { 'U' } else { 'u' }),
        Key::KeyV => Some(if shift { 'V' } else { 'v' }),
        Key::KeyW => Some(if shift { 'W' } else { 'w' }),
        Key::KeyX => Some(if shift { 'X' } else { 'x' }),
        Key::KeyY => Some(if shift { 'Z' } else { 'z' }),
        Key::KeyZ => Some(if shift { 'Y' } else { 'y' }),
        Key::Digit0 => Some(if shift { '=' } else if alt { '}' } else { '0' }),
        Key::Digit1 => Some(if shift { '!' } else if alt { '1' } else { '1' }),
        Key::Digit2 => Some(if shift { '"' } else if alt { '2' } else { '2' }),
        Key::Digit3 => Some(if shift { '3' } else if alt { '3' } else { '3' }),
        Key::Digit4 => Some(if shift { '$' } else if alt { '4' } else { '4' }),
        Key::Digit5 => Some(if shift { '%' } else if alt { '5' } else { '5' }),
        Key::Digit6 => Some(if shift { '&' } else if alt { '6' } else { '6' }),
        Key::Digit7 => Some(if shift { '/' } else if alt { '{' } else { '7' }),
        Key::Digit8 => Some(if shift { '(' } else if alt { '[' } else { '8' }),
        Key::Digit9 => Some(if shift { ')' } else if alt { ']' } else { '9' }),
        Key::NumpadMultiply => Some('*'),
        Key::NumpadAdd => Some('+'),
        Key::NumpadSubtract => Some('-'),
        Key::NumpadDivide => Some('/'),
        Key::NumpadDecimal => Some(','),
        Key::Numpad0 => Some('0'),
        Key::Numpad1 => Some('1'),
        Key::Numpad2 => Some('2'),
        Key::Numpad3 => Some('3'),
        Key::Numpad4 => Some('4'),
        Key::Numpad5 => Some('5'),
        Key::Numpad6 => Some('6'),
        Key::Numpad7 => Some('7'),
        Key::Numpad8 => Some('8'),
        Key::Numpad9 => Some('9'),
        Key::Comma => Some(if shift { ';' } else { ',' }),
        Key::Period => Some(if shift { ':' } else { '.' }),
        Key::Slash => Some(if shift { '_' } else { '-' }),
        Key::IntlBackslash => Some(if shift { '>' } else if alt { '|' } else { '<' }),
        Key::Backquote => Some(if shift { '?' } else { '^' }),
        Key::Minus => Some(if shift { '?' } else if alt { '\\' } else { '?' }),
        Key::BracketRight => Some(if shift { '*' } else if alt { '~' } else { '+' }),
        Key::Backslash => Some(if shift { '\'' } else { '#' }),
        Key::Space => Some(' '),
        _ => None,
    }
}

/// Whether a key is one of the letter keys A to Z.
pub open spec fn is_letter_key(key: Key) -> bool {
    match key {
        Key::KeyA | Key::KeyB | Key::KeyC | Key::KeyD | Key::KeyE | Key::KeyF | Key::KeyG | Key::KeyH
        | Key::KeyI | Key::KeyJ | Key::KeyK | Key::KeyL | Key::KeyM | Key::KeyN | Key::KeyO | Key::KeyP
        | Key::KeyQ | Key::KeyR | Key::KeyS | Key::KeyT | Key::KeyU | Key::KeyV | Key::KeyW | Key::KeyX
        | Key::KeyY | Key::KeyZ => true,
        _ => false,
    }
}

/// Every character a key types is a printable ASCII character.
pub proof fn lemma_key_char_printable_ascii(key: Key, shift: bool, alt: bool)
    ensures
        key_char(key, shift, alt) matches Some(c) ==> ' ' <= c <= '~',
{
}

/// A letter key types a lower-case letter, and with Shift held the same letter in upper case.
pub proof fn lemma_letter_shift_upper_case(key: Key, alt: bool)
    requires
        is_letter_key(key),
    ensures
        key_char(key, false, false) matches Some(c) && 'a' <= c <= 'z' && key_char(key, true, alt)
            == Some(((c as u32) - 32) as char),
{
}

/// The letter keys in the order of the alphabet their names follow: `KeyA` to `KeyZ`.
pub open spec fn letter_keys() -> Seq<Key> {
    seq![
        Key::KeyA, Key::KeyB, Key::KeyC, Key::KeyD, Key::KeyE, Key::KeyF, Key::KeyG, Key::KeyH, Key::KeyI,
        Key::KeyJ, Key::KeyK, Key::KeyL, Key::KeyM, Key::KeyN, Key::KeyO, Key::KeyP, Key::KeyQ, Key::KeyR,
        Key::KeyS, Key::KeyT, Key::KeyU, Key::KeyV, Key::KeyW, Key::KeyX, Key::KeyY, Key::KeyZ,
    ]
}

/// On the German layout every letter key types the letter it is named after, except that the Y
/// and Z keys trade places: the `i`-th key of the alphabet types the `i`-th lower-case letter,
/// and with Shift the `i`-th upper-case letter; the Y key types z and Z, the Z key y and Y.
pub proof fn lemma_letter_keys_type_their_letter(i: int, alt: bool)
    requires
        0 <= i < 26,
    ensures
        i < 24 ==> key_char(letter_keys()[i], false, false) == Some((97 + i) as char),
        i < 24 ==> key_char(letter_keys()[i], true, alt) == Some((65 + i) as char),
        key_char(Key::KeyY, false, false) == Some('z') && key_char(Key::KeyY, true, alt) == Some('Z'),
        key_char(Key::KeyZ, false, false) == Some('y') && key_char(Key::KeyZ, true, alt) == Some('Y'),
{
}

/// The digit keys of the main block and of the number pad, each in the order of its digits.
pub open spec fn digit_keys() -> (Seq<Key>, Seq<Key>) {
    (
        seq![
            Key::Digit0, Key::Digit1, Key::Digit2, Key::Digit3, Key::Digit4, Key::Digit5, Key::Digit6,
            Key::Digit7, Key::Digit8, Key::Digit9,
        ],
        seq![
            Key::Numpad0, Key::Numpad1, Key::Numpad2, Key::Numpad3, Key::Numpad4, Key::Numpad5, Key::Numpad6,
            Key::Numpad7, Key::Numpad8, Key::Numpad9,
        ],
    )
}

/// The `d`-th digit key types the digit `d` when no modifier is held, and the `d`-th key of the
/// number pad types it whatever modifier is held.
pub proof fn lemma_digit_keys_type_their_digit(d: int, shift: bool, alt: bool)
    requires
        0 <= d < 10,
    ensures
        key_char(digit_keys().0[d], false, false) == Some((48 + d) as char),
        key_char(digit_keys().1[d], shift, alt) == Some((48 + d) as char),
{
}

/// Only the character keys type something; the editing and modifier keys type nothing.
pub proof fn lemma_editing_keys_type_nothing(shift: bool, alt: bool)
    ensures
        key_char(Key::Enter, shift, alt) is None,
        key_char(Key::Backspace, shift, alt) is None,
        key_char(Key::Tab, shift, alt) is None,
        key_char(Key::ArrowLeft, shift, alt) is None,
        key_char(Key::ArrowRight, shift, alt) is None,
        key_char(Key::ShiftLeft, shift, alt) is None,
        key_char(Key::ShiftRight, shift, alt) is None,
        key_char(Key::AltLeft, shift, alt) is None,
        key_char(Key::AltRight, shift, alt) is None,
        key_char(Key::Escape, shift, alt) is None,
        key_char(Key::Other, shift, alt) is None,
{
}


/// A character in the ASCII range.
pub open spec fn is_ascii_char(c: char) -> bool {
    '\0' <= c <= '\u{7f}'
}

/// `String::insert`: puts a character at a byte position. In an ASCII string every position up
/// to the length is a character boundary and byte positions are character positions.
#[verifier::external_body]
fn string_insert(s: &mut String, idx: usize, ch: char)
    requires
        is_ascii_chars(old(s)@),
        idx <= old(s)@.len(),
    ensures
        final(s)@ == old(s)@.insert(idx as int, ch),
{
    s.insert(idx, ch);
}

/// `String::remove`: takes out the character at a byte position and returns it (ASCII string,
/// position inside it).
#[verifier::external_body]
fn string_remove(s: &mut String, idx: usize) -> (r: char)
    requires
        is_ascii_chars(old(s)@),
        idx < old(s)@.len(),
    ensures
        r == old(s)@[idx as int],
        final(s)@ == old(s)@.remove(idx as int),
{
    s.remove(idx)
}

/// `String::push`: appends a character.
#[verifier::external_body]
pub(crate) fn string_push(s: &mut String, ch: char)
    ensures
        final(s)@ == old(s)@.push(ch),
{
    s.push(ch);
}

/// `String::pop`: takes out the last character, if any.
#[verifier::external_body]
fn string_pop(s: &mut String) -> (r: Option<char>)
    ensures
        old(s)@.len() > 0 ==> r == Some(old(s)@.last()) && final(s)@ == old(s)@.drop_last(),
        old(s)@.len() == 0 ==> r is None && final(s)@ == old(s)@,
{
    s.pop()
}

/// `String::clear`: empties the string.
#[verifier::external_body]
fn string_clear(s: &mut String)
    ensures
        final(s)@ == Seq::<char>::empty(),
{
    s.clear();
}

/// `String::len`: the length in bytes, which for an ASCII string is the number of characters.
#[verifier::external_body]
fn string_len(s: &String) -> (r: usize)
    requires
        is_ascii_chars(s@),
    ensures
        r == s@.len(),
{
    s.len()
}

/// Backspace undoes typing: typing a character into a field (see [`TextField::type_char`]) and
/// then pressing Backspace (see [`TextField::press_backspace`]) gives back the text and the
/// cursor the field had.
pub proof fn lemma_backspace_undoes_typing(before: TextField, typed: TextField, erased: TextField, ch: char)
    requires
        before.cursor_in_text(),
        typed.text@ == before.text@.insert(before.cursor_position as int, ch),
        typed.cursor_position == before.cursor_position + 1,
        erased.cursor_position == typed.cursor_position - 1,
        erased.text@ == typed.text@.remove(typed.cursor_position - 1),
    ensures
        erased.text@ == before.text@,
        erased.cursor_position == before.cursor_position,
{
    assert(before.text@.insert(before.cursor_position as int, ch).remove(before.cursor_position as int) =~= before.text@);
}

/// How a text field shows what was typed.
#[derive(Clone, Copy, Debug, PartialEq, Eq, Structural)]
pub enum InputType {
    Text,
    /// Every character is shown as `*`.
    Password,
}

impl Default for InputType {
    fn default() -> (r: Self)
        ensures
            r == InputType::Text,
    {
        InputType::Text
    }
}

/// A one-line text field.
pub struct TextField {
    pub id: usize,
    pub text: String,
    pub placeholder: String,
    pub is_enabled: bool,
    pub is_focused: bool,
    pub is_hovered: bool,
    /// Whether Enter empties the field.
    pub is_delete_after_enter: bool,
    /// The cursor, as a character position in the text.
    pub cursor_position: usize,
    pub max_length: usize,
}

/// What typing a character into a field did.
#[derive(Clone, Copy, Debug, PartialEq, Eq, Structural)]
pub enum TypeOutcome {
    /// The character was inserted at the cursor.
    Typed,
    /// The cursor stands at the maximum length: nothing was typed and typing stops for this frame.
    MaxLengthReached,
}

impl TextField {
    /// The text is ASCII (all keys type ASCII characters), so byte and character positions agree.
    pub open spec fn ascii_text(&self) -> bool {
        is_ascii_chars(self.text@)
    }

    /// The cursor stands inside the text or at its end.
    pub open spec fn cursor_in_text(&self) -> bool {
        self.cursor_position <= self.text@.len()
    }

    /// A field with the given id and the default settings: empty, the placeholder "Text",
    /// enabled, not focused or hovered, the cursor at 0, at most 20 characters.
    pub fn with_id(id: usize) -> (r: TextField)
        ensures
            r.id == id,
            r.text@ == Seq::<char>::empty(),
            r.placeholder@ == "Text"@,
            r.is_enabled,
            !r.is_focused,
            !r.is_hovered,
            !r.is_delete_after_enter,
            r.cursor_position == 0,
            r.max_length == 20,
    {
        TextField {
            id,
            text: String::new(),
            placeholder: String::from_str("Text"),
            is_enabled: true,
            is_focused: false,
            is_hovered: false,
            is_delete_after_enter: false,
            cursor_position: 0,
            max_length: 20,
        }
    }

    /// A field showing `text`: as its placeholder when `placeholder` is set (the text is then
    /// empty), else as its text (the placeholder is then empty). The rest as in [`TextField::with_id`].
    pub fn new(text: &str, placeholder: bool, id: usize) -> (r: TextField)
        ensures
            r.id == id,
            r.text@ == (if placeholder { Seq::<char>::empty() } else { text@ }),
            r.placeholder@ == (if placeholder { text@ } else { Seq::<char>::empty() }),
            r.is_enabled,
            !r.is_focused,
            !r.is_hovered,
            !r.is_delete_after_enter,
            r.cursor_position == 0,
            r.max_length == 20,
    {
        TextField {
            id,
            text: if !placeholder { String::from_str(text) } else { String::new() },
            placeholder: if placeholder { String::from_str(text) } else { String::new() },
            is_enabled: true,
            is_focused: false,
            is_hovered: false,
            is_delete_after_enter: false,
            cursor_position: 0,
            max_length: 20,
        }
    }

    /// Types a character at the cursor and moves the cursor past it, unless the cursor stands
    /// at (or beyond) the maximum length.
    pub fn type_char(&mut self, ch: char) -> (r: TypeOutcome)
        requires
            old(self).ascii_text(),
            old(self).cursor_in_text(),
            is_ascii_char(ch),
        ensures
            old(self).cursor_position >= old(self).max_length ==> r == TypeOutcome::MaxLengthReached
                && *final(self) == *old(self),
            old(self).cursor_position < old(self).max_length ==> {
                &&& r == TypeOutcome::Typed
                &&& final(self).text@ == old(self).text@.insert(old(self).cursor_position as int, ch)
                &&& final(self).cursor_position == old(self).cursor_position + 1
                &&& final(self).same_settings(*old(self))
            },
            final(self).ascii_text(),
            final(self).cursor_in_text(),
    {
        let pos = self.cursor_position;
        if pos >= self.max_length {
            return TypeOutcome::MaxLengthReached;
        }
        string_insert(&mut self.text, pos, ch);
        self.cursor_position = self.cursor_position + 1;
        TypeOutcome::Typed
    }

    /// Everything but the text and the cursor is as in `other`.
    pub open spec fn same_settings(&self, other: TextField) -> bool {
        &&& self.id == other.id
        &&& self.placeholder == other.placeholder
        &&& self.is_enabled == other.is_enabled
        &&& self.is_focused == other.is_focused
        &&& self.is_hovered == other.is_hovered
        &&& self.is_delete_after_enter == other.is_delete_after_enter
        &&& self.max_length == other.max_length
    }

    /// Everything but the text, the cursor and the hover state is as in `other`.
    pub open spec fn same_settings_but_hover(&self, other: TextField) -> bool {
        &&& self.id == other.id
        &&& self.placeholder == other.placeholder
        &&& self.is_enabled == other.is_enabled
        &&& self.is_delete_after_enter == other.is_delete_after_enter
        &&& self.max_length == other.max_length
    }

    /// Everything but the text, the cursor and the focus is as in `other`.
    pub open spec fn same_settings_but_focus(&self, other: TextField) -> bool {
        &&& self.id == other.id
        &&& self.placeholder == other.placeholder
        &&& self.is_enabled == other.is_enabled
        &&& self.is_hovered == other.is_hovered
        &&& self.is_delete_after_enter == other.is_delete_after_enter
        &&& self.max_length == other.max_length
    }

    /// Backspace: removes the character before the cursor and moves the cursor back, if there
    /// is one; otherwise nothing changes.
    pub fn press_backspace(&mut self)
        requires
            old(self).ascii_text(),
            old(self).cursor_in_text(),
        ensures
            final(self).same_settings(*old(self)),
            final(self).ascii_text(),
            final(self).cursor_in_text(),
            old(self).cursor_position > 0 ==> final(self).cursor_position == old(self).cursor_position - 1
                && final(self).text@ == old(self).text@.remove(old(self).cursor_position - 1),
            old(self).cursor_position == 0 ==> *final(self) == *old(self),
    {
        if self.cursor_position > 0 && string_len(&self.text) > 0 {
            let pos = self.cursor_position - 1;
            self.cursor_position = pos;
            let _ = string_remove(&mut self.text, pos);
        }
    }

    /// A held key repeats: its character is appended at the end of the text (wherever the
    /// cursor is, and whatever the maximum length) and the cursor moves on by one.
    pub fn repeat_char(&mut self, ch: char)
        requires
            old(self).cursor_position < usize::MAX,
        ensures
            final(self).same_settings(*old(self)),
            final(self).text@ == old(self).text@.push(ch),
            final(self).cursor_position == old(self).cursor_position + 1,
            old(self).ascii_text() && is_ascii_char(ch) ==> final(self).ascii_text(),
            old(self).cursor_in_text() ==> final(self).cursor_in_text(),
    {
        string_push(&mut self.text, ch);
        self.cursor_position = self.cursor_position + 1;
    }

    /// A held Backspace repeats: the last character is removed and the cursor moves back by one,
    /// if the cursor is not at the start and the text is not empty.
    pub fn repeat_backspace(&mut self)
        ensures
            final(self).same_settings(*old(self)),
            old(self).cursor_position > 0 && old(self).text@.len() > 0 ==> final(self).text@
                == old(self).text@.drop_last() && final(self).cursor_position == old(self).cursor_position - 1,
            !(old(self).cursor_position > 0 && old(self).text@.len() > 0) ==> *final(self) == *old(self),
            old(self).ascii_text() ==> final(self).ascii_text(),
            old(self).cursor_in_text() ==> final(self).cursor_in_text(),
    {
        if self.cursor_position > 0 && self.text.as_str().unicode_len() > 0 {
            let _ = string_pop(&mut self.text);
            self.cursor_position = self.cursor_position - 1;
        }
    }

    /// Enter: the field loses the focus, and its text is emptied if it empties on Enter.
    /// Gives whether the text was emptied.
    pub fn press_enter(&mut self) -> (cleared: bool)
        ensures
            cleared == old(self).is_delete_after_enter,
            !final(self).is_focused,
            final(self).id == old(self).id,
            final(self).placeholder == old(self).placeholder,
            final(self).is_enabled == old(self).is_enabled,
            final(self).is_hovered == old(self).is_hovered,
            final(self).is_delete_after_enter == old(self).is_delete_after_enter,
            final(self).max_length == old(self).max_length,
            final(self).cursor_position == old(self).cursor_position,
            final(self).text@ == (if cleared { Seq::<char>::empty() } else { old(self).text@ }),
    {
        self.is_focused = false;
        if self.is_delete_after_enter {
            string_clear(&mut self.text);
            return true;
        }
        false
    }

    /// Keeps the cursor inside the text: a cursor beyond the end moves to the end.
    pub fn clamp_cursor(&mut self)
        requires
            old(self).ascii_text(),
        ensures
            final(self).same_settings(*old(self)),
            final(self).text == old(self).text,
            final(self).cursor_position == (if old(self).cursor_position <= old(self).text@.len() {
                old(self).cursor_position as int
            } else {
                old(self).text@.len() as int
            }),
            final(self).cursor_in_text(),
    {
        let len = string_len(&self.text);
        if self.cursor_position > len {
            self.cursor_position = len;
        }
    }

    /// The arrow keys move the cursor: left by one (not below 0), right by one; then the
    /// cursor is kept inside the text.
    pub fn update_cursor_position(&mut self, left: bool, right: bool)
        requires
            old(self).ascii_text(),
            right ==> old(self).cursor_position < usize::MAX,
        ensures
            final(self).same_settings(*old(self)),
            final(self).text == old(self).text,
            ({
                let after_left = if left && old(self).cursor_position > 0 {
                    old(self).cursor_position - 1
                } else if left {
                    0
                } else {
                    old(self).cursor_position as int
                };
                let moved = if right { after_left + 1 } else { after_left };
                final(self).cursor_position == (if moved <= old(self).text@.len() {
                    moved
                } else {
                    old(self).text@.len() as int
                })
            }),
            final(self).cursor_in_text(),
    {
        if left {
            if self.cursor_position > 0 {
                self.cursor_position = self.cursor_position - 1;
            }
        }
        if right {
            self.cursor_position = self.cursor_position + 1;
        }
        self.clamp_cursor();
    }

    /// What the field shows of its text: the text itself, or for a password one `*` per character.
    pub fn display_text(&self, input_type: InputType) -> (r: String)
        ensures
            input_type == InputType::Text ==> r@ == self.text@,
            input_type == InputType::Password ==> r@ == Seq::new(self.text@.len(), |i: int| '*'),
    {
        match input_type {
            InputType::Text => self.text.clone(),
            InputType::Password => {
                let n = self.text.as_str().unicode_len();
                let mut masked = String::new();
                let mut i: usize = 0;
                while i < n
                    invariant
                        0 <= i <= n,
                        n == self.text@.len(),
                        masked@ == Seq::new(i as nat, |k: int| '*'),
                    decreases n - i,
                {
                    string_push(&mut masked, '*');
                    proof {
                        assert(masked@ =~= Seq::new((i + 1) as nat, |k: int| '*'));
                    }
                    i = i + 1;
                }
                masked
            },
        }
    }

    /// The text a new field shows: its placeholder, or its text when it has no placeholder.
    pub fn initial_text(&self) -> (r: String)
        ensures
            r@ == (if self.placeholder@.len() > 0 { self.placeholder@ } else { self.text@ }),
    {
        if self.placeholder.as_str().unicode_len() > 0 {
            self.placeholder.clone()
        } else {
            self.text.clone()
        }
    }

    /// The placeholder is shown instead of the text: the field is not focused and is empty.
    pub fn shows_placeholder(&self) -> (r: bool)
        ensures
            r == (!self.is_focused && self.text@.len() == 0),
    {
        !self.is_focused && self.text.as_str().unicode_len() == 0
    }
}

} // verus!
