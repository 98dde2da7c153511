//! Keyboard editing of text fields: what one frame of key presses does to the focused field,
//! and how Tab moves the focus from field to field.
use vstd::prelude::*;
use crate::text_input::{TextField, TypeOutcome, is_ascii_char};
use crate::ui::ColorRole;

verus! {

/// A key that is held down and types a character, as seen in one frame.
#[derive(Clone, Copy, Debug, PartialEq, Eq, Structural)]
pub struct HeldKey {
    /// The character the key types.
    pub ch: char,
    /// The key went down in this frame.
    pub just_pressed: bool,
    /// The key has been held long enough for its character to repeat in this frame.
    pub repeat_due: bool,
}

/// The keys of one frame.
pub struct TypingFrame {
    pub enter: bool,
    /// Backspace went down in this frame.
    pub backspace: bool,
    /// The held keys that type a character, in the order the keyboard reports them.
    pub keys: Vec<HeldKey>,
    /// Backspace has been held long enough to repeat in this frame.
    pub backspace_repeat_due: bool,
}

/// What a frame of typing did.
#[derive(Clone, Copy, Debug, PartialEq, Eq, Structural)]
pub enum TypingOutcome {
    /// The field does not have the focus: the keys are not for it.
    NotFocused,
    /// Enter: the field let the focus go; `cleared` when it emptied its text.
    Entered { cleared: bool },
    /// Backspace went down.
    Erased,
    /// The held keys were handled: the first `handled` of them. When `stopped`, the key after
    /// them would have typed past the maximum length, and typing ends for this frame.
    Keys { handled: usize, stopped: bool },
}

/// The text and the cursor after the held keys, in order: a key that went down types its
/// character at the cursor (or, at the maximum length, stops everything, the third component
/// giving the key), a key due to repeat appends its character. The cursor moves on by one for
/// each character.
pub open spec fn type_keys(text: Seq<char>, cursor: int, max_length: int, keys: Seq<HeldKey>) -> (Seq<char>, int, Option<int>)
    decreases keys.len(),
{
    if keys.len() == 0 {
        (text, cursor, None)
    } else {
        let (t, c, stop) = type_keys(text, cursor, max_length, keys.drop_last());
        let k = keys.last();
        if stop is Some {
            (t, c, stop)
        } else if k.just_pressed {
            if c >= max_length {
                (t, c, Some(keys.len() - 1))
            } else {
                (t.insert(c, k.ch), c + 1, None)
            }
        } else if k.repeat_due {
            (t.push(k.ch), c + 1, None)
        } else {
            (t, c, None)
        }
    }
}

/// A stop, once it happened, is not undone by further keys, and the keys handled before it are
/// the same.
proof fn lemma_type_keys_prefix(text: Seq<char>, cursor: int, max_length: int, keys: Seq<HeldKey>, n: int)
    requires
        0 <= n <= keys.len(),
        type_keys(text, cursor, max_length, keys.take(n)).2 is Some,
    ensures
        type_keys(text, cursor, max_length, keys) == type_keys(text, cursor, max_length, keys.take(n)),
    decreases keys.len() - n,
{
    if n < keys.len() {
        assert(keys.drop_last().take(n) =~= keys.take(n));
        lemma_type_keys_prefix(text, cursor, max_length, keys.drop_last(), n);
    } else {
        assert(keys.take(n) =~= keys);
    }
}

/// Typing keeps the cursor inside the text, and in bounds.
proof fn lemma_type_keys_cursor(text: Seq<char>, cursor: int, max_length: int, keys: Seq<HeldKey>)
    requires
        0 <= cursor <= text.len(),
    ensures
        ({
            let (t, c, _) = type_keys(text, cursor, max_length, keys);
            &&& 0 <= c <= t.len()
            &&& c <= cursor + keys.len()
            &&& t.len() <= text.len() + keys.len()
        }),
    decreases keys.len(),
{
    if keys.len() > 0 {
        lemma_type_keys_cursor(text, cursor, max_length, keys.drop_last());
    }
}

/// A sequence of characters all in the ASCII range.
pub open spec fn all_ascii(s: Seq<char>) -> bool {
    forall|i: int| 0 <= i < s.len() ==> is_ascii_char(#[trigger] s[i])
}

/// The text and the cursor after a frame's held keys, a repeated Backspace and the final clamp
/// of the cursor (when typing was not stopped).
pub open spec fn after_keys(field: TextField, frame_keys: Seq<HeldKey>, backspace_repeat_due: bool) -> (Seq<char>, int) {
    let (t, c, _) = type_keys(field.text@, field.cursor_position as int, field.max_length as int, frame_keys);
    let (t2, c2) = if backspace_repeat_due && c > 0 && t.len() > 0 {
        (t.drop_last(), c - 1)
    } else {
        (t, c)
    };
    (t2, if c2 <= t2.len() { c2 } else { t2.len() as int })
}

/// One frame of keyboard input for a text field. Only a focused field takes keys. Enter
/// releases the focus (emptying the text if the field empties on Enter); Backspace going down
/// removes the character before the cursor; both end the frame for the field. Otherwise the
/// held keys type in turn (see [`type_keys`]); unless typing stopped at the maximum length, a
/// repeated Backspace then removes the last character, and the cursor is kept inside the text.
pub fn handle_typing(field: &mut TextField, frame: &TypingFrame) -> (r: TypingOutcome)
    requires
        old(field).ascii_text(),
        old(field).cursor_in_text(),
        old(field).text@.len() + frame.keys@.len() < usize::MAX,
        forall|i: int| 0 <= i < frame.keys@.len() ==> is_ascii_char(#[trigger] frame.keys@[i].ch),
    ensures
        final(field).same_settings_but_focus(*old(field)),
        final(field).ascii_text(),
        !(old(field).is_focused && frame.enter) ==> final(field).cursor_in_text(),
        !old(field).is_focused ==> r == TypingOutcome::NotFocused && *final(field) == *old(field),
        old(field).is_focused && frame.enter ==> {
            &&& r == (TypingOutcome::Entered { cleared: old(field).is_delete_after_enter })
            &&& !final(field).is_focused
            &&& final(field).cursor_position == old(field).cursor_position
            &&& final(field).text@ == (if old(field).is_delete_after_enter {
                Seq::<char>::empty()
            } else {
                old(field).text@
            })
        },
        old(field).is_focused && !frame.enter && frame.backspace ==> {
            &&& r == TypingOutcome::Erased
            &&& final(field).is_focused
            &&& old(field).cursor_position > 0 ==> final(field).cursor_position == old(field).cursor_position - 1
                && final(field).text@ == old(field).text@.remove(old(field).cursor_position - 1)
            &&& old(field).cursor_position == 0 ==> *final(field) == *old(field)
        },
        old(field).is_focused && !frame.enter && !frame.backspace ==> {
            let (t, c, stop) = type_keys(
                old(field).text@,
                old(field).cursor_position as int,
                old(field).max_length as int,
                frame.keys@,
            );
            &&& final(field).is_focused
            &&& stop matches Some(k) ==> r == (TypingOutcome::Keys { handled: k as usize, stopped: true })
                && final(field).text@ == t && final(field).cursor_position == c
            &&& stop is None ==> r == (TypingOutcome::Keys { handled: frame.keys@.len() as usize, stopped: false })
                && (final(field).text@, final(field).cursor_position as int) == after_keys(
                *old(field),
                frame.keys@,
                frame.backspace_repeat_due,
            )
        },
{
    if !field.is_focused {
        return TypingOutcome::NotFocused;
    }
    if frame.enter {
        let cleared = field.press_enter();
        proof {
            if cleared {
                assert(all_ascii(field.text@));
            }
        }
        return TypingOutcome::Entered { cleared };
    }
    if frame.backspace {
        field.press_backspace();
        return TypingOutcome::Erased;
    }
    let ghost start = *field;
    let mut i: usize = 0;
    while i < frame.keys.len()
        invariant
            0 <= i <= frame.keys@.len(),
            start == *old(field),
            !frame.enter,
            !frame.backspace,
            start.ascii_text(),
            start.cursor_in_text(),
            start.is_focused,
            start.text@.len() + frame.keys@.len() < usize::MAX,
            forall|j: int| 0 <= j < frame.keys@.len() ==> is_ascii_char(#[trigger] frame.keys@[j].ch),
            field.same_settings(start),
            field.ascii_text(),
            field.cursor_in_text(),
            ({
                let (t, c, stop) = type_keys(
                    start.text@,
                    start.cursor_position as int,
                    start.max_length as int,
                    frame.keys@.take(i as int),
                );
                &&& stop is None
                &&& field.text@ == t
                &&& field.cursor_position == c
            }),
        decreases frame.keys@.len() - i,
    {
        let key = frame.keys[i];
        proof {
            assert(frame.keys@.take(i + 1).drop_last() =~= frame.keys@.take(i as int));
            lemma_type_keys_cursor(start.text@, start.cursor_position as int, start.max_length as int, frame.keys@.take(i as int));
            assert(is_ascii_char(frame.keys@[i as int].ch));
        }
        if key.just_pressed {
            let outcome = field.type_char(key.ch);
            if outcome == TypeOutcome::MaxLengthReached {
                proof {
                    lemma_type_keys_prefix(
                        start.text@,
                        start.cursor_position as int,
                        start.max_length as int,
                        frame.keys@,
                        i + 1,
                    );
                }
                return TypingOutcome::Keys { handled: i, stopped: true };
            }
        } else if key.repeat_due {
            let ghost before = field.text@;
            field.repeat_char(key.ch);
            proof {
                assert forall|j: int| 0 <= j < field.text@.len() implies is_ascii_char(#[trigger] field.text@[j]) by {
                    if j < before.len() {
                        assert(field.text@[j] == before[j]);
                    }
                }
            }
        }
        i = i + 1;
    }
    proof {
        assert(frame.keys@.take(i as int) =~= frame.keys@);
    }
    if frame.backspace_repeat_due {
        field.repeat_backspace();
    }
    field.clamp_cursor();
    TypingOutcome::Keys { handled: i, stopped: false }
}

/// One of the first `n` keys went down in this frame.
pub open spec fn some_key_went_down(keys: Seq<HeldKey>, n: int) -> bool {
    exists|j: int| 0 <= j < n && j < keys.len() && (#[trigger] keys[j]).just_pressed
}

/// The colour the field's text takes after a frame of typing, if it changes: the text colour
/// once a key that went down has typed its character, the placeholder colour when Backspace
/// leaves the field without text. `field` is the field after the frame.
pub fn typing_text_color(outcome: TypingOutcome, keys: &Vec<HeldKey>, field: &TextField) -> (r: Option<ColorRole>)
    ensures
        r == (match outcome {
            TypingOutcome::Keys { handled, .. } => if some_key_went_down(keys@, handled as int) {
                Some(ColorRole::Text)
            } else {
                None::<ColorRole>
            },
            TypingOutcome::Erased => if field.text@.len() == 0 {
                Some(ColorRole::Placeholder)
            } else {
                None::<ColorRole>
            },
            _ => None::<ColorRole>,
        }),
{
    match outcome {
        TypingOutcome::Keys { handled, stopped } => {
            let mut j: usize = 0;
            while j < handled && j < keys.len()
                invariant
                    outcome == (TypingOutcome::Keys { handled, stopped }),
                    0 <= j <= keys@.len(),
                    j <= handled,
                    forall|k: int| 0 <= k < j ==> !(#[trigger] keys@[k]).just_pressed,
                decreases keys@.len() - j,
            {
                if keys[j].just_pressed {
                    proof {
                        assert((keys@[j as int]).just_pressed);
                    }
                    return Some(ColorRole::Text);
                }
                j = j + 1;
            }
            None
        },
        TypingOutcome::Erased => {
            if field.text.as_str().unicode_len() == 0 {
                Some(ColorRole::Placeholder)
            } else {
                None
            }
        },
        _ => None,
    }
}

/// `a` comes before `b` when the fields are put in order of their ids, fields of equal id
/// keeping their order.
pub open spec fn focus_before(fields: Seq<TextField>, a: int, b: int) -> bool {
    fields[a].id < fields[b].id || (fields[a].id == fields[b].id && a < b)
}

/// The field at `k` is the first focused field in that order.
pub open spec fn first_focused(fields: Seq<TextField>, k: int) -> bool {
    &&& 0 <= k < fields.len()
    &&& fields[k].is_focused
    &&& forall|j: int| 0 <= j < fields.len() && j != k && #[trigger] fields[j].is_focused ==> focus_before(fields, k, j)
}

/// The field at `m` is the first of all fields in that order.
pub open spec fn first_field(fields: Seq<TextField>, m: int) -> bool {
    &&& 0 <= m < fields.len()
    &&& forall|j: int| 0 <= j < fields.len() && j != m ==> #[trigger] focus_before(fields, m, j)
}

/// The field at `n` follows the field at `k` in that order, going round to the first field
/// after the last.
pub open spec fn next_field(fields: Seq<TextField>, k: int, n: int) -> bool {
    &&& 0 <= n < fields.len()
    &&& if exists|j: int| 0 <= j < fields.len() && #[trigger] focus_before(fields, k, j) {
        &&& focus_before(fields, k, n)
        &&& forall|j: int| 0 <= j < fields.len() && j != n && #[trigger] focus_before(fields, k, j) ==> focus_before(fields, n, j)
    } else {
        first_field(fields, n)
    }
}

/// The fields with the focus of the field at `i` set to `v`.
pub open spec fn with_focus(fields: Seq<TextField>, i: int, v: bool) -> Seq<TextField> {
    fields.update(i, TextField { is_focused: v, ..fields[i] })
}

/// Sets the focus flag of one field.
fn set_focus(fields: &mut Vec<TextField>, i: usize, v: bool)
    requires
        i < old(fields)@.len(),
    ensures
        final(fields)@ == with_focus(old(fields)@, i as int, v),
{
    let mut f = fields.remove(i);
    f.is_focused = v;
    fields.insert(i, f);
    proof {
        assert(fields@ =~= with_focus(old(fields)@, i as int, v));
    }
}

/// A click on a text field gives it the focus and takes the focus from every other field.
pub fn on_click(fields: &mut Vec<TextField>, target: usize)
    requires
        target < old(fields)@.len(),
    ensures
        final(fields)@.len() == old(fields)@.len(),
        forall|i: int| 0 <= i < old(fields)@.len() ==> #[trigger] final(fields)@[i] == (TextField {
            is_focused: i == target,
            ..old(fields)@[i]
        }),
{
    let len = fields.len();
    let mut i: usize = 0;
    while i < len
        invariant
            len == old(fields)@.len(),
            fields@.len() == len,
            target < len,
            0 <= i <= len,
            forall|j: int| 0 <= j < i ==> #[trigger] fields@[j] == (TextField { is_focused: j == target, ..old(fields)@[j] }),
            forall|j: int| i <= j < len ==> #[trigger] fields@[j] == old(fields)@[j],
        decreases len - i,
    {
        set_focus(fields, i, i == target);
        i = i + 1;
    }
}

/// Tab keeps a single focus single: when only the field at `k` is focused, after Tab only the
/// field at `n` (the one after it) is; when no field is focused, after Tab only the first field
/// is (see [`handle_input_focus`]).
pub proof fn lemma_tab_moves_single_focus(fields: Seq<TextField>, k: int, n: int)
    requires
        0 <= k < fields.len(),
        0 <= n < fields.len(),
    ensures
        first_focused(fields, k) && next_field(fields, k, n) && (forall|j: int|
            0 <= j < fields.len() && j != k ==> !(#[trigger] fields[j]).is_focused) ==> forall|j: int|
            0 <= j < fields.len() ==> (#[trigger] with_focus(with_focus(fields, k, false), n, true)[j].is_focused
                <==> j == n),
        (forall|j: int| 0 <= j < fields.len() ==> !(#[trigger] fields[j]).is_focused) ==> forall|j: int|
            0 <= j < fields.len() ==> (#[trigger] with_focus(fields, n, true)[j].is_focused <==> j == n),
{
}

/// Tab moves the focus on: the first focused field, in the order of the fields' ids (equal ids
/// keeping the fields' order), loses it and the field after it takes it, the first field coming
/// after the last; when no field is focused, the first field takes it. Without Tab, or without
/// fields, nothing changes.
pub fn handle_input_focus(fields: &mut Vec<TextField>, tab_pressed: bool)
    ensures
        !tab_pressed || old(fields)@.len() == 0 ==> final(fields)@ == old(fields)@,
        tab_pressed && old(fields)@.len() > 0 ==> {
            ||| (forall|j: int| 0 <= j < old(fields)@.len() ==> !(#[trigger] old(fields)@[j]).is_focused)
                && exists|m: int| first_field(old(fields)@, m) && final(fields)@ == with_focus(old(fields)@, m, true)
            ||| exists|k: int, n: int|
                first_focused(old(fields)@, k) && next_field(old(fields)@, k, n) && final(fields)@ == with_focus(
                    with_focus(old(fields)@, k, false),
                    n,
                    true,
                )
        },
{
    let len = fields.len();
    if !tab_pressed || len == 0 {
        return;
    }
    // The first field, and the first focused field.
    let mut m: usize = 0;
    let mut k: Option<usize> = None;
    let mut i: usize = 0;
    while i < len
        invariant
            len == fields@.len(),
            fields@ == old(fields)@,
            0 < len,
            0 <= i <= len,
            m < len,
            i == 0 ==> m == 0,
            i > 0 ==> m < i,
            forall|j: int| 0 <= j < i && j != m ==> #[trigger] focus_before(fields@, m as int, j),
            match k {
                Some(kk) => kk < i && fields@[kk as int].is_focused && forall|j: int|
                    0 <= j < i && j != kk && #[trigger] fields@[j].is_focused ==> focus_before(fields@, kk as int, j),
                None => forall|j: int| 0 <= j < i ==> !(#[trigger] fields@[j]).is_focused,
            },
        decreases len - i,
    {
        let ghost old_m = m;
        if i > 0 && fields[i].id < fields[m].id {
            m = i;
        }
        proof {
            assert forall|j: int| 0 <= j < i + 1 && j != m implies #[trigger] focus_before(fields@, m as int, j) by {
                if j != old_m && j < i {
                    assert(focus_before(fields@, old_m as int, j));
                }
            }
        }
        if fields[i].is_focused {
            match k {
                None => {
                    k = Some(i);
                },
                Some(kk) => {
                    if fields[i].id < fields[kk].id {
                        k = Some(i);
                    }
                },
            }
        }
        i = i + 1;
    }
    match k {
        None => {
            proof {
                assert(first_field(fields@, m as int));
            }
            set_focus(fields, m, true);
        },
        Some(kk) => {
            // The field after the first focused one, if any field comes after it.
            let mut n: Option<usize> = None;
            let mut j: usize = 0;
            while j < len
                invariant
                    len == fields@.len(),
                    fields@ == old(fields)@,
                    kk < len,
                    0 <= j <= len,
                    match n {
                        Some(nn) => nn < j && focus_before(fields@, kk as int, nn as int) && forall|x: int|
                            0 <= x < j && x != nn && #[trigger] focus_before(fields@, kk as int, x) ==> focus_before(
                                fields@,
                                nn as int,
                                x,
                            ),
                        None => forall|x: int| 0 <= x < j ==> !#[trigger] focus_before(fields@, kk as int, x),
                    },
                decreases len - j,
            {
                let after_k = fields[j].id > fields[kk].id || (fields[j].id == fields[kk].id && j > kk);
                if after_k {
                    match n {
                        None => {
                            n = Some(j);
                        },
                        Some(nn) => {
                            if fields[j].id < fields[nn].id {
                                n = Some(j);
                            }
                        },
                    }
                }
                j = j + 1;
            }
            let next = match n {
                Some(nn) => nn,
                None => m,
            };
            proof {
                assert(first_focused(fields@, kk as int));
                assert(next_field(fields@, kk as int, next as int));
            }
            set_focus(fields, kk, false);
            set_focus(fields, next, true);
        },
    }
}

} // verus!
