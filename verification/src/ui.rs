//! The state of the interface's elements: check boxes, choice boxes, sliders, buttons, and the
//! pointer's effect on text fields.
use vstd::prelude::*;
use crate::strings::{lowercase, to_lowercase, trim, trimmed};
use crate::text_input::{InputType, TextField};

verus! {

/// Whether an element is selected and whether the pointer is over it.
#[derive(Clone, Copy, Debug, PartialEq, Eq, Structural)]
pub struct UiElementState {
    pub selected: bool,
    pub hovered: bool,
}

impl Default for UiElementState {
    /// Neither selected nor hovered.
    fn default() -> (r: Self)
        ensures
            r == (UiElementState { selected: false, hovered: false }),
    {
        UiElementState { selected: false, hovered: false }
    }
}

/// The colour an element's border or background takes, by the role it plays in the style.
#[derive(Clone, Copy, Debug, PartialEq, Eq, Structural)]
pub enum ColorRole {
    /// The style's plain colour.
    Normal,
    /// The colour under the pointer.
    Hover,
    /// The colour of a focused or selected element.
    Focus,
    /// The colour of a check mark that is set.
    Checked,
    /// No colour.
    Transparent,
    /// The style's colour for text: that of text typed into a field, or of an option's label.
    Text,
    /// The colour of text on the focus colour.
    TextOnFocus,
    /// The colour of a field's placeholder, or of a field that shows nothing.
    Placeholder,
}

/// A check box with its label.
pub struct CheckBox {
    pub checked: bool,
    pub label: String,
}

impl Default for CheckBox {
    /// Not checked, labelled "Checkbox".
    fn default() -> (r: Self)
        ensures
            !r.checked,
            r.label@ == "Checkbox"@,
    {
        CheckBox { checked: false, label: String::from_str("Checkbox") }
    }
}

/// The shape of a check box's mark.
#[derive(Clone, Copy, Debug, PartialEq, Eq, Structural)]
pub enum CheckShape {
    Square,
    Circle,
}

/// The colour of a check box's mark: set when checked, none otherwise.
pub fn mark_color(checkbox: &CheckBox) -> (r: ColorRole)
    ensures
        r == (if checkbox.checked { ColorRole::Checked } else { ColorRole::Transparent }),
{
    if checkbox.checked {
        ColorRole::Checked
    } else {
        ColorRole::Transparent
    }
}

/// A click on a check box selects it and flips its mark; the border takes the focus colour and
/// the mark the colour for its new value.
pub fn on_click_checkbox(checkbox: &mut CheckBox, state: &mut UiElementState) -> (mark: ColorRole)
    ensures
        final(checkbox).checked == !old(checkbox).checked,
        final(checkbox).label == old(checkbox).label,
        final(state).selected,
        final(state).hovered == old(state).hovered,
        mark == (if final(checkbox).checked { ColorRole::Checked } else { ColorRole::Transparent }),
{
    state.selected = true;
    checkbox.checked = !checkbox.checked;
    mark_color(checkbox)
}

/// An option of a choice box.
pub struct ChoiceOption {
    pub label: String,
    /// The value the option stands for.
    pub internal_val: String,
    pub selected: bool,
    pub disabled: bool,
}

impl Default for ChoiceOption {
    /// "Option 1" (value "option1"), not selected, enabled.
    fn default() -> (r: Self)
        ensures
            r.label@ == "Option 1"@,
            r.internal_val@ == "option1"@,
            !r.selected,
            !r.disabled,
    {
        ChoiceOption {
            label: String::from_str("Option 1"),
            internal_val: String::from_str("option1"),
            selected: false,
            disabled: false,
        }
    }
}

impl ChoiceOption {
    /// An option with the given label; its value is the label in lower case, without leading or
    /// trailing white space. Not selected.
    pub fn new(label: &str, disabled: bool) -> (r: ChoiceOption)
        ensures
            r.label@ == label@,
            r.internal_val@ == trimmed(lowercase(label@)),
            !r.selected,
            r.disabled == disabled,
    {
        let lower = to_lowercase(label);
        let value = trim(lower.as_str());
        ChoiceOption {
            label: String::from_str(label),
            internal_val: String::from_str(value),
            selected: false,
            disabled,
        }
    }
}

/// A choice box: its current value and its options.
pub struct ChoiceBox {
    pub value: ChoiceOption,
    pub options: Vec<ChoiceOption>,
}

impl Default for ChoiceBox {
    /// "Option 1" chosen, out of "Option 1" and "Option 2".
    fn default() -> (r: Self)
        ensures
            r.value.label@ == "Option 1"@,
            r.value.internal_val@ == "option1"@,
            r.value.selected,
            !r.value.disabled,
            r.options@.len() == 2,
            r.options@[0].label@ == "Option 1"@,
            r.options@[0].internal_val@ == "option1"@,
            r.options@[0].selected,
            !r.options@[0].disabled,
            r.options@[1].label@ == "Option 2"@,
            r.options@[1].internal_val@ == trimmed(lowercase("Option 2"@)),
            !r.options@[1].selected,
            !r.options@[1].disabled,
    {
        let mut value = ChoiceOption::default();
        value.selected = true;
        let mut first = ChoiceOption::default();
        first.selected = true;
        let second = ChoiceOption::new("Option 2", false);
        ChoiceBox { value, options: vec![first, second] }
    }
}

/// A click on the choice box opens its list of options, or closes it when it is open.
pub fn on_click_main_root(list_visible: bool) -> (r: bool)
    ensures
        r == !list_visible,
{
    !list_visible
}

/// The options with only the one at `clicked` selected.
pub open spec fn options_after_click(options: Seq<ChoiceOption>, clicked: int) -> Seq<ChoiceOption> {
    Seq::new(options.len(), |i: int| ChoiceOption { selected: i == clicked, ..options[i] })
}

/// After a click on an option, exactly that option is selected, and the options are otherwise
/// as they were (see [`on_click_option`]).
pub proof fn lemma_click_selects_exactly_one(options: Seq<ChoiceOption>, clicked: int)
    requires
        0 <= clicked < options.len(),
    ensures
        options_after_click(options, clicked).len() == options.len(),
        forall|i: int| 0 <= i < options.len() ==> (#[trigger] options_after_click(options, clicked)[i].selected <==> i == clicked),
        forall|i: int| 0 <= i < options.len() ==> {
            &&& (#[trigger] options_after_click(options, clicked)[i]).label == options[i].label
            &&& options_after_click(options, clicked)[i].internal_val == options[i].internal_val
            &&& options_after_click(options, clicked)[i].disabled == options[i].disabled
        },
{
}

/// A click on an option selects it, and only it; the list closes (the caller hides it) and the
/// option, as it was before the click, becomes the choice box's value (so a newly chosen value
/// keeps the flag it had). The options then take the colours of [`option_colors`].
pub fn on_click_option(choice_box: &mut ChoiceBox, clicked: usize)
    requires
        clicked < old(choice_box).options@.len(),
    ensures
        final(choice_box).options@ == options_after_click(old(choice_box).options@, clicked as int),
        final(choice_box).value == old(choice_box).options@[clicked as int],
{
    let ghost before = choice_box.options@;
    let value = ChoiceOption {
        label: choice_box.options[clicked].label.clone(),
        internal_val: choice_box.options[clicked].internal_val.clone(),
        selected: choice_box.options[clicked].selected,
        disabled: choice_box.options[clicked].disabled,
    };
    let mut options: Vec<ChoiceOption> = Vec::new();
    std::mem::swap(&mut options, &mut choice_box.options);
    let mut rebuilt: Vec<ChoiceOption> = Vec::new();
    let n = options.len();
    let mut i: usize = 0;
    while options.len() > 0
        invariant
            n == before.len(),
            clicked < n,
            i + options@.len() == n,
            options@ == before.subrange(i as int, n as int),
            rebuilt@ == options_after_click(before, clicked as int).subrange(0, i as int),
        decreases options@.len(),
    {
        let mut option = options.remove(0);
        option.selected = i == clicked;
        rebuilt.push(option);
        proof {
            assert(options@ =~= before.subrange(i + 1, n as int));
            assert(rebuilt@ =~= options_after_click(before, clicked as int).subrange(0, i + 1));
        }
        i = i + 1;
    }
    proof {
        assert(rebuilt@ =~= options_after_click(before, clicked as int));
    }
    choice_box.options = rebuilt;
    choice_box.value = value;
}

/// The colours of an option: its background and its label.
#[derive(Clone, Copy, Debug, PartialEq, Eq, Structural)]
pub struct OptionColors {
    pub background: ColorRole,
    pub text: ColorRole,
}

/// The colours of an option as it is drawn, and after a click on the list: a selected option
/// has the focus colour with a label on it, any other the plain colour with the text colour.
pub open spec fn resting_option_colors(selected: bool) -> OptionColors {
    if selected {
        OptionColors { background: ColorRole::Focus, text: ColorRole::TextOnFocus }
    } else {
        OptionColors { background: ColorRole::Normal, text: ColorRole::Text }
    }
}

/// The colours an option is drawn with, by whether it is selected.
pub fn option_colors(option: &ChoiceOption) -> (r: OptionColors)
    ensures
        r == resting_option_colors(option.selected),
{
    if option.selected {
        OptionColors { background: ColorRole::Focus, text: ColorRole::TextOnFocus }
    } else {
        OptionColors { background: ColorRole::Normal, text: ColorRole::Text }
    }
}

/// The colours of an option under the pointer: the focus colour when selected, else the hover
/// colour; the label takes the colour of text on the focus colour either way.
pub fn on_enter_option(option: &ChoiceOption) -> (r: OptionColors)
    ensures
        r.background == (if option.selected { ColorRole::Focus } else { ColorRole::Hover }),
        r.text == ColorRole::TextOnFocus,
{
    if option.selected {
        OptionColors { background: ColorRole::Focus, text: ColorRole::TextOnFocus }
    } else {
        OptionColors { background: ColorRole::Hover, text: ColorRole::TextOnFocus }
    }
}

/// The colours of an option the pointer leaves: those it rests with (see [`option_colors`]).
pub fn on_leave_option(option: &ChoiceOption) -> (r: OptionColors)
    ensures
        r == resting_option_colors(option.selected),
{
    option_colors(option)
}

/// A slider over whole numbers.
#[derive(Clone, Copy, Debug, PartialEq, Eq, Structural)]
pub struct Slider {
    pub value: i32,
    pub step: i32,
    pub min: i32,
    pub max: i32,
}

impl Default for Slider {
    /// From 0 to 100 in steps of 1, at 0.
    fn default() -> (r: Self)
        ensures
            r == (Slider { value: 0, step: 1, min: 0, max: 100 }),
    {
        Slider { value: 0, step: 1, min: 0, max: 100 }
    }
}

/// A button with its caption.
pub struct UiButton(pub String);

impl Default for UiButton {
    /// Captioned "Button".
    fn default() -> (r: Self)
        ensures
            r.0@ == "Button"@,
    {
        UiButton(String::from_str("Button"))
    }
}

/// On which side of its caption a button's image stands.
#[derive(Clone, Copy, Debug, PartialEq, Eq, Structural)]
pub enum ButtonImageOrientation {
    Left,
    Right,
}

impl Default for ButtonImageOrientation {
    /// On the right.
    fn default() -> (r: Self)
        ensures
            r == ButtonImageOrientation::Right,
    {
        ButtonImageOrientation::Right
    }
}

/// A button's border: the focus colour while selected, else the plain colour.
pub fn check_selected_status(state: &UiElementState) -> (r: ColorRole)
    ensures
        r == (if state.selected { ColorRole::Focus } else { ColorRole::Normal }),
{
    if state.selected {
        ColorRole::Focus
    } else {
        ColorRole::Normal
    }
}

/// The pointer enters a button: it is hovered, and its border takes the hover colour unless it
/// is selected.
pub fn on_hover_enter_button(state: &mut UiElementState) -> (border: Option<ColorRole>)
    ensures
        final(state).hovered,
        final(state).selected == old(state).selected,
        border == (if old(state).selected { None } else { Some(ColorRole::Hover) }),
{
    state.hovered = true;
    if state.selected {
        None
    } else {
        Some(ColorRole::Hover)
    }
}

/// The pointer leaves a button: it is no longer hovered, and its border takes the plain colour
/// unless it is selected.
pub fn on_hover_leave_button(state: &mut UiElementState) -> (border: Option<ColorRole>)
    ensures
        !final(state).hovered,
        final(state).selected == old(state).selected,
        border == (if old(state).selected { None } else { Some(ColorRole::Normal) }),
{
    state.hovered = false;
    if state.selected {
        None
    } else {
        Some(ColorRole::Normal)
    }
}

/// How a text field's cursor is shown.
#[derive(Clone, Copy, Debug, PartialEq, Eq, Structural)]
pub enum CursorShown {
    Visible,
    Hidden,
    /// As its parent is.
    Inherited,
}

/// What changes in a text field's look as its focus changes.
pub enum CursorVisibility {
    /// The field took the focus: the cursor shows, the border takes the focus colour, and the
    /// field shows this text.
    Show { shown_text: String },
    /// The field lost the focus: the cursor hides, the border takes its plain colour, and the
    /// placeholder shows again when `placeholder` (the text is empty).
    Hide { placeholder: bool },
    /// Nothing changes.
    Keep,
}

/// A focused field whose cursor is not shown shows it, with the field's text (masked for a
/// password); a field without the focus whose cursor is not hidden hides it.
pub fn update_cursor_visibility(field: &TextField, input_type: InputType, cursor: CursorShown) -> (r: CursorVisibility)
    ensures
        field.is_focused && cursor != CursorShown::Visible ==> (r matches CursorVisibility::Show { shown_text } && {
            &&& input_type == InputType::Text ==> shown_text@ == field.text@
            &&& input_type == InputType::Password ==> shown_text@ == Seq::new(field.text@.len(), |i: int| '*')
        }),
        !field.is_focused && cursor != CursorShown::Hidden ==> (r matches CursorVisibility::Hide { placeholder }
            && placeholder == (field.text@.len() == 0)),
        (field.is_focused && cursor == CursorShown::Visible) || (!field.is_focused && cursor == CursorShown::Hidden)
            ==> r is Keep,
{
    if field.is_focused {
        if cursor != CursorShown::Visible {
            return CursorVisibility::Show { shown_text: field.display_text(input_type) };
        }
    } else if cursor != CursorShown::Hidden {
        return CursorVisibility::Hide { placeholder: field.text.as_str().unicode_len() == 0 };
    }
    CursorVisibility::Keep
}

/// The pointer enters a text field: it is hovered, and its border takes the hover colour unless
/// it has the focus.
pub fn on_hover_enter_field(field: &mut TextField) -> (border: Option<ColorRole>)
    ensures
        final(field).is_hovered,
        final(field).is_focused == old(field).is_focused,
        final(field).text == old(field).text,
        final(field).cursor_position == old(field).cursor_position,
        final(field).same_settings_but_hover(*old(field)),
        border == (if old(field).is_focused { None } else { Some(ColorRole::Hover) }),
{
    field.is_hovered = true;
    if field.is_focused {
        None
    } else {
        Some(ColorRole::Hover)
    }
}

/// The pointer leaves a text field: it is no longer hovered, and its border takes the plain
/// colour unless it has the focus.
pub fn on_hover_leave_field(field: &mut TextField) -> (border: Option<ColorRole>)
    ensures
        !final(field).is_hovered,
        final(field).is_focused == old(field).is_focused,
        final(field).text == old(field).text,
        final(field).cursor_position == old(field).cursor_position,
        final(field).same_settings_but_hover(*old(field)),
        border == (if old(field).is_focused { None } else { Some(ColorRole::Normal) }),
{
    field.is_hovered = false;
    if field.is_focused {
        None
    } else {
        Some(ColorRole::Normal)
    }
}

} // verus!
