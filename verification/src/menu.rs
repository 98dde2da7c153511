//! The title and account screens: their widgets and how the menu moves from one to the next.
use vstd::prelude::*;
use crate::text_input::{InputType, TextField};
use crate::ui::{CheckBox, ChoiceBox, ChoiceOption, Slider, UiButton};

verus! {

/// The screens of the main menu.
#[derive(Clone, Copy, Debug, PartialEq, Eq, Structural, Hash)]
pub enum MainMenuState {
    TitleScreen,
    AccountScreen,
    MainMenu,
}

impl Default for MainMenuState {
    /// The menu opens on the title screen.
    fn default() -> (r: Self)
        ensures
            r == MainMenuState::TitleScreen,
    {
        MainMenuState::TitleScreen
    }
}

/// What the fading title does in a frame.
#[derive(Clone, Copy, Debug, PartialEq, Eq, Structural)]
pub enum TitleFade {
    /// The fade goes on.
    Continue,
    /// The title has faded in: it now fades out (its timer restarts).
    FadeOut,
    /// The title has faded out: it is removed and the account screen follows.
    Leave,
}

/// The title fades in, then out, then gives way to the account screen.
pub fn fade_title_text(fading_out: &mut bool, timer_finished: bool) -> (r: TitleFade)
    ensures
        !timer_finished ==> r == TitleFade::Continue && *final(fading_out) == *old(fading_out),
        timer_finished && !*old(fading_out) ==> r == TitleFade::FadeOut && *final(fading_out),
        timer_finished && *old(fading_out) ==> r == TitleFade::Leave && *final(fading_out),
{
    if !timer_finished {
        return TitleFade::Continue;
    }
    if !*fading_out {
        *fading_out = true;
        TitleFade::FadeOut
    } else {
        TitleFade::Leave
    }
}

/// The overlay of the title screen fades only while the title screen is shown.
pub fn fade_in_overlay(state: MainMenuState) -> (r: bool)
    ensures
        r == (state == MainMenuState::TitleScreen),
{
    state == MainMenuState::TitleScreen
}

/// The title screen is left when Space or the left mouse button goes down, or Enter or the right
/// mouse button is released.
pub fn detect_button_hit(space_pressed: bool, enter_released: bool, left_pressed: bool, right_released: bool) -> (r: bool)
    ensures
        r == (space_pressed || enter_released || left_pressed || right_released),
{
    space_pressed || enter_released || left_pressed || right_released
}

/// The widgets of the account screen.
pub struct AccountScreenWidgets {
    pub username: TextField,
    pub password: TextField,
    pub password_type: InputType,
    pub remember_me: CheckBox,
    pub login: UiButton,
    pub test_login: UiButton,
    pub slider: Slider,
    pub login_choice: ChoiceBox,
}

/// An option of the login choice: the default option with this label.
fn login_option(label: &str, selected: bool) -> (r: ChoiceOption)
    ensures
        r.label@ == label@,
        r.internal_val@ == "option1"@,
        r.selected == selected,
        !r.disabled,
{
    let mut option = ChoiceOption::default();
    option.label = String::from_str(label);
    option.selected = selected;
    option
}

/// The account screen's widgets: the fields "Username" and "Password" (shown as placeholders,
/// the password masked), numbered `first_id` and the id after it (ids wrap around); the check box "Remember me",
/// unchecked; the buttons "Login" and "Test Login"; a default slider; and the choice of the
/// login service, "Google" (chosen) out of "Google", "GitHub", "Discord" and "Youtube", every
/// option keeping the default value.
pub fn setup_account_screen(first_id: usize) -> (r: AccountScreenWidgets)
    ensures
        r.username.id == first_id,
        r.username.placeholder@ == "Username"@,
        r.username.text@.len() == 0,
        r.username.is_enabled && r.password.is_enabled,
        !r.username.is_focused && !r.password.is_focused,
        !r.username.is_hovered && !r.password.is_hovered,
        !r.username.is_delete_after_enter && !r.password.is_delete_after_enter,
        r.username.cursor_position == 0 && r.password.cursor_position == 0,
        r.username.max_length == 20 && r.password.max_length == 20,
        r.password.id == (if first_id == usize::MAX { 0 } else { first_id + 1 }),
        r.password.placeholder@ == "Password"@,
        r.password.text@.len() == 0,
        r.password_type == InputType::Password,
        !r.remember_me.checked,
        r.remember_me.label@ == "Remember me"@,
        r.login.0@ == "Login"@,
        r.test_login.0@ == "Test Login"@,
        r.slider == (Slider { value: 0, step: 1, min: 0, max: 100 }),
        r.login_choice.value.label@ == "Google"@,
        r.login_choice.value.selected,
        r.login_choice.value.internal_val@ == "option1"@,
        !r.login_choice.value.disabled,
        forall|i: int| 0 <= i < 4 ==> !(#[trigger] r.login_choice.options@[i]).disabled,
        r.login_choice.options@.len() == 4,
        r.login_choice.options@[0].label@ == "Google"@,
        r.login_choice.options@[1].label@ == "GitHub"@,
        r.login_choice.options@[2].label@ == "Discord"@,
        r.login_choice.options@[3].label@ == "Youtube"@,
        r.login_choice.options@[0].selected,
        forall|i: int| 1 <= i < 4 ==> !(#[trigger] r.login_choice.options@[i]).selected,
        forall|i: int| 0 <= i < 4 ==> (#[trigger] r.login_choice.options@[i]).internal_val@ == "option1"@,
{
    let username = TextField::new("Username", true, first_id);
    let password = TextField::new("Password", true, first_id.wrapping_add(1));
    let mut remember_me = CheckBox::default();
    remember_me.label = String::from_str("Remember me");
    let options = vec![
        login_option("Google", true),
        login_option("GitHub", false),
        login_option("Discord", false),
        login_option("Youtube", false),
    ];
    AccountScreenWidgets {
        username,
        password,
        password_type: InputType::Password,
        remember_me,
        login: UiButton(String::from_str("Login")),
        test_login: UiButton(String::from_str("Test Login")),
        slider: Slider::default(),
        login_choice: ChoiceBox { value: login_option("Google", true), options },
    }
}

/// The main menu shows the button "Game Start".
pub fn setup_main_menu() -> (r: UiButton)
    ensures
        r.0@ == "Game Start"@,
{
    UiButton(String::from_str("Game Start"))
}

} // verus!
