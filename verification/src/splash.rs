//! The splash screen: the studio name, then "Powered By", each faded in and out, then the main menu.
use vstd::prelude::*;

verus! {

/// The phases of the splash screen, in the order they are shown.
#[derive(Clone, Copy, Debug, PartialEq, Eq, Structural, Hash)]
pub enum SplashFadePhase {
    FadeInStudio,
    StudioDisplay,
    FadeOutStudio,
    FadeInPowered,
    PoweredDisplay,
    FadeOutPowered,
}

impl Default for SplashFadePhase {
    /// The splash screen starts by fading the studio name in.
    fn default() -> (r: Self)
        ensures
            r == SplashFadePhase::FadeInStudio,
    {
        SplashFadePhase::FadeInStudio
    }
}

/// The place of a phase in the order of the splash screen.
pub open spec fn phase_rank(phase: SplashFadePhase) -> int {
    match phase {
        SplashFadePhase::FadeInStudio => 0,
        SplashFadePhase::StudioDisplay => 1,
        SplashFadePhase::FadeOutStudio => 2,
        SplashFadePhase::FadeInPowered => 3,
        SplashFadePhase::PoweredDisplay => 4,
        SplashFadePhase::FadeOutPowered => 5,
    }
}

/// The direction of the overlay's fade.
#[derive(Clone, Copy, Debug, PartialEq, Eq, Structural)]
pub enum FadeDirection {
    /// From opaque to clear: what is behind the overlay appears.
    Reveal,
    /// From clear to opaque: what is behind the overlay disappears.
    Cover,
}

/// The timers that measure how long a screen is displayed.
#[derive(Clone, Copy, Debug, PartialEq, Eq, Structural)]
pub enum SplashTimerKind {
    /// How long the studio name is shown.
    Studio,
    /// How long "Powered By" is shown.
    Powered,
}

/// What the splash screen does in one frame.
#[derive(Clone, Copy, Debug, PartialEq, Eq, Structural)]
pub struct SplashStep {
    /// The phase to go to, if it changes.
    pub next_phase: Option<SplashFadePhase>,
    /// The fade to restart, if any.
    pub restart_fade: Option<FadeDirection>,
    /// Replace the studio name by "Powered By" and the engine's logo.
    pub show_powered_by: bool,
    /// Remove the splash screen and its overlay and go to the main menu.
    pub finish: bool,
}

/// The display timer that runs in a phase: the studio timer while the studio name is shown,
/// the other while "Powered By" is shown, none while fading.
pub fn display_timer(phase: SplashFadePhase) -> (r: Option<SplashTimerKind>)
    ensures
        r == (match phase {
            SplashFadePhase::StudioDisplay => Some(SplashTimerKind::Studio),
            SplashFadePhase::PoweredDisplay => Some(SplashTimerKind::Powered),
            _ => None::<SplashTimerKind>,
        }),
{
    match phase {
        SplashFadePhase::StudioDisplay => Some(SplashTimerKind::Studio),
        SplashFadePhase::PoweredDisplay => Some(SplashTimerKind::Powered),
        _ => None,
    }
}

/// What one frame of the splash screen does (see [`splash_screen_update`]).
pub open spec fn splash_step(
    phase: SplashFadePhase,
    display_finished: bool,
    skip_pressed: bool,
    fade_finished: bool,
) -> SplashStep {
    let stay = SplashStep { next_phase: None, restart_fade: None, show_powered_by: false, finish: false };
    match phase {
        SplashFadePhase::StudioDisplay => if display_finished || skip_pressed {
            SplashStep {
                next_phase: Some(SplashFadePhase::FadeOutStudio),
                restart_fade: Some(FadeDirection::Cover),
                show_powered_by: false,
                finish: false,
            }
        } else {
            stay
        },
        SplashFadePhase::FadeInPowered => SplashStep {
            next_phase: Some(SplashFadePhase::PoweredDisplay),
            restart_fade: Some(FadeDirection::Reveal),
            show_powered_by: true,
            finish: false,
        },
        SplashFadePhase::PoweredDisplay => if display_finished || skip_pressed {
            SplashStep {
                next_phase: Some(SplashFadePhase::FadeOutPowered),
                restart_fade: Some(FadeDirection::Cover),
                show_powered_by: false,
                finish: false,
            }
        } else {
            stay
        },
        SplashFadePhase::FadeOutPowered => SplashStep { finish: fade_finished, ..stay },
        _ => stay,
    }
}

/// One frame of the splash screen. While a screen is displayed, its display timer running out or
/// a skip key (Space, Escape, a mouse button) starts fading it out. When "Powered By" is to fade
/// in, the screen's content is replaced and the fade restarted. When the last fade is over, the
/// splash screen ends in the main menu. The fades themselves move the other phases on (see
/// [`fade_overlay_system`]).
pub fn splash_screen_update(
    phase: SplashFadePhase,
    display_finished: bool,
    skip_pressed: bool,
    fade_finished: bool,
) -> (r: SplashStep)
    ensures
        r == splash_step(phase, display_finished, skip_pressed, fade_finished),
{
    let stay = SplashStep { next_phase: None, restart_fade: None, show_powered_by: false, finish: false };
    match phase {
        SplashFadePhase::StudioDisplay => {
            if display_finished || skip_pressed {
                SplashStep {
                    next_phase: Some(SplashFadePhase::FadeOutStudio),
                    restart_fade: Some(FadeDirection::Cover),
                    show_powered_by: false,
                    finish: false,
                }
            } else {
                stay
            }
        },
        SplashFadePhase::FadeInPowered => SplashStep {
            next_phase: Some(SplashFadePhase::PoweredDisplay),
            restart_fade: Some(FadeDirection::Reveal),
            show_powered_by: true,
            finish: false,
        },
        SplashFadePhase::PoweredDisplay => {
            if display_finished || skip_pressed {
                SplashStep {
                    next_phase: Some(SplashFadePhase::FadeOutPowered),
                    restart_fade: Some(FadeDirection::Cover),
                    show_powered_by: false,
                    finish: false,
                }
            } else {
                stay
            }
        },
        SplashFadePhase::FadeOutPowered => SplashStep {
            next_phase: None,
            restart_fade: None,
            show_powered_by: false,
            finish: fade_finished,
        },
        _ => stay,
    }
}

/// The phase a finished fade leads to (see [`fade_overlay_system`]).
pub open spec fn phase_after_fade(phase: SplashFadePhase, fade_done: bool) -> Option<SplashFadePhase> {
    if !fade_done {
        None
    } else {
        match phase {
            SplashFadePhase::FadeInStudio => Some(SplashFadePhase::StudioDisplay),
            SplashFadePhase::FadeOutStudio => Some(SplashFadePhase::FadeInPowered),
            SplashFadePhase::FadeInPowered => Some(SplashFadePhase::PoweredDisplay),
            _ => None,
        }
    }
}

/// Once the overlay's fade is complete, a fading phase moves on: the studio name faded in is
/// displayed, the studio name faded out makes way for "Powered By", and "Powered By" faded in is
/// displayed. The last fade out is handled by [`splash_screen_update`].
pub fn fade_overlay_system(phase: SplashFadePhase, fade_done: bool) -> (r: Option<SplashFadePhase>)
    ensures
        r == phase_after_fade(phase, fade_done),
{
    if !fade_done {
        return None;
    }
    match phase {
        SplashFadePhase::FadeInStudio => Some(SplashFadePhase::StudioDisplay),
        SplashFadePhase::FadeOutStudio => Some(SplashFadePhase::FadeInPowered),
        SplashFadePhase::FadeInPowered => Some(SplashFadePhase::PoweredDisplay),
        _ => None,
    }
}

/// The splash screen only moves forward, one phase at a time, whichever system moves it; it
/// ends (in the main menu) only from the last phase, once its fade is over; and a display
/// phase is left only when its timer has run out or a skip key is pressed.
pub proof fn lemma_splash_moves_forward(
    phase: SplashFadePhase,
    display_finished: bool,
    skip_pressed: bool,
    fade_finished: bool,
)
    ensures
        ({
            let step = splash_step(phase, display_finished, skip_pressed, fade_finished);
            &&& step.next_phase matches Some(p) ==> phase_rank(p) == phase_rank(phase) + 1
            &&& step.finish <==> (phase == SplashFadePhase::FadeOutPowered && fade_finished)
            &&& (phase == SplashFadePhase::StudioDisplay || phase == SplashFadePhase::PoweredDisplay)
                ==> (step.next_phase is Some <==> display_finished || skip_pressed)
        }),
        phase_after_fade(phase, fade_finished) matches Some(p) ==> phase_rank(p) == phase_rank(phase) + 1,
{
}

/// The overlay fades the way the splash screen goes: leaving a display phase (its timer run out
/// or a skip key pressed) always starts a covering fade, so the screen fades out to black; going
/// to a fade-out phase always covers; and going from fading "Powered By" in to displaying it
/// restarts a revealing fade.
pub proof fn lemma_splash_fades_match_phases(
    phase: SplashFadePhase,
    display_finished: bool,
    skip_pressed: bool,
    fade_finished: bool,
)
    ensures
        ({
            let step = splash_step(phase, display_finished, skip_pressed, fade_finished);
            &&& (phase == SplashFadePhase::StudioDisplay || phase == SplashFadePhase::PoweredDisplay)
                && (display_finished || skip_pressed) ==> step.restart_fade == Some(FadeDirection::Cover)
            &&& (step.next_phase == Some(SplashFadePhase::FadeOutStudio) || step.next_phase == Some(
                SplashFadePhase::FadeOutPowered,
            )) ==> step.restart_fade == Some(FadeDirection::Cover)
            &&& step.next_phase == Some(SplashFadePhase::PoweredDisplay) ==> step.restart_fade == Some(
                FadeDirection::Reveal,
            ) && step.show_powered_by
            &&& step.next_phase is None ==> step.restart_fade is None && !step.show_powered_by
        }),
{
}

} // verus!
