use vstd::prelude::*;

use crate::domain::phase::GamePhase;
use crate::render::scene::SceneKind;

verus! {

/// The screen the application shows.
#[derive(Debug, Clone, Copy, PartialEq, Eq, Structural)]
pub enum Screen {
    Splash,
    Loading,
    Home,
    Training,
    CourtReplay,
    Dating,
    Result,
}

/// The two halves of a screen change: the old screen fades out, the new one fades in.
#[derive(Debug, Clone, Copy, PartialEq, Eq, Structural)]
pub enum TransitionPhase {
    FadeOut,
    FadeIn,
}

/// The scene each screen is drawn with.
pub open spec fn scene_of(screen: Screen) -> SceneKind {
    match screen {
        Screen::Splash => SceneKind::Splash,
        Screen::Loading => SceneKind::Loading,
        Screen::Home => SceneKind::Home,
        Screen::Training => SceneKind::Training,
        Screen::CourtReplay => SceneKind::Court,
        Screen::Dating => SceneKind::Dating,
        Screen::Result => SceneKind::Result,
    }
}

/// The scene a screen is drawn with.
pub fn scene_for(screen: Screen) -> (s: SceneKind)
    ensures
        s == scene_of(screen),
{
    match screen {
        Screen::Splash => SceneKind::Splash,
        Screen::Loading => SceneKind::Loading,
        Screen::Home => SceneKind::Home,
        Screen::Training => SceneKind::Training,
        Screen::CourtReplay => SceneKind::Court,
        Screen::Dating => SceneKind::Dating,
        Screen::Result => SceneKind::Result,
    }
}

/// Which domain phase each screen belongs with: the start screens and training with
/// training, the court replay and the date with the date (the trial has already been
/// run), the result with the result.
pub open spec fn screen_matches_phase(screen: Screen, phase: GamePhase) -> bool {
    match screen {
        Screen::Splash | Screen::Loading | Screen::Home | Screen::Training => phase == GamePhase::Training,
        Screen::CourtReplay | Screen::Dating => phase == GamePhase::Dating,
        Screen::Result => phase == GamePhase::Result,
    }
}

/// Whether a new session may start on this screen.
pub open spec fn is_start_screen(screen: Screen) -> bool {
    screen == Screen::Splash || screen == Screen::Loading || screen == Screen::Home || screen == Screen::Training
}

/// Whether the screen uses the portrait panel.
pub open spec fn is_portrait(screen: Screen) -> bool {
    is_start_screen(screen)
}

/// The screen's name, as `{:?}` prints it.
pub open spec fn screen_name(screen: Screen) -> Seq<char> {
    match screen {
        Screen::Splash => "Splash"@,
        Screen::Loading => "Loading"@,
        Screen::Home => "Home"@,
        Screen::Training => "Training"@,
        Screen::CourtReplay => "CourtReplay"@,
        Screen::Dating => "Dating"@,
        Screen::Result => "Result"@,
    }
}

/// Appends the screen's name.
pub fn push_screen_name(s: &mut String, screen: Screen)
    ensures
        final(s)@ == old(s)@ + screen_name(screen),
{
    match screen {
        Screen::Splash => s.append("Splash"),
        Screen::Loading => s.append("Loading"),
        Screen::Home => s.append("Home"),
        Screen::Training => s.append("Training"),
        Screen::CourtReplay => s.append("CourtReplay"),
        Screen::Dating => s.append("Dating"),
        Screen::Result => s.append("Result"),
    }
}

} // verus!
