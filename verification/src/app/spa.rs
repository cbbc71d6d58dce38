use vstd::prelude::*;

use super::screen::{Screen, TransitionPhase, is_start_screen, push_screen_name, screen_matches_phase, screen_name};
use crate::domain::dating::DatingEndReason;
use crate::domain::lifecycle::phase_check;
use crate::domain::phase::GamePhase;
use crate::domain::session::{
    DomainCommand, GameSession, SessionView, finished, new_session, session_step, session_valid, with_input,
};
use crate::domain::training::{TRAINING_ACTION_COUNT, action_order, training_action_at};
use crate::shared::{loading_tip, loading_tip_text};
use crate::text::{pop_char, push_char};

verus! {

/// The reply the date shows, revealed one character per tick.
pub const FAKE_RESPONSE: &'static str = "흠, 승부가 완벽했다고는 못 하겠지만... 네 논리에는 확실히 반짝이는 부분이 있었어.";

/// How long each court log line stays before the next one is revealed.
pub const COURT_LOG_STEP_NANOS: u64 = 520_000_000;

/// How long the old screen takes to fade out.
pub const FADE_OUT_NANOS: u64 = 800_000_000;

/// How long the new screen takes to fade in.
pub const FADE_IN_NANOS: u64 = 500_000_000;

/// The number of tabs on the home screen.
pub const HOME_TABS: usize = 5;

/// A key press, as the application reads it.
#[derive(Debug, Clone, Copy, PartialEq, Eq, Structural)]
pub enum Key {
    Esc,
    Enter,
    Left,
    Right,
    Up,
    Down,
    Backspace,
    Char(char),
    Other,
}

/// The clock readings one tick needs: how long the running transition and the current
/// court log line have lasted, and whether the loading bar is full.
#[derive(Debug, Clone, Copy, PartialEq, Eq, Structural)]
pub struct TickClock {
    pub transition_elapsed_nanos: u64,
    pub court_log_elapsed_nanos: u64,
    pub loading_complete: bool,
}

/// What a tick changed that the front end keeps time or opacity for.
#[derive(Debug, Clone, Copy, PartialEq, Eq, Structural)]
pub struct TickReport {
    /// The old screen finished fading out; the new one starts fading in.
    pub fade_in_started: bool,
    /// The transition is over; the screen is fully shown.
    pub transition_finished: bool,
    /// The loading bar filled and the fade to the training screen began.
    pub loading_transition_started: bool,
    /// Another court log line was revealed.
    pub court_log_advanced: bool,
}

/// The application: its screen, the game session, selections, typed input, the running
/// transition, the loading tip and the home tab.
pub struct SpaApp {
    session: GameSession,
    screen: Screen,
    focused_action: usize,
    shown_court_logs: usize,
    input: String,
    visible_response_chars: usize,
    transition_to: Option<Screen>,
    transition_phase: Option<TransitionPhase>,
    tip_header: String,
    tip_body: String,
    current_tab: usize,
}

/// The application as plain values.
pub struct AppView {
    pub session: SessionView,
    pub screen: Screen,
    pub focused_action: nat,
    pub shown_court_logs: nat,
    pub input: Seq<char>,
    pub visible_response_chars: nat,
    pub transition_to: Option<Screen>,
    pub transition_phase: Option<TransitionPhase>,
    pub tip_header: Seq<char>,
    pub tip_body: Seq<char>,
    pub current_tab: nat,
}

impl View for SpaApp {
    type V = AppView;

    closed spec fn view(&self) -> AppView {
        AppView {
            session: self.session@,
            screen: self.screen,
            focused_action: self.focused_action as nat,
            shown_court_logs: self.shown_court_logs as nat,
            input: self.input@,
            visible_response_chars: self.visible_response_chars as nat,
            transition_to: self.transition_to,
            transition_phase: self.transition_phase,
            tip_header: self.tip_header@,
            tip_body: self.tip_body@,
            current_tab: self.current_tab as nat,
        }
    }
}

/// The number of characters in the date's reply.
pub open spec fn fake_response_len() -> nat {
    FAKE_RESPONSE@.len()
}

/// What every application state keeps: a valid session, a listed training action in focus, a home tab
/// that exists, no more court lines or reply characters shown than there are,.
pub open spec fn app_valid(a: AppView) -> bool {
    &&& session_valid(a.session)
    &&& a.focused_action < TRAINING_ACTION_COUNT
    &&& a.current_tab < HOME_TABS
    &&& a.shown_court_logs <= a.session.court.log.len()
    &&& a.visible_response_chars <= fake_response_len()
}

/// A new application on `screen` with a fresh session (seed 1), the tip picked by
/// `tip_seed`, and focus on the middle home tab.
pub open spec fn new_app(screen: Screen, tip_seed: u32) -> AppView {
    AppView {
        session: new_session(1),
        screen,
        focused_action: 0,
        shown_court_logs: 0,
        input: seq![],
        visible_response_chars: 0,
        transition_to: None,
        transition_phase: None,
        tip_header: loading_tip_text(tip_seed).0,
        tip_body: loading_tip_text(tip_seed).1,
        current_tab: 2,
    }
}

/// Starts a fade to `target` unless a transition is already running.
pub open spec fn start_transition(a: AppView, target: Screen) -> AppView {
    if a.transition_to is None {
        AppView { transition_to: Some(target), transition_phase: Some(TransitionPhase::FadeOut), ..a }
    } else {
        a
    }
}

/// The screen each home tab leads to; the middle tab is home itself.
pub open spec fn home_tab_target(tab: nat) -> Option<Screen> {
    if tab == 0 {
        Some(Screen::Training)
    } else if tab == 1 {
        Some(Screen::Dating)
    } else if tab == 3 {
        Some(Screen::CourtReplay)
    } else if tab == 4 {
        Some(Screen::Result)
    } else {
        None
    }
}

/// What a key does: the new state and whether the application should exit, or the
/// text of the domain error that stopped it.
pub open spec fn key_step(a: AppView, key: Key) -> (AppView, Result<bool, Seq<char>>) {
    match (a.screen, key) {
        (Screen::Splash, Key::Esc) | (Screen::Home, Key::Esc) | (Screen::Splash, Key::Char('q'))
        | (Screen::Home, Key::Char('q')) => (a, Ok(true)),
        (_, Key::Esc) => (start_transition(a, Screen::Home), Ok(false)),
        (Screen::Splash, Key::Enter) => (
            AppView { screen: Screen::Home, transition_to: None, transition_phase: None, ..a },
            Ok(false),
        ),
        (Screen::Home, Key::Left) => (
            AppView { current_tab: if a.current_tab == 0 { 0 } else { (a.current_tab - 1) as nat }, ..a },
            Ok(false),
        ),
        (Screen::Home, Key::Right) => (
            AppView { current_tab: if a.current_tab + 1 > 4 { 4 } else { a.current_tab + 1 }, ..a },
            Ok(false),
        ),
        (Screen::Home, Key::Enter) => (
            match home_tab_target(a.current_tab) {
                Some(target) => start_transition(a, target),
                None => a,
            },
            Ok(false),
        ),
        (Screen::Training, Key::Up) => (
            AppView { focused_action: if a.focused_action == 0 { 0 } else { (a.focused_action - 1) as nat }, ..a },
            Ok(false),
        ),
        (Screen::Training, Key::Down) => (
            AppView { focused_action: if a.focused_action + 1 > 3 { 3 } else { a.focused_action + 1 }, ..a },
            Ok(false),
        ),
        (Screen::Training, Key::Enter) => match session_step(
            a.session,
            DomainCommand::CompleteTrainingAction(action_order()[a.focused_action as int]),
        ) {
            Ok(s) => (AppView { session: s, screen: Screen::CourtReplay, ..a }, Ok(false)),
            Err(e) => (a, Err(e.debug_text())),
        },
        (Screen::CourtReplay, Key::Enter) => (
            AppView { shown_court_logs: a.session.court.log.len(), screen: Screen::Dating, ..a },
            Ok(false),
        ),
        (Screen::Dating, Key::Enter) => {
            let cleared = AppView { input: seq![], ..a };
            match phase_check(a.session.phase, GamePhase::Dating) {
                Err(e) => (cleared, Err(e.debug_text())),
                Ok(_) => (
                    AppView {
                        session: finished(with_input(a.session, a.input), DatingEndReason::Completed),
                        screen: Screen::Result,
                        ..cleared
                    },
                    Ok(false),
                ),
            }
        },
        (Screen::Dating, Key::Backspace) => (
            AppView { input: if a.input.len() == 0 { a.input } else { a.input.drop_last() }, ..a },
            Ok(false),
        ),
        (Screen::Dating, Key::Char(c)) => (AppView { input: a.input.push(c), ..a }, Ok(false)),
        (Screen::Result, Key::Enter) => (a, Ok(true)),
        _ => (a, Ok(false)),
    }
}

/// No tick effect.
pub open spec fn no_report() -> TickReport {
    TickReport {
        fade_in_started: false,
        transition_finished: false,
        loading_transition_started: false,
        court_log_advanced: false,
    }
}

/// The transition half of a tick: a finished fade-out switches to the target and starts
/// the fade-in; a finished fade-in ends the transition.
pub open spec fn transition_tick(a: AppView, elapsed: u64) -> (AppView, TickReport) {
    match (a.transition_to, a.transition_phase) {
        (Some(target), Some(TransitionPhase::FadeOut)) => if elapsed >= FADE_OUT_NANOS {
            (
                AppView { screen: target, transition_phase: Some(TransitionPhase::FadeIn), ..a },
                TickReport { fade_in_started: true, ..no_report() },
            )
        } else {
            (a, no_report())
        },
        (Some(_), Some(TransitionPhase::FadeIn)) => if elapsed >= FADE_IN_NANOS {
            (
                AppView { transition_to: None, transition_phase: None, ..a },
                TickReport { transition_finished: true, ..no_report() },
            )
        } else {
            (a, no_report())
        },
        (Some(_), None) => (
            AppView { transition_to: None, transition_phase: None, ..a },
            TickReport { transition_finished: true, ..no_report() },
        ),
        _ => (a, no_report()),
    }
}

/// The screen half of a tick: a full loading bar fades to training, the court replay reveals
/// its next line when the current one has been shown long enough (and moves on to the
/// date after the last), and the date reveals one more character of its reply.
pub open spec fn screen_tick(a: AppView, clock: TickClock, report: TickReport) -> (AppView, TickReport) {
    match a.screen {
        Screen::Loading => if a.transition_to is None && clock.loading_complete {
            (
                AppView { transition_to: Some(Screen::Training), transition_phase: Some(TransitionPhase::FadeOut), ..a },
                TickReport { loading_transition_started: true, ..report },
            )
        } else {
            (a, report)
        },
        Screen::CourtReplay => if clock.court_log_elapsed_nanos >= COURT_LOG_STEP_NANOS {
            let len = a.session.court.log.len();
            let shown = if a.shown_court_logs + 1 > len { len } else { a.shown_court_logs + 1 };
            (
                AppView { shown_court_logs: shown, screen: if shown == len { Screen::Dating } else { a.screen }, ..a },
                TickReport { court_log_advanced: true, ..report },
            )
        } else {
            (a, report)
        },
        Screen::Dating => (
            AppView {
                visible_response_chars: if a.visible_response_chars + 1 > fake_response_len() {
                    fake_response_len()
                } else {
                    a.visible_response_chars + 1
                },
                ..a
            },
            report,
        ),
        _ => (a, report),
    }
}

/// One tick: the transition half, then (unless the transition was found broken) the
/// screen half on the screen it left.
pub open spec fn tick_step(a: AppView, clock: TickClock) -> (AppView, TickReport) {
    let t = transition_tick(a, clock.transition_elapsed_nanos);
    if a.transition_to is Some && a.transition_phase is None {
        t
    } else {
        screen_tick(t.0, clock, t.1)
    }
}

impl SpaApp {
    /// A new application on `screen`; refused unless it is a start screen, since a new
    /// session is always in training.
    pub fn new_with_screen(screen: Screen, tip_seed: u32) -> (r: Result<SpaApp, String>)
        ensures
            is_start_screen(screen) ==> r is Ok && r->Ok_0@ == new_app(screen, tip_seed) && app_valid(r->Ok_0@),
            !is_start_screen(screen) ==> r is Err && r->Err_0@ == "invalid start screen for new session: "@
                + screen_name(screen),
    {
        if !(screen == Screen::Splash || screen == Screen::Loading || screen == Screen::Home || screen == Screen::Training) {
            let mut msg = String::from_str("invalid start screen for new session: ");
            push_screen_name(&mut msg, screen);
            return Err(msg);
        }
        Ok(Self::new_training_phase(screen, tip_seed))
    }

    /// A new application on the splash screen.
    pub fn new(tip_seed: u32) -> (app: SpaApp)
        ensures
            app@ == new_app(Screen::Splash, tip_seed),
            app_valid(app@),
    {
        Self::new_training_phase(Screen::Splash, tip_seed)
    }

    fn new_training_phase(screen: Screen, tip_seed: u32) -> (app: SpaApp)
        ensures
            app@ == new_app(screen, tip_seed),
            app_valid(app@),
    {
        let tip = loading_tip(tip_seed);
        let app = SpaApp {
            session: GameSession::new(1),
            screen,
            focused_action: 0,
            shown_court_logs: 0,
            input: String::new(),
            visible_response_chars: 0,
            transition_to: None,
            transition_phase: None,
            tip_header: String::from_str(tip.0),
            tip_body: String::from_str(tip.1),
            current_tab: 2,
        };
        app
    }

    pub fn screen(&self) -> (s: Screen)
        ensures
            s == self@.screen,
    {
        self.screen
    }

    pub fn phase(&self) -> (p: GamePhase)
        ensures
            p == self@.session.phase,
    {
        self.session.phase()
    }

    pub fn session(&self) -> (s: &GameSession)
        ensures
            s@ == self@.session,
    {
        &self.session
    }

    pub fn court_log_len(&self) -> (n: usize)
        ensures
            n == self@.session.court.log.len(),
    {
        self.session.court_log().len()
    }

    pub fn focused_action(&self) -> (n: usize)
        ensures
            n == self@.focused_action,
    {
                self.focused_action
    }

    pub fn shown_court_logs(&self) -> (n: usize)
        ensures
            n == self@.shown_court_logs,
    {
                self.shown_court_logs
    }

    pub fn visible_response_chars(&self) -> (n: usize)
        ensures
            n == self@.visible_response_chars,
    {
                self.visible_response_chars
    }

    pub fn input(&self) -> (s: &str)
        ensures
            s@ == self@.input,
    {
        self.input.as_str()
    }

    pub fn transition_to(&self) -> (t: Option<Screen>)
        ensures
            t == self@.transition_to,
    {
        self.transition_to
    }

    pub fn transition_phase(&self) -> (t: Option<TransitionPhase>)
        ensures
            t == self@.transition_phase,
    {
        self.transition_phase
    }

    pub fn current_tab(&self) -> (n: usize)
        ensures
            n == self@.current_tab,
    {
                self.current_tab
    }

    pub fn tip_header(&self) -> (s: &str)
        ensures
            s@ == self@.tip_header,
    {
        self.tip_header.as_str()
    }

    pub fn tip_body(&self) -> (s: &str)
        ensures
            s@ == self@.tip_body,
    {
        self.tip_body.as_str()
    }

    /// Whether the screen shown belongs with the session's phase.
    pub fn lifecycle_is_valid(&self) -> (b: bool)
        ensures
            b == screen_matches_phase(self@.screen, self@.session.phase),
    {
        let phase = self.session.phase();
        match self.screen {
            Screen::Splash | Screen::Loading | Screen::Home | Screen::Training => phase == GamePhase::Training,
            Screen::CourtReplay | Screen::Dating => phase == GamePhase::Dating,
            Screen::Result => phase == GamePhase::Result,
        }
    }

    fn begin_transition(&mut self, target: Screen)
        ensures
            final(self)@ == start_transition(old(self)@, target),
    {
        if self.transition_to.is_none() {
            self.transition_phase = Some(TransitionPhase::FadeOut);
            self.transition_to = Some(target);
        }
    }

    /// Handles a key press; `Ok(true)` asks the application to exit.
    pub fn on_key(&mut self, key: Key) -> (r: Result<bool, String>)
        requires
            app_valid(old(self)@),
        ensures
            final(self)@ == key_step(old(self)@, key).0,
            app_valid(final(self)@),
            match key_step(old(self)@, key).1 {
                Ok(exit) => r == Ok::<bool, String>(exit),
                Err(msg) => r is Err && r->Err_0@ == msg,
            },
    {
        match (self.screen, key) {
            (Screen::Splash, Key::Esc) | (Screen::Home, Key::Esc) | (Screen::Splash, Key::Char('q'))
            | (Screen::Home, Key::Char('q')) => return Ok(true),
            (_, Key::Esc) => {
                self.begin_transition(Screen::Home);
            },
            (Screen::Splash, Key::Enter) => {
                self.screen = Screen::Home;
                self.transition_phase = None;
                self.transition_to = None;
            },
            (Screen::Home, Key::Left) => {
                self.current_tab = if self.current_tab == 0 { 0 } else { self.current_tab - 1 };
            },
            (Screen::Home, Key::Right) => {
                self.current_tab = if self.current_tab + 1 > 4 { 4 } else { self.current_tab + 1 };
            },
            (Screen::Home, Key::Enter) => {
                if self.transition_to.is_none() {
                    let target = match self.current_tab {
                        0 => Some(Screen::Training),
                        1 => Some(Screen::Dating),
                        3 => Some(Screen::CourtReplay),
                        4 => Some(Screen::Result),
                        _ => None,
                    };
                    if let Some(screen) = target {
                        self.begin_transition(screen);
                    }
                }
            },
            (Screen::Training, Key::Up) => {
                self.focused_action = if self.focused_action == 0 { 0 } else { self.focused_action - 1 };
            },
            (Screen::Training, Key::Down) => {
                self.focused_action = if self.focused_action + 1 > TRAINING_ACTION_COUNT - 1 {
                    TRAINING_ACTION_COUNT - 1
                } else {
                    self.focused_action + 1
                };
            },
            (Screen::Training, Key::Enter) => {
                let action = training_action_at(self.focused_action);
                let mut session = GameSession::new(0);
                std::mem::swap(&mut session, &mut self.session);
                let result = session.complete_training_action(action.id);
                std::mem::swap(&mut session, &mut self.session);
                match result {
                    Err(e) => return Err(e.describe()),
                    Ok(()) => {},
                }
                self.screen = Screen::CourtReplay;
            },
            (Screen::CourtReplay, Key::Enter) => {
                self.shown_court_logs = self.session.court_log().len();
                self.screen = Screen::Dating;
            },
            (Screen::Dating, Key::Enter) => {
                let mut input = String::new();
                std::mem::swap(&mut input, &mut self.input);
                let mut session = GameSession::new(0);
                std::mem::swap(&mut session, &mut self.session);
                let submitted = session.submit_dating_input(input);
                let finished_ok = match submitted {
                    Ok(()) => session.finish_dating(DatingEndReason::Completed),
                    Err(e) => Err(e),
                };
                std::mem::swap(&mut session, &mut self.session);
                match finished_ok {
                    Err(e) => return Err(e.describe()),
                    Ok(()) => {},
                }
                self.screen = Screen::Result;
            },
            (Screen::Dating, Key::Backspace) => {
                let mut input = String::new();
                std::mem::swap(&mut input, &mut self.input);
                let _ = pop_char(&mut input);
                std::mem::swap(&mut input, &mut self.input);
            },
            (Screen::Dating, Key::Char(ch)) => {
                let mut input = String::new();
                std::mem::swap(&mut input, &mut self.input);
                push_char(&mut input, ch);
                std::mem::swap(&mut input, &mut self.input);
            },
            (Screen::Result, Key::Enter) => return Ok(true),
            _ => {},
        }
        Ok(false)
    }
}

impl SpaApp {
    /// Advances the animations by one tick with the given clock readings; the report says
    /// which timers and opacities the front end has to reset.
    pub fn tick(&mut self, clock: TickClock) -> (report: TickReport)
        requires
            app_valid(old(self)@),
        ensures
            (final(self)@, report) == tick_step(old(self)@, clock),
            app_valid(final(self)@),
    {
        let mut report = TickReport {
            fade_in_started: false,
            transition_finished: false,
            loading_transition_started: false,
            court_log_advanced: false,
        };
        if let Some(target) = self.transition_to {
            match self.transition_phase {
                None => {
                    self.transition_to = None;
                    self.transition_phase = None;
                    report.transition_finished = true;
                    return report;
                },
                Some(TransitionPhase::FadeOut) => {
                    if clock.transition_elapsed_nanos >= FADE_OUT_NANOS {
                        self.screen = target;
                        self.transition_phase = Some(TransitionPhase::FadeIn);
                        report.fade_in_started = true;
                    }
                },
                Some(TransitionPhase::FadeIn) => {
                    if clock.transition_elapsed_nanos >= FADE_IN_NANOS {
                        self.transition_to = None;
                        self.transition_phase = None;
                        report.transition_finished = true;
                    }
                },
            }
        }
        match self.screen {
            Screen::Loading => {
                if self.transition_to.is_none() && clock.loading_complete {
                    self.transition_to = Some(Screen::Training);
                    self.transition_phase = Some(TransitionPhase::FadeOut);
                    report.loading_transition_started = true;
                }
            },
            Screen::CourtReplay => {
                if clock.court_log_elapsed_nanos >= COURT_LOG_STEP_NANOS {
                    let len = self.session.court_log().len();
                    self.shown_court_logs = if self.shown_court_logs >= len {
                        len
                    } else {
                        self.shown_court_logs + 1
                    };
                    report.court_log_advanced = true;
                    if self.shown_court_logs == len {
                        self.screen = Screen::Dating;
                    }
                }
            },
            Screen::Dating => {
                let total = FAKE_RESPONSE.unicode_len();
                self.visible_response_chars = if self.visible_response_chars >= total {
                    total
                } else {
                    self.visible_response_chars + 1
                };
            },
            _ => {},
        }
        report
    }
}

/// Key presses keep the screen in step with the domain phase: a state whose screen
/// belongs with its session's phase still does after any key.
pub proof fn lemma_key_keeps_lifecycle(a: AppView, key: Key)
    requires
        app_valid(a),
        screen_matches_phase(a.screen, a.session.phase),
    ensures
        screen_matches_phase(key_step(a, key).0.screen, key_step(a, key).0.session.phase),
{
}

/// Key presses and ticks keep every application state valid.
pub proof fn lemma_steps_keep_app_valid(a: AppView, key: Key, clock: TickClock)
    requires
        app_valid(a),
    ensures
        app_valid(key_step(a, key).0),
        app_valid(tick_step(a, clock).0),
{
    crate::domain::session::lemma_step_keeps_session_valid(
        a.session,
        DomainCommand::CompleteTrainingAction(action_order()[a.focused_action as int]),
    );
}

/// Ticks keep the screen in step with the domain phase as long as a running transition
/// leads to a screen that belongs with the phase; transitions the player starts from the
/// home tabs or with Esc are the only way out of step.
pub proof fn lemma_tick_keeps_lifecycle(a: AppView, clock: TickClock)
    requires
        app_valid(a),
        screen_matches_phase(a.screen, a.session.phase),
        a.transition_to matches Some(target) ==> screen_matches_phase(target, a.session.phase),
    ensures
        screen_matches_phase(tick_step(a, clock).0.screen, tick_step(a, clock).0.session.phase),
{
}

/// The home tab bar: Left and Right move the highlighted tab by one within the five
/// tabs and change nothing else; Enter with no transition running fades to the tab's
/// screen (training, the date, nothing for the middle home tab, the court replay, the
/// result) and changes nothing else. None of these keys quits.
pub proof fn lemma_home_tabs(a: AppView)
    requires
        app_valid(a),
        a.screen == Screen::Home,
    ensures
        key_step(a, Key::Right) == (AppView { current_tab: if a.current_tab == 4 { 4 } else { a.current_tab + 1 }, ..a }, Ok::<bool, Seq<char>>(false)),
        key_step(a, Key::Left) == (AppView { current_tab: if a.current_tab == 0 { 0 } else { (a.current_tab - 1) as nat }, ..a }, Ok::<bool, Seq<char>>(false)),
        key_step(a, Key::Enter).1 == Ok::<bool, Seq<char>>(false),
        a.transition_to is None && a.current_tab == 0 ==> key_step(a, Key::Enter).0 == (AppView {
            transition_to: Some(Screen::Training),
            transition_phase: Some(TransitionPhase::FadeOut),
            ..a
        }),
        a.transition_to is None && a.current_tab == 1 ==> key_step(a, Key::Enter).0 == (AppView {
            transition_to: Some(Screen::Dating),
            transition_phase: Some(TransitionPhase::FadeOut),
            ..a
        }),
        a.current_tab == 2 ==> key_step(a, Key::Enter).0 == a,
        a.transition_to is None && a.current_tab == 3 ==> key_step(a, Key::Enter).0 == (AppView {
            transition_to: Some(Screen::CourtReplay),
            transition_phase: Some(TransitionPhase::FadeOut),
            ..a
        }),
        a.transition_to is None && a.current_tab == 4 ==> key_step(a, Key::Enter).0 == (AppView {
            transition_to: Some(Screen::Result),
            transition_phase: Some(TransitionPhase::FadeOut),
            ..a
        }),
        a.transition_to is Some ==> key_step(a, Key::Enter).0 == a,
{
}

/// Only the training, splash, loading and home screens can start a new session.
pub proof fn lemma_new_app_in_step(screen: Screen, tip_seed: u32)
    requires
        is_start_screen(screen),
    ensures
        screen_matches_phase(new_app(screen, tip_seed).screen, new_app(screen, tip_seed).session.phase),
        app_valid(new_app(screen, tip_seed)),
{
}

} // verus!
