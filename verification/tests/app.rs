use furina_advocate_sim::app::presenter::{
    draw_overlay, fit_portrait_panel, frame_reusable, panel_rect, portrait, should_render, terminal_frame,
};
use furina_advocate_sim::app::screen::{Screen, TransitionPhase};
use furina_advocate_sim::app::spa::{Key, SpaApp, TickClock, FAKE_RESPONSE};
use furina_advocate_sim::app::text_view::{bar, wrap_text, write_stats};
use furina_advocate_sim::app::view_model::{court_result_summary, stats_summary};
use furina_advocate_sim::domain::court::{CourtResult, CourtVerdict};
use furina_advocate_sim::domain::phase::GamePhase;
use furina_advocate_sim::domain::training::AdvocateStats;
use furina_advocate_sim::render::scene::SceneKind;
use furina_advocate_sim::render::tokens::Progress;
use furina_advocate_sim::shared::loading_tip;
use furina_advocate_sim::terminal::layout::CellRect;
use furina_advocate_sim::terminal::layout::rect_to_pixels;
use furina_advocate_sim::terminal::metrics::{MetricSource, TerminalGrid, TerminalMetrics, TerminalPixels};

const PORTRAIT_ASPECT: f64 = 600.0 / 900.0;

fn clock(transition_ms: u64, court_ms: u64, loading_complete: bool) -> TickClock {
    TickClock {
        transition_elapsed_nanos: transition_ms * 1_000_000,
        court_log_elapsed_nanos: court_ms * 1_000_000,
        loading_complete,
    }
}

#[test]
fn enter_training_starts_court_replay() {
    let mut app = SpaApp::new_with_screen(Screen::Training, 0).unwrap();
    assert!(!app.on_key(Key::Enter).unwrap());
    assert!(matches!(app.screen(), Screen::CourtReplay));
    assert_eq!(app.phase(), GamePhase::Dating);
    assert_eq!(app.court_log_len(), 3);
    assert!(app.lifecycle_is_valid());
}

#[test]
fn builds_view_model_from_training_focus() {
    let mut app = SpaApp::new_with_screen(Screen::Training, 0).unwrap();
    app.on_key(Key::Down).unwrap();
    app.on_key(Key::Down).unwrap();
    let view = app.view_model();
    assert_eq!(view.title, "TRAINING");
    assert!(view.subtitle.contains("Law Study"));
    assert!(view.body.contains("LOG"));
}

#[test]
fn screen_and_domain_phase_move_together() {
    let mut app = SpaApp::new_with_screen(Screen::Training, 0).unwrap();
    assert!(app.lifecycle_is_valid());

    app.on_key(Key::Enter).unwrap();
    assert!(matches!(app.screen(), Screen::CourtReplay));
    assert!(app.lifecycle_is_valid());

    app.on_key(Key::Enter).unwrap();
    assert!(matches!(app.screen(), Screen::Dating));
    assert!(app.lifecycle_is_valid());

    app.on_key(Key::Enter).unwrap();
    assert!(matches!(app.screen(), Screen::Result));
    assert!(app.lifecycle_is_valid());
}

#[test]
fn rejects_non_initial_start_screens() {
    for screen in [Screen::CourtReplay, Screen::Dating, Screen::Result] {
        assert!(SpaApp::new_with_screen(screen, 0).is_err());
    }
    assert_eq!(
        SpaApp::new_with_screen(Screen::Dating, 0).err().unwrap(),
        "invalid start screen for new session: Dating"
    );
}

#[test]
fn presenter_key_changes_when_view_changes() {
    let mut app = SpaApp::new_with_screen(Screen::Training, 0).unwrap();
    let first = app.view_model();
    app.on_key(Key::Down).unwrap();
    let second = app.view_model();
    assert_ne!(first, second);
}

#[test]
fn training_view_lists_actions() {
    let mut app = SpaApp::new_with_screen(Screen::Training, 0).unwrap();
    app.on_key(Key::Down).unwrap();
    let view = app.view_model();
    assert_eq!(view.subtitle, "focus: Speech Practice");
    assert_eq!(view.side_body, "Logic Drill / > Speech Practice / Law Study / Nerve Control");
    assert_eq!(view.body, "LOG 28 MEN 35 SPC 32 GUT 24 INT 30");
    assert_eq!(view.progress, Progress::Percent(50));
    assert_eq!(view.scene, SceneKind::Training);
    for _ in 0..5 {
        app.on_key(Key::Down).unwrap();
    }
    assert_eq!(app.focused_action(), 3);
}

#[test]
fn court_replay_reveals_logs_then_dates() {
    let mut app = SpaApp::new_with_screen(Screen::Training, 0).unwrap();
    app.on_key(Key::Enter).unwrap();
    let view = app.view_model();
    assert_eq!(view.subtitle, "logs 0/3");
    assert_eq!(view.body, "preparing argument");
    let report = app.tick(clock(0, 100, false));
    assert!(!report.court_log_advanced);
    let report = app.tick(clock(0, 520, false));
    assert!(report.court_log_advanced);
    assert_eq!(app.shown_court_logs(), 1);
    let view = app.view_model();
    assert_eq!(view.subtitle, "logs 1/3");
    assert_eq!(view.progress, Progress::Ratio(1, 3));
    let log = app.session().court_log().to_vec();
    assert_eq!(view.body, log[0]);
    assert_eq!(view.side_body, log[0]);
    app.tick(clock(0, 600, false));
    let view = app.view_model();
    assert_eq!(view.body, log[1]);
    assert_eq!(view.side_body, format!("{} | {}", log[0], log[1]));
    app.tick(clock(0, 600, false));
    assert_eq!(app.screen(), Screen::Dating);
    assert!(app.lifecycle_is_valid());
}

#[test]
fn dating_input_and_reply() {
    let mut app = SpaApp::new_with_screen(Screen::Training, 0).unwrap();
    app.on_key(Key::Enter).unwrap();
    app.on_key(Key::Enter).unwrap();
    app.on_key(Key::Char('h')).unwrap();
    app.on_key(Key::Char('q')).unwrap();
    app.on_key(Key::Backspace).unwrap();
    app.on_key(Key::Char('i')).unwrap();
    assert_eq!(app.input(), "hi");
    app.tick(clock(0, 0, false));
    app.tick(clock(0, 0, false));
    let view = app.view_model();
    assert_eq!(view.body, FAKE_RESPONSE.chars().take(2).collect::<String>());
    assert_eq!(view.side_body, "hi");
    app.on_key(Key::Enter).unwrap();
    assert_eq!(app.screen(), Screen::Result);
    assert_eq!(app.input(), "");
    assert_eq!(app.session().transcript_len(), 2);
    let view = app.view_model();
    assert_eq!(view.body, "2");
    assert!(view.subtitle.starts_with("verdict="));
    assert!(app.on_key(Key::Enter).unwrap());
}

#[test]
fn home_tabs_and_transitions() {
    let mut app = SpaApp::new_with_screen(Screen::Splash, 0).unwrap();
    assert!(!app.on_key(Key::Enter).unwrap());
    assert_eq!(app.screen(), Screen::Home);
    app.on_key(Key::Left).unwrap();
    app.on_key(Key::Left).unwrap();
    app.on_key(Key::Left).unwrap();
    assert_eq!(app.current_tab(), 0);
    app.on_key(Key::Enter).unwrap();
    assert_eq!(app.transition_to(), Some(Screen::Training));
    let report = app.tick(clock(799, 0, false));
    assert!(!report.fade_in_started);
    assert_eq!(app.screen(), Screen::Home);
    let report = app.tick(clock(800, 0, false));
    assert!(report.fade_in_started);
    assert_eq!(app.screen(), Screen::Training);
    let report = app.tick(clock(500, 0, false));
    assert!(report.transition_finished);
    assert_eq!(app.transition_to(), None);
    assert!(app.on_key(Key::Esc).unwrap() == false);
    assert_eq!(app.transition_to(), Some(Screen::Home));
}

#[test]
fn loading_finishes_into_training() {
    let mut app = SpaApp::new_with_screen(Screen::Loading, 1).unwrap();
    let view = app.view_model();
    assert_eq!(view.subtitle, loading_tip(1).0);
    assert_eq!(view.progress, Progress::Animated);
    let report = app.tick(clock(0, 0, false));
    assert!(!report.loading_transition_started);
    let report = app.tick(clock(0, 0, true));
    assert!(report.loading_transition_started);
    assert_eq!(app.transition_to(), Some(Screen::Training));
    assert_eq!(app.transition_phase(), Some(TransitionPhase::FadeOut));
    let report = app.tick(clock(800_000_000, 0, false));
    assert!(report.fade_in_started);
    assert_eq!(app.screen(), Screen::Training);
    let report = app.tick(clock(500_000_000, 0, false));
    assert!(report.transition_finished);
    assert_eq!(app.screen(), Screen::Training);
    assert!(app.lifecycle_is_valid());
}

#[test]
fn quit_keys() {
    let mut app = SpaApp::new_with_screen(Screen::Home, 0).unwrap();
    assert!(app.on_key(Key::Char('q')).unwrap());
    let mut app = SpaApp::new(0);
    assert!(app.on_key(Key::Esc).unwrap());
}

#[test]
fn training_again_after_court_is_refused() {
    let mut app = SpaApp::new_with_screen(Screen::Training, 0).unwrap();
    app.on_key(Key::Enter).unwrap();
    app.on_key(Key::Esc).unwrap();
    app.tick(clock(800, 0, false));
    app.tick(clock(500, 0, false));
    assert_eq!(app.screen(), Screen::Home);
    app.on_key(Key::Left).unwrap();
    app.on_key(Key::Left).unwrap();
    app.on_key(Key::Enter).unwrap();
    app.tick(clock(800, 0, false));
    assert_eq!(app.screen(), Screen::Training);
    let err = app.on_key(Key::Enter).unwrap_err();
    assert_eq!(err, "InvalidPhase { expected: Training, actual: Dating }");
}

#[test]
fn portrait_panel_keeps_home_aspect() {
    let rect = fit_portrait_panel(
        TerminalGrid { cols: 160, rows: 60 },
        TerminalPixels { width: 1600, height: 1200 },
        75,
        45,
    );
    let aspect = f64::from(rect.width) * 10.0 / (f64::from(rect.height) * 20.0);
    assert!((aspect - PORTRAIT_ASPECT).abs() < 0.03);
}

#[test]
fn home_panel_uses_full_terminal_height() {
    let rect = panel_rect(
        Screen::Home,
        TerminalGrid { cols: 160, rows: 60 },
        TerminalPixels { width: 1600, height: 1200 },
    );
    assert_eq!(rect.height, 58);
}

#[test]
fn non_portrait_panel_fills_width() {
    let rect = panel_rect(
        Screen::Dating,
        TerminalGrid { cols: 120, rows: 40 },
        TerminalPixels { width: 1200, height: 800 },
    );
    assert_eq!(rect, CellRect { x: 0, y: 0, width: 120, height: 38 });
    assert!(portrait(Screen::Training));
    assert!(!portrait(Screen::Result));
}

#[test]
fn render_decisions() {
    assert!(should_render(false, true, false, SceneKind::Home, None));
    assert!(!should_render(true, true, true, SceneKind::Training, None));
    assert!(should_render(true, false, false, SceneKind::Result, Some(0)));
    assert!(!should_render(true, false, false, SceneKind::Home, Some(15_999_999)));
    assert!(should_render(true, false, false, SceneKind::Home, Some(16_000_000)));
}

#[test]
fn overlay_help_text() {
    let mut out = String::new();
    draw_overlay(&mut out, Screen::Dating, "hey", CellRect { x: 3, y: 1, width: 10, height: 5 });
    assert_eq!(
        out,
        "\x1b[7;5HProject-Y SPA SVG Loop | Up/Down Enter | q/Esc quit\x1b[8;5H> hey"
    );
}

#[test]
fn wraps_korean_and_english_without_losing_chars() {
    let text = "abc가나다def";
    let lines = wrap_text(text, 4);
    assert_eq!(lines.concat(), text);
    assert!(lines.iter().all(|line| line.chars().count() <= 4));
}

#[test]
fn wrap_with_zero_width_starts_with_empty_line() {
    assert_eq!(wrap_text("ab", 0), vec!["".to_string(), "a".to_string(), "b".to_string()]);
    assert!(wrap_text("", 3).is_empty());
}

#[test]
fn bars_and_stat_lines() {
    assert_eq!(bar(42), "[########............] 042");
    assert_eq!(bar(250), "[####################] 250");
    assert_eq!(bar(7), "[#...................] 007");
    let mut out = String::new();
    write_stats(&mut out, AdvocateStats::default());
    let first = out.lines().next().unwrap();
    assert_eq!(first, "Logic Speed     [#####...............] 028");
    assert_eq!(out.lines().count(), 5);
}

#[test]
fn summaries() {
    assert_eq!(stats_summary(AdvocateStats::default()), "LOG 28 MEN 35 SPC 32 GUT 24 INT 30");
    assert_eq!(
        court_result_summary(CourtResult { verdict: CourtVerdict::Loss, final_momentum: -21 }),
        "verdict=Loss momentum=-21"
    );
}

#[test]
fn loading_tips_cycle() {
    assert_eq!(loading_tip(0).0, "휴식 팁");
    assert_eq!(loading_tip(4), loading_tip(0));
    assert_eq!(loading_tip(3).0, "Fontaine 법률");
}

#[test]
fn terminal_frame_from_metrics() {
    let grid = TerminalGrid { cols: 160, rows: 60 };
    let pixels = TerminalPixels { width: 1600, height: 1200 };
    let known = TerminalMetrics { grid: Some(grid), pixels: Some(pixels), source: MetricSource::Ioctl };
    let frame = terminal_frame(Screen::Home, known).unwrap();
    let panel = panel_rect(Screen::Home, grid, pixels);
    let (_, _, w, h) = rect_to_pixels(grid, pixels, panel);
    assert_eq!(frame.panel, panel);
    assert_eq!((frame.render_width, frame.render_height), (w.max(1), h.max(1)));
    let no_pixels = TerminalMetrics { pixels: None, ..known };
    assert_eq!(terminal_frame(Screen::Home, no_pixels), Err("terminal pixel size is unknown".to_string()));
    let nothing = TerminalMetrics { grid: None, pixels: None, source: MetricSource::Unknown };
    assert_eq!(terminal_frame(Screen::Home, nothing), Err("terminal grid is unknown".to_string()));
    let empty = TerminalMetrics { pixels: Some(TerminalPixels { width: 0, height: 0 }), ..known };
    let tiny = terminal_frame(Screen::Training, empty).unwrap();
    assert_eq!((tiny.render_width, tiny.render_height), (1, 1));
}

#[test]
fn probed_frames_are_reused_briefly() {
    assert!(frame_reusable(Some(249_999_999), true));
    assert!(!frame_reusable(Some(250_000_000), true));
    assert!(!frame_reusable(Some(0), false));
    assert!(!frame_reusable(None, true));
}
