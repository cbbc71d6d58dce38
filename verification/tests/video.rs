use furina_advocate_sim::app::spa::Key;
use furina_advocate_sim::terminal::metrics::{MetricSource, TerminalGrid, TerminalMetrics, TerminalPixels};
use furina_advocate_sim::terminal::video::config::{AsciiVideoConfig, MAX_RENDER_CELLS, VideoRenderMode};
use furina_advocate_sim::terminal::video::events::{TermEvent, VideoEvent, classify_video_event};
use furina_advocate_sim::terminal::video::overlay::layout::{cap_render_size, compute_overlay_layout, fit_portrait_rect};
use furina_advocate_sim::terminal::video::overlay::{OverlayPhase, OverlayStage, RenderState, SplashOverlay};
use furina_advocate_sim::terminal::video::overlay::layout::OverlayLayout;
use furina_advocate_sim::terminal::layout::CellRect;
use furina_advocate_sim::terminal::video::render::{ascii_for_luma, luma, render_ascii_frame, render_frame, render_rgb_frame};
use furina_advocate_sim::terminal::video::resize::{VideoMetadata, parse_dimensions};
use furina_advocate_sim::terminal::video::viewport::{RenderViewport, cap_cells};
use furina_advocate_sim::terminal::video::{
    ResizeState, VideoExit, apply_pending_video_event, elapsed_frames, frame_deadline, resize_playback,
};

fn viewport(width: u32) -> RenderViewport {
    RenderViewport {
        pixel_width: width,
        pixel_height: 2,
        cell_rows: 1,
        offset_x: 0,
        offset_y: 0,
    }
}

#[test]
fn maps_luma_to_ascii_density() {
    assert_eq!(ascii_for_luma(0), b' ');
    assert_eq!(ascii_for_luma(255), b'@');
}

#[test]
fn renders_two_pixel_rows_as_one_ascii_row() {
    let frame = vec![
        0, 0, 0, 255, 255, 255, //
        0, 0, 0, 255, 255, 255,
    ];
    let mut out = Vec::new();
    render_ascii_frame(&frame, viewport(2), &mut out);
    assert_eq!(out, b"\x1b[?2026h\x1b[1;1H @\x1b[?2026l");
}

#[test]
fn renders_rgb_half_block_cells() {
    let frame = vec![1, 2, 3, 4, 5, 6];
    let mut out = Vec::new();
    render_rgb_frame(&frame, viewport(1), &mut out);
    assert_eq!(
        std::str::from_utf8(&out).unwrap(),
        "\x1b[?2026h\x1b[1;1H\x1b[38;2;1;2;3;48;2;4;5;6m▀\x1b[0m\x1b[?2026l"
    );
}

#[test]
fn rgb_rendering_only_resends_changed_colours() {
    let frame = vec![
        9, 9, 9, 9, 9, 9, 100, 0, 0, //
        1, 1, 1, 1, 1, 1, 1, 1, 1,
    ];
    let vp = RenderViewport { pixel_width: 3, pixel_height: 2, cell_rows: 1, offset_x: 4, offset_y: 10 };
    let mut out = Vec::new();
    render_frame(VideoRenderMode::Rgb, &frame, vp, &mut out);
    assert_eq!(
        std::str::from_utf8(&out).unwrap(),
        "\x1b[?2026h\x1b[11;5H\x1b[38;2;9;9;9;48;2;1;1;1m▀▀\x1b[38;2;100;0;0m▀\x1b[0m\x1b[?2026l"
    );
}

#[test]
fn luma_outside_frame_is_zero() {
    let frame = vec![255, 255, 255];
    assert_eq!(luma(&frame, 1, 0, 0), 255);
    assert_eq!(luma(&frame, 1, 0, 1), 0);
    assert_eq!(ascii_for_luma(128), b'=');
    assert_eq!(ascii_for_luma(1000), b'@');
}

#[test]
fn caps_large_viewport_to_render_budget() {
    let (cols, rows) = cap_cells(240, 80, Some(MAX_RENDER_CELLS));
    assert!(cols * rows <= MAX_RENDER_CELLS);
}

#[test]
fn small_viewport_uses_full_terminal_resolution() {
    assert_eq!(cap_cells(100, 40, Some(MAX_RENDER_CELLS)), (100, 40));
}

#[test]
fn uncapped_viewport_uses_full_terminal_resolution() {
    assert_eq!(cap_cells(240, 80, None), (240, 80));
}

#[test]
fn capped_viewport_exact_sizes() {
    assert_eq!(cap_cells(240, 80, Some(MAX_RENDER_CELLS)), (189, 63));
    assert_eq!(cap_cells(0, 0, None), (1, 1));
    let vp = RenderViewport::new(240, 80, Some(MAX_RENDER_CELLS));
    assert_eq!(vp.pixel_width, 189);
    assert_eq!(vp.pixel_height, 126);
    assert_eq!(vp.cell_rows, 63);
    assert_eq!(vp.offset_x, 25);
    assert_eq!(vp.offset_y, 8);
    assert_eq!(vp.frame_len(), 189 * 126 * 3);
}

#[test]
fn capped_grid_stays_within_budget_unless_a_side_is_kept_at_one() {
    for (cols, rows) in [(240u32, 80u32), (300, 100), (1000, 20)] {
        let (w, h) = cap_cells(cols, rows, Some(MAX_RENDER_CELLS));
        assert!(w * h <= MAX_RENDER_CELLS && w <= cols && h <= rows);
    }
    assert_eq!(cap_cells(1000, 20, Some(MAX_RENDER_CELLS)), (774, 15));
    assert_eq!(cap_cells(1000, 1, Some(10)), (100, 1));
}

#[test]
fn frame_deadline_tracks_rendered_frame_index() {
    let start = 0u64;
    let deadline = frame_deadline(start, 10_000_000, 3);
    assert_eq!(deadline - start, 30_000_000);
}

#[test]
fn elapsed_frames_counts_whole_frames() {
    assert_eq!(elapsed_frames(1_000_000_000, 24), 24);
    assert_eq!(elapsed_frames(999_999_999, 1), 0);
    assert_eq!(elapsed_frames(u64::MAX, u32::MAX), u64::MAX);
}

#[test]
fn resize_state_is_ready_immediately() {
    let mut state = ResizeState::new(None).unwrap();
    state.mark(120, 40);
    assert_eq!(state.ready(), Some((120, 40)));
}

#[test]
fn resize_state_polls_and_takes_once() {
    let mut state = ResizeState::new(Some((80, 24))).unwrap();
    assert_eq!(state.poll_due(99_999_999), Ok(false));
    assert_eq!(state.poll_due(100_000_000), Ok(true));
    state.poll_terminal(Some((80, 24))).unwrap();
    assert_eq!(state.ready(), None);
    state.poll_terminal(Some((100, 30))).unwrap();
    assert_eq!(state.ready(), Some((100, 30)));
    assert_eq!(state.ready(), None);
    assert_eq!(state.last_size, (100, 30));
}

#[test]
fn resize_playback_resizes_buffers_only_on_change() {
    let mut vp = RenderViewport::new(10, 5, None);
    let mut frame = vec![1u8; vp.frame_len()];
    let mut output = vec![7u8; 3];
    resize_playback(&mut vp, &mut frame, &mut output, 10, 5, None);
    assert_eq!(output, vec![7u8; 3]);
    resize_playback(&mut vp, &mut frame, &mut output, 20, 6, None);
    assert_eq!(vp.pixel_width, 20);
    assert_eq!(vp.pixel_height, 12);
    assert_eq!(frame.len(), 20 * 12 * 3);
    assert!(frame[..10 * 10 * 3].iter().all(|b| *b == 1));
    assert!(frame[10 * 10 * 3..].iter().all(|b| *b == 0));
    assert!(output.is_empty());
}

#[test]
fn resize_playback_recentres_the_viewport() {
    let mut vp = RenderViewport::new(10, 5, None);
    let mut frame = vec![1u8; vp.frame_len()];
    let mut output = Vec::new();
    resize_playback(&mut vp, &mut frame, &mut output, 240, 80, Some(MAX_RENDER_CELLS));
    assert_eq!(vp, RenderViewport::new(240, 80, Some(MAX_RENDER_CELLS)));
    assert_eq!((vp.offset_x, vp.offset_y), (25, 8));
    resize_playback(&mut vp, &mut frame, &mut output, 0, 0, None);
    assert_eq!(vp, RenderViewport { pixel_width: 1, pixel_height: 2, cell_rows: 1, offset_x: 0, offset_y: 0 });
    assert_eq!(frame, vec![1u8; 6]);
}

#[test]
fn overlay_layout_is_computed_once_per_size() {
    let grid = TerminalGrid { cols: 160, rows: 60 };
    let pixels = TerminalPixels { width: 1600, height: 1200 };
    let known = TerminalMetrics { grid: Some(grid), pixels: Some(pixels), source: MetricSource::Ioctl };
    let unknown = TerminalMetrics { grid: Some(grid), pixels: None, source: MetricSource::Env };
    let mut overlay = SplashOverlay::new("s.svg".to_string(), 0);
    assert_eq!(overlay.cached_layout(160, 60, unknown), Err("terminal pixel size is unknown".to_string()));
    assert!(overlay.last_layout.is_none());
    let layout = overlay.cached_layout(160, 60, known).unwrap();
    assert_eq!(layout, compute_overlay_layout(160, 60, known).unwrap());
    assert_eq!(overlay.last_layout, Some(layout));
    assert_eq!(overlay.kept_layout(160, 60), Some(layout));
    assert_eq!(overlay.kept_layout(80, 24), None);
    assert_eq!(overlay.cached_layout(160, 60, unknown), Ok(layout));
}

#[test]
fn overlay_start_and_resize_keep_everything_else() {
    let mut overlay = SplashOverlay::new("s.svg".to_string(), 3);
    let image = overlay.image;
    let header = overlay.tip_header.clone();
    overlay.trigger_start(5);
    overlay.trigger_start(9);
    assert_eq!(overlay.phase, OverlayPhase::SplashFadeOut { start: 5 });
    overlay.record_render(RenderState { path: "s.svg".to_string(), render_width: 1, render_height: 1, progress_key: 0 });
    overlay.invalidate_layout();
    assert!(overlay.last_state.is_none());
    assert_eq!(overlay.phase, OverlayPhase::SplashFadeOut { start: 5 });
    assert_eq!(overlay.image, image);
    assert_eq!(overlay.tip_header, header);
    assert_eq!(overlay.splash_path, "s.svg");
    overlay.phase = OverlayPhase::LoadingActive { start: 0 };
    overlay.finish_loading();
    assert!(overlay.is_finished());
    assert_eq!(overlay.splash_path, "s.svg");
    assert_eq!(overlay.tip_header, header);
    assert_eq!(overlay.image, image);
}

#[test]
fn caps_overlay_render_size() {
    assert_eq!(cap_render_size(600, 900, 600, 900), (600, 900));
    assert_eq!(cap_render_size(1200, 1800, 600, 900), (600, 900));
}

#[test]
fn cap_render_size_keeps_aspect() {
    assert_eq!(cap_render_size(1000, 900, 600, 900), (600, 540));
    assert_eq!(cap_render_size(0, 0, 600, 900), (1, 1));
    assert_eq!(cap_render_size(10, 10, 0, 0), (1, 1));
}

#[test]
fn overlay_rect_uses_largest_portrait_fit() {
    let rect = fit_portrait_rect(
        TerminalGrid { cols: 160, rows: 60 },
        TerminalPixels { width: 1600, height: 1200 },
        160,
        60,
    );
    assert_eq!(rect.height, 60);
    assert_eq!(rect.width, 80);
    assert_eq!(rect.x, 40);
}

#[test]
fn overlay_layout_needs_known_metrics() {
    let unknown = TerminalMetrics { grid: None, pixels: None, source: MetricSource::Unknown };
    assert_eq!(compute_overlay_layout(80, 24, unknown).unwrap_err(), "terminal grid is unknown");
    let no_pixels = TerminalMetrics {
        grid: Some(TerminalGrid { cols: 80, rows: 24 }),
        pixels: None,
        source: MetricSource::Env,
    };
    assert_eq!(compute_overlay_layout(80, 24, no_pixels).unwrap_err(), "terminal pixel size is unknown");
    let known = TerminalMetrics {
        grid: Some(TerminalGrid { cols: 160, rows: 60 }),
        pixels: Some(TerminalPixels { width: 1600, height: 1200 }),
        source: MetricSource::Ioctl,
    };
    let layout = compute_overlay_layout(160, 60, known).unwrap();
    assert_eq!(layout.cell_rect, CellRect { x: 40, y: 0, width: 80, height: 60 });
    assert_eq!((layout.render_width, layout.render_height), (600, 900));
}

#[test]
fn invalidates_overlay_resize_cache() {
    let mut overlay = SplashOverlay::new("assets/svg/splash.svg".to_string(), 0);
    overlay.store_layout(OverlayLayout {
        terminal_cols: 80,
        terminal_rows: 24,
        cell_rect: CellRect { x: 0, y: 0, width: 10, height: 10 },
        render_width: 60,
        render_height: 90,
    });
    overlay.record_render(RenderState {
        path: "assets/svg/splash.svg".to_string(),
        render_width: 60,
        render_height: 90,
        progress_key: 0,
    });

    overlay.invalidate_layout();

    assert!(overlay.last_layout.is_none());
    assert!(overlay.last_state.is_none());
}

#[test]
fn overlay_phases_advance_with_time() {
    let mut overlay = SplashOverlay::new("splash.svg".to_string(), 1);
    assert_eq!(overlay.next_overlay_stage(5), OverlayStage::Splash);
    overlay.trigger_start(1_000);
    assert_eq!(overlay.phase, OverlayPhase::SplashFadeOut { start: 1_000 });
    assert_eq!(overlay.next_overlay_stage(1_000 + 400_000_000), OverlayStage::SplashFading { elapsed: 400_000_000 });
    let t = 1_000 + 800_000_000;
    assert_eq!(overlay.next_overlay_stage(t), OverlayStage::LoadingFading { elapsed: 0 });
    assert_eq!(overlay.next_overlay_stage(t + 500_000_000), OverlayStage::Loading { elapsed: 0 });
    overlay.finish_loading();
    assert!(overlay.is_finished());
    assert_eq!(overlay.next_overlay_stage(u64::MAX), OverlayStage::Finished);
}

const CARD: &str = r##"<svg xmlns="http://www.w3.org/2000/svg" width="{{WIDTH}}" height="{{HEIGHT}}" opacity="{{UI_OPACITY}}"><rect width="100%" height="100%" fill="#203040"/><text>{{PROGRESS}} {{SUBTITLE}} {{BODY}}</text><rect width="{{PROGRESS_BAR_WIDTH}}" height="6"/></svg>"##;

#[test]
fn renders_overlay_at_current_frame_size() {
    let mut overlay = SplashOverlay::new("assets/svg/splash.svg".to_string(), 0);
    let state = RenderState {
        path: "assets/svg/splash.svg".to_string(),
        render_width: 60,
        render_height: 40,
        progress_key: 0,
    };
    assert!(overlay.render_is_stale(&state));
    let rgba = overlay.render_card(CARD, 60, 40, "0", "0.00").unwrap();
    assert_eq!(rgba.len(), 60 * 40 * 4);
    overlay.record_render(state);
    assert!(overlay.last_state.is_some());
}

#[test]
fn fade_opacity_does_not_force_svg_reraster() {
    let mut overlay = SplashOverlay::new("assets/svg/splash.svg".to_string(), 0);
    overlay.phase = OverlayPhase::SplashFadeOut { start: 10_000_000_000 };
    let render = |overlay: &mut SplashOverlay, now: u64| {
        let stage = overlay.next_overlay_stage(now);
        assert_eq!(stage, OverlayStage::SplashFading { elapsed: 0 });
        let state = RenderState {
            path: overlay.splash_path.clone(),
            render_width: 60,
            render_height: 40,
            progress_key: 0,
        };
        if overlay.render_is_stale(&state) {
            overlay.render_card(CARD, 60, 40, "0", "0.00").unwrap();
            overlay.record_render(state);
        }
    };
    render(&mut overlay, 1);
    let first = overlay.last_state.clone();
    assert!(first.is_some());
    render(&mut overlay, 2);
    assert_eq!(overlay.last_state, first);
}

#[test]
fn stages_draw_from_splash_then_loading_template() {
    let overlay = SplashOverlay::new("art/splash.svg".to_string(), 0);
    assert_eq!(overlay.stage_template_path(OverlayStage::Splash), "art/splash.svg");
    assert_eq!(overlay.stage_template_path(OverlayStage::SplashFading { elapsed: 3 }), "art/splash.svg");
    assert_eq!(overlay.stage_template_path(OverlayStage::LoadingFading { elapsed: 3 }), "assets/svg/loading.svg");
    assert_eq!(overlay.stage_template_path(OverlayStage::Finished), "assets/svg/loading.svg");
}

#[test]
fn fade_state_is_kept_until_something_changes() {
    let mut overlay = SplashOverlay::new("splash.svg".to_string(), 2);
    let state = RenderState { path: "splash.svg".to_string(), render_width: 60, render_height: 40, progress_key: 0 };
    assert!(overlay.render_is_stale(&state));
    overlay.record_render(state.clone());
    assert!(!overlay.render_is_stale(&state));
    let other = RenderState { progress_key: 5, ..state };
    assert!(overlay.render_is_stale(&other));
}

#[test]
fn overlay_card_fills_tokens_and_escapes_the_tip() {
    let overlay = SplashOverlay::new("splash.svg".to_string(), 1);
    let svg = overlay.card_svg("{{WIDTH}}x{{HEIGHT}} {{UI_OPACITY}} {{PROGRESS}}% {{PROGRESS_BAR_WIDTH}} {{SUBTITLE}}: {{BODY}}", 60, 90, "42", "218.40");
    assert_eq!(
        svg,
        "60x90 1 42% 218.40 변론 팁: 상대의 모순을 발견하면 과감하게 &apos;이의있소!&apos;를 외치세요."
    );
}

#[test]
fn classifies_video_events() {
    let key = |key, ctrl, no_modifiers| TermEvent::Key { key, ctrl, no_modifiers };
    assert_eq!(classify_video_event(key(Key::Esc, false, true)), Some(VideoEvent::Exit));
    assert_eq!(classify_video_event(key(Key::Char('c'), true, false)), Some(VideoEvent::Exit));
    assert_eq!(classify_video_event(key(Key::Char('c'), false, true)), None);
    assert_eq!(classify_video_event(key(Key::Char('M'), false, false)), Some(VideoEvent::Mute));
    assert_eq!(classify_video_event(key(Key::Enter, false, true)), Some(VideoEvent::Start));
    assert_eq!(classify_video_event(key(Key::Enter, false, false)), None);
    assert_eq!(classify_video_event(TermEvent::Resize(90, 30)), Some(VideoEvent::Resize(90, 30)));
    assert_eq!(classify_video_event(TermEvent::Other), None);
}

#[test]
fn video_events_drive_playback() {
    let mut resize = ResizeState::new(Some((80, 24))).unwrap();
    let mut audio = true;
    assert_eq!(apply_pending_video_event(VideoEvent::Mute, &mut resize, &mut audio, None, 0), Ok(None));
    assert!(!audio);
    assert_eq!(
        apply_pending_video_event(VideoEvent::Start, &mut resize, &mut audio, None, 0),
        Ok(Some(VideoExit::Start))
    );
    let mut overlay = SplashOverlay::new("s.svg".to_string(), 0);
    assert_eq!(
        apply_pending_video_event(VideoEvent::Start, &mut resize, &mut audio, Some(&mut overlay), 9),
        Ok(None)
    );
    assert_eq!(overlay.phase, OverlayPhase::SplashFadeOut { start: 9 });
    overlay.record_render(RenderState { path: "s.svg".to_string(), render_width: 1, render_height: 1, progress_key: 0 });
    assert_eq!(
        apply_pending_video_event(VideoEvent::Resize(100, 40), &mut resize, &mut audio, Some(&mut overlay), 0),
        Ok(None)
    );
    assert!(overlay.last_state.is_none());
    assert_eq!(overlay.phase, OverlayPhase::SplashFadeOut { start: 9 });
    assert_eq!(resize.ready(), Some((100, 40)));
    assert_eq!(
        apply_pending_video_event(VideoEvent::Exit, &mut resize, &mut audio, None, 0),
        Ok(Some(VideoExit::Quit))
    );
}

#[test]
fn video_configs() {
    let ascii = AsciiVideoConfig::ascii("v.mov");
    assert_eq!(ascii.mode, VideoRenderMode::Ascii);
    assert_eq!(ascii.max_render_cells, Some(12_000));
    assert_eq!(ascii.fps, 30);
    let splash = AsciiVideoConfig::splash("v.mov");
    assert_eq!(splash.fps, 24);
    assert_eq!(splash.overlay_path.as_deref(), Some("assets/svg/splash_overlay.svg"));
    assert_eq!(splash.video_path, "v.mov");
}

#[test]
fn parses_probe_dimensions() {
    assert_eq!(parse_dimensions(" 1920x1080\n").unwrap(), VideoMetadata { width: 1920, height: 1080 });
    assert_eq!(parse_dimensions("1920").unwrap_err(), "ffprobe returned invalid video dimensions");
    assert_eq!(parse_dimensions("ax1").unwrap_err(), "invalid ffprobe width");
    assert_eq!(parse_dimensions("1x1x1").unwrap_err(), "invalid ffprobe height");
    assert_eq!(VideoMetadata { width: 4, height: 2 }.frame_len(), 24);
}
