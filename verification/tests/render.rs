use furina_advocate_sim::domain::training::AdvocateStats;
use furina_advocate_sim::render::raster::rasterize_svg;
use furina_advocate_sim::render::scene::SceneKind;
use furina_advocate_sim::render::svg::{
    FrameTokens, apply_tokens, build_view_svg, render_splash, render_view_rgba, scene_template_name,
    splash_view,
};
use furina_advocate_sim::render::tokens::{Progress, RenderView};

fn common_template() -> String {
    let mut s = String::new();
    s.push_str(r#"<svg xmlns="http://www.w3.org/2000/svg" width="{{WIDTH}}" height="{{HEIGHT}}" opacity="{{UI_OPACITY}}">"#);
    s.push_str(r##"<rect x="0" y="0" width="100%" height="100%" fill="#1b2a4a"/>"##);
    s.push_str("<text>{{PHASE_LABEL}} {{TITLE}} {{SUBTITLE}} {{BODY}} {{SIDE_TITLE}} {{SIDE_BODY}}</text>");
    s.push_str("<text>{{PROGRESS}} {{PROGRESS_LABEL}} week {{WEEK}}</text>");
    s.push_str(r#"<rect x="{{TAB_INDICATOR_X}}" width="10" height="4"/>"#);
    s.push_str(r#"<g opacity="{{TAB_0_HIGHLIGHT_OPACITY}}"/><g opacity="{{TAB_1_HIGHLIGHT_OPACITY}}"/>"#);
    s.push_str(r#"<g opacity="{{TAB_2_HIGHLIGHT_OPACITY}}"/><g opacity="{{TAB_3_HIGHLIGHT_OPACITY}}"/>"#);
    s.push_str(r#"<g opacity="{{TAB_4_HIGHLIGHT_OPACITY}}"/>"#);
    s
}

/// A scene template in the shape of the asset files: the shared tokens, and the
/// progress bar on the splash and loading cards.
fn template(scene: SceneKind) -> String {
    let bar = match scene {
        SceneKind::Splash | SceneKind::Loading => {
            r##"<rect width="{{PROGRESS_BAR_WIDTH}}" height="14" fill="#00d5ff"/>"##
        }
        _ => "",
    };
    format!("{}{bar}</svg>", common_template())
}

/// The tokens the front end formats from a floating-point progress value.
fn frame(scene: SceneKind, progress: f32, current_tab: usize) -> FrameTokens {
    let progress = progress.clamp(0.0, 100.0);
    let full = if scene == SceneKind::Splash { 500.0f32 } else { 520.0f32 };
    FrameTokens {
        ui_opacity: "1.00".to_string(),
        progress: format!("{progress:.0}"),
        progress_label: format!("{progress:.0}%"),
        progress_bar_width: format!("{:.2}", full * progress / 100.0),
        tab_indicator_x: format!("{:.2}", 18.0 + (current_tab as f32) * 112.8),
    }
}

fn test_view(scene: SceneKind) -> RenderView {
    RenderView {
        scene,
        phase_label: "PHASE".to_string(),
        title: "TITLE".to_string(),
        subtitle: "SUB".to_string(),
        body: "contradiction body".to_string(),
        side_title: "SIDE".to_string(),
        side_body: "SIDE BODY".to_string(),
        progress: Progress::Percent(68),
        stats: AdvocateStats::default(),
        week: 1,
        focused_action: 0,
        ally_hp: 100,
        enemy_hp: 100,
        momentum: 0,
        current_tab: 2,
    }
}

#[test]
fn builds_svg_with_requested_size() {
    let mut view = test_view(SceneKind::Home);
    view.body = "A&B".to_string();
    let svg = build_view_svg(&template(SceneKind::Home), 320, 140, &view, &frame(SceneKind::Home, 68.0, 2));
    assert!(svg.contains(r#"width="320""#));
    assert!(svg.contains(r#"height="140""#));
    assert!(svg.contains("A&amp;B"));
    assert!(!svg.contains("{{"));
}

#[test]
fn renders_svg_panel_to_rgba_buffer() {
    let rgba = render_view_rgba(
        &template(SceneKind::Training),
        64,
        32,
        &test_view(SceneKind::Training),
        &frame(SceneKind::Training, 68.0, 2),
    )
    .expect("render svg");
    assert_eq!(rgba.len(), 64 * 32 * 4);
    assert!(rgba.iter().any(|channel| *channel != 0));
}

#[test]
fn renders_splash_to_rgba_buffer() {
    let rgba = render_splash(&template(SceneKind::Splash), 160, 90, &frame(SceneKind::Splash, 68.0, 2))
        .expect("render splash");
    assert_eq!(rgba.len(), 160 * 90 * 4);
    assert!(rgba.iter().any(|channel| *channel != 0));
}

#[test]
fn splash_progress_bar_keeps_fractional_width() {
    let mut view = test_view(SceneKind::Loading);
    view.progress = Progress::Animated;
    let svg = build_view_svg(&template(SceneKind::Loading), 160, 90, &view, &frame(SceneKind::Loading, 12.5, 2));
    assert!(svg.contains(r#"width="65.00" height="14""#));
}

#[test]
fn all_scene_templates_resolve_tokens() {
    for scene in [
        SceneKind::Splash,
        SceneKind::Loading,
        SceneKind::Home,
        SceneKind::Training,
        SceneKind::Court,
        SceneKind::Dating,
        SceneKind::Result,
    ] {
        let svg = build_view_svg(&template(scene), 320, 480, &test_view(scene), &frame(scene, 68.0, 2));
        assert!(!svg.contains("{{"), "{scene:?} has unresolved token");
    }
}

#[test]
fn scene_specific_tokens_and_tabs() {
    let court = "{{ALLY_HP}}/{{ENEMY_HP}} {{BAR_ALLY_HP_WIDTH}} {{BAR_ENEMY_HP_WIDTH}} {{MOMENTUM}} \
                 {{BAR_MOMENTUM_X}} {{BAR_MOMENTUM_WIDTH}} {{OBJECTION_OPACITY}}";
    let mut view = test_view(SceneKind::Court);
    view.ally_hp = 150;
    view.enemy_hp = -5;
    view.momentum = 50;
    let svg = build_view_svg(court, 10, 10, &view, &frame(SceneKind::Court, 0.0, 2));
    assert_eq!(svg, "150/-5 220 0 50 795 30 1.0");

    let training = "{{STAT_LOGIC}} {{BAR_LOGIC_WIDTH}} {{ACTION_0_FOCUS_OPACITY}} {{ACTION_1_BORDER_COLOR}}";
    let mut view = test_view(SceneKind::Training);
    view.stats.logic_speed = 55;
    let svg = build_view_svg(training, 10, 10, &view, &frame(SceneKind::Training, 0.0, 2));
    assert_eq!(svg, "55 187 0.85 #24506d");

    let tabs = "{{TAB_INDICATOR_X}} {{TAB_2_HIGHLIGHT_OPACITY}} {{TAB_3_HIGHLIGHT_OPACITY}}";
    let mut view = test_view(SceneKind::Home);
    view.current_tab = 3;
    let svg = build_view_svg(tabs, 10, 10, &view, &frame(SceneKind::Home, 0.0, 3));
    assert_eq!(svg, "356.40 0.00 1.00");
}

#[test]
fn template_names_and_token_order() {
    assert_eq!(scene_template_name(SceneKind::Splash), "splash.svg");
    assert_eq!(scene_template_name(SceneKind::Loading), "loading.svg");
    assert_eq!(scene_template_name(SceneKind::Court), "home.svg");
    let tokens = vec![
        ("{{A}}".to_string(), "{{B}}".to_string()),
        ("{{B}}".to_string(), "x".to_string()),
    ];
    assert_eq!(apply_tokens("{{A}} {{B}}", &tokens), "x x");
    let view = splash_view();
    assert_eq!(view.title, "BOOT");
    assert_eq!(view.progress, Progress::Animated);
}

#[test]
fn rasterizes_only_valid_svg_at_a_real_size() {
    let svg = r##"<svg xmlns="http://www.w3.org/2000/svg" width="4" height="2"><rect width="4" height="2" fill="#ff0000"/></svg>"##;
    let rgba = rasterize_svg(4, 2, svg).expect("render");
    assert_eq!(rgba.len(), 4 * 2 * 4);
    assert_eq!(&rgba[0..4], &[255, 0, 0, 255]);
    assert_eq!(rasterize_svg(0, 2, svg), Err("failed to allocate SVG pixmap".to_string()));
    assert!(rasterize_svg(4, 2, "not svg").is_err());
}
