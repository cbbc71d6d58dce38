use vstd::prelude::*;

use super::screen::{Screen, is_portrait};
use crate::render::scene::SceneKind;
use crate::terminal::layout::{CellRect, fit_portrait_cells, pixel_box, rect_to_pixels, max_one, min_int, portrait_cells, sat_sub, wider_than_portrait};
use crate::terminal::metrics::{TerminalGrid, TerminalMetrics, TerminalPixels};
use crate::text::dec_chars;
use crate::text::push_u64;

verus! {

/// How long an animated scene waits between redraws.
pub const ANIMATED_RENDER_STEP_NANOS: u64 = 16_000_000;

/// Whether the panel's space is wider than the portrait aspect; an empty height counts as
/// wider whenever there is any width.
pub open spec fn panel_space_wide(cols: int, rows: int, grid: TerminalGrid, pixels: TerminalPixels) -> bool {
    let a = cols * pixels.width;
    let b = rows * pixels.height;
    if b == 0 {
        a > 0
    } else {
        wider_than_portrait(a, max_one(grid.cols as int), b, max_one(grid.rows as int))
    }
}

/// The size of the largest portrait panel within `cols` by `rows` cells.
pub open spec fn panel_size(grid: TerminalGrid, pixels: TerminalPixels, cols: u16, rows: u16) -> (int, int) {
    let c = max_one(cols as int);
    let r = max_one(rows as int);
    portrait_cells(
        panel_space_wide(c, r, grid, pixels),
        c,
        r,
        max_one(grid.cols as int),
        max_one(grid.rows as int),
        pixels.width as int,
        pixels.height as int,
    )
}

/// The largest portrait panel within `cols` by `rows` cells, centred across the terminal
/// with two rows kept free below it.
pub open spec fn portrait_panel(grid: TerminalGrid, pixels: TerminalPixels, cols: u16, rows: u16) -> CellRect {
    let size = panel_size(grid, pixels, cols, rows);
    CellRect {
        x: (sat_sub(grid.cols as int, size.0) / 2) as u16,
        y: (sat_sub(grid.rows as int, size.1 + 2) / 2) as u16,
        width: size.0 as u16,
        height: size.1 as u16,
    }
}

/// Fits the portrait panel into `cols` by `rows` cells.
/// The value is the exact one, computed in integers; at a rounding boundary it can be one
/// more or one less than a floating-point evaluation of the same formula gives.
pub fn fit_portrait_panel(grid: TerminalGrid, pixels: TerminalPixels, cols: u16, rows: u16) -> (r: CellRect)
    requires
        panel_size(grid, pixels, cols, rows).1 + 2 <= u16::MAX,
    ensures
        r == portrait_panel(grid, pixels, cols, rows),
{
    let cols = if cols < 1 { 1 } else { cols };
    let rows = if rows < 1 { 1 } else { rows };
    let gc: u16 = if grid.cols < 1 { 1 } else { grid.cols };
    let gr: u16 = if grid.rows < 1 { 1 } else { grid.rows };
    assert((cols as u64) * (pixels.width as u64) <= 0xffff_ffffu64) by (nonlinear_arith)
        requires cols <= u16::MAX, pixels.width <= u16::MAX;
    assert((rows as u64) * (pixels.height as u64) <= 0xffff_ffffu64) by (nonlinear_arith)
        requires rows <= u16::MAX, pixels.height <= u16::MAX;
    let a: u64 = (cols as u64) * (pixels.width as u64);
    let b: u64 = (rows as u64) * (pixels.height as u64);
    assert(3 * a * (gr as u64) <= u64::MAX && 2 * b * (gc as u64) <= u64::MAX) by (nonlinear_arith)
        requires a <= 0xffff_ffffu64, b <= 0xffff_ffffu64, gr <= u16::MAX, gc <= u16::MAX;
    let wide = if b == 0 { a > 0 } else { 3 * a * (gr as u64) > 2 * b * (gc as u64) };
    let (width, height) = fit_portrait_cells(wide, cols, rows, gc, gr, pixels.width, pixels.height);
    CellRect {
        x: (if grid.cols > width { grid.cols - width } else { 0 }) / 2,
        y: (if grid.rows > height + 2 { grid.rows - (height + 2) } else { 0 }) / 2,
        width,
        height,
    }
}

/// Whether a screen is drawn in the portrait panel.
pub fn portrait(screen: Screen) -> (b: bool)
    ensures
        b == is_portrait(screen),
{
    match screen {
        Screen::Splash | Screen::Loading | Screen::Home | Screen::Training => true,
        _ => false,
    }
}

/// The panel a screen is drawn in: home gets the tallest portrait panel, the other
/// portrait screens one of at most 75 by 45 cells, and the rest the full width above two
/// free rows.
pub open spec fn screen_panel(screen: Screen, grid: TerminalGrid, pixels: TerminalPixels) -> CellRect {
    let cols = grid.cols;
    let rows = grid.rows;
    if screen == Screen::Home {
        portrait_panel(grid, pixels, cols, max_one(sat_sub(rows as int, 2)) as u16)
    } else if is_portrait(screen) {
        portrait_panel(grid, pixels, min_int(cols as int, 75) as u16, min_int(sat_sub(rows as int, 2), 45) as u16)
    } else {
        CellRect { x: 0, y: 0, width: cols, height: max_one(sat_sub(rows as int, 2)) as u16 }
    }
}

/// The panel a screen is drawn in.
/// The value is the exact one, computed in integers; at a rounding boundary it can be one
/// more or one less than a floating-point evaluation of the same formula gives.
pub fn panel_rect(screen: Screen, grid: TerminalGrid, pixels: TerminalPixels) -> (r: CellRect)
    ensures
        r == screen_panel(screen, grid, pixels),
{
    let cols = grid.cols;
    let rows = grid.rows;
    let free_rows = if rows > 2 { rows - 2 } else { 0 };
    if screen == Screen::Home {
        let r = if free_rows < 1 { 1 } else { free_rows };
        proof { lemma_panel_size_bound(grid, pixels, cols, r); }
        return fit_portrait_panel(grid, pixels, cols, r);
    }
    if portrait(screen) {
        let c = if cols < 75 { cols } else { 75 };
        let r = if free_rows < 45 { free_rows } else { 45 };
        proof { lemma_panel_size_bound(grid, pixels, c, r); }
        return fit_portrait_panel(grid, pixels, c, r);
    }
    CellRect { x: 0, y: 0, width: cols, height: if free_rows < 1 { 1 } else { free_rows } }
}

proof fn lemma_panel_size_bound(grid: TerminalGrid, pixels: TerminalPixels, cols: u16, rows: u16)
    requires
        rows <= 65533,
    ensures
        panel_size(grid, pixels, cols, rows).1 + 2 <= u16::MAX,
{
}

/// How long probed terminal metrics are reused before the terminal is probed again.
pub const METRICS_REFRESH_NANOS: u64 = 250_000_000;

/// Where a screen's panel goes and the pixel size it is drawn at.
#[derive(Debug, Clone, Copy, PartialEq, Eq, Structural)]
pub struct TerminalFrame {
    pub panel: CellRect,
    pub render_width: u32,
    pub render_height: u32,
}

/// The frame of a screen under the probed metrics: an error when the grid or the pixel
/// size is unknown; otherwise the screen's panel, drawn at its pixel box, at least one
/// pixel each way.
pub open spec fn screen_frame(screen: Screen, metrics: TerminalMetrics) -> Result<TerminalFrame, Seq<char>> {
    match (metrics.grid, metrics.pixels) {
        (None, _) => Err("terminal grid is unknown"@),
        (Some(_), None) => Err("terminal pixel size is unknown"@),
        (Some(grid), Some(pixels)) => {
            let panel = screen_panel(screen, grid, pixels);
            let b = pixel_box(grid, pixels, panel);
            Ok(
                TerminalFrame {
                    panel,
                    render_width: if b.width < 1 { 1 } else { b.width },
                    render_height: if b.height < 1 { 1 } else { b.height },
                },
            )
        },
    }
}

/// Computes where a screen's panel goes from the probed metrics.
pub fn terminal_frame(screen: Screen, metrics: TerminalMetrics) -> (r: Result<TerminalFrame, String>)
    ensures
        match screen_frame(screen, metrics) {
            Ok(f) => r == Ok::<TerminalFrame, String>(f),
            Err(msg) => r is Err && r->Err_0@ == msg,
        },
{
    let grid = match metrics.grid {
        Some(g) => g,
        None => return Err(String::from_str("terminal grid is unknown")),
    };
    let pixels = match metrics.pixels {
        Some(p) => p,
        None => return Err(String::from_str("terminal pixel size is unknown")),
    };
    let panel = panel_rect(screen, grid, pixels);
    let (_, _, pixel_width, pixel_height) = rect_to_pixels(grid, pixels, panel);
    Ok(
        TerminalFrame {
            panel,
            render_width: if pixel_width < 1 { 1 } else { pixel_width },
            render_height: if pixel_height < 1 { 1 } else { pixel_height },
        },
    )
}

/// Whether the kept frame can be used again: there is one, and the terminal was probed
/// less than the refresh interval ago.
pub fn frame_reusable(since_last_probe_nanos: Option<u64>, has_frame: bool) -> (b: bool)
    ensures
        b == (has_frame && (since_last_probe_nanos matches Some(n) && n < METRICS_REFRESH_NANOS)),
{
    match since_last_probe_nanos {
        Some(n) => has_frame && n < METRICS_REFRESH_NANOS,
        None => false,
    }
}

/// Whether the panel must be drawn again: always at first; never when nothing changed;
/// always when the panel, its pixel size or the scene changed, and on the training and
/// result scenes; otherwise once the animation step has passed since the last draw.
pub open spec fn render_due(
    has_last_key: bool,
    same_key: bool,
    layout_changed: bool,
    scene: SceneKind,
    since_last_render_nanos: Option<u64>,
) -> bool {
    if !has_last_key {
        true
    } else if same_key {
        false
    } else if layout_changed || scene == SceneKind::Training || scene == SceneKind::Result {
        true
    } else {
        match since_last_render_nanos {
            None => true,
            Some(n) => n >= ANIMATED_RENDER_STEP_NANOS,
        }
    }
}

/// Decides whether the panel must be drawn again.
pub fn should_render(
    has_last_key: bool,
    same_key: bool,
    layout_changed: bool,
    scene: SceneKind,
    since_last_render_nanos: Option<u64>,
) -> (b: bool)
    ensures
        b == render_due(has_last_key, same_key, layout_changed, scene, since_last_render_nanos),
{
    if !has_last_key {
        return true;
    }
    if same_key {
        return false;
    }
    if layout_changed || scene == SceneKind::Training || scene == SceneKind::Result {
        return true;
    }
    match since_last_render_nanos {
        None => true,
        Some(n) => n >= ANIMATED_RENDER_STEP_NANOS,
    }
}

/// The help line under the panel, and on the date screen the typed input below it.
pub open spec fn overlay_text(screen: Screen, input: Seq<char>, panel: CellRect) -> Seq<char> {
    "\x1b["@ + dec_chars((panel.y + panel.height + 1) as nat) + ";"@ + dec_chars((panel.x + 2) as nat)
        + "HProject-Y SPA SVG Loop | Up/Down Enter | q/Esc quit"@ + if screen == Screen::Dating {
        "\x1b["@ + dec_chars((panel.y + panel.height + 2) as nat) + ";"@ + dec_chars((panel.x + 2) as nat) + "H> "@
            + input
    } else {
        seq![]
    }
}

/// Appends the text drawn around the panel.
pub fn draw_overlay(out: &mut String, screen: Screen, input: &str, panel: CellRect)
    requires
        panel.y + panel.height + 2 <= u16::MAX,
        panel.x + 2 <= u16::MAX,
    ensures
        final(out)@ == old(out)@ + overlay_text(screen, input@, panel),
{
    let ghost start = out@;
    out.append("\x1b[");
    push_u64(out, (panel.y + panel.height + 1) as u64);
    out.append(";");
    push_u64(out, (panel.x + 2) as u64);
    out.append("HProject-Y SPA SVG Loop | Up/Down Enter | q/Esc quit");
    let ghost first = out@;
    if screen == Screen::Dating {
        out.append("\x1b[");
        push_u64(out, (panel.y + panel.height + 2) as u64);
        out.append(";");
        push_u64(out, (panel.x + 2) as u64);
        out.append("H> ");
        out.append(input);
    }
    assert(out@ =~= start + overlay_text(screen, input@, panel));
}

} // verus!
