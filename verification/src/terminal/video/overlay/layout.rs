use vstd::prelude::*;

use crate::shared::{PORTRAIT_HEIGHT, PORTRAIT_WIDTH};
use crate::terminal::layout::{
    CellRect, clamp_to, fit_portrait_cells, max_one, min_int, pixel_box, portrait_cells, rect_to_pixels,
    round_div, round_div_u64, wider_than_portrait,
};
use crate::terminal::metrics::{TerminalGrid, TerminalMetrics, TerminalPixels};

verus! {

/// Where the splash overlay goes for a terminal size, and the pixel size it is drawn at.
#[derive(Debug, Clone, Copy, PartialEq, Eq, Structural)]
pub struct OverlayLayout {
    pub terminal_cols: u16,
    pub terminal_rows: u16,
    pub cell_rect: CellRect,
    pub render_width: u32,
    pub render_height: u32,
}

/// Whether the overlay's space is wider than the portrait aspect: its height is taken
/// as at least one pixel.
pub open spec fn overlay_space_wide(cols: int, rows: int, grid: TerminalGrid, pixels: TerminalPixels) -> bool {
    let gc = max_one(grid.cols as int);
    let gr = max_one(grid.rows as int);
    let a = cols * pixels.width;
    let b = rows * pixels.height;
    if b >= gr {
        wider_than_portrait(a, gc, b, gr)
    } else {
        3 * a > 2 * gc
    }
}

/// The largest 600:900 cell rectangle inside the visible part of a `terminal_cols` by
/// `terminal_rows` terminal, centred in it.
pub open spec fn portrait_rect(grid: TerminalGrid, pixels: TerminalPixels, terminal_cols: u16, terminal_rows: u16) -> CellRect {
    let cols = max_one(min_int(terminal_cols as int, grid.cols as int));
    let rows = max_one(min_int(terminal_rows as int, grid.rows as int));
    let size = portrait_cells(
        overlay_space_wide(cols, rows, grid, pixels),
        cols,
        rows,
        max_one(grid.cols as int),
        max_one(grid.rows as int),
        pixels.width as int,
        pixels.height as int,
    );
    CellRect {
        x: ((cols - size.0) / 2) as u16,
        y: ((rows - size.1) / 2) as u16,
        width: size.0 as u16,
        height: size.1 as u16,
    }
}

/// Fits the portrait overlay into the terminal, centred.
/// The value is the exact one, computed in integers; at a rounding boundary it can be one
/// more or one less than a floating-point evaluation of the same formula gives.
pub fn fit_portrait_rect(grid: TerminalGrid, pixels: TerminalPixels, terminal_cols: u16, terminal_rows: u16) -> (r: CellRect)
    ensures
        r == portrait_rect(grid, pixels, terminal_cols, terminal_rows),
{
    let c0 = if terminal_cols < grid.cols { terminal_cols } else { grid.cols };
    let r0 = if terminal_rows < grid.rows { terminal_rows } else { grid.rows };
    let cols = if c0 < 1 { 1 } else { c0 };
    let rows = if r0 < 1 { 1 } else { r0 };
    let gc: u16 = if grid.cols < 1 { 1 } else { grid.cols };
    let gr: u16 = if grid.rows < 1 { 1 } else { grid.rows };
    assert((cols as u64) * (pixels.width as u64) <= 0xffff_ffffu64) by (nonlinear_arith)
        requires cols <= u16::MAX, pixels.width <= u16::MAX;
    assert((rows as u64) * (pixels.height as u64) <= 0xffff_ffffu64) by (nonlinear_arith)
        requires rows <= u16::MAX, pixels.height <= u16::MAX;
    let a: u64 = (cols as u64) * (pixels.width as u64);
    let b: u64 = (rows as u64) * (pixels.height as u64);
    assert(3 * a * (gr as u64) <= u64::MAX && 2 * b * (gc as u64) <= u64::MAX) by (nonlinear_arith)
        requires a <= 0xffff_ffffu64, b <= 0xffff_ffffu64, gr <= u16::MAX, gc <= u16::MAX;
    let wide = if b >= gr as u64 {
        3 * a * (gr as u64) > 2 * b * (gc as u64)
    } else {
        3 * a > 2 * (gc as u64)
    };
    let (width, height) = fit_portrait_cells(wide, cols, rows, gc, gr, pixels.width, pixels.height);
    CellRect { x: (cols - width) / 2, y: (rows - height) / 2, width, height }
}

/// The render size that fits `width` by `height` within `max_w` by `max_h`: kept when it
/// already fits, else scaled down by the smaller of the two ratios and rounded, each side
/// at least one.
pub open spec fn capped_render_size(width: u32, height: u32, max_w: u32, max_h: u32) -> (int, int) {
    if width <= max_w && height <= max_h {
        (max_one(width as int), max_one(height as int))
    } else {
        let w1 = max_one(width as int);
        let h1 = max_one(height as int);
        if max_w * h1 <= max_h * w1 {
            (max_one(round_div(width * max_w, w1)), max_one(round_div(height * max_w, w1)))
        } else {
            (max_one(round_div(width * max_h, h1)), max_one(round_div(height * max_h, h1)))
        }
    }
}

/// Scales a render size down to fit the cap, keeping its aspect.
/// The value is the exact one, computed in integers; at a rounding boundary it can be one
/// more or one less than a floating-point evaluation of the same formula gives.
pub fn cap_render_size(width: u32, height: u32, max_w: u32, max_h: u32) -> (r: (u32, u32))
    ensures
        r.0 == capped_render_size(width, height, max_w, max_h).0,
        r.1 == capped_render_size(width, height, max_w, max_h).1,
{
    if width <= max_w && height <= max_h {
        return (if width < 1 { 1 } else { width }, if height < 1 { 1 } else { height });
    }
    let w1: u64 = if width < 1 { 1 } else { width as u64 };
    let h1: u64 = if height < 1 { 1 } else { height as u64 };
    assert((max_w as u64) * h1 <= u64::MAX && (max_h as u64) * w1 <= u64::MAX) by (nonlinear_arith)
        requires max_w <= u32::MAX, max_h <= u32::MAX, w1 <= u32::MAX, h1 <= u32::MAX;
    assert((width as u64) * (max_w as u64) <= u64::MAX && (height as u64) * (max_w as u64) <= u64::MAX
        && (width as u64) * (max_h as u64) <= u64::MAX && (height as u64) * (max_h as u64) <= u64::MAX) by (nonlinear_arith)
        requires max_w <= u32::MAX, max_h <= u32::MAX, width <= u32::MAX, height <= u32::MAX;
    let (rw, rh) = if (max_w as u64) * h1 <= (max_h as u64) * w1 {
        (round_div_u64((width as u64) * (max_w as u64), w1), round_div_u64((height as u64) * (max_w as u64), w1))
    } else {
        (round_div_u64((width as u64) * (max_h as u64), h1), round_div_u64((height as u64) * (max_h as u64), h1))
    };
    proof { lemma_scaled_down(width as int, height as int, max_w as int, max_h as int); }
    (if rw < 1 { 1 } else { rw as u32 }, if rh < 1 { 1 } else { rh as u32 })
}

proof fn lemma_scaled_down(width: int, height: int, max_w: int, max_h: int)
    requires
        0 <= width <= u32::MAX,
        0 <= height <= u32::MAX,
        0 <= max_w,
        0 <= max_h,
        !(width <= max_w && height <= max_h),
    ensures
        ({
            let w1 = max_one(width);
            let h1 = max_one(height);
            if max_w * h1 <= max_h * w1 {
                round_div(width * max_w, w1) <= u32::MAX && round_div(height * max_w, w1) <= u32::MAX
            } else {
                round_div(width * max_h, h1) <= u32::MAX && round_div(height * max_h, h1) <= u32::MAX
            }
        }),
{
    let w1 = max_one(width);
    let h1 = max_one(height);
    if max_w * h1 <= max_h * w1 {
        if width > max_w {
            lemma_round_below(width, max_w, w1, width);
            lemma_round_below(height, max_w, w1, height);
        } else {
            assert(height > max_h);
            assert(max_w < w1) by (nonlinear_arith)
                requires max_w * h1 <= max_h * w1, max_h < h1, w1 >= 1, h1 >= 1, max_w >= 0;
            lemma_round_below(width, max_w, w1, width);
            lemma_round_below(height, max_w, w1, height);
        }
    } else {
        if height > max_h {
            lemma_round_below(width, max_h, h1, width);
            lemma_round_below(height, max_h, h1, height);
        } else {
            assert(width > max_w);
            assert(max_h < h1) by (nonlinear_arith)
                requires max_w * h1 > max_h * w1, max_w < w1, w1 >= 1, h1 >= 1, max_h >= 0;
            lemma_round_below(width, max_h, h1, width);
            lemma_round_below(height, max_h, h1, height);
        }
    }
}

proof fn lemma_round_below(v: int, m: int, d: int, bound: int)
    requires
        0 <= v <= u32::MAX,
        0 <= m,
        d >= 1,
        m < d,
        bound == v,
    ensures
        round_div(v * m, d) <= u32::MAX,
{
    assert(v * m <= v * d) by (nonlinear_arith)
        requires v >= 0, m < d;
    assert((2 * (v * m) + d) / (2 * d) <= v) by (nonlinear_arith)
        requires v * m <= v * d, v >= 0, d >= 1, m >= 0, m < d;
}

/// The overlay layout for a terminal size, from what is known of the terminal; an error
/// when its grid or pixel size is unknown.
pub open spec fn overlay_layout(terminal_cols: u16, terminal_rows: u16, metrics: TerminalMetrics) -> Result<OverlayLayout, Seq<char>> {
    match (metrics.grid, metrics.pixels) {
        (None, _) => Err("terminal grid is unknown"@),
        (Some(_), None) => Err("terminal pixel size is unknown"@),
        (Some(grid), Some(pixels)) => {
            let cell_rect = portrait_rect(grid, pixels, terminal_cols, terminal_rows);
            let bbox = pixel_box(grid, pixels, cell_rect);
            let size = capped_render_size(bbox.width, bbox.height, PORTRAIT_WIDTH as u32, PORTRAIT_HEIGHT as u32);
            Ok(OverlayLayout {
                terminal_cols,
                terminal_rows,
                cell_rect,
                render_width: size.0 as u32,
                render_height: size.1 as u32,
            })
        },
    }
}

/// Computes where the splash overlay goes for the current terminal size.
pub fn compute_overlay_layout(terminal_cols: u16, terminal_rows: u16, metrics: TerminalMetrics) -> (r: Result<OverlayLayout, String>)
    ensures
        match overlay_layout(terminal_cols, terminal_rows, metrics) {
            Ok(layout) => r == Ok::<OverlayLayout, String>(layout),
            Err(msg) => r is Err && r->Err_0@ == msg,
        },
{
    let grid = match metrics.grid {
        Some(g) => g,
        None => return Err(String::from_str("terminal grid is unknown")),
    };
    let pixels = match metrics.pixels {
        Some(p) => p,
        None => return Err(String::from_str("terminal pixel size is unknown")),
    };
    let cell_rect = fit_portrait_rect(grid, pixels, terminal_cols, terminal_rows);
    let (_, _, pixel_width, pixel_height) = rect_to_pixels(grid, pixels, cell_rect);
    let (render_width, render_height) = cap_render_size(pixel_width, pixel_height, PORTRAIT_WIDTH, PORTRAIT_HEIGHT);
    Ok(OverlayLayout { terminal_cols, terminal_rows, cell_rect, render_width, render_height })
}

} // verus!
