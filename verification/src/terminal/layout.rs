use vstd::prelude::*;

use super::metrics::{TerminalGrid, TerminalPixels};

verus! {

/// A rectangle of terminal cells, zero-based.
#[derive(Debug, Clone, Copy, PartialEq, Eq, Structural)]
pub struct CellRect {
    pub x: u16,
    pub y: u16,
    pub width: u16,
    pub height: u16,
}

/// A rectangle of pixels.
#[derive(Debug, Clone, Copy, PartialEq, Eq, Structural)]
pub struct PixelRect {
    pub x: u32,
    pub y: u32,
    pub width: u32,
    pub height: u32,
}

/// `num / den` rounded half away from zero, for `num >= 0` and `den > 0`.
pub open spec fn round_div(num: int, den: int) -> int {
    (2 * num + den) / (2 * den)
}

/// `n` cells of `total_px / total_cells` pixels each, rounded down; with no cells at all
/// the cell size is unbounded, so any positive length saturates and a zero one is zero.
pub open spec fn cells_to_px_floor(n: int, total_px: int, total_cells: int) -> int {
    if total_cells == 0 {
        if n > 0 && total_px > 0 { u32::MAX as int } else { 0 }
    } else {
        n * total_px / total_cells
    }
}

/// As `cells_to_px_floor`, rounded to the nearest pixel instead.
pub open spec fn cells_to_px_round(n: int, total_px: int, total_cells: int) -> int {
    if total_cells == 0 {
        if n > 0 && total_px > 0 { u32::MAX as int } else { 0 }
    } else {
        round_div(n * total_px, total_cells)
    }
}

pub open spec fn min_int(a: int, b: int) -> int {
    if a < b { a } else { b }
}

pub open spec fn sat_sub(a: int, b: int) -> int {
    if a > b { a - b } else { 0 }
}

/// The pixel box of a cell rectangle: its corner rounded down, its size rounded to the
/// nearest pixel, then cut to what lies inside the terminal.
pub open spec fn pixel_box(grid: TerminalGrid, pixels: TerminalPixels, rect: CellRect) -> PixelRect {
    let x = cells_to_px_floor(rect.x as int, pixels.width as int, grid.cols as int);
    let y = cells_to_px_floor(rect.y as int, pixels.height as int, grid.rows as int);
    let w = cells_to_px_round(rect.width as int, pixels.width as int, grid.cols as int);
    let h = cells_to_px_round(rect.height as int, pixels.height as int, grid.rows as int);
    PixelRect {
        x: x as u32,
        y: y as u32,
        width: min_int(w, sat_sub(pixels.width as int, x)) as u32,
        height: min_int(h, sat_sub(pixels.height as int, y)) as u32,
    }
}

/// `num / den` rounded half away from zero.
pub fn round_div_u64(num: u64, den: u64) -> (r: u64)
    requires
        den > 0,
    ensures
        r == round_div(num as int, den as int),
{
    let q: u128 = (2 * (num as u128) + (den as u128)) / (2 * (den as u128));
    proof {
        let n = num as int;
        let d = den as int;
        let qq = q as int;
        assert(qq * (2 * d) <= 2 * n + d) by (nonlinear_arith)
            requires qq == (2 * n + d) / (2 * d), d > 0, n >= 0;
        if qq > n {
            assert((n + 1) * (2 * d) <= qq * (2 * d)) by (nonlinear_arith)
                requires qq >= n + 1, d > 0;
            assert(false) by (nonlinear_arith)
                requires (n + 1) * (2 * d) <= 2 * n + d, d >= 1, n >= 0;
        }
    }
    q as u64
}

fn floor_px(n: u16, total_px: u16, total_cells: u16) -> (r: u32)
    ensures
        r == cells_to_px_floor(n as int, total_px as int, total_cells as int),
{
    if total_cells == 0 {
        if n > 0 && total_px > 0 { u32::MAX } else { 0 }
    } else {
        proof { lemma_scaled_fits(n as int, total_px as int, total_cells as int); }
        ((n as u32) * (total_px as u32) / (total_cells as u32))
    }
}

fn round_px(n: u16, total_px: u16, total_cells: u16) -> (r: u32)
    ensures
        r == cells_to_px_round(n as int, total_px as int, total_cells as int),
{
    if total_cells == 0 {
        if n > 0 && total_px > 0 { u32::MAX } else { 0 }
    } else {
        proof { lemma_scaled_fits(n as int, total_px as int, total_cells as int); }
        let r = round_div_u64((n as u64) * (total_px as u64), total_cells as u64);
        assert(r <= u32::MAX) by (nonlinear_arith)
            requires r == (2 * ((n as int) * (total_px as int)) + total_cells) / (2 * (total_cells as int)),
                n <= u16::MAX, total_px <= u16::MAX, total_cells >= 1;
        r as u32
    }
}

proof fn lemma_scaled_fits(n: int, p: int, c: int)
    requires
        0 <= n <= u16::MAX,
        0 <= p <= u16::MAX,
        c >= 1,
    ensures
        n * p <= u32::MAX,
        n * p / c <= u32::MAX,
{
    assert(n * p <= u32::MAX) by (nonlinear_arith)
        requires 0 <= n <= u16::MAX, 0 <= p <= u16::MAX;
    assert(n * p / c <= n * p) by (nonlinear_arith)
        requires n * p >= 0, c >= 1;
}

/// Converts a cell rectangle to the pixel box it covers, cut to the terminal's pixels.
/// The value is the exact one, computed in integers; at a rounding boundary it can be one
/// more or one less than a floating-point evaluation of the same formula gives.
pub fn rect_to_pixels(grid: TerminalGrid, pixels: TerminalPixels, rect: CellRect) -> (r: (u32, u32, u32, u32))
    ensures
        r == (
            pixel_box(grid, pixels, rect).x,
            pixel_box(grid, pixels, rect).y,
            pixel_box(grid, pixels, rect).width,
            pixel_box(grid, pixels, rect).height,
        ),
{
    let x = floor_px(rect.x, pixels.width, grid.cols);
    let y = floor_px(rect.y, pixels.height, grid.rows);
    let width = round_px(rect.width, pixels.width, grid.cols);
    let height = round_px(rect.height, pixels.height, grid.rows);
    let room_w: u32 = if (pixels.width as u32) > x { pixels.width as u32 - x } else { 0 };
    let room_h: u32 = if (pixels.height as u32) > y { pixels.height as u32 - y } else { 0 };
    (x, y, if width < room_w { width } else { room_w }, if height < room_h { height } else { room_h })
}

/// The pixel box of a cell rectangle, as a struct.
/// The value is the exact one, computed in integers; at a rounding boundary it can be one
/// more or one less than a floating-point evaluation of the same formula gives.
pub fn rect_to_pixels_struct(grid: TerminalGrid, pixels: TerminalPixels, rect: CellRect) -> (r: PixelRect)
    ensures
        r == pixel_box(grid, pixels, rect),
{
    let (x, y, width, height) = rect_to_pixels(grid, pixels, rect);
    PixelRect { x, y, width, height }
}

/// A non-negative ratio `num / den` rounded and cast to `u16` as a float would be: a zero
/// denominator gives zero for a zero numerator and saturates otherwise.
pub open spec fn round_ratio_u16(num: int, den: int) -> int {
    if den == 0 {
        if num == 0 { 0 } else { u16::MAX as int }
    } else {
        min_int(round_div(num, den), u16::MAX as int)
    }
}

/// `v` held within `lo..=hi`.
pub open spec fn clamp_to(v: int, lo: int, hi: int) -> int {
    if v < lo { lo } else if v > hi { hi } else { v }
}

pub open spec fn max_one(v: int) -> int {
    if v < 1 { 1 } else { v }
}

/// The non-negative ratio `num / den`, rounded and saturated to a `u16`.
pub fn round_ratio(num: u64, den: u64) -> (r: u16)
    ensures
        r == round_ratio_u16(num as int, den as int),
{
    if den == 0 {
        if num == 0 { 0 } else { u16::MAX }
    } else {
        let q = round_div_u64(num, den);
        if q > u16::MAX as u64 { u16::MAX } else { q as u16 }
    }
}

/// Whether a box of width `a / gc` and height `b / gr` (in pixels) is wider than the
/// 600:900 portrait aspect.
pub open spec fn wider_than_portrait(a: int, gc: int, b: int, gr: int) -> bool {
    3 * a * gr > 2 * b * gc
}

/// The largest 600:900 box inside `cols` by `rows` cells, in whole cells: `wide` says
/// whether the space is wider than the portrait aspect (then the height fills it),
/// `gc`/`gr` are the grid's cell counts (at least one) and the terminal's pixel size
/// is `pw` by `ph`. Returns the width and height, each within `1..=cols`/`1..=rows`.
pub open spec fn portrait_cells(wide: bool, cols: int, rows: int, gc: int, gr: int, pw: int, ph: int) -> (int, int) {
    let a = cols * pw;
    let b = rows * ph;
    if wide {
        (
            clamp_to(round_ratio_u16(2 * b * gc, 3 * gr * pw), 1, cols),
            clamp_to(round_ratio_u16(b, ph), 1, rows),
        )
    } else {
        (
            clamp_to(round_ratio_u16(a, pw), 1, cols),
            clamp_to(round_ratio_u16(3 * a * gr, 2 * gc * ph), 1, rows),
        )
    }
}

/// The width and height of the largest portrait box in whole cells; see
/// `portrait_cells`.
/// The value is the exact one, computed in integers; at a rounding boundary it can be one
/// more or one less than a floating-point evaluation of the same formula gives.
pub fn fit_portrait_cells(wide: bool, cols: u16, rows: u16, gc: u16, gr: u16, pw: u16, ph: u16) -> (r: (u16, u16))
    requires
        cols >= 1,
        rows >= 1,
    ensures
        r.0 == portrait_cells(wide, cols as int, rows as int, gc as int, gr as int, pw as int, ph as int).0,
        r.1 == portrait_cells(wide, cols as int, rows as int, gc as int, gr as int, pw as int, ph as int).1,
        1 <= r.0 <= cols,
        1 <= r.1 <= rows,
{
    proof { lemma_small_products(cols as int, rows as int, gc as int, gr as int, pw as int, ph as int); }
    let a: u64 = (cols as u64) * (pw as u64);
    let b: u64 = (rows as u64) * (ph as u64);
    let (w, h) = if wide {
        (round_ratio(2 * b * (gc as u64), 3 * (gr as u64) * (pw as u64)), round_ratio(b, ph as u64))
    } else {
        (round_ratio(a, pw as u64), round_ratio(3 * a * (gr as u64), 2 * (gc as u64) * (ph as u64)))
    };
    let w = if w < 1 { 1 } else if w > cols { cols } else { w };
    let h = if h < 1 { 1 } else if h > rows { rows } else { h };
    (w, h)
}

proof fn lemma_small_products(cols: int, rows: int, gc: int, gr: int, pw: int, ph: int)
    requires
        0 <= cols <= u16::MAX,
        0 <= rows <= u16::MAX,
        0 <= gc <= u16::MAX,
        0 <= gr <= u16::MAX,
        0 <= pw <= u16::MAX,
        0 <= ph <= u16::MAX,
    ensures
        cols * pw <= u32::MAX,
        rows * ph <= u32::MAX,
        2 * (rows * ph) * gc <= u64::MAX,
        3 * (cols * pw) * gr <= u64::MAX,
        3 * gr * pw <= u64::MAX,
        2 * gc * ph <= u64::MAX,
{
    assert(cols * pw <= u32::MAX) by (nonlinear_arith)
        requires 0 <= cols <= u16::MAX, 0 <= pw <= u16::MAX;
    assert(rows * ph <= u32::MAX) by (nonlinear_arith)
        requires 0 <= rows <= u16::MAX, 0 <= ph <= u16::MAX;
    assert(2 * (rows * ph) * gc <= u64::MAX) by (nonlinear_arith)
        requires 0 <= rows * ph <= u32::MAX, 0 <= gc <= u16::MAX;
    assert(3 * (cols * pw) * gr <= u64::MAX) by (nonlinear_arith)
        requires 0 <= cols * pw <= u32::MAX, 0 <= gr <= u16::MAX;
    assert(3 * gr * pw <= u64::MAX) by (nonlinear_arith)
        requires 0 <= gr <= u16::MAX, 0 <= pw <= u16::MAX;
    assert(2 * gc * ph <= u64::MAX) by (nonlinear_arith)
        requires 0 <= gc <= u16::MAX, 0 <= ph <= u16::MAX;
}

/// The pixel box never reaches past the terminal's pixels.
pub proof fn lemma_pixel_box_inside(grid: TerminalGrid, pixels: TerminalPixels, rect: CellRect)
    ensures
        pixel_box(grid, pixels, rect).x + pixel_box(grid, pixels, rect).width <= pixels.width
            || pixel_box(grid, pixels, rect).width == 0,
        pixel_box(grid, pixels, rect).y + pixel_box(grid, pixels, rect).height <= pixels.height
            || pixel_box(grid, pixels, rect).height == 0,
{
}

} // verus!
