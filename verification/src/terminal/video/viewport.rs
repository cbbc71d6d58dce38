use vstd::prelude::*;

verus! {

/// Where a rendered frame lands on the terminal: its pixel size (two pixel rows per
/// text row) and the cell offset that centres it.
#[derive(Debug, Clone, Copy, PartialEq, Eq)]
pub struct RenderViewport {
    pub pixel_width: u32,
    pub pixel_height: u32,
    pub cell_rows: u16,
    pub offset_x: u16,
    pub offset_y: u16,
}

/// `r` is the integer square root of `n`.
pub open spec fn is_isqrt(n: int, r: int) -> bool {
    0 <= r && r * r <= n && n < (r + 1) * (r + 1)
}

/// The largest `k` with `k * k * cells <= len * len * budget`: `len` scaled by
/// `sqrt(budget / cells)` and rounded down.
pub open spec fn is_scaled_len(len: int, budget: int, cells: int, k: int) -> bool {
    0 <= k && k * k * cells <= len * len * budget && len * len * budget < (k + 1) * (k + 1) * cells
}

/// The cell budget applied to a grid of `cols` by `rows`: the area as a `u32`,
/// saturating, and at least one.
pub open spec fn cell_count(cols: u32, rows: u32) -> int {
    let area = cols * rows;
    if area > u32::MAX {
        u32::MAX as int
    } else if area < 1 {
        1
    } else {
        area
    }
}

pub open spec fn at_least_one(v: int) -> int {
    if v < 1 { 1 } else { v }
}

/// `len` scaled by `sqrt(budget / cells)`, rounded down.
pub open spec fn scaled(len: int, budget: int, cells: int) -> int {
    choose|k: int| is_scaled_len(len, budget, cells, k)
}

/// The grid that `cap_cells` keeps for `cols` by `rows` under an optional budget.
pub open spec fn capped_grid(cols: u32, rows: u32, max_render_cells: Option<u32>) -> (int, int) {
    match max_render_cells {
        Some(budget) if cell_count(cols, rows) > budget => (
            at_least_one(scaled(cols as int, budget as int, cell_count(cols, rows))),
            at_least_one(scaled(rows as int, budget as int, cell_count(cols, rows))),
        ),
        _ => (at_least_one(cols as int), at_least_one(rows as int)),
    }
}

/// The scaled length is unique.
pub proof fn lemma_scaled_len_unique(len: int, budget: int, cells: int, k1: int, k2: int)
    requires
        cells > 0,
        is_scaled_len(len, budget, cells, k1),
        is_scaled_len(len, budget, cells, k2),
    ensures
        k1 == k2,
{
    let n = len * len * budget;
    if k1 < k2 {
        assert((k1 + 1) * (k1 + 1) * cells <= k2 * k2 * cells) by (nonlinear_arith)
            requires k1 + 1 <= k2, k1 >= 0, cells > 0;
    }
    if k2 < k1 {
        assert((k2 + 1) * (k2 + 1) * cells <= k1 * k1 * cells) by (nonlinear_arith)
            requires k2 + 1 <= k1, k2 >= 0, cells > 0;
    }
}

fn isqrt(n: u128) -> (r: u64)
    requires
        n < 0x1_0000_0000_0000_0000_0000_0000u128,
    ensures
        is_isqrt(n as int, r as int),
{
    let mut lo: u128 = 0;
    let mut hi: u128 = 0x1_0000_0000_0000u128;
    assert(hi * hi == 0x1_0000_0000_0000_0000_0000_0000u128) by (nonlinear_arith)
        requires hi == 0x1_0000_0000_0000u128;
    while hi - lo > 1
        invariant
            lo < hi <= 0x1_0000_0000_0000u128,
            lo * lo <= n,
            n < hi * hi,
        decreases hi - lo,
    {
        let mid = lo + (hi - lo) / 2;
        assert(mid * mid <= 0x1_0000_0000_0000_0000_0000_0000u128) by (nonlinear_arith)
            requires mid <= 0x1_0000_0000_0000u128;
        if mid * mid <= n {
            lo = mid;
        } else {
            hi = mid;
        }
    }
    assert(hi == lo + 1);
    lo as u64
}

fn scaled_len(len: u32, budget: u32, cells: u32) -> (k: u32)
    requires
        cells > budget,
    ensures
        is_scaled_len(len as int, budget as int, cells as int, k as int),
        k <= len,
{
    assert((len as u128) * (len as u128) <= 0xffff_ffff_ffff_ffffu128) by (nonlinear_arith)
        requires len <= u32::MAX;
    let sq: u128 = (len as u128) * (len as u128);
    assert(sq * (budget as u128) < 0x1_0000_0000_0000_0000_0000_0000u128) by (nonlinear_arith)
        requires sq <= 0xffff_ffff_ffff_ffffu128, budget <= u32::MAX;
    let num: u128 = sq * (budget as u128);
    let q = num / (cells as u128);
    let r = isqrt(q);
    proof {
        let c = cells as int;
        let n = num as int;
        let qq = q as int;
        let rr = r as int;
        assert(qq * c <= n < (qq + 1) * c) by (nonlinear_arith)
            requires qq == n / c, c > 0, n >= 0;
        assert(rr * rr * c <= n) by (nonlinear_arith)
            requires rr * rr <= qq, qq * c <= n, c > 0;
        assert(n < (rr + 1) * (rr + 1) * c) by (nonlinear_arith)
            requires qq < (rr + 1) * (rr + 1), n < (qq + 1) * c, c > 0;
        if len == 0 {
            assert(n == 0) by (nonlinear_arith)
                requires n == (len as int) * (len as int) * (budget as int), len == 0;
            assert(qq == 0) by (nonlinear_arith)
                requires qq == n / c, n == 0, c > 0;
            assert(rr == 0) by (nonlinear_arith)
                requires rr * rr <= 0, rr >= 0;
        } else if rr > len as int {
            assert(n < (len as int) * (len as int) * c) by (nonlinear_arith)
                requires n == (len as int) * (len as int) * (budget as int), c > budget, len > 0;
            assert((len as int + 1) * (len as int + 1) <= rr * rr) by (nonlinear_arith)
                requires rr >= len as int + 1, len >= 0;
            assert(false) by (nonlinear_arith)
                requires rr * rr * c <= n, n < (len as int) * (len as int) * c, c > 0,
                    (len as int + 1) * (len as int + 1) <= rr * rr, len >= 0;
        }
    }
    r as u32
}

/// Fits a `cols` by `rows` cell grid into a budget of cells. Without a budget, or when
/// the grid already fits, the grid is kept (each side at least one). Otherwise both
/// sides are scaled by `sqrt(budget / cells)` and rounded down, to at least one.
/// The value is the exact one, computed in integers; at a rounding boundary it can be one
/// more or one less than a floating-point evaluation of the same formula gives.
pub fn cap_cells(cols: u32, rows: u32, max_render_cells: Option<u32>) -> (res: (u32, u32))
    ensures
        res.0 == capped_grid(cols, rows, max_render_cells).0,
        res.1 == capped_grid(cols, rows, max_render_cells).1,
        res.0 >= 1,
        res.1 >= 1,
        res.0 <= at_least_one(cols as int),
        res.1 <= at_least_one(rows as int),
{
    let cols1 = if cols < 1 { 1 } else { cols };
    let rows1 = if rows < 1 { 1 } else { rows };
    match max_render_cells {
        None => (cols1, rows1),
        Some(budget) => {
            assert((cols as u64) * (rows as u64) <= 0xffff_ffff_ffff_ffffu64) by (nonlinear_arith)
                requires cols <= u32::MAX, rows <= u32::MAX;
            let area: u64 = (cols as u64) * (rows as u64);
            let cells: u32 = if area > u32::MAX as u64 {
                u32::MAX
            } else if area < 1 {
                1
            } else {
                area as u32
            };
            if cells <= budget {
                (cols1, rows1)
            } else {
                let kc = scaled_len(cols, budget, cells);
                let kr = scaled_len(rows, budget, cells);
                let w = if kc < 1 { 1 } else { kc };
                let h = if kr < 1 { 1 } else { kr };
                proof {
                    let c = cell_count(cols, rows);
                    lemma_scaled_len_unique(cols as int, budget as int, c, kc as int, scaled(cols as int, budget as int, c));
                    lemma_scaled_len_unique(rows as int, budget as int, c, kr as int, scaled(rows as int, budget as int, c));
                }
                (w, h)
            }
        },
    }
}

/// When the budget applies to a grid whose area fits in a `u32` and neither scaled side
/// is rounded up to one, the capped grid holds no more cells than the budget.
pub proof fn lemma_capped_grid_within_budget(cols: u32, rows: u32, budget: u32, kc: int, kr: int)
    requires
        cols * rows <= u32::MAX,
        cell_count(cols, rows) > budget,
        is_scaled_len(cols as int, budget as int, cell_count(cols, rows), kc),
        is_scaled_len(rows as int, budget as int, cell_count(cols, rows), kr),
    ensures
        kc * kr <= budget,
{
    let c = cell_count(cols, rows);
    let a = cols as int;
    let b = rows as int;
    let m = budget as int;
    if a * b < 1 {
        assert(m == 0);
        assert(kc * kc * c <= 0) by (nonlinear_arith)
            requires kc * kc * c <= a * a * m, m == 0;
        assert(kc == 0) by (nonlinear_arith)
            requires kc * kc * c <= 0, c > 0, kc >= 0;
        assert(kc * kr == 0) by (nonlinear_arith) requires kc == 0;
        return;
    }
    assert(c == a * b);
    assert(kc * kc * c <= a * a * m);
    assert(kr * kr * c <= b * b * m);
    assert((kc * kr) * (kc * kr) * (c * c) <= (a * a * m) * (b * b * m)) by (nonlinear_arith)
        requires kc * kc * c <= a * a * m, kr * kr * c <= b * b * m, kc >= 0, kr >= 0, c >= 0;
    assert((a * a * m) * (b * b * m) == (c * c) * (m * m)) by (nonlinear_arith)
        requires c == a * b;
    assert((kc * kr) * (kc * kr) <= m * m) by (nonlinear_arith)
        requires (kc * kr) * (kc * kr) * (c * c) <= (c * c) * (m * m), c > 0;
    assert(kc * kr <= m) by (nonlinear_arith)
        requires (kc * kr) * (kc * kr) <= m * m, kc * kr >= 0, m >= 0;
}

/// Some length is the scaled length: start from `k` and step up while the next square
/// still fits.
proof fn lemma_scaled_exists_from(len: int, budget: int, cells: int, k: int)
    requires
        len >= 0,
        budget >= 0,
        cells > 0,
        k >= 0,
        k * k * cells <= len * len * budget,
    ensures
        exists|j: int| is_scaled_len(len, budget, cells, j),
    decreases len * len * budget - k * k * cells,
{
    if len * len * budget < (k + 1) * (k + 1) * cells {
        assert(is_scaled_len(len, budget, cells, k));
    } else {
        assert(k * k * cells < (k + 1) * (k + 1) * cells) by (nonlinear_arith)
            requires k >= 0, cells > 0;
        lemma_scaled_exists_from(len, budget, cells, k + 1);
    }
}

/// A side scaled down by a budget smaller than the cell count is shorter than before.
proof fn lemma_scaled_shorter(len: int, budget: int, cells: int)
    requires
        len >= 1,
        budget >= 0,
        cells > budget,
    ensures
        is_scaled_len(len, budget, cells, scaled(len, budget, cells)),
        scaled(len, budget, cells) < len,
{
    assert(0 * 0 * cells <= len * len * budget) by (nonlinear_arith)
        requires len >= 1, budget >= 0, cells > 0;
    lemma_scaled_exists_from(len, budget, cells, 0);
    let k = scaled(len, budget, cells);
    assert(len * len * budget < len * len * cells) by (nonlinear_arith)
        requires len >= 1, cells > budget;
    assert(k < len) by (nonlinear_arith)
        requires k * k * cells <= len * len * budget, len * len * budget < len * len * cells, k >= 0, len >= 1, cells > 0;
}

/// Cutting a grid to a cell budget: a grid within the budget is kept and no side ever
/// grows. A grid over the budget is cut to at most the budget's number of cells, except
/// when a scaled side falls below one cell and is kept at one.
pub proof fn lemma_capped_grid_budget(cols: u32, rows: u32, budget: u32)
    requires
        cols >= 1,
        rows >= 1,
        cols * rows <= u32::MAX,
    ensures
        cols * rows <= budget ==> capped_grid(cols, rows, Some(budget)) == (cols as int, rows as int),
        capped_grid(cols, rows, Some(budget)).0 <= cols,
        capped_grid(cols, rows, Some(budget)).1 <= rows,
        cols * rows > budget && scaled(cols as int, budget as int, cols * rows) >= 1 && scaled(
            rows as int,
            budget as int,
            cols * rows,
        ) >= 1 ==> capped_grid(cols, rows, Some(budget)).0 * capped_grid(cols, rows, Some(budget)).1 <= budget,
{
    assert(cols * rows >= 1) by (nonlinear_arith)
        requires cols >= 1, rows >= 1;
    let c = cell_count(cols, rows);
    assert(c == cols * rows);
    if c > budget {
        lemma_scaled_shorter(cols as int, budget as int, c);
        lemma_scaled_shorter(rows as int, budget as int, c);
        let kc = scaled(cols as int, budget as int, c);
        let kr = scaled(rows as int, budget as int, c);
        if kc >= 1 && kr >= 1 {
            lemma_capped_grid_within_budget(cols, rows, budget, kc, kr);
        }
    }
}

impl RenderViewport {
    /// The viewport for a terminal of `cols` by `rows` cells under an optional cell
    /// budget: the capped grid, two pixel rows per cell, centred in the terminal.
    pub fn new(cols: u16, rows: u16, max_render_cells: Option<u32>) -> (vp: RenderViewport)
        requires
            cols >= 1,
            rows >= 1,
        ensures
            vp.pixel_width == capped_grid(cols as u32, rows as u32, max_render_cells).0,
            vp.cell_rows == capped_grid(cols as u32, rows as u32, max_render_cells).1,
            vp.pixel_height == 2 * vp.cell_rows,
            vp.offset_x == (cols - vp.pixel_width) / 2,
            vp.offset_y == (rows - vp.cell_rows) / 2,
            1 <= vp.pixel_width <= cols,
            1 <= vp.cell_rows <= rows,
    {
        let (render_cols, render_rows) = cap_cells(cols as u32, rows as u32, max_render_cells);
        RenderViewport {
            pixel_width: render_cols,
            pixel_height: render_rows * 2,
            cell_rows: render_rows as u16,
            offset_x: ((cols as u32 - render_cols) / 2) as u16,
            offset_y: ((rows as u32 - render_rows) / 2) as u16,
        }
    }

    /// Bytes of one RGB frame at this viewport's pixel size.
    pub fn frame_len(self) -> (len: usize)
        requires
            self.pixel_width * self.pixel_height * 3 <= u32::MAX,
        ensures
            len == self.pixel_width * self.pixel_height * 3,
    {
        (self.pixel_width * self.pixel_height * 3) as usize
    }
}

} // verus!
