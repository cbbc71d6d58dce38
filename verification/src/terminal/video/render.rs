use vstd::prelude::*;

use super::viewport::RenderViewport;
use crate::terminal::video::config::VideoRenderMode;
use crate::text::{dec_bytes, push_all, push_dec_bytes};

verus! {

/// `ESC [ ? 2026 h`: begin a synchronized terminal update.
pub open spec fn sync_begin() -> Seq<u8> {
    seq![27u8, 91u8, 63u8, 50u8, 48u8, 50u8, 54u8, 104u8]
}

/// `ESC [ ? 2026 l`: end a synchronized terminal update.
pub open spec fn sync_end() -> Seq<u8> {
    seq![27u8, 91u8, 63u8, 50u8, 48u8, 50u8, 54u8, 108u8]
}

/// `ESC [ 0 m`: reset colours.
pub open spec fn style_reset() -> Seq<u8> {
    seq![27u8, 91u8, 48u8, 109u8]
}

/// The UTF-8 bytes of `▀`, the upper half block.
pub open spec fn upper_half_block() -> Seq<u8> {
    seq![0xe2u8, 0x96u8, 0x80u8]
}

/// The density ramp, from blank to solid.
pub open spec fn ascii_ramp() -> Seq<u8> {
    seq![32u8, 46u8, 58u8, 45u8, 61u8, 43u8, 42u8, 35u8, 37u8, 64u8]
}

/// `ESC [ row ; col H` for the zero-based cell (`x`, `y`).
pub open spec fn cursor_bytes(x: nat, y: nat) -> Seq<u8> {
    seq![27u8, 91u8] + dec_bytes(y + 1) + seq![59u8] + dec_bytes(x + 1) + seq![72u8]
}

/// Byte offset of pixel (`x`, `y`) in a packed RGB frame `width` pixels wide.
pub open spec fn pixel_offset(width: nat, x: nat, y: nat) -> nat {
    (y * width + x) * 3
}

/// Whether the whole pixel lies inside the frame.
pub open spec fn pixel_in_frame(frame: Seq<u8>, width: nat, x: nat, y: nat) -> bool {
    pixel_offset(width, x, y) + 2 < frame.len()
}

/// Integer luma (ITU-R BT.601 weights) of a pixel, zero outside the frame.
pub open spec fn luma_spec(frame: Seq<u8>, width: nat, x: nat, y: nat) -> nat {
    let o = pixel_offset(width, x, y) as int;
    if !pixel_in_frame(frame, width, x, y) {
        0
    } else {
        ((frame[o] as nat) * 299 + (frame[o + 1] as nat) * 587 + (frame[o + 2] as nat) * 114) / 1000
    }
}

/// The colour of a pixel, black outside the frame.
pub open spec fn rgb_spec(frame: Seq<u8>, width: nat, x: nat, y: nat) -> (u8, u8, u8) {
    let o = pixel_offset(width, x, y) as int;
    if !pixel_in_frame(frame, width, x, y) {
        (0, 0, 0)
    } else {
        (frame[o], frame[o + 1], frame[o + 2])
    }
}

/// The ramp character for a luma value; values above 255 count as 255.
pub open spec fn ascii_for_luma_spec(luma: nat) -> u8 {
    let l = if luma > 255 { 255 } else { luma };
    ascii_ramp()[(l * 9 / 255) as int]
}

/// The first `n` characters of ASCII text row `row`: each the ramp character of the
/// mean luma of the two pixels it covers.
pub open spec fn ascii_cells(frame: Seq<u8>, width: nat, row: nat, n: nat) -> Seq<u8>
    decreases n,
{
    if n == 0 {
        seq![]
    } else {
        let x = (n - 1) as nat;
        ascii_cells(frame, width, row, x).push(
            ascii_for_luma_spec((luma_spec(frame, width, x, 2 * row) + luma_spec(frame, width, x, 2 * row + 1)) / 2),
        )
    }
}

/// The first `n` text rows of the ASCII rendering, each placed with a cursor move.
pub open spec fn ascii_rows(frame: Seq<u8>, vp: RenderViewport, n: nat) -> Seq<u8>
    decreases n,
{
    if n == 0 {
        seq![]
    } else {
        let row = (n - 1) as nat;
        ascii_rows(frame, vp, row) + cursor_bytes(vp.offset_x as nat, (vp.offset_y + row) as nat)
            + ascii_cells(frame, vp.pixel_width as nat, row, vp.pixel_width as nat)
    }
}

/// The ASCII character of the cell at column `x` of text row `row`: the mean luma of
/// the pixel above (pixel row `2 * row`) and the pixel below (pixel row `2 * row + 1`),
/// held at 255, picks ramp entry `9 * mean / 255`.
pub open spec fn ascii_cell_char(frame: Seq<u8>, width: nat, row: nat, x: nat) -> u8 {
    let mean = (luma_spec(frame, width, x, 2 * row) + luma_spec(frame, width, x, 2 * row + 1)) / 2;
    let held = if mean > 255 { 255 } else { mean };
    ascii_ramp()[(held * 9 / 255) as int]
}

proof fn lemma_ascii_cells(frame: Seq<u8>, width: nat, row: nat, n: nat)
    ensures
        ascii_cells(frame, width, row, n) == Seq::new(n, |x: int| ascii_cell_char(frame, width, row, x as nat)),
    decreases n,
{
    if n > 0 {
        lemma_ascii_cells(frame, width, row, (n - 1) as nat);
        assert(ascii_cells(frame, width, row, n) =~= Seq::new(n, |x: int| ascii_cell_char(frame, width, row, x as nat)));
    }
}

proof fn lemma_ascii_rows_prefix(frame: Seq<u8>, vp: RenderViewport, m: nat, n: nat)
    requires
        m <= n,
    ensures
        ascii_rows(frame, vp, m).len() <= ascii_rows(frame, vp, n).len(),
        ascii_rows(frame, vp, n).subrange(0, ascii_rows(frame, vp, m).len() as int) == ascii_rows(frame, vp, m),
    decreases n,
{
    if m < n {
        lemma_ascii_rows_prefix(frame, vp, m, (n - 1) as nat);
        let a = ascii_rows(frame, vp, m);
        let b = ascii_rows(frame, vp, (n - 1) as nat);
        let c = ascii_rows(frame, vp, n);
        assert(c.subrange(0, b.len() as int) =~= b);
        assert(c.subrange(0, a.len() as int) =~= b.subrange(0, a.len() as int));
    } else {
        assert(ascii_rows(frame, vp, n).subrange(0, ascii_rows(frame, vp, n).len() as int) =~= ascii_rows(frame, vp, n));
    }
}

/// In the ASCII rendering every text row, right after the cursor move that places it,
/// holds one character per pixel column, each `ascii_cell_char`: the lower pixel of a
/// cell counts as much as the upper one.
pub proof fn lemma_ascii_frame_cells(frame: Seq<u8>, vp: RenderViewport, row: nat)
    requires
        row < vp.cell_rows,
    ensures
        ({
            let start = sync_begin().len() + ascii_rows(frame, vp, row).len() + cursor_bytes(
                vp.offset_x as nat,
                (vp.offset_y + row) as nat,
            ).len();
            &&& start + vp.pixel_width <= ascii_frame_bytes(frame, vp).len()
            &&& ascii_frame_bytes(frame, vp).subrange(start as int, start + vp.pixel_width) == Seq::new(
                vp.pixel_width as nat,
                |x: int| ascii_cell_char(frame, vp.pixel_width as nat, row, x as nat),
            )
        }),
{
    let w = vp.pixel_width as nat;
    lemma_ascii_rows_prefix(frame, vp, row + 1, vp.cell_rows as nat);
    lemma_ascii_cells(frame, w, row, w);
    let prev = ascii_rows(frame, vp, row);
    let cur = cursor_bytes(vp.offset_x as nat, (vp.offset_y + row) as nat);
    let cells = ascii_cells(frame, w, row, w);
    let upto = ascii_rows(frame, vp, row + 1);
    assert(upto == prev + cur + cells);
    let all = ascii_rows(frame, vp, vp.cell_rows as nat);
    let out = ascii_frame_bytes(frame, vp);
    let start = sync_begin().len() + prev.len() + cur.len();
    assert forall|x: int| 0 <= x < w implies #[trigger] out.subrange(start as int, (start + w) as int)[x] == cells[x] by {
        assert(out[start + x] == all[prev.len() + cur.len() + x]);
        assert(all[prev.len() + cur.len() + x] == all.subrange(0, upto.len() as int)[prev.len() + cur.len() + x]);
        assert(upto[prev.len() + cur.len() + x] == cells[x]);
    }
    assert(out.subrange(start as int, (start + w) as int) =~= cells);
}

/// The whole ASCII rendering of a frame inside one synchronized update.
pub open spec fn ascii_frame_bytes(frame: Seq<u8>, vp: RenderViewport) -> Seq<u8> {
    sync_begin() + ascii_rows(frame, vp, vp.cell_rows as nat) + sync_end()
}

/// `prefix r ; g ; b`.
pub open spec fn rgb_code(prefix: Seq<u8>, rgb: (u8, u8, u8)) -> Seq<u8> {
    prefix + dec_bytes(rgb.0 as nat) + seq![59u8] + dec_bytes(rgb.1 as nat) + seq![59u8]
        + dec_bytes(rgb.2 as nat)
}

/// `38;2;`: the foreground truecolour prefix.
pub open spec fn fg_prefix() -> Seq<u8> {
    seq![51u8, 56u8, 59u8, 50u8, 59u8]
}

/// `48;2;`: the background truecolour prefix.
pub open spec fn bg_prefix() -> Seq<u8> {
    seq![52u8, 56u8, 59u8, 50u8, 59u8]
}

/// The colour escape emitted before a cell: nothing when neither colour changed, else
/// one SGR sequence setting whichever colours changed.
pub open spec fn color_bytes(
    fg: (u8, u8, u8),
    bg: (u8, u8, u8),
    last_fg: Option<(u8, u8, u8)>,
    last_bg: Option<(u8, u8, u8)>,
) -> Seq<u8> {
    let fg_changed = last_fg != Some(fg);
    let bg_changed = last_bg != Some(bg);
    if !fg_changed && !bg_changed {
        seq![]
    } else {
        seq![27u8, 91u8]
            + (if fg_changed { rgb_code(fg_prefix(), fg) } else { seq![] })
            + (if fg_changed && bg_changed { seq![59u8] } else { seq![] })
            + (if bg_changed { rgb_code(bg_prefix(), bg) } else { seq![] })
            + seq![109u8]
    }
}

/// The colours that were set before cell `x` of a row: none before the first cell,
/// else those of the cell to its left.
pub open spec fn prev_colors(frame: Seq<u8>, width: nat, row: nat, x: nat) -> (Option<(u8, u8, u8)>, Option<(u8, u8, u8)>) {
    if x == 0 {
        (None, None)
    } else {
        (
            Some(rgb_spec(frame, width, (x - 1) as nat, 2 * row)),
            Some(rgb_spec(frame, width, (x - 1) as nat, 2 * row + 1)),
        )
    }
}

/// The first `n` half-block cells of RGB text row `row`: the upper pixel as foreground,
/// the lower as background.
pub open spec fn rgb_cells(frame: Seq<u8>, width: nat, row: nat, n: nat) -> Seq<u8>
    decreases n,
{
    if n == 0 {
        seq![]
    } else {
        let x = (n - 1) as nat;
        let prev = prev_colors(frame, width, row, x);
        rgb_cells(frame, width, row, x) + color_bytes(
            rgb_spec(frame, width, x, 2 * row),
            rgb_spec(frame, width, x, 2 * row + 1),
            prev.0,
            prev.1,
        ) + upper_half_block()
    }
}

/// The first `n` text rows of the RGB rendering; each row ends with a colour reset.
pub open spec fn rgb_rows(frame: Seq<u8>, vp: RenderViewport, n: nat) -> Seq<u8>
    decreases n,
{
    if n == 0 {
        seq![]
    } else {
        let row = (n - 1) as nat;
        rgb_rows(frame, vp, row) + cursor_bytes(vp.offset_x as nat, (vp.offset_y + row) as nat)
            + rgb_cells(frame, vp.pixel_width as nat, row, vp.pixel_width as nat) + style_reset()
    }
}

/// The whole RGB half-block rendering of a frame inside one synchronized update.
pub open spec fn rgb_frame_bytes(frame: Seq<u8>, vp: RenderViewport) -> Seq<u8> {
    sync_begin() + rgb_rows(frame, vp, vp.cell_rows as nat) + sync_end()
}

/// The viewport can be walked without overflow: every cursor row fits a `u16`, every
/// pixel offset fits a `usize`.
pub open spec fn viewport_renderable(vp: RenderViewport) -> bool {
    &&& vp.offset_y + vp.cell_rows < 0x1_0000
    &&& vp.offset_x + 1 < 0x1_0000
    &&& (2 * vp.cell_rows as int * vp.pixel_width as int + 1) * 3 <= usize::MAX
}

/// The rendering of a frame in the given mode.
pub open spec fn frame_bytes(mode: VideoRenderMode, frame: Seq<u8>, vp: RenderViewport) -> Seq<u8> {
    match mode {
        VideoRenderMode::Ascii => ascii_frame_bytes(frame, vp),
        VideoRenderMode::Rgb => rgb_frame_bytes(frame, vp),
    }
}

/// Renders a frame into `out`, replacing what it held.
pub fn render_frame(mode: VideoRenderMode, frame: &[u8], viewport: RenderViewport, out: &mut Vec<u8>)
    requires
        viewport_renderable(viewport),
    ensures
        final(out)@ == frame_bytes(mode, frame@, viewport),
{
    match mode {
        VideoRenderMode::Ascii => render_ascii_frame(frame, viewport, out),
        VideoRenderMode::Rgb => render_rgb_frame(frame, viewport, out),
    }
}

/// Renders a frame as ASCII density characters, one per two stacked pixels.
pub fn render_ascii_frame(frame: &[u8], viewport: RenderViewport, out: &mut Vec<u8>)
    requires
        viewport_renderable(viewport),
    ensures
        final(out)@ == ascii_frame_bytes(frame@, viewport),
{
    out.clear();
    push_all(out, &[27u8, 91u8, 63u8, 50u8, 48u8, 50u8, 54u8, 104u8]);
    let width = viewport.pixel_width as usize;
    let rows = viewport.cell_rows as usize;
    let mut row: usize = 0;
    while row < rows
        invariant
            width == viewport.pixel_width,
            rows == viewport.cell_rows,
            row <= rows,
            viewport_renderable(viewport),
            out@ == sync_begin() + ascii_rows(frame@, viewport, row as nat),
        decreases rows - row,
    {
        let ghost before = out@;
        push_cursor(out, viewport.offset_x, viewport.offset_y + row as u16);
        let ghost with_cursor = out@;
        let mut x: usize = 0;
        while x < width
            invariant
                width == viewport.pixel_width,
                rows == viewport.cell_rows,
                row < rows,
                x <= width,
                viewport_renderable(viewport),
                out@ == with_cursor + ascii_cells(frame@, width as nat, row as nat, x as nat),
            decreases width - x,
        {
            proof { lemma_offset_bound(viewport, row as nat, x as nat); }
            let top = luma(frame, width, x, row * 2);
            let bottom = luma(frame, width, x, row * 2 + 1);
            out.push(ascii_for_luma((top + bottom) / 2));
            proof {
                assert(2 * (row as nat) == row * 2);
            }
            x = x + 1;
        }
        proof {
            assert(out@ == sync_begin() + ascii_rows(frame@, viewport, row as nat + 1));
        }
        row = row + 1;
    }
    let ghost body = out@;
    push_all(out, &[27u8, 91u8, 63u8, 50u8, 48u8, 50u8, 54u8, 108u8]);
    assert(out@ == body + sync_end());
}

/// Renders a frame as truecolour half blocks: the upper pixel is the foreground, the
/// lower the background, and a colour is only re-sent when it changes along a row.
pub fn render_rgb_frame(frame: &[u8], viewport: RenderViewport, out: &mut Vec<u8>)
    requires
        viewport_renderable(viewport),
    ensures
        final(out)@ == rgb_frame_bytes(frame@, viewport),
{
    out.clear();
    push_all(out, &[27u8, 91u8, 63u8, 50u8, 48u8, 50u8, 54u8, 104u8]);
    let width = viewport.pixel_width as usize;
    let rows = viewport.cell_rows as usize;
    let mut row: usize = 0;
    while row < rows
        invariant
            width == viewport.pixel_width,
            rows == viewport.cell_rows,
            row <= rows,
            viewport_renderable(viewport),
            out@ == sync_begin() + rgb_rows(frame@, viewport, row as nat),
        decreases rows - row,
    {
        push_cursor(out, viewport.offset_x, viewport.offset_y + row as u16);
        let ghost with_cursor = out@;
        let mut last_fg: Option<(u8, u8, u8)> = None;
        let mut last_bg: Option<(u8, u8, u8)> = None;
        let mut x: usize = 0;
        while x < width
            invariant
                width == viewport.pixel_width,
                rows == viewport.cell_rows,
                row < rows,
                x <= width,
                viewport_renderable(viewport),
                (last_fg, last_bg) == prev_colors(frame@, width as nat, row as nat, x as nat),
                out@ == with_cursor + rgb_cells(frame@, width as nat, row as nat, x as nat),
            decreases width - x,
        {
            proof { lemma_offset_bound(viewport, row as nat, x as nat); }
            let fg = rgb_at(frame, width, x, row * 2);
            let bg = rgb_at(frame, width, x, row * 2 + 1);
            push_color(out, fg, bg, &mut last_fg, &mut last_bg);
            push_all(out, &[0xe2u8, 0x96u8, 0x80u8]);
            proof {
                assert(2 * (row as nat) == row * 2);
            }
            x = x + 1;
        }
        push_all(out, &[27u8, 91u8, 48u8, 109u8]);
        proof {
            assert(out@ == sync_begin() + rgb_rows(frame@, viewport, row as nat + 1));
        }
        row = row + 1;
    }
    let ghost body = out@;
    push_all(out, &[27u8, 91u8, 63u8, 50u8, 48u8, 50u8, 54u8, 108u8]);
    assert(out@ == body + sync_end());
}

proof fn lemma_offset_bound(vp: RenderViewport, row: nat, x: nat)
    requires
        viewport_renderable(vp),
        row < vp.cell_rows,
        x < vp.pixel_width,
    ensures
        ((row * 2 + 1) * vp.pixel_width + x) * 3 + 2 <= usize::MAX,
        ((row * 2) * vp.pixel_width + x) * 3 + 2 <= usize::MAX,
        row * 2 + 1 <= usize::MAX,
{
    let w = vp.pixel_width as int;
    let r = vp.cell_rows as int;
    assert((row * 2 + 1) * w + x < 2 * r * w + 1) by (nonlinear_arith)
        requires row < r, x < w, w >= 0, row >= 0, x >= 0;
    assert((row * 2) * w + x <= (row * 2 + 1) * w + x) by (nonlinear_arith)
        requires w >= 0, row >= 0;
    assert(row * 2 + 1 <= (2 * r * w + 1) * 3) by (nonlinear_arith)
        requires row < r, x < w, w >= 1, row >= 0;
}

/// Appends the cursor move to the zero-based cell (`x`, `y`).
pub fn push_cursor(out: &mut Vec<u8>, x: u16, y: u16)
    requires
        x < u16::MAX,
        y < u16::MAX,
    ensures
        final(out)@ == old(out)@ + cursor_bytes(x as nat, y as nat),
{
    out.push(27u8);
    out.push(91u8);
    push_u16(out, y + 1);
    out.push(59u8);
    push_u16(out, x + 1);
    out.push(72u8);
    assert(out@ == old(out)@ + cursor_bytes(x as nat, y as nat));
}

/// The colour of pixel (`x`, `y`), black when the pixel is not wholly inside the frame.
pub fn rgb_at(frame: &[u8], width: usize, x: usize, y: usize) -> (rgb: (u8, u8, u8))
    requires
        (y * width + x) * 3 + 2 <= usize::MAX,
    ensures
        rgb == rgb_spec(frame@, width as nat, x as nat, y as nat),
{
    proof { lemma_offset_fits(width, x, y); }
    let offset = (y * width + x) * 3;
    if offset + 2 >= frame.len() {
        return (0, 0, 0);
    }
    (frame[offset], frame[offset + 1], frame[offset + 2])
}

proof fn lemma_offset_fits(width: usize, x: usize, y: usize)
    requires
        (y * width + x) * 3 + 2 <= usize::MAX,
    ensures
        y * width <= usize::MAX,
        y * width + x <= usize::MAX,
{
    assert(y * width >= 0) by (nonlinear_arith)
        requires y >= 0, width >= 0;
}

/// Appends the colour escape for a cell and records the colours now in effect.
pub fn push_color(
    out: &mut Vec<u8>,
    fg: (u8, u8, u8),
    bg: (u8, u8, u8),
    last_fg: &mut Option<(u8, u8, u8)>,
    last_bg: &mut Option<(u8, u8, u8)>,
)
    ensures
        final(out)@ == old(out)@ + color_bytes(fg, bg, *old(last_fg), *old(last_bg)),
        (*old(last_fg) != Some(fg) || *old(last_bg) != Some(bg)) ==> (*final(last_fg) == Some(fg)
            && *final(last_bg) == Some(bg)),
        (*old(last_fg) == Some(fg) && *old(last_bg) == Some(bg)) ==> (*final(last_fg) == *old(last_fg)
            && *final(last_bg) == *old(last_bg)),
{
    let fg_changed = !same_color(last_fg, fg);
    let bg_changed = !same_color(last_bg, bg);
    if !fg_changed && !bg_changed {
        assert(color_bytes(fg, bg, *old(last_fg), *old(last_bg)) == Seq::<u8>::empty());
        return;
    }
    let ghost start = out@;
    out.push(27u8);
    out.push(91u8);
    if fg_changed {
        push_rgb_code(out, &[51u8, 56u8, 59u8, 50u8, 59u8], fg);
    }
    if fg_changed && bg_changed {
        out.push(59u8);
    }
    if bg_changed {
        push_rgb_code(out, &[52u8, 56u8, 59u8, 50u8, 59u8], bg);
    }
    out.push(109u8);
    *last_fg = Some(fg);
    *last_bg = Some(bg);
    assert(out@ == start + color_bytes(fg, bg, *old(last_fg), *old(last_bg)));
}

fn same_color(last: &Option<(u8, u8, u8)>, c: (u8, u8, u8)) -> (same: bool)
    ensures
        same == (*last == Some(c)),
{
    match last {
        Some(l) => l.0 == c.0 && l.1 == c.1 && l.2 == c.2,
        None => false,
    }
}

/// Appends `prefix` and the three channels in decimal, separated by `;`.
pub fn push_rgb_code(out: &mut Vec<u8>, prefix: &[u8], rgb: (u8, u8, u8))
    ensures
        final(out)@ == old(out)@ + rgb_code(prefix@, rgb),
{
    push_all(out, prefix);
    push_u8(out, rgb.0);
    out.push(59u8);
    push_u8(out, rgb.1);
    out.push(59u8);
    push_u8(out, rgb.2);
    assert(out@ == old(out)@ + rgb_code(prefix@, rgb));
}

/// Appends a byte value in decimal, without leading zeros.
pub fn push_u8(out: &mut Vec<u8>, value: u8)
    ensures
        final(out)@ == old(out)@ + dec_bytes(value as nat),
{
    proof { lemma_dec_bytes_u8(value as nat); }
    if value >= 100 {
        out.push(48u8 + value / 100);
        out.push(48u8 + (value / 10) % 10);
        out.push(48u8 + value % 10);
    } else if value >= 10 {
        out.push(48u8 + value / 10);
        out.push(48u8 + value % 10);
    } else {
        out.push(48u8 + value);
    }
}

proof fn lemma_dec_bytes_u8(v: nat)
    requires
        v < 256,
    ensures
        v >= 100 ==> dec_bytes(v) == seq![(48 + v / 100) as u8, (48 + (v / 10) % 10) as u8, (48 + v % 10) as u8],
        10 <= v < 100 ==> dec_bytes(v) == seq![(48 + v / 10) as u8, (48 + v % 10) as u8],
        v < 10 ==> dec_bytes(v) == seq![(48 + v) as u8],
{
    if v >= 100 {
        assert(v / 10 >= 10);
        assert((v / 10) / 10 == v / 100);
        assert(v / 100 < 10);
        assert(dec_bytes(v / 100) == seq![(48 + v / 100) as u8]);
        assert(dec_bytes(v / 10) == seq![(48 + v / 100) as u8, (48 + (v / 10) % 10) as u8]);
    } else if v >= 10 {
        assert(dec_bytes(v / 10) == seq![(48 + v / 10) as u8]);
    }
}

/// Appends a `u16` value in decimal.
pub fn push_u16(out: &mut Vec<u8>, value: u16)
    ensures
        final(out)@ == old(out)@ + dec_bytes(value as nat),
{
    push_dec_bytes(out, value as u64);
}

/// Integer luma of pixel (`x`, `y`), zero when the pixel is not wholly inside the frame.
pub fn luma(frame: &[u8], width: usize, x: usize, y: usize) -> (l: u32)
    requires
        (y * width + x) * 3 + 2 <= usize::MAX,
    ensures
        l == luma_spec(frame@, width as nat, x as nat, y as nat),
        l <= 255,
{
    proof { lemma_offset_fits(width, x, y); }
    let offset = (y * width + x) * 3;
    if offset + 2 >= frame.len() {
        return 0;
    }
    (frame[offset] as u32 * 299 + frame[offset + 1] as u32 * 587 + frame[offset + 2] as u32 * 114) / 1000
}

/// The density character for a luma value.
pub fn ascii_for_luma(luma: u32) -> (c: u8)
    ensures
        c == ascii_for_luma_spec(luma as nat),
{
    let ramp: [u8; 10] = [32u8, 46u8, 58u8, 45u8, 61u8, 43u8, 42u8, 35u8, 37u8, 64u8];
    let l: usize = if luma > 255 { 255 } else { luma as usize };
    let index = (l * 9) / 255;
    assert(ramp@ == ascii_ramp());
    ramp[index]
}

} // verus!
