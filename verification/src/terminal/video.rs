pub mod config;
pub mod events;
pub mod overlay;
pub mod render;
pub mod resize;
pub mod viewport;

use vstd::prelude::*;

use overlay::SplashOverlay;
use viewport::{RenderViewport, capped_grid};

verus! {

/// How often the terminal size is polled while a video plays.
pub const RESIZE_POLL_NANOS: u64 = 100_000_000;

/// Why video playback ended.
#[derive(Debug, Clone, Copy, PartialEq, Eq, Structural)]
pub enum VideoExit {
    Quit,
    Start,
    Finished,
}

/// The number of whole frames at `fps` in `elapsed_nanos`, saturating at `u64::MAX`.
pub open spec fn frames_in(elapsed_nanos: nat, fps: nat) -> nat {
    let n = elapsed_nanos * fps / 1_000_000_000;
    if n > u64::MAX { u64::MAX as nat } else { n }
}

/// How many frames should have been shown after `elapsed_nanos` at `fps`.
/// The value is the exact one, computed in integers; at a rounding boundary it can be one
/// more or one less than a floating-point evaluation of the same formula gives.
pub fn elapsed_frames(elapsed_nanos: u64, fps: u32) -> (n: u64)
    ensures
        n == frames_in(elapsed_nanos as nat, fps as nat),
{
    assert((elapsed_nanos as u128) * (fps as u128) <= u128::MAX) by (nonlinear_arith)
        requires elapsed_nanos <= u64::MAX, fps <= u32::MAX;
    let total: u128 = (elapsed_nanos as u128) * (fps as u128);
    let n = total / 1_000_000_000u128;
    if n > u64::MAX as u128 { u64::MAX } else { n as u64 }
}

/// When frame `frame_index` is due, `frame_step_nanos` apart from `start_nanos`.
pub fn frame_deadline(start_nanos: u64, frame_step_nanos: u64, frame_index: u64) -> (t: u64)
    requires
        start_nanos + frame_step_nanos * frame_index <= u64::MAX,
    ensures
        t == start_nanos + frame_step_nanos * frame_index,
{
    assert(frame_step_nanos * frame_index >= 0) by (nonlinear_arith)
        requires frame_step_nanos >= 0, frame_index >= 0;
    start_nanos + frame_step_nanos * frame_index
}

/// The terminal size seen last, and a size change not yet applied.
#[derive(Debug, Clone, Copy, PartialEq, Eq)]
pub struct ResizeState {
    pub last_size: (u16, u16),
    pub pending: Option<(u16, u16)>,
}

impl ResizeState {
    /// Starts from the terminal size, or 80 by 24 when it is unknown.
    pub fn new(current: Option<(u16, u16)>) -> (r: Result<ResizeState, String>)
        ensures
            r is Ok,
            r->Ok_0.last_size == match current { Some(s) => s, None => (80u16, 24u16) },
            r->Ok_0.pending is None,
    {
        let last_size = match current {
            Some(s) => s,
            None => (80, 24),
        };
        Ok(ResizeState { last_size, pending: None })
    }

    /// Records a new size to apply.
    pub fn mark(&mut self, cols: u16, rows: u16)
        ensures
            final(self).last_size == (cols, rows),
            final(self).pending == Some((cols, rows)),
    {
        self.last_size = (cols, rows);
        self.pending = Some((cols, rows));
    }

    /// Whether it is time to poll the terminal size again.
    pub fn poll_due(&self, since_last_poll_nanos: u64) -> (r: Result<bool, String>)
        ensures
            r == Ok::<bool, String>(since_last_poll_nanos >= RESIZE_POLL_NANOS),
    {
        Ok(since_last_poll_nanos >= RESIZE_POLL_NANOS)
    }

    /// Takes in a polled size: a size that differs from the last one is recorded.
    pub fn poll_terminal(&mut self, current: Option<(u16, u16)>) -> (r: Result<(), String>)
        ensures
            r is Ok,
            match current {
                Some(size) if size != old(self).last_size => final(self).last_size == size
                    && final(self).pending == Some(size),
                _ => *final(self) == *old(self),
            },
    {
        if let Some(size) = current {
            if size.0 != self.last_size.0 || size.1 != self.last_size.1 {
                self.mark(size.0, size.1);
            }
        }
        Ok(())
    }

    /// Takes the pending size, if any; it is then no longer pending.
    pub fn ready(&mut self) -> (r: Option<(u16, u16)>)
        ensures
            r == old(self).pending,
            final(self).pending is None,
            final(self).last_size == old(self).last_size,
    {
        let r = self.pending;
        self.pending = None;
        r
    }
}

/// The viewport for a terminal of `cols` by `rows` cells, each side taken as at least
/// one, under an optional cell budget: the capped grid, two pixel rows per cell, centred
/// in the terminal.
pub open spec fn viewport_for(cols: u16, rows: u16, max_render_cells: Option<u32>) -> RenderViewport {
    let c = if cols < 1 { 1 } else { cols as int };
    let r = if rows < 1 { 1 } else { rows as int };
    let g = capped_grid(c as u32, r as u32, max_render_cells);
    RenderViewport {
        pixel_width: g.0 as u32,
        pixel_height: (2 * g.1) as u32,
        cell_rows: g.1 as u16,
        offset_x: ((c - g.0) / 2) as u16,
        offset_y: ((r - g.1) / 2) as u16,
    }
}

/// A byte buffer resized to `len` bytes: cut to its first `len` bytes, or kept whole
/// and extended with zero bytes.
pub open spec fn resized_bytes(bytes: Seq<u8>, len: nat) -> Seq<u8> {
    if len <= bytes.len() {
        bytes.take(len as int)
    } else {
        bytes + Seq::new((len - bytes.len()) as nat, |i: int| 0u8)
    }
}

/// Recomputes the viewport for a new terminal size; when the pixel size changed, the
/// frame buffer is resized to the new frame's length (old bytes kept as a prefix, new
/// bytes zero) and the output buffer emptied; otherwise both buffers are kept. The new
/// frame's byte sizes must fit a `u32` only when the pixel size changes.
pub fn resize_playback(
    viewport: &mut RenderViewport,
    frame: &mut Vec<u8>,
    output: &mut Vec<u8>,
    cols: u16,
    rows: u16,
    max_render_cells: Option<u32>,
)
    requires
        ({
            let g = capped_grid(
                (if cols < 1 { 1 } else { cols }) as u32,
                (if rows < 1 { 1 } else { rows }) as u32,
                max_render_cells,
            );
            (old(viewport).pixel_width != g.0 || old(viewport).pixel_height != 2 * g.1) ==> (g.0 * (2 * g.1) * 3
                <= u32::MAX && g.0 * g.1 * 24 <= u32::MAX)
        }),
    ensures
        *final(viewport) == viewport_for(cols, rows, max_render_cells),
        (old(viewport).pixel_width != final(viewport).pixel_width || old(viewport).pixel_height
            != final(viewport).pixel_height) ==> (final(frame)@ == resized_bytes(
            old(frame)@,
            (final(viewport).pixel_width * final(viewport).pixel_height * 3) as nat,
        ) && final(output)@.len() == 0),
        (old(viewport).pixel_width == final(viewport).pixel_width && old(viewport).pixel_height
            == final(viewport).pixel_height) ==> (final(frame)@ == old(frame)@ && final(output)@ == old(output)@),
{
    let c = if cols < 1 { 1 } else { cols };
    let r = if rows < 1 { 1 } else { rows };
    let next = RenderViewport::new(c, r, max_render_cells);
    assert(next == viewport_for(cols, rows, max_render_cells));
    if viewport.pixel_width != next.pixel_width || viewport.pixel_height != next.pixel_height {
        let ghost before = frame@;
        let len = next.frame_len();
        frame.resize(len, 0);
        proof {
            if len as nat > before.len() {
                assert forall|i: int| before.len() <= i < len implies frame@[i] == 0u8 by {
                    assert(cloned::<u8>(0u8, frame@[i]));
                }
                assert(frame@ =~= resized_bytes(before, len as nat)) by {
                    assert forall|i: int| 0 <= i < before.len() implies frame@[i] == before[i] by {
                        assert(frame@.subrange(0, before.len() as int)[i] == frame@[i]);
                    }
                }
            }
        }
        output.clear();
        output.reserve((next.pixel_width * (next.cell_rows as u32) * 24) as usize);
    }
    *viewport = next;
}

/// The decision taken on one video event.
pub open spec fn video_event_exit(event: events::VideoEvent, has_overlay: bool) -> Option<VideoExit> {
    match event {
        events::VideoEvent::Exit => Some(VideoExit::Quit),
        events::VideoEvent::Start => if has_overlay { None } else { Some(VideoExit::Start) },
        _ => None,
    }
}

/// Applies one input event to the playback: quit, mute the audio, start (through the
/// overlay's fade when there is one) or record a resize.
pub fn apply_pending_video_event(
    event: events::VideoEvent,
    resize_state: &mut ResizeState,
    audio_on: &mut bool,
    overlay: Option<&mut SplashOverlay>,
    now_nanos: u64,
) -> (r: Result<Option<VideoExit>, String>)
    ensures
        r == Ok::<Option<VideoExit>, String>(video_event_exit(event, overlay is Some)),
        *final(audio_on) == (*old(audio_on) && !(event is Mute)),
        event matches events::VideoEvent::Resize(c, rows) ==> final(resize_state).last_size == (c, rows)
            && final(resize_state).pending == Some((c, rows)),
        !(event is Resize) ==> *final(resize_state) == *old(resize_state),
        overlay matches Some(o) ==> *final(o) == match event {
            events::VideoEvent::Start => overlay::started(*o, now_nanos),
            events::VideoEvent::Resize(_, _) => overlay::invalidated(*o),
            _ => *o,
        },
{
    match event {
        events::VideoEvent::Exit => Ok(Some(VideoExit::Quit)),
        events::VideoEvent::Mute => {
            *audio_on = false;
            Ok(None)
        },
        events::VideoEvent::Start => {
            if let Some(overlay) = overlay {
                overlay.trigger_start(now_nanos);
                Ok(None)
            } else {
                Ok(Some(VideoExit::Start))
            }
        },
        events::VideoEvent::Resize(cols, rows) => {
            resize_state.mark(cols, rows);
            if let Some(overlay) = overlay {
                overlay.invalidate_layout();
            }
            Ok(None)
        },
        events::VideoEvent::Nothing => Ok(None),
    }
}

} // verus!
