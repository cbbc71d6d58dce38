use vstd::prelude::*;

verus! {

/// The cell budget of the ASCII intro.
pub const MAX_RENDER_CELLS: u32 = 12_000;

/// The frame rate of the splash intro.
pub const SPLASH_FPS: u32 = 24;

/// How a video frame is drawn in the terminal.
#[derive(Debug, Clone, Copy, PartialEq, Eq, Structural)]
pub enum VideoRenderMode {
    Ascii,
    Rgb,
}

/// How an intro video is played.
#[derive(Debug, Clone)]
pub struct AsciiVideoConfig {
    pub video_path: String,
    pub fps: u32,
    pub mode: VideoRenderMode,
    pub max_render_cells: Option<u32>,
    pub audio: bool,
    pub overlay_path: Option<String>,
}

impl AsciiVideoConfig {
    /// Full-resolution truecolour playback at 30 frames a second with sound and no overlay.
    pub fn new(video_path: &str) -> (c: AsciiVideoConfig)
        ensures
            c.video_path@ == video_path@,
            c.fps == 30,
            c.mode == VideoRenderMode::Rgb,
            c.max_render_cells is None,
            c.audio,
            c.overlay_path is None,
    {
        AsciiVideoConfig {
            video_path: String::from_str(video_path),
            fps: 30,
            mode: VideoRenderMode::Rgb,
            max_render_cells: None,
            audio: true,
            overlay_path: None,
        }
    }

    /// ASCII playback within the cell budget, otherwise as `new`.
    pub fn ascii(video_path: &str) -> (c: AsciiVideoConfig)
        ensures
            c.video_path@ == video_path@,
            c.fps == 30,
            c.mode == VideoRenderMode::Ascii,
            c.max_render_cells == Some(MAX_RENDER_CELLS),
            c.audio,
            c.overlay_path is None,
    {
        AsciiVideoConfig { mode: VideoRenderMode::Ascii, max_render_cells: Some(MAX_RENDER_CELLS), ..Self::new(video_path) }
    }

    /// The splash intro: 24 frames a second under the splash overlay, otherwise as `new`.
    pub fn splash(video_path: &str) -> (c: AsciiVideoConfig)
        ensures
            c.video_path@ == video_path@,
            c.fps == SPLASH_FPS,
            c.mode == VideoRenderMode::Rgb,
            c.max_render_cells is None,
            c.audio,
            c.overlay_path matches Some(p) && p@ == "assets/svg/splash_overlay.svg"@,
    {
        AsciiVideoConfig {
            fps: SPLASH_FPS,
            overlay_path: Some(String::from_str("assets/svg/splash_overlay.svg")),
            ..Self::new(video_path)
        }
    }
}

} // verus!
