pub mod layout;

use vstd::prelude::*;

use crate::render::raster::{pixmap_fits, rasterize_svg, usvg_accepts};
use crate::render::svg::{apply_tokens, dec_string, names_nonempty, pair_views, push_token, replace_each};
use crate::shared::{loading_tip, loading_tip_text};
use crate::terminal::kitty::KittyImage;
use crate::text::{dec_chars, escape_xml, xml_escaped};
use crate::terminal::metrics::TerminalMetrics;
use layout::{OverlayLayout, compute_overlay_layout, overlay_layout};

verus! {

/// How long the splash art takes to fade out.
pub const SPLASH_FADE_OUT_NANOS: u64 = 800_000_000;

/// How long the loading card takes to fade in.
pub const LOADING_FADE_IN_NANOS: u64 = 500_000_000;

/// The loading card's template.
pub const LOADING_SVG_PATH: &'static str = "assets/svg/loading.svg";

/// Where the splash overlay stands; each timed phase remembers when it began.
#[derive(Debug, Clone, Copy, PartialEq, Eq, Structural)]
pub enum OverlayPhase {
    SplashActive,
    SplashFadeOut { start: u64 },
    LoadingFadeIn { start: u64 },
    LoadingActive { start: u64 },
    Finished,
}

/// What a frame of the overlay shows: the splash art or the loading card, and how long
/// the current timed phase has lasted.
#[derive(Debug, Clone, Copy, PartialEq, Eq, Structural)]
pub enum OverlayStage {
    Splash,
    SplashFading { elapsed: u64 },
    LoadingFading { elapsed: u64 },
    Loading { elapsed: u64 },
    Finished,
}

/// What a rasterised overlay was drawn from.
#[derive(Debug, Clone, PartialEq, Eq)]
pub struct RenderState {
    pub path: String,
    pub render_width: u32,
    pub render_height: u32,
    pub progress_key: u32,
}

/// The splash overlay shown over the intro video: its phase, its image, the layout and
/// render it last used, and the loading tip.
pub struct SplashOverlay {
    pub image: KittyImage,
    pub phase: OverlayPhase,
    pub last_state: Option<RenderState>,
    pub last_layout: Option<OverlayLayout>,
    pub tip_header: String,
    pub tip_body: String,
    pub splash_path: String,
}

/// The overlay after the start key at `now`: the splash art starts fading out if it is
/// still showing; nothing else changes.
pub open spec fn started(o: SplashOverlay, now: u64) -> SplashOverlay {
    if o.phase == OverlayPhase::SplashActive {
        SplashOverlay { phase: OverlayPhase::SplashFadeOut { start: now }, ..o }
    } else {
        o
    }
}

/// The layout an overlay keeps for a terminal size, if any.
pub open spec fn kept_layout_of(o: SplashOverlay, terminal_cols: u16, terminal_rows: u16) -> Option<OverlayLayout> {
    match o.last_layout {
        Some(layout) => if layout.terminal_cols == terminal_cols && layout.terminal_rows == terminal_rows {
            Some(layout)
        } else {
            None
        },
        None => None,
    }
}

/// The overlay with its layout and render forgotten; nothing else changes.
pub open spec fn invalidated(o: SplashOverlay) -> SplashOverlay {
    SplashOverlay { last_layout: None, last_state: None, ..o }
}

impl SplashOverlay {
    /// A new overlay for the splash art at `path`, with the tip picked by `tip_seed`.
    pub fn new(path: String, tip_seed: u32) -> (o: SplashOverlay)
        ensures
            o.phase == OverlayPhase::SplashActive,
            o.image == (KittyImage { image_id: 525_310, placement_id: 31 }),
            o.last_state is None,
            o.last_layout is None,
            o.tip_header@ == loading_tip_text(tip_seed).0,
            o.tip_body@ == loading_tip_text(tip_seed).1,
            o.splash_path@ == path@,
    {
        let tip = loading_tip(tip_seed);
        SplashOverlay {
            image: KittyImage { image_id: 525_310, placement_id: 31 },
            phase: OverlayPhase::SplashActive,
            last_state: None,
            last_layout: None,
            tip_header: String::from_str(tip.0),
            tip_body: String::from_str(tip.1),
            splash_path: path,
        }
    }

    /// Starts the fade-out of the splash art, if it is still showing.
    pub fn trigger_start(&mut self, now_nanos: u64)
        ensures
            old(self).phase == OverlayPhase::SplashActive ==> final(self).phase == (OverlayPhase::SplashFadeOut {
                start: now_nanos,
            }),
            old(self).phase != OverlayPhase::SplashActive ==> final(self).phase == old(self).phase,
            final(self).last_state == old(self).last_state,
            final(self).last_layout == old(self).last_layout,
            *final(self) == started(*old(self), now_nanos),
    {
        if self.phase == OverlayPhase::SplashActive {
            self.phase = OverlayPhase::SplashFadeOut { start: now_nanos };
        }
    }

    pub fn is_finished(&self) -> (b: bool)
        ensures
            b == (self.phase == OverlayPhase::Finished),
    {
        self.phase == OverlayPhase::Finished
    }

    pub fn image(&self) -> (i: KittyImage)
        ensures
            i == self.image,
    {
        self.image
    }

    /// Forgets the layout and the render, so both are made again.
    pub fn invalidate_layout(&mut self)
        ensures
            final(self).last_layout is None,
            final(self).last_state is None,
            final(self).phase == old(self).phase,
            *final(self) == invalidated(*old(self)),
    {
        self.last_layout = None;
        self.last_state = None;
    }

    /// Moves through the timed phases that have run out at `now_nanos` and says what this
    /// frame shows.
    pub fn next_overlay_stage(&mut self, now_nanos: u64) -> (s: OverlayStage)
        ensures
            final(self).phase == overlay_phase_at(old(self).phase, now_nanos),
            s == overlay_stage_of(final(self).phase, now_nanos),
            final(self).last_state == old(self).last_state,
            final(self).last_layout == old(self).last_layout,
            *final(self) == (SplashOverlay { phase: overlay_phase_at(old(self).phase, now_nanos), ..*old(self) }),
    {
        if let OverlayPhase::SplashFadeOut { start } = self.phase {
            if elapsed_since(start, now_nanos) >= SPLASH_FADE_OUT_NANOS {
                self.phase = OverlayPhase::LoadingFadeIn { start: now_nanos };
            }
        }
        if let OverlayPhase::LoadingFadeIn { start } = self.phase {
            if elapsed_since(start, now_nanos) >= LOADING_FADE_IN_NANOS {
                self.phase = OverlayPhase::LoadingActive { start: now_nanos };
            }
        }
        match self.phase {
            OverlayPhase::SplashActive => OverlayStage::Splash,
            OverlayPhase::SplashFadeOut { start } => OverlayStage::SplashFading { elapsed: elapsed_since(start, now_nanos) },
            OverlayPhase::LoadingFadeIn { start } => OverlayStage::LoadingFading { elapsed: elapsed_since(start, now_nanos) },
            OverlayPhase::LoadingActive { start } => OverlayStage::Loading { elapsed: elapsed_since(start, now_nanos) },
            OverlayPhase::Finished => OverlayStage::Finished,
        }
    }

    /// The template a stage is drawn from: the splash art until it has faded out, the
    /// loading card from then on.
    pub fn stage_template_path(&self, stage: OverlayStage) -> (p: String)
        ensures
            p@ == if stage is Splash || stage is SplashFading {
                self.splash_path@
            } else {
                LOADING_SVG_PATH@
            },
    {
        match stage {
            OverlayStage::Splash | OverlayStage::SplashFading { .. } => self.splash_path.clone(),
            _ => String::from_str(LOADING_SVG_PATH),
        }
    }

    /// The loading bar is full: the overlay is done.
    pub fn finish_loading(&mut self)
        ensures
            old(self).phase is LoadingActive ==> final(self).phase == OverlayPhase::Finished,
            !(old(self).phase is LoadingActive) ==> final(self).phase == old(self).phase,
            *final(self) == (SplashOverlay { phase: final(self).phase, ..*old(self) }),
    {
        if let OverlayPhase::LoadingActive { .. } = self.phase {
            self.phase = OverlayPhase::Finished;
        }
    }

    /// The layout kept for this terminal size, if any.
    pub fn kept_layout(&self, terminal_cols: u16, terminal_rows: u16) -> (l: Option<OverlayLayout>)
        ensures
            l == kept_layout_of(*self, terminal_cols, terminal_rows),
    {
        match self.last_layout {
            Some(layout) => if layout.terminal_cols == terminal_cols && layout.terminal_rows == terminal_rows {
                Some(layout)
            } else {
                None
            },
            None => None,
        }
    }

    /// The layout for this terminal size: the kept one when there is one (the metrics are
    /// then not used), otherwise computed from the metrics and kept; a failed computation
    /// leaves the overlay as it was.
    pub fn cached_layout(&mut self, terminal_cols: u16, terminal_rows: u16, metrics: TerminalMetrics) -> (r: Result<
        OverlayLayout,
        String,
    >)
        ensures
            match kept_layout_of(*old(self), terminal_cols, terminal_rows) {
                Some(l) => r == Ok::<OverlayLayout, String>(l) && *final(self) == *old(self),
                None => match overlay_layout(terminal_cols, terminal_rows, metrics) {
                    Ok(l) => r == Ok::<OverlayLayout, String>(l) && *final(self) == (SplashOverlay {
                        last_layout: Some(l),
                        ..*old(self)
                    }),
                    Err(msg) => r is Err && r->Err_0@ == msg && *final(self) == *old(self),
                },
            },
    {
        if let Some(layout) = self.kept_layout(terminal_cols, terminal_rows) {
            return Ok(layout);
        }
        let layout = compute_overlay_layout(terminal_cols, terminal_rows, metrics)?;
        self.store_layout(layout);
        Ok(layout)
    }

    /// Keeps a computed layout for later frames; nothing else changes.
    pub fn store_layout(&mut self, layout: OverlayLayout)
        ensures
            final(self).last_layout == Some(layout),
            final(self).phase == old(self).phase,
            final(self).last_state == old(self).last_state,
            *final(self) == (SplashOverlay { last_layout: Some(layout), ..*old(self) }),
    {
        self.last_layout = Some(layout);
    }

    /// Whether the overlay has to be rasterised again for this state.
    pub fn render_is_stale(&self, state: &RenderState) -> (b: bool)
        ensures
            b == !(self.last_state matches Some(last) && last.path@ == state.path@
                && last.render_width == state.render_width && last.render_height == state.render_height
                && last.progress_key == state.progress_key),
    {
        match &self.last_state {
            Some(last) => !(str_eq(last.path.as_str(), state.path.as_str()) && last.render_width
                == state.render_width && last.render_height == state.render_height && last.progress_key
                == state.progress_key),
            None => true,
        }
    }

    /// Records what the overlay was last rasterised from.
    pub fn record_render(&mut self, state: RenderState)
        ensures
            final(self).last_state == Some(state),
            final(self).phase == old(self).phase,
            final(self).last_layout == old(self).last_layout,
            *final(self) == (SplashOverlay { last_state: Some(state), ..*old(self) }),
    {
        self.last_state = Some(state);
    }
}

/// The tokens of the overlay card drawn at `width` by `height`: full opacity, the
/// loading progress and bar width as the front end formatted them, and the tip with its
/// XML special characters escaped.
pub open spec fn card_tokens(
    width: u32,
    height: u32,
    progress: Seq<char>,
    bar_width: Seq<char>,
    header: Seq<char>,
    body: Seq<char>,
) -> Seq<(Seq<char>, Seq<char>)> {
    seq![
        ("{{WIDTH}}"@, dec_chars(width as nat)),
        ("{{HEIGHT}}"@, dec_chars(height as nat)),
        ("{{UI_OPACITY}}"@, "1"@),
        ("{{PROGRESS}}"@, progress),
        ("{{PROGRESS_BAR_WIDTH}}"@, bar_width),
        ("{{SUBTITLE}}"@, xml_escaped(header)),
        ("{{BODY}}"@, xml_escaped(body)),
    ]
}

proof fn lemma_card_token_names(width: u32, height: u32, progress: Seq<char>, bar_width: Seq<char>, header: Seq<char>, body: Seq<char>)
    ensures
        names_nonempty(card_tokens(width, height, progress, bar_width, header, body)),
{
    reveal_strlit("{{WIDTH}}");
    reveal_strlit("{{HEIGHT}}");
    reveal_strlit("{{UI_OPACITY}}");
    reveal_strlit("{{PROGRESS}}");
    reveal_strlit("{{PROGRESS_BAR_WIDTH}}");
    reveal_strlit("{{SUBTITLE}}");
    reveal_strlit("{{BODY}}");
}

impl SplashOverlay {
    /// The overlay card's SVG: `template` with the size, the progress tokens and this
    /// overlay's tip filled in.
    pub fn card_svg(&self, template: &str, width: u32, height: u32, progress: &str, bar_width: &str) -> (s: String)
        ensures
            s@ == replace_each(template@, card_tokens(width, height, progress@, bar_width@, self.tip_header@, self.tip_body@)),
    {
        let mut v: Vec<(String, String)> = Vec::new();
        push_token(&mut v, "{{WIDTH}}", dec_string(width as u64));
        push_token(&mut v, "{{HEIGHT}}", dec_string(height as u64));
        push_token(&mut v, "{{UI_OPACITY}}", String::from_str("1"));
        push_token(&mut v, "{{PROGRESS}}", String::from_str(progress));
        push_token(&mut v, "{{PROGRESS_BAR_WIDTH}}", String::from_str(bar_width));
        push_token(&mut v, "{{SUBTITLE}}", escape_xml(self.tip_header.as_str()));
        push_token(&mut v, "{{BODY}}", escape_xml(self.tip_body.as_str()));
        proof {
            lemma_card_token_names(width, height, progress@, bar_width@, self.tip_header@, self.tip_body@);
            assert(pair_views(v@) =~= card_tokens(width, height, progress@, bar_width@, self.tip_header@, self.tip_body@));
        }
        apply_tokens(template, &v)
    }

    /// Rasterises the overlay card at `width` by `height`. It succeeds exactly when usvg
    /// accepts the filled-in card and the pixmap can be allocated.
    pub fn render_card(&self, template: &str, width: u32, height: u32, progress: &str, bar_width: &str) -> (r: Result<Vec<u8>, String>)
        ensures
            r is Ok <==> usvg_accepts(
                replace_each(template@, card_tokens(width, height, progress@, bar_width@, self.tip_header@, self.tip_body@)),
            ) && pixmap_fits(width, height),
            r matches Ok(v) ==> v@.len() == 4 * width * height,
            usvg_accepts(
                replace_each(template@, card_tokens(width, height, progress@, bar_width@, self.tip_header@, self.tip_body@)),
            ) && !pixmap_fits(width, height) ==> r is Err && r->Err_0@ == "failed to allocate SVG pixmap"@,
    {
        let svg = self.card_svg(template, width, height, progress, bar_width);
        rasterize_svg(width, height, svg.as_str())
    }
}

fn str_eq(a: &str, b: &str) -> (r: bool)
    ensures
        r == (a@ == b@),
{
    let n = a.unicode_len();
    if n != b.unicode_len() {
        return false;
    }
    let mut i: usize = 0;
    while i < n
        invariant
            n == a@.len(),
            n == b@.len(),
            i <= n,
            forall|j: int| 0 <= j < i ==> a@[j] == b@[j],
        decreases n - i,
    {
        if a.get_char(i) != b.get_char(i) {
            return false;
        }
        i = i + 1;
    }
    assert(a@ =~= b@);
    true
}

/// Time passed since `start`, zero if the clock reads earlier.
pub open spec fn elapsed_spec(start: u64, now: u64) -> u64 {
    if now >= start { (now - start) as u64 } else { 0 }
}

/// Time passed since `start`, zero if the clock reads earlier.
pub fn elapsed_since(start: u64, now: u64) -> (e: u64)
    ensures
        e == elapsed_spec(start, now),
{
    if now >= start { now - start } else { 0 }
}

/// The phase after the timed fades that ran out by `now`: a finished splash fade starts
/// the loading fade-in now, and a finished loading fade-in starts the loading bar now.
pub open spec fn overlay_phase_at(phase: OverlayPhase, now: u64) -> OverlayPhase {
    let p1 = match phase {
        OverlayPhase::SplashFadeOut { start } => if elapsed_spec(start, now) >= SPLASH_FADE_OUT_NANOS {
            OverlayPhase::LoadingFadeIn { start: now }
        } else {
            phase
        },
        _ => phase,
    };
    match p1 {
        OverlayPhase::LoadingFadeIn { start } => if elapsed_spec(start, now) >= LOADING_FADE_IN_NANOS {
            OverlayPhase::LoadingActive { start: now }
        } else {
            p1
        },
        _ => p1,
    }
}

/// What a phase shows at `now`.
pub open spec fn overlay_stage_of(phase: OverlayPhase, now: u64) -> OverlayStage {
    match phase {
        OverlayPhase::SplashActive => OverlayStage::Splash,
        OverlayPhase::SplashFadeOut { start } => OverlayStage::SplashFading { elapsed: elapsed_spec(start, now) },
        OverlayPhase::LoadingFadeIn { start } => OverlayStage::LoadingFading { elapsed: elapsed_spec(start, now) },
        OverlayPhase::LoadingActive { start } => OverlayStage::Loading { elapsed: elapsed_spec(start, now) },
        OverlayPhase::Finished => OverlayStage::Finished,
    }
}

/// The position of a phase in the overlay's forward order.
pub open spec fn overlay_rank(p: OverlayPhase) -> nat {
    match p {
        OverlayPhase::SplashActive => 0,
        OverlayPhase::SplashFadeOut { .. } => 1,
        OverlayPhase::LoadingFadeIn { .. } => 2,
        OverlayPhase::LoadingActive { .. } => 3,
        OverlayPhase::Finished => 4,
    }
}

/// The overlay's phases only move forward as time passes.
pub proof fn lemma_overlay_moves_forward(phase: OverlayPhase, now: u64)
    ensures
        overlay_rank(overlay_phase_at(phase, now)) >= overlay_rank(phase),
        phase == OverlayPhase::Finished ==> overlay_phase_at(phase, now) == phase,
        phase == OverlayPhase::SplashActive ==> overlay_phase_at(phase, now) == phase,
{
}

} // verus!
