use vstd::prelude::*;

use super::scene::SceneKind;
use crate::domain::training::AdvocateStats;

verus! {

/// How full a view's progress bar is.
#[derive(Debug, Clone, Copy, PartialEq, Eq, Structural)]
pub enum Progress {
    /// The animated splash or loading progress the front end keeps.
    Animated,
    /// A whole percentage.
    Percent(u32),
    /// `value` out of `total`, as a percentage; zero when `total` is zero.
    Ratio(usize, usize),
}

/// Everything a scene shows, as text and numbers.
#[derive(Debug, Clone, PartialEq, Eq)]
pub struct RenderView {
    pub scene: SceneKind,
    pub phase_label: String,
    pub title: String,
    pub subtitle: String,
    pub body: String,
    pub side_title: String,
    pub side_body: String,
    pub progress: Progress,
    pub stats: AdvocateStats,
    pub week: u16,
    pub focused_action: usize,
    pub ally_hp: i16,
    pub enemy_hp: i16,
    pub momentum: i16,
    pub current_tab: usize,
}

/// A view as plain values.
pub struct ViewText {
    pub scene: SceneKind,
    pub phase_label: Seq<char>,
    pub title: Seq<char>,
    pub subtitle: Seq<char>,
    pub body: Seq<char>,
    pub side_title: Seq<char>,
    pub side_body: Seq<char>,
    pub progress: Progress,
    pub stats: AdvocateStats,
    pub week: u16,
    pub focused_action: usize,
    pub ally_hp: i16,
    pub enemy_hp: i16,
    pub momentum: i16,
    pub current_tab: usize,
}

impl View for RenderView {
    type V = ViewText;

    open spec fn view(&self) -> ViewText {
        ViewText {
            scene: self.scene,
            phase_label: self.phase_label@,
            title: self.title@,
            subtitle: self.subtitle@,
            body: self.body@,
            side_title: self.side_title@,
            side_body: self.side_body@,
            progress: self.progress,
            stats: self.stats,
            week: self.week,
            focused_action: self.focused_action,
            ally_hp: self.ally_hp,
            enemy_hp: self.enemy_hp,
            momentum: self.momentum,
            current_tab: self.current_tab,
        }
    }
}

} // verus!
