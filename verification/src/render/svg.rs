use vstd::prelude::*;

use super::raster::{pixmap_fits, rasterize_svg, usvg_accepts};
use super::scene::SceneKind;
use super::tokens::{Progress, RenderView, ViewText};
use crate::domain::court::div_toward_zero;
use crate::domain::training::{AdvocateStats, default_stats};
use crate::text::{
    clip_chars, clipped, contains_chars, contains_text, dec_chars, escape_xml, int_chars, push_i64, push_u64,
    replace_all, replaced, xml_escaped,
};

verus! {

/// The tokens whose text comes from floating-point animation state, formatted by the
/// front end: the UI opacity, the progress number and label, the progress bar's width
/// and the tab indicator's position.
#[derive(Debug, Clone, PartialEq, Eq)]
pub struct FrameTokens {
    pub ui_opacity: String,
    pub progress: String,
    pub progress_label: String,
    pub progress_bar_width: String,
    pub tab_indicator_x: String,
}

/// The template file each scene is drawn from; the scenes without art of their own reuse
/// the home template.
pub open spec fn template_name(scene: SceneKind) -> Seq<char> {
    match scene {
        SceneKind::Splash => "splash.svg"@,
        SceneKind::Loading => "loading.svg"@,
        _ => "home.svg"@,
    }
}

/// The template file a scene is drawn from.
pub fn scene_template_name(scene: SceneKind) -> (s: &'static str)
    ensures
        s@ == template_name(scene),
{
    match scene {
        SceneKind::Splash => "splash.svg",
        SceneKind::Loading => "loading.svg",
        _ => "home.svg",
    }
}

/// Applies the replacements in order, each to the result of the ones before.
pub open spec fn replace_each(s: Seq<char>, pairs: Seq<(Seq<char>, Seq<char>)>) -> Seq<char>
    decreases pairs.len(),
{
    if pairs.len() == 0 {
        s
    } else {
        replaced(replace_each(s, pairs.drop_last()), pairs.last().0, pairs.last().1)
    }
}

/// A token list as plain values.
pub open spec fn pair_views(v: Seq<(String, String)>) -> Seq<(Seq<char>, Seq<char>)> {
    v.map_values(|p: (String, String)| (p.0@, p.1@))
}

/// The width in pixels of a stat bar 340 pixels long at full value.
pub open spec fn stat_bar_width(v: u16) -> nat {
    340 * (if v > 100 { 100 } else { v as nat }) / 100
}

/// The width in pixels of a hit-point bar 220 pixels long at full health.
pub open spec fn hp_bar_width(hp: i16) -> nat {
    220 * (if hp < 0 { 0 } else if hp > 100 { 100 } else { hp as nat }) / 100
}

/// Where the momentum marker sits: 540 is even, each point of momentum (held within
/// -100..=100) moves it 5.4 pixels, the marker is 30 wide, and it stays within 0..=1050.
pub open spec fn momentum_x(m: i16) -> int {
    let c = if m < -100 { -100 } else if m > 100 { 100 } else { m as int };
    let x = 540 + div_toward_zero(c * 540, 100) - 15;
    if x < 0 { 0 } else if x > 1050 { 1050 } else { x }
}

/// The stat tokens shared by the training and result scenes.
pub open spec fn stat_tokens(s: AdvocateStats) -> Seq<(Seq<char>, Seq<char>)> {
    seq![
        ("{{STAT_LOGIC}}"@, dec_chars(s.logic_speed as nat)),
        ("{{STAT_MENTAL}}"@, dec_chars(s.mental_stamina as nat)),
        ("{{STAT_SPEECH}}"@, dec_chars(s.speech_power as nat)),
        ("{{STAT_GUTS}}"@, dec_chars(s.guts as nat)),
        ("{{STAT_INTELLECT}}"@, dec_chars(s.intellect as nat)),
    ]
}

/// The focus tokens of training action `i`.
pub open spec fn action_tokens(i: nat, focused: usize) -> Seq<(Seq<char>, Seq<char>)> {
    let name_opacity = if i == 0 {
        "{{ACTION_0_FOCUS_OPACITY}}"@
    } else if i == 1 {
        "{{ACTION_1_FOCUS_OPACITY}}"@
    } else if i == 2 {
        "{{ACTION_2_FOCUS_OPACITY}}"@
    } else {
        "{{ACTION_3_FOCUS_OPACITY}}"@
    };
    let name_border = if i == 0 {
        "{{ACTION_0_BORDER_COLOR}}"@
    } else if i == 1 {
        "{{ACTION_1_BORDER_COLOR}}"@
    } else if i == 2 {
        "{{ACTION_2_BORDER_COLOR}}"@
    } else {
        "{{ACTION_3_BORDER_COLOR}}"@
    };
    seq![
        (name_opacity, if focused == i { "0.85"@ } else { "0.15"@ }),
        (name_border, if focused == i { "#00d5ff"@ } else { "#24506d"@ }),
    ]
}

/// The tokens only one scene has.
pub open spec fn scene_tokens(v: ViewText, f: FrameTokens) -> Seq<(Seq<char>, Seq<char>)> {
    match v.scene {
        SceneKind::Splash | SceneKind::Loading => seq![("{{PROGRESS_BAR_WIDTH}}"@, f.progress_bar_width@)],
        SceneKind::Training => stat_tokens(v.stats) + seq![
            ("{{BAR_LOGIC_WIDTH}}"@, dec_chars(stat_bar_width(v.stats.logic_speed))),
            ("{{BAR_MENTAL_WIDTH}}"@, dec_chars(stat_bar_width(v.stats.mental_stamina))),
            ("{{BAR_SPEECH_WIDTH}}"@, dec_chars(stat_bar_width(v.stats.speech_power))),
            ("{{BAR_GUTS_WIDTH}}"@, dec_chars(stat_bar_width(v.stats.guts))),
            ("{{BAR_INTELLECT_WIDTH}}"@, dec_chars(stat_bar_width(v.stats.intellect))),
        ] + action_tokens(0, v.focused_action) + action_tokens(1, v.focused_action) + action_tokens(
            2,
            v.focused_action,
        ) + action_tokens(3, v.focused_action),
        SceneKind::Court => seq![
            ("{{ALLY_HP}}"@, int_chars(v.ally_hp as int)),
            ("{{ENEMY_HP}}"@, int_chars(v.enemy_hp as int)),
            ("{{BAR_ALLY_HP_WIDTH}}"@, dec_chars(hp_bar_width(v.ally_hp))),
            ("{{BAR_ENEMY_HP_WIDTH}}"@, dec_chars(hp_bar_width(v.enemy_hp))),
            ("{{MOMENTUM}}"@, int_chars(v.momentum as int)),
            ("{{BAR_MOMENTUM_X}}"@, int_chars(momentum_x(v.momentum))),
            ("{{BAR_MOMENTUM_WIDTH}}"@, "30"@),
            ("{{OBJECTION_OPACITY}}"@, if contains_chars(v.body, "contradiction"@) { "1.0"@ } else { "0.0"@ }),
        ],
        SceneKind::Result => stat_tokens(v.stats),
        SceneKind::Home | SceneKind::Dating => seq![],
    }
}

/// The highlight of home tab `i`.
pub open spec fn tab_token(i: nat, tab: usize) -> (Seq<char>, Seq<char>) {
    let name = if i == 0 {
        "{{TAB_0_HIGHLIGHT_OPACITY}}"@
    } else if i == 1 {
        "{{TAB_1_HIGHLIGHT_OPACITY}}"@
    } else if i == 2 {
        "{{TAB_2_HIGHLIGHT_OPACITY}}"@
    } else if i == 3 {
        "{{TAB_3_HIGHLIGHT_OPACITY}}"@
    } else {
        "{{TAB_4_HIGHLIGHT_OPACITY}}"@
    };
    (name, if tab == i { "1.00"@ } else { "0.00"@ })
}

/// Every token of a view, in the order they are replaced: size, opacity and texts
/// (escaped, long ones clipped to 120 characters), progress and week, the scene's own
/// tokens, then the tab bar.
pub open spec fn view_tokens(width: u32, height: u32, v: ViewText, f: FrameTokens) -> Seq<(Seq<char>, Seq<char>)> {
    seq![
        ("{{WIDTH}}"@, dec_chars(width as nat)),
        ("{{HEIGHT}}"@, dec_chars(height as nat)),
        ("{{UI_OPACITY}}"@, f.ui_opacity@),
        ("{{PHASE_LABEL}}"@, xml_escaped(v.phase_label)),
        ("{{TITLE}}"@, xml_escaped(v.title)),
        ("{{SUBTITLE}}"@, xml_escaped(v.subtitle)),
        ("{{BODY}}"@, xml_escaped(clipped(v.body, 120))),
        ("{{SIDE_TITLE}}"@, xml_escaped(v.side_title)),
        ("{{SIDE_BODY}}"@, xml_escaped(clipped(v.side_body, 120))),
        ("{{PROGRESS}}"@, f.progress@),
        ("{{PROGRESS_LABEL}}"@, f.progress_label@),
        ("{{WEEK}}"@, dec_chars(v.week as nat)),
    ] + scene_tokens(v, f) + seq![
        ("{{TAB_INDICATOR_X}}"@, f.tab_indicator_x@),
        tab_token(0, v.current_tab),
        tab_token(1, v.current_tab),
        tab_token(2, v.current_tab),
        tab_token(3, v.current_tab),
        tab_token(4, v.current_tab),
    ]
}

/// Whether a token name begins `{{STA`, as the ability tokens do and no other does.
pub open spec fn names_stat(name: Seq<char>) -> bool {
    name.len() >= 7 && name[2] == 'S' && name[3] == 'T' && name[4] == 'A'
}

/// Every pair named `name` carries `value`, and there is at least one such pair: a
/// replacement of `name` always writes `value`.
pub open spec fn token_carries(pairs: Seq<(Seq<char>, Seq<char>)>, name: Seq<char>, value: Seq<char>) -> bool {
    &&& exists|i: int| 0 <= i < pairs.len() && pairs[i] == (name, value)
    &&& forall|i: int| 0 <= i < pairs.len() && (#[trigger] pairs[i]).0 == name ==> pairs[i].1 == value
}

/// In the training and result scenes the ability tokens sit at positions 12 to 16, and
/// no other token's name begins like theirs.
proof fn lemma_stat_token_positions(width: u32, height: u32, v: ViewText, f: FrameTokens)
    requires
        v.scene == SceneKind::Training || v.scene == SceneKind::Result,
    ensures
        forall|i: int| 12 <= i < 17 ==> #[trigger] view_tokens(width, height, v, f)[i] == stat_tokens(v.stats)[i - 12],
        forall|i: int|
            0 <= i < view_tokens(width, height, v, f).len() && !(12 <= i < 17) ==> !names_stat(
                (#[trigger] view_tokens(width, height, v, f)[i]).0,
            ),
        view_tokens(width, height, v, f).len() >= 17,
{
    reveal_strlit("{{WIDTH}}");
    reveal_strlit("{{HEIGHT}}");
    reveal_strlit("{{UI_OPACITY}}");
    reveal_strlit("{{PHASE_LABEL}}");
    reveal_strlit("{{TITLE}}");
    reveal_strlit("{{SUBTITLE}}");
    reveal_strlit("{{BODY}}");
    reveal_strlit("{{SIDE_TITLE}}");
    reveal_strlit("{{SIDE_BODY}}");
    reveal_strlit("{{PROGRESS}}");
    reveal_strlit("{{PROGRESS_LABEL}}");
    reveal_strlit("{{WEEK}}");
    reveal_strlit("{{STAT_LOGIC}}");
    reveal_strlit("{{STAT_MENTAL}}");
    reveal_strlit("{{STAT_SPEECH}}");
    reveal_strlit("{{STAT_GUTS}}");
    reveal_strlit("{{STAT_INTELLECT}}");
    reveal_strlit("{{BAR_LOGIC_WIDTH}}");
    reveal_strlit("{{BAR_MENTAL_WIDTH}}");
    reveal_strlit("{{BAR_SPEECH_WIDTH}}");
    reveal_strlit("{{BAR_GUTS_WIDTH}}");
    reveal_strlit("{{BAR_INTELLECT_WIDTH}}");
    reveal_strlit("{{ACTION_0_FOCUS_OPACITY}}");
    reveal_strlit("{{ACTION_1_FOCUS_OPACITY}}");
    reveal_strlit("{{ACTION_2_FOCUS_OPACITY}}");
    reveal_strlit("{{ACTION_3_FOCUS_OPACITY}}");
    reveal_strlit("{{ACTION_0_BORDER_COLOR}}");
    reveal_strlit("{{ACTION_1_BORDER_COLOR}}");
    reveal_strlit("{{ACTION_2_BORDER_COLOR}}");
    reveal_strlit("{{ACTION_3_BORDER_COLOR}}");
    reveal_strlit("{{TAB_INDICATOR_X}}");
    reveal_strlit("{{TAB_0_HIGHLIGHT_OPACITY}}");
    reveal_strlit("{{TAB_1_HIGHLIGHT_OPACITY}}");
    reveal_strlit("{{TAB_2_HIGHLIGHT_OPACITY}}");
    reveal_strlit("{{TAB_3_HIGHLIGHT_OPACITY}}");
    reveal_strlit("{{TAB_4_HIGHLIGHT_OPACITY}}");
    let t = view_tokens(width, height, v, f);
    let sc = scene_tokens(v, f);
    let n = sc.len();
    assert(v.scene == SceneKind::Training ==> n == 18);
    assert(v.scene == SceneKind::Result ==> n == 5);
    assert forall|i: int| 12 <= i < 17 implies #[trigger] t[i] == stat_tokens(v.stats)[i - 12] by {
        assert(t[i] == sc[i - 12]);
    }
    assert forall|i: int| 0 <= i < t.len() && !(12 <= i < 17) implies !names_stat((#[trigger] t[i]).0) by {
        if i < 12 {
            if i == 0 {
            } else if i == 1 {
            } else if i == 2 {
            } else if i == 3 {
            } else if i == 4 {
            } else if i == 5 {
            } else if i == 6 {
            } else if i == 7 {
            } else if i == 8 {
            } else if i == 9 {
            } else if i == 10 {
            } else if i == 11 {
            }
        } else if i < 12 + n {
            let j = i - 12;
            assert(t[i] == sc[j]);
            if j == 5 {
            } else if j == 6 {
            } else if j == 7 {
            } else if j == 8 {
            } else if j == 9 {
            } else if j == 10 {
            } else if j == 11 {
            } else if j == 12 {
            } else if j == 13 {
            } else if j == 14 {
            } else if j == 15 {
            } else if j == 16 {
            } else if j == 17 {
            }
        } else {
            let j = i - 12 - n;
            if j == 0 {
            } else if j == 1 {
            } else if j == 2 {
            } else if j == 3 {
            } else if j == 4 {
            } else if j == 5 {
            }
        }
    }
}

/// In the training and result scenes each ability token is replaced by the decimal text
/// of the ability it names: `{{STAT_LOGIC}}` by logic speed, `{{STAT_MENTAL}}` by mental
/// stamina, `{{STAT_SPEECH}}` by speech power, `{{STAT_GUTS}}` by guts and
/// `{{STAT_INTELLECT}}` by intellect.
pub proof fn lemma_stat_tokens_show_their_abilities(width: u32, height: u32, v: ViewText, f: FrameTokens)
    requires
        v.scene == SceneKind::Training || v.scene == SceneKind::Result,
    ensures
        token_carries(view_tokens(width, height, v, f), "{{STAT_LOGIC}}"@, dec_chars(v.stats.logic_speed as nat)),
        token_carries(view_tokens(width, height, v, f), "{{STAT_MENTAL}}"@, dec_chars(v.stats.mental_stamina as nat)),
        token_carries(view_tokens(width, height, v, f), "{{STAT_SPEECH}}"@, dec_chars(v.stats.speech_power as nat)),
        token_carries(view_tokens(width, height, v, f), "{{STAT_GUTS}}"@, dec_chars(v.stats.guts as nat)),
        token_carries(view_tokens(width, height, v, f), "{{STAT_INTELLECT}}"@, dec_chars(v.stats.intellect as nat)),
{
    reveal_strlit("{{WIDTH}}");
    reveal_strlit("{{HEIGHT}}");
    reveal_strlit("{{UI_OPACITY}}");
    reveal_strlit("{{PHASE_LABEL}}");
    reveal_strlit("{{TITLE}}");
    reveal_strlit("{{SUBTITLE}}");
    reveal_strlit("{{BODY}}");
    reveal_strlit("{{SIDE_TITLE}}");
    reveal_strlit("{{SIDE_BODY}}");
    reveal_strlit("{{PROGRESS}}");
    reveal_strlit("{{PROGRESS_LABEL}}");
    reveal_strlit("{{WEEK}}");
    reveal_strlit("{{STAT_LOGIC}}");
    reveal_strlit("{{STAT_MENTAL}}");
    reveal_strlit("{{STAT_SPEECH}}");
    reveal_strlit("{{STAT_GUTS}}");
    reveal_strlit("{{STAT_INTELLECT}}");
    reveal_strlit("{{BAR_LOGIC_WIDTH}}");
    reveal_strlit("{{BAR_MENTAL_WIDTH}}");
    reveal_strlit("{{BAR_SPEECH_WIDTH}}");
    reveal_strlit("{{BAR_GUTS_WIDTH}}");
    reveal_strlit("{{BAR_INTELLECT_WIDTH}}");
    reveal_strlit("{{ACTION_0_FOCUS_OPACITY}}");
    reveal_strlit("{{ACTION_1_FOCUS_OPACITY}}");
    reveal_strlit("{{ACTION_2_FOCUS_OPACITY}}");
    reveal_strlit("{{ACTION_3_FOCUS_OPACITY}}");
    reveal_strlit("{{ACTION_0_BORDER_COLOR}}");
    reveal_strlit("{{ACTION_1_BORDER_COLOR}}");
    reveal_strlit("{{ACTION_2_BORDER_COLOR}}");
    reveal_strlit("{{ACTION_3_BORDER_COLOR}}");
    reveal_strlit("{{TAB_INDICATOR_X}}");
    reveal_strlit("{{TAB_0_HIGHLIGHT_OPACITY}}");
    reveal_strlit("{{TAB_1_HIGHLIGHT_OPACITY}}");
    reveal_strlit("{{TAB_2_HIGHLIGHT_OPACITY}}");
    reveal_strlit("{{TAB_3_HIGHLIGHT_OPACITY}}");
    reveal_strlit("{{TAB_4_HIGHLIGHT_OPACITY}}");
    lemma_stat_token_positions(width, height, v, f);
    assert("{{STAT_LOGIC}}"@[7] != "{{STAT_MENTAL}}"@[7]);
    assert("{{STAT_LOGIC}}"@ != "{{STAT_MENTAL}}"@);
    assert("{{STAT_LOGIC}}"@[7] != "{{STAT_SPEECH}}"@[7]);
    assert("{{STAT_LOGIC}}"@ != "{{STAT_SPEECH}}"@);
    assert("{{STAT_LOGIC}}"@[7] != "{{STAT_GUTS}}"@[7]);
    assert("{{STAT_LOGIC}}"@ != "{{STAT_GUTS}}"@);
    assert("{{STAT_LOGIC}}"@[7] != "{{STAT_INTELLECT}}"@[7]);
    assert("{{STAT_LOGIC}}"@ != "{{STAT_INTELLECT}}"@);
    assert("{{STAT_MENTAL}}"@[7] != "{{STAT_SPEECH}}"@[7]);
    assert("{{STAT_MENTAL}}"@ != "{{STAT_SPEECH}}"@);
    assert("{{STAT_MENTAL}}"@[7] != "{{STAT_GUTS}}"@[7]);
    assert("{{STAT_MENTAL}}"@ != "{{STAT_GUTS}}"@);
    assert("{{STAT_MENTAL}}"@[7] != "{{STAT_INTELLECT}}"@[7]);
    assert("{{STAT_MENTAL}}"@ != "{{STAT_INTELLECT}}"@);
    assert("{{STAT_SPEECH}}"@[7] != "{{STAT_GUTS}}"@[7]);
    assert("{{STAT_SPEECH}}"@ != "{{STAT_GUTS}}"@);
    assert("{{STAT_SPEECH}}"@[7] != "{{STAT_INTELLECT}}"@[7]);
    assert("{{STAT_SPEECH}}"@ != "{{STAT_INTELLECT}}"@);
    assert("{{STAT_GUTS}}"@[7] != "{{STAT_INTELLECT}}"@[7]);
    assert("{{STAT_GUTS}}"@ != "{{STAT_INTELLECT}}"@);
    let t = view_tokens(width, height, v, f);
    let st = stat_tokens(v.stats);
    assert(t[12] == st[0] && t[13] == st[1] && t[14] == st[2] && t[15] == st[3] && t[16] == st[4]);
    assert forall|i: int| 0 <= i < t.len() && (#[trigger] t[i]).0 == "{{STAT_GUTS}}"@ implies t[i].1 == dec_chars(v.stats.guts as nat) by {
        if !(12 <= i < 17) {
            assert(names_stat("{{STAT_GUTS}}"@));
        } else {
            if i == 12 {
            } else if i == 13 {
            } else if i == 14 {
            } else if i == 15 {
            } else if i == 16 {
            }
        }
    }
    assert forall|i: int| 0 <= i < t.len() && (#[trigger] t[i]).0 == "{{STAT_LOGIC}}"@ implies t[i].1 == dec_chars(v.stats.logic_speed as nat) by {
        if !(12 <= i < 17) {
            assert(names_stat("{{STAT_LOGIC}}"@));
        } else {
            if i == 12 {
            } else if i == 13 {
            } else if i == 14 {
            } else if i == 15 {
            } else if i == 16 {
            }
        }
    }
    assert forall|i: int| 0 <= i < t.len() && (#[trigger] t[i]).0 == "{{STAT_MENTAL}}"@ implies t[i].1 == dec_chars(v.stats.mental_stamina as nat) by {
        if !(12 <= i < 17) {
            assert(names_stat("{{STAT_MENTAL}}"@));
        } else {
            if i == 12 {
            } else if i == 13 {
            } else if i == 14 {
            } else if i == 15 {
            } else if i == 16 {
            }
        }
    }
    assert forall|i: int| 0 <= i < t.len() && (#[trigger] t[i]).0 == "{{STAT_SPEECH}}"@ implies t[i].1 == dec_chars(v.stats.speech_power as nat) by {
        if !(12 <= i < 17) {
            assert(names_stat("{{STAT_SPEECH}}"@));
        } else {
            if i == 12 {
            } else if i == 13 {
            } else if i == 14 {
            } else if i == 15 {
            } else if i == 16 {
            }
        }
    }
    assert forall|i: int| 0 <= i < t.len() && (#[trigger] t[i]).0 == "{{STAT_INTELLECT}}"@ implies t[i].1 == dec_chars(v.stats.intellect as nat) by {
        if !(12 <= i < 17) {
            assert(names_stat("{{STAT_INTELLECT}}"@));
        } else {
            if i == 12 {
            } else if i == 13 {
            } else if i == 14 {
            } else if i == 15 {
            } else if i == 16 {
            }
        }
    }
}

pub(crate) fn push_token(v: &mut Vec<(String, String)>, name: &str, value: String)
    ensures
        pair_views(final(v)@) == pair_views(old(v)@).push((name@, value@)),
{
    let ghost before = v@;
    v.push((String::from_str(name), value));
    assert(pair_views(v@) =~= pair_views(before).push((name@, value@)));
}

pub(crate) fn dec_string(n: u64) -> (s: String)
    ensures
        s@ == dec_chars(n as nat),
{
    let mut s = String::new();
    push_u64(&mut s, n);
    s
}

fn int_string(i: i64) -> (s: String)
    ensures
        s@ == int_chars(i as int),
{
    let mut s = String::new();
    push_i64(&mut s, i);
    s
}

fn push_stat_tokens(v: &mut Vec<(String, String)>, s: AdvocateStats)
    ensures
        pair_views(final(v)@) == pair_views(old(v)@) + stat_tokens(s),
{
    let ghost start = pair_views(v@);
    push_token(v, "{{STAT_LOGIC}}", dec_string(s.logic_speed as u64));
    push_token(v, "{{STAT_MENTAL}}", dec_string(s.mental_stamina as u64));
    push_token(v, "{{STAT_SPEECH}}", dec_string(s.speech_power as u64));
    push_token(v, "{{STAT_GUTS}}", dec_string(s.guts as u64));
    push_token(v, "{{STAT_INTELLECT}}", dec_string(s.intellect as u64));
    assert(pair_views(v@) =~= start + stat_tokens(s));
}

fn bar_width(value: u16) -> (w: u64)
    ensures
        w == stat_bar_width(value),
{
    let capped: u64 = if value > 100 { 100 } else { value as u64 };
    340 * capped / 100
}

fn hp_width(hp: i16) -> (w: u64)
    ensures
        w == hp_bar_width(hp),
{
    let c: u64 = if hp < 0 { 0 } else if hp > 100 { 100 } else { hp as u64 };
    220 * c / 100
}

fn momentum_marker_x(m: i16) -> (x: i64)
    ensures
        x == momentum_x(m),
{
    let c: i32 = if m < -100 { -100 } else if m > 100 { 100 } else { m as i32 };
    let x = 540 + (c * 540) / 100 - 15;
    (if x < 0 { 0 } else if x > 1050 { 1050 } else { x }) as i64
}

fn push_action_tokens(v: &mut Vec<(String, String)>, i: usize, focused: usize)
    requires
        i < 4,
    ensures
        pair_views(final(v)@) == pair_views(old(v)@) + action_tokens(i as nat, focused),
{
    let ghost start = pair_views(v@);
    let (name_opacity, name_border) = if i == 0 {
        ("{{ACTION_0_FOCUS_OPACITY}}", "{{ACTION_0_BORDER_COLOR}}")
    } else if i == 1 {
        ("{{ACTION_1_FOCUS_OPACITY}}", "{{ACTION_1_BORDER_COLOR}}")
    } else if i == 2 {
        ("{{ACTION_2_FOCUS_OPACITY}}", "{{ACTION_2_BORDER_COLOR}}")
    } else {
        ("{{ACTION_3_FOCUS_OPACITY}}", "{{ACTION_3_BORDER_COLOR}}")
    };
    let focus = focused == i;
    push_token(v, name_opacity, String::from_str(if focus { "0.85" } else { "0.15" }));
    push_token(v, name_border, String::from_str(if focus { "#00d5ff" } else { "#24506d" }));
    assert(pair_views(v@) =~= start + action_tokens(i as nat, focused));
}

fn push_scene_tokens(v: &mut Vec<(String, String)>, view: &RenderView, frame: &FrameTokens)
    ensures
        pair_views(final(v)@) == pair_views(old(v)@) + scene_tokens(view@, *frame),
{
    let ghost start = pair_views(v@);
    match view.scene {
        SceneKind::Splash | SceneKind::Loading => {
            push_token(v, "{{PROGRESS_BAR_WIDTH}}", frame.progress_bar_width.clone());
        },
        SceneKind::Training => {
            push_stat_tokens(v, view.stats);
            let ghost after_stats = pair_views(v@);
            push_token(v, "{{BAR_LOGIC_WIDTH}}", dec_string(bar_width(view.stats.logic_speed)));
            push_token(v, "{{BAR_MENTAL_WIDTH}}", dec_string(bar_width(view.stats.mental_stamina)));
            push_token(v, "{{BAR_SPEECH_WIDTH}}", dec_string(bar_width(view.stats.speech_power)));
            push_token(v, "{{BAR_GUTS_WIDTH}}", dec_string(bar_width(view.stats.guts)));
            push_token(v, "{{BAR_INTELLECT_WIDTH}}", dec_string(bar_width(view.stats.intellect)));
            let ghost after_bars = pair_views(v@);
            push_action_tokens(v, 0, view.focused_action);
            push_action_tokens(v, 1, view.focused_action);
            push_action_tokens(v, 2, view.focused_action);
            push_action_tokens(v, 3, view.focused_action);
            proof {
                let s = view@.stats;
                let bars = seq![
                    ("{{BAR_LOGIC_WIDTH}}"@, dec_chars(stat_bar_width(s.logic_speed))),
                    ("{{BAR_MENTAL_WIDTH}}"@, dec_chars(stat_bar_width(s.mental_stamina))),
                    ("{{BAR_SPEECH_WIDTH}}"@, dec_chars(stat_bar_width(s.speech_power))),
                    ("{{BAR_GUTS_WIDTH}}"@, dec_chars(stat_bar_width(s.guts))),
                    ("{{BAR_INTELLECT_WIDTH}}"@, dec_chars(stat_bar_width(s.intellect))),
                ];
                assert(after_bars =~= after_stats + bars);
                let f = view.focused_action;
                assert(pair_views(v@) =~= start + (stat_tokens(s) + bars + action_tokens(0, f) + action_tokens(1, f)
                    + action_tokens(2, f) + action_tokens(3, f)));
            }
        },
        SceneKind::Court => {
            push_token(v, "{{ALLY_HP}}", int_string(view.ally_hp as i64));
            push_token(v, "{{ENEMY_HP}}", int_string(view.enemy_hp as i64));
            push_token(v, "{{BAR_ALLY_HP_WIDTH}}", dec_string(hp_width(view.ally_hp)));
            push_token(v, "{{BAR_ENEMY_HP_WIDTH}}", dec_string(hp_width(view.enemy_hp)));
            push_token(v, "{{MOMENTUM}}", int_string(view.momentum as i64));
            push_token(v, "{{BAR_MOMENTUM_X}}", int_string(momentum_marker_x(view.momentum)));
            push_token(v, "{{BAR_MOMENTUM_WIDTH}}", String::from_str("30"));
            let objection = contains_text(view.body.as_str(), "contradiction");
            push_token(v, "{{OBJECTION_OPACITY}}", String::from_str(if objection { "1.0" } else { "0.0" }));
        },
        SceneKind::Result => {
            push_stat_tokens(v, view.stats);
        },
        SceneKind::Home | SceneKind::Dating => {},
    }
    assert(pair_views(v@) =~= start + scene_tokens(view@, *frame));
}

fn push_tab_token(v: &mut Vec<(String, String)>, i: usize, tab: usize)
    requires
        i < 5,
    ensures
        pair_views(final(v)@) == pair_views(old(v)@).push(tab_token(i as nat, tab)),
{
    let name = if i == 0 {
        "{{TAB_0_HIGHLIGHT_OPACITY}}"
    } else if i == 1 {
        "{{TAB_1_HIGHLIGHT_OPACITY}}"
    } else if i == 2 {
        "{{TAB_2_HIGHLIGHT_OPACITY}}"
    } else if i == 3 {
        "{{TAB_3_HIGHLIGHT_OPACITY}}"
    } else {
        "{{TAB_4_HIGHLIGHT_OPACITY}}"
    };
    push_token(v, name, String::from_str(if tab == i { "1.00" } else { "0.00" }));
}

/// Every token of a view with its text, in replacement order.
pub fn build_view_tokens(width: u32, height: u32, view: &RenderView, frame: &FrameTokens) -> (v: Vec<(String, String)>)
    ensures
        pair_views(v@) == view_tokens(width, height, view@, *frame),
{
    let mut v: Vec<(String, String)> = Vec::new();
    push_token(&mut v, "{{WIDTH}}", dec_string(width as u64));
    push_token(&mut v, "{{HEIGHT}}", dec_string(height as u64));
    push_token(&mut v, "{{UI_OPACITY}}", frame.ui_opacity.clone());
    push_token(&mut v, "{{PHASE_LABEL}}", escape_xml(view.phase_label.as_str()));
    push_token(&mut v, "{{TITLE}}", escape_xml(view.title.as_str()));
    push_token(&mut v, "{{SUBTITLE}}", escape_xml(view.subtitle.as_str()));
    let body = clip_chars(view.body.as_str(), 120);
    push_token(&mut v, "{{BODY}}", escape_xml(body.as_str()));
    push_token(&mut v, "{{SIDE_TITLE}}", escape_xml(view.side_title.as_str()));
    let side_body = clip_chars(view.side_body.as_str(), 120);
    push_token(&mut v, "{{SIDE_BODY}}", escape_xml(side_body.as_str()));
    push_token(&mut v, "{{PROGRESS}}", frame.progress.clone());
    push_token(&mut v, "{{PROGRESS_LABEL}}", frame.progress_label.clone());
    push_token(&mut v, "{{WEEK}}", dec_string(view.week as u64));
    let ghost head = pair_views(v@);
    push_scene_tokens(&mut v, view, frame);
    let ghost with_scene = pair_views(v@);
    push_token(&mut v, "{{TAB_INDICATOR_X}}", frame.tab_indicator_x.clone());
    push_tab_token(&mut v, 0, view.current_tab);
    push_tab_token(&mut v, 1, view.current_tab);
    push_tab_token(&mut v, 2, view.current_tab);
    push_tab_token(&mut v, 3, view.current_tab);
    push_tab_token(&mut v, 4, view.current_tab);
    proof {
        let w = view@;
        let f = *frame;
        let first = seq![
            ("{{WIDTH}}"@, dec_chars(width as nat)),
            ("{{HEIGHT}}"@, dec_chars(height as nat)),
            ("{{UI_OPACITY}}"@, f.ui_opacity@),
            ("{{PHASE_LABEL}}"@, xml_escaped(w.phase_label)),
            ("{{TITLE}}"@, xml_escaped(w.title)),
            ("{{SUBTITLE}}"@, xml_escaped(w.subtitle)),
            ("{{BODY}}"@, xml_escaped(clipped(w.body, 120))),
            ("{{SIDE_TITLE}}"@, xml_escaped(w.side_title)),
            ("{{SIDE_BODY}}"@, xml_escaped(clipped(w.side_body, 120))),
            ("{{PROGRESS}}"@, f.progress@),
            ("{{PROGRESS_LABEL}}"@, f.progress_label@),
            ("{{WEEK}}"@, dec_chars(w.week as nat)),
        ];
        assert(head =~= first);
        let last = seq![
            ("{{TAB_INDICATOR_X}}"@, f.tab_indicator_x@),
            tab_token(0, w.current_tab),
            tab_token(1, w.current_tab),
            tab_token(2, w.current_tab),
            tab_token(3, w.current_tab),
            tab_token(4, w.current_tab),
        ];
        assert(pair_views(v@) =~= with_scene + last);
        assert(pair_views(v@) =~= first + scene_tokens(w, f) + last);
    }
    v
}

/// Every token name is non-empty.
pub open spec fn names_nonempty(pairs: Seq<(Seq<char>, Seq<char>)>) -> bool {
    forall|i: int| 0 <= i < pairs.len() ==> (#[trigger] pairs[i]).0.len() > 0
}

/// Applies token replacements in order.
pub fn apply_tokens(template: &str, tokens: &Vec<(String, String)>) -> (s: String)
    requires
        names_nonempty(pair_views(tokens@)),
    ensures
        s@ == replace_each(template@, pair_views(tokens@)),
{
    let mut s = String::from_str(template);
    let mut i: usize = 0;
    assert(pair_views(tokens@).take(0) =~= Seq::<(Seq<char>, Seq<char>)>::empty());
    while i < tokens.len()
        invariant
            i <= tokens@.len(),
            names_nonempty(pair_views(tokens@)),
            s@ == replace_each(template@, pair_views(tokens@).take(i as int)),
        decreases tokens@.len() - i,
    {
        let pair = &tokens[i];
        assert(pair_views(tokens@)[i as int].0.len() > 0);
        let next = replace_all(s.as_str(), pair.0.as_str(), pair.1.as_str());
        s = next;
        assert(pair_views(tokens@).take(i as int + 1).drop_last() =~= pair_views(tokens@).take(i as int));
        i = i + 1;
    }
    assert(pair_views(tokens@).take(tokens@.len() as int) =~= pair_views(tokens@));
    s
}

/// The SVG of a view: the scene's template with every token replaced.
pub open spec fn view_svg(template: Seq<char>, width: u32, height: u32, v: ViewText, f: FrameTokens) -> Seq<char> {
    replace_each(template, view_tokens(width, height, v, f))
}

/// Fills a scene template with a view's text and numbers.
pub fn build_view_svg(template: &str, width: u32, height: u32, view: &RenderView, frame: &FrameTokens) -> (svg: String)
    ensures
        svg@ == view_svg(template@, width, height, view@, *frame),
{
    let tokens = build_view_tokens(width, height, view, frame);
    proof { lemma_view_token_names(width, height, view@, *frame); }
    apply_tokens(template, &tokens)
}

proof fn lemma_view_token_names(width: u32, height: u32, v: ViewText, f: FrameTokens)
    ensures
        names_nonempty(view_tokens(width, height, v, f)),
{
    reveal_strlit("{{WIDTH}}");
    reveal_strlit("{{HEIGHT}}");
    reveal_strlit("{{UI_OPACITY}}");
    reveal_strlit("{{PHASE_LABEL}}");
    reveal_strlit("{{TITLE}}");
    reveal_strlit("{{SUBTITLE}}");
    reveal_strlit("{{BODY}}");
    reveal_strlit("{{SIDE_TITLE}}");
    reveal_strlit("{{SIDE_BODY}}");
    reveal_strlit("{{PROGRESS}}");
    reveal_strlit("{{PROGRESS_LABEL}}");
    reveal_strlit("{{WEEK}}");
    reveal_strlit("{{PROGRESS_BAR_WIDTH}}");
    reveal_strlit("{{STAT_LOGIC}}");
    reveal_strlit("{{STAT_MENTAL}}");
    reveal_strlit("{{STAT_SPEECH}}");
    reveal_strlit("{{STAT_GUTS}}");
    reveal_strlit("{{STAT_INTELLECT}}");
    reveal_strlit("{{BAR_LOGIC_WIDTH}}");
    reveal_strlit("{{BAR_MENTAL_WIDTH}}");
    reveal_strlit("{{BAR_SPEECH_WIDTH}}");
    reveal_strlit("{{BAR_GUTS_WIDTH}}");
    reveal_strlit("{{BAR_INTELLECT_WIDTH}}");
    reveal_strlit("{{ACTION_0_FOCUS_OPACITY}}");
    reveal_strlit("{{ACTION_1_FOCUS_OPACITY}}");
    reveal_strlit("{{ACTION_2_FOCUS_OPACITY}}");
    reveal_strlit("{{ACTION_3_FOCUS_OPACITY}}");
    reveal_strlit("{{ACTION_0_BORDER_COLOR}}");
    reveal_strlit("{{ACTION_1_BORDER_COLOR}}");
    reveal_strlit("{{ACTION_2_BORDER_COLOR}}");
    reveal_strlit("{{ACTION_3_BORDER_COLOR}}");
    reveal_strlit("{{ALLY_HP}}");
    reveal_strlit("{{ENEMY_HP}}");
    reveal_strlit("{{BAR_ALLY_HP_WIDTH}}");
    reveal_strlit("{{BAR_ENEMY_HP_WIDTH}}");
    reveal_strlit("{{MOMENTUM}}");
    reveal_strlit("{{BAR_MOMENTUM_X}}");
    reveal_strlit("{{BAR_MOMENTUM_WIDTH}}");
    reveal_strlit("{{OBJECTION_OPACITY}}");
    reveal_strlit("{{TAB_INDICATOR_X}}");
    reveal_strlit("{{TAB_0_HIGHLIGHT_OPACITY}}");
    reveal_strlit("{{TAB_1_HIGHLIGHT_OPACITY}}");
    reveal_strlit("{{TAB_2_HIGHLIGHT_OPACITY}}");
    reveal_strlit("{{TAB_3_HIGHLIGHT_OPACITY}}");
    reveal_strlit("{{TAB_4_HIGHLIGHT_OPACITY}}");
    let t = view_tokens(width, height, v, f);
    assert forall|i: int| 0 <= i < t.len() implies (#[trigger] t[i]).0.len() > 0 by {
        let head_len = 12int;
        let scene = scene_tokens(v, f);
        if i >= head_len && i < head_len + scene.len() {
            if v.scene == SceneKind::Training {
                let k = i - head_len;
                assert(t[i] == scene[k]);
            }
        }
    }
}

/// Rasterises a view: the scene's template filled in, then drawn at `width` by `height`.
/// It succeeds exactly when usvg accepts the filled-in SVG and the pixmap can be
/// allocated.
pub fn render_view_rgba(template: &str, width: u32, height: u32, view: &RenderView, frame: &FrameTokens) -> (r: Result<Vec<u8>, String>)
    ensures
        r is Ok <==> usvg_accepts(view_svg(template@, width, height, view@, *frame)) && pixmap_fits(width, height),
        r matches Ok(v) ==> v@.len() == 4 * width * height,
        usvg_accepts(view_svg(template@, width, height, view@, *frame)) && !pixmap_fits(width, height) ==> r is Err
            && r->Err_0@ == "failed to allocate SVG pixmap"@,
{
    let svg = build_view_svg(template, width, height, view, frame);
    rasterize_svg(width, height, svg.as_str())
}

/// The splash view as plain values.
pub open spec fn splash_view_text() -> ViewText {
    ViewText {
        scene: SceneKind::Splash,
        phase_label: "INITIALIZING"@,
        title: "BOOT"@,
        subtitle: "advocacy engine"@,
        body: Seq::<char>::empty(),
        side_title: Seq::<char>::empty(),
        side_body: Seq::<char>::empty(),
        progress: Progress::Animated,
        stats: default_stats(),
        week: 1,
        focused_action: 0,
        ally_hp: 100,
        enemy_hp: 100,
        momentum: 0,
        current_tab: 2,
    }
}

/// The view the splash scene is drawn from: boot texts, starting abilities, week one,
/// both sides at full health, the middle tab.
pub fn splash_view() -> (v: RenderView)
    ensures
        v@ == splash_view_text(),
        v.scene == SceneKind::Splash,
        v.phase_label@ == "INITIALIZING"@,
        v.title@ == "BOOT"@,
        v.subtitle@ == "advocacy engine"@,
        v.body@ == Seq::<char>::empty(),
        v.progress == Progress::Animated,
        v.stats == default_stats(),
        v.week == 1,
        v.ally_hp == 100 && v.enemy_hp == 100 && v.momentum == 0,
        v.current_tab == 2,
{
    RenderView {
        scene: SceneKind::Splash,
        phase_label: String::from_str("INITIALIZING"),
        title: String::from_str("BOOT"),
        subtitle: String::from_str("advocacy engine"),
        body: String::new(),
        side_title: String::new(),
        side_body: String::new(),
        progress: Progress::Animated,
        stats: AdvocateStats::default(),
        week: 1,
        focused_action: 0,
        ally_hp: 100,
        enemy_hp: 100,
        momentum: 0,
        current_tab: 2,
    }
}

/// Rasterises the splash scene at the given progress tokens. It succeeds exactly when
/// usvg accepts the filled-in splash SVG and the pixmap can be allocated.
pub fn render_splash(template: &str, width: u32, height: u32, frame: &FrameTokens) -> (r: Result<Vec<u8>, String>)
    ensures
        r is Ok <==> usvg_accepts(view_svg(template@, width, height, splash_view_text(), *frame)) && pixmap_fits(width, height),
        r matches Ok(v) ==> v@.len() == 4 * width * height,
        usvg_accepts(view_svg(template@, width, height, splash_view_text(), *frame)) && !pixmap_fits(width, height)
            ==> r is Err && r->Err_0@ == "failed to allocate SVG pixmap"@,
{
    let view = splash_view();
    render_view_rgba(template, width, height, &view, frame)
}

} // verus!
