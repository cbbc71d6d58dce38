use vstd::prelude::*;

use super::screen::{Screen, scene_for, scene_of};
use super::spa::{AppView, FAKE_RESPONSE, SpaApp, app_valid, fake_response_len};
use crate::domain::court::{CourtResult, CourtVerdict};
use crate::domain::training::{AdvocateStats, TRAINING_ACTION_COUNT, action_label, action_order, training_action_at};
use crate::render::tokens::{Progress, RenderView, ViewText};
use crate::text::{dec_chars, int_chars, join_chars, join_strings, push_i64, push_u64, string_views};

verus! {

/// `LOG {} MEN {} SPC {} GUT {} INT {}` with the five abilities.
pub open spec fn stats_summary_text(stats: AdvocateStats) -> Seq<char> {
    "LOG "@ + dec_chars(stats.logic_speed as nat) + " MEN "@ + dec_chars(stats.mental_stamina as nat) + " SPC "@
        + dec_chars(stats.speech_power as nat) + " GUT "@ + dec_chars(stats.guts as nat) + " INT "@
        + dec_chars(stats.intellect as nat)
}

/// One line summing up the abilities.
pub fn stats_summary(stats: AdvocateStats) -> (s: String)
    ensures
        s@ == stats_summary_text(stats),
{
    let mut s = String::from_str("LOG ");
    push_u64(&mut s, stats.logic_speed as u64);
    s.append(" MEN ");
    push_u64(&mut s, stats.mental_stamina as u64);
    s.append(" SPC ");
    push_u64(&mut s, stats.speech_power as u64);
    s.append(" GUT ");
    push_u64(&mut s, stats.guts as u64);
    s.append(" INT ");
    push_u64(&mut s, stats.intellect as u64);
    assert(s@ =~= stats_summary_text(stats));
    s
}

/// `verdict=<Win|Loss> momentum=<n>`.
pub open spec fn court_result_text(result: CourtResult) -> Seq<char> {
    "verdict="@ + (match result.verdict {
        CourtVerdict::Win => "Win"@,
        CourtVerdict::Loss => "Loss"@,
    }) + " momentum="@ + int_chars(result.final_momentum as int)
}

/// One line summing up a trial's result.
pub fn court_result_summary(result: CourtResult) -> (s: String)
    ensures
        s@ == court_result_text(result),
{
    let mut s = String::from_str("verdict=");
    match result.verdict {
        CourtVerdict::Win => s.append("Win"),
        CourtVerdict::Loss => s.append("Loss"),
    }
    s.append(" momentum=");
    push_i64(&mut s, result.final_momentum as i64);
    assert(s@ =~= court_result_text(result));
    s
}

/// The training actions' labels, the focused one marked with `> `.
pub open spec fn action_list_items(focused: nat) -> Seq<Seq<char>> {
    Seq::new(
        4,
        |i: int| if i == focused { "> "@ + action_label(action_order()[i]) } else { action_label(action_order()[i]) },
    )
}

/// Everything a screen shows.
pub open spec fn view_text(a: AppView) -> ViewText {
    let s = a.session;
    let base = ViewText {
        scene: scene_of(a.screen),
        phase_label: seq![],
        title: seq![],
        subtitle: seq![],
        body: seq![],
        side_title: seq![],
        side_body: seq![],
        progress: Progress::Animated,
        stats: s.stats,
        week: s.week,
        focused_action: a.focused_action as usize,
        ally_hp: s.court.ally_hp,
        enemy_hp: s.court.enemy_hp,
        momentum: s.court.momentum,
        current_tab: a.current_tab as usize,
    };
    match a.screen {
        Screen::Splash => ViewText {
            phase_label: "INITIALIZING"@,
            title: "BOOT"@,
            subtitle: "advocacy engine"@,
            ..base
        },
        Screen::Loading => ViewText {
            phase_label: "LOADING"@,
            title: "LOADING"@,
            subtitle: a.tip_header,
            body: a.tip_body,
            ..base
        },
        Screen::Home => ViewText {
            phase_label: "HOME"@,
            title: "HOME"@,
            subtitle: "Palais Mermonia"@,
            body: "법정에서의 승리는, 사전 조사에서 시작됩니다."@,
            progress: Progress::Percent(0),
            ..base
        },
        Screen::Training => ViewText {
            phase_label: "TRAINING"@,
            title: "TRAINING"@,
            subtitle: "focus: "@ + action_label(action_order()[a.focused_action as int]),
            body: stats_summary_text(s.stats),
            side_title: "ACTIONS"@,
            side_body: join_chars(action_list_items(a.focused_action), " / "@),
            progress: Progress::Percent((a.focused_action * 25 + 25) as u32),
            ..base
        },
        Screen::CourtReplay => ViewText {
            phase_label: "COURT"@,
            title: "COURT"@,
            subtitle: "logs "@ + dec_chars(a.shown_court_logs) + "/"@ + dec_chars(s.court.log.len()),
            body: if a.shown_court_logs > 0 { s.court.log[a.shown_court_logs - 1] } else { "preparing argument"@ },
            side_title: "LOG"@,
            side_body: join_chars(s.court.log.take(a.shown_court_logs as int), " | "@),
            progress: Progress::Ratio(a.shown_court_logs as usize, s.court.log.len() as usize),
            ..base
        },
        Screen::Dating => ViewText {
            phase_label: "DATING"@,
            title: "DATING"@,
            subtitle: "fake LLM stream"@,
            body: FAKE_RESPONSE@.take(a.visible_response_chars as int),
            side_title: "INPUT"@,
            side_body: a.input,
            progress: Progress::Ratio(a.visible_response_chars as usize, fake_response_len() as usize),
            ..base
        },
        Screen::Result => ViewText {
            phase_label: "RESULT"@,
            title: "RESULT"@,
            subtitle: match s.court.result {
                Some(r) => court_result_text(r),
                None => "no result"@,
            },
            body: dec_chars(s.transcript.len()),
            side_title: "SESSION"@,
            side_body: "MVP loop complete"@,
            progress: Progress::Percent(100),
            ..base
        },
    }
}

fn action_list(focused: usize) -> (v: Vec<String>)
    requires
        focused < TRAINING_ACTION_COUNT,
    ensures
        string_views(v@) == action_list_items(focused as nat),
{
    let mut v: Vec<String> = Vec::new();
    let mut i: usize = 0;
    while i < TRAINING_ACTION_COUNT
        invariant
            i <= 4,
            string_views(v@) == action_list_items(focused as nat).take(i as int),
        decreases 4 - i,
    {
        let action = training_action_at(i);
        let item = if i == focused {
            let mut s = String::from_str("> ");
            s.append(action.label);
            s
        } else {
            String::from_str(action.label)
        };
        let ghost before = v@;
        assert(item@ == action_list_items(focused as nat)[i as int]);
        v.push(item);
        assert(string_views(v@).drop_last() =~= string_views(before));
        assert(string_views(v@) =~= action_list_items(focused as nat).take(i as int + 1));
        i = i + 1;
    }
    assert(action_list_items(focused as nat).take(4) =~= action_list_items(focused as nat));
    v
}

impl SpaApp {
    /// What the current screen shows, for the renderer.
    pub fn view_model(&self) -> (v: RenderView)
        requires
            app_valid(self@),
        ensures
            v@ == view_text(self@),
    {
        let session = self.session();
        let stats = session.stats();
        let focused = self.focused_action();
        let mut view = RenderView {
            scene: scene_for(self.screen()),
            phase_label: String::new(),
            title: String::new(),
            subtitle: String::new(),
            body: String::new(),
            side_title: String::new(),
            side_body: String::new(),
            progress: Progress::Animated,
            stats,
            week: session.week(),
            focused_action: focused,
            ally_hp: session.ally_hp(),
            enemy_hp: session.enemy_hp(),
            momentum: session.momentum(),
            current_tab: self.current_tab(),
        };
        match self.screen() {
            Screen::Splash => {
                view.phase_label = String::from_str("INITIALIZING");
                view.title = String::from_str("BOOT");
                view.subtitle = String::from_str("advocacy engine");
            },
            Screen::Loading => {
                view.phase_label = String::from_str("LOADING");
                view.title = String::from_str("LOADING");
                view.subtitle = String::from_str(self.tip_header());
                view.body = String::from_str(self.tip_body());
            },
            Screen::Home => {
                view.phase_label = String::from_str("HOME");
                view.title = String::from_str("HOME");
                view.subtitle = String::from_str("Palais Mermonia");
                view.body = String::from_str("법정에서의 승리는, 사전 조사에서 시작됩니다.");
                view.progress = Progress::Percent(0);
            },
            Screen::Training => {
                let action = training_action_at(focused);
                let mut subtitle = String::from_str("focus: ");
                subtitle.append(action.label);
                view.phase_label = String::from_str("TRAINING");
                view.title = String::from_str("TRAINING");
                view.subtitle = subtitle;
                view.body = stats_summary(stats);
                view.side_title = String::from_str("ACTIONS");
                let items = action_list(focused);
                view.side_body = join_strings(items.as_slice(), " / ");
                view.progress = Progress::Percent((focused * 25 + 25) as u32);
            },
            Screen::CourtReplay => {
                let log = session.court_log();
                let shown = self.shown_court_logs();
                let mut subtitle = String::from_str("logs ");
                push_u64(&mut subtitle, shown as u64);
                subtitle.append("/");
                push_u64(&mut subtitle, log.len() as u64);
                view.phase_label = String::from_str("COURT");
                view.title = String::from_str("COURT");
                view.subtitle = subtitle;
                view.body = if shown > 0 {
                    log[shown - 1].clone()
                } else {
                    String::from_str("preparing argument")
                };
                view.side_title = String::from_str("LOG");
                let shown_lines = vstd::slice::slice_subrange(log, 0, shown);
                view.side_body = join_strings(shown_lines, " | ");
                view.progress = Progress::Ratio(shown, log.len());
                proof {
                    assert(string_views(log@.take(shown as int)) =~= self@.session.court.log.take(shown as int));
                }
            },
            Screen::Dating => {
                let visible = self.visible_response_chars();
                view.phase_label = String::from_str("DATING");
                view.title = String::from_str("DATING");
                view.subtitle = String::from_str("fake LLM stream");
                view.body = String::from_str(FAKE_RESPONSE.substring_char(0, visible));
                view.side_title = String::from_str("INPUT");
                view.side_body = String::from_str(self.input());
                view.progress = Progress::Ratio(visible, FAKE_RESPONSE.unicode_len());
                assert(FAKE_RESPONSE@.subrange(0, visible as int) =~= FAKE_RESPONSE@.take(visible as int));
            },
            Screen::Result => {
                view.phase_label = String::from_str("RESULT");
                view.title = String::from_str("RESULT");
                view.subtitle = match session.court_result() {
                    Some(r) => court_result_summary(r),
                    None => String::from_str("no result"),
                };
                let mut body = String::new();
                push_u64(&mut body, session.transcript_len() as u64);
                view.body = body;
                view.side_title = String::from_str("SESSION");
                view.side_body = String::from_str("MVP loop complete");
                view.progress = Progress::Percent(100);
            },
        }
        view
    }
}

} // verus!
