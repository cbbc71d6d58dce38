use vstd::prelude::*;

use super::training::{AdvocateStats, stats_total};
use crate::text::{dec_chars, int_chars, push_i64, push_u64};

verus! {

/// Where the automatic trial stands.
#[derive(Debug, Clone, Copy, PartialEq, Eq, Structural)]
pub enum CourtStatus {
    Empty,
    Running,
    Resolved,
}

/// The outcome of a trial.
#[derive(Debug, Clone, Copy, PartialEq, Eq, Structural)]
pub enum CourtVerdict {
    Win,
    Loss,
}

/// The verdict and the momentum it was reached with.
#[derive(Debug, Clone, Copy, PartialEq, Eq, Structural)]
pub struct CourtResult {
    pub verdict: CourtVerdict,
    pub final_momentum: i16,
}

/// The state of the automatic trial: turn, both sides' hit points, momentum, the log
/// of each turn and, once resolved, the result.
#[derive(Debug, Clone, PartialEq, Eq)]
pub struct CourtState {
    pub turn: u16,
    pub status: CourtStatus,
    pub ally_hp: i16,
    pub enemy_hp: i16,
    pub momentum: i16,
    pub log: Vec<String>,
    pub result: Option<CourtResult>,
}

/// A trial as plain values: its log lines are character sequences.
pub struct CourtView {
    pub turn: u16,
    pub status: CourtStatus,
    pub ally_hp: i16,
    pub enemy_hp: i16,
    pub momentum: i16,
    pub log: Seq<Seq<char>>,
    pub result: Option<CourtResult>,
}

impl View for CourtState {
    type V = CourtView;

    open spec fn view(&self) -> CourtView {
        CourtView {
            turn: self.turn,
            status: self.status,
            ally_hp: self.ally_hp,
            enemy_hp: self.enemy_hp,
            momentum: self.momentum,
            log: self.log@.map_values(|line: String| line@),
            result: self.result,
        }
    }
}

/// A trial that has not started: both sides at 100, no momentum, no log.
pub open spec fn empty_court() -> CourtView {
    CourtView {
        turn: 0,
        status: CourtStatus::Empty,
        ally_hp: 100,
        enemy_hp: 100,
        momentum: 0,
        log: seq![],
        result: None,
    }
}

impl Default for CourtState {
    fn default() -> (c: Self)
        ensures
            c@ == empty_court(),
    {
        let c = CourtState {
            turn: 0,
            status: CourtStatus::Empty,
            ally_hp: 100,
            enemy_hp: 100,
            momentum: 0,
            log: Vec::new(),
            result: None,
        };
        assert(c@.log =~= Seq::<Seq<char>>::empty());
        c
    }
}

/// Division rounding toward zero, as Rust's `/` does, for a positive divisor.
pub open spec fn div_toward_zero(a: int, b: int) -> int {
    if a >= 0 {
        a / b
    } else {
        -((-a) / b)
    }
}

pub open spec fn clamp_int(v: int, lo: int, hi: int) -> int {
    if v < lo {
        lo
    } else if v > hi {
        hi
    } else {
        v
    }
}

/// The advocate's score: the ability total read as an `i16`.
pub open spec fn stat_score(stats: AdvocateStats) -> int {
    ((stats_total(stats) as u16) as i16) as int
}

/// The seed's bias, from -8 to 8.
pub open spec fn seed_bias(seed: u64) -> int {
    (seed % 17) as int - 8
}

/// How far turn `turn` swings the momentum: the score against that turn's pressure,
/// scaled down, biased by the seed, held within -24..=24.
pub open spec fn turn_swing(score: int, bias: int, turn: int) -> int {
    clamp_int(div_toward_zero(score - (132 + turn * 9), 8) + bias, -24, 24)
}

/// The log line of a turn.
pub open spec fn turn_log_line(turn: nat, swing: int) -> Seq<char> {
    if swing >= 0 {
        "turn "@ + dec_chars(turn) + ": Furina finds a contradiction (+"@ + int_chars(swing) + ")"@
    } else {
        "turn "@ + dec_chars(turn) + ": prosecutor pressures the timeline ("@ + int_chars(swing) + ")"@
    }
}

/// One turn of the trial: a non-negative swing costs the prosecution 12 hit points and
/// a third of the swing; a negative one costs the defence 10 and a third of it. Hit
/// points do not go below zero.
pub open spec fn court_turn(c: CourtView, score: int, bias: int, turn: int) -> CourtView {
    let swing = turn_swing(score, bias, turn);
    if swing >= 0 {
        CourtView {
            turn: turn as u16,
            momentum: (c.momentum + swing) as i16,
            enemy_hp: clamp_int(c.enemy_hp - 12 - div_toward_zero(swing, 3), 0, i16::MAX as int) as i16,
            log: c.log.push(turn_log_line(turn as nat, swing)),
            ..c
        }
    } else {
        CourtView {
            turn: turn as u16,
            momentum: (c.momentum + swing) as i16,
            ally_hp: clamp_int(c.ally_hp - 10 + div_toward_zero(swing, 3), 0, i16::MAX as int) as i16,
            log: c.log.push(turn_log_line(turn as nat, swing)),
            ..c
        }
    }
}

/// The running trial after its first `n` turns.
pub open spec fn court_turns(score: int, bias: int, n: nat) -> CourtView
    decreases n,
{
    if n == 0 {
        CourtView { status: CourtStatus::Running, ..empty_court() }
    } else {
        court_turn(court_turns(score, bias, (n - 1) as nat), score, bias, n as int)
    }
}

/// The trial the advocate's abilities and the session seed produce: three turns, then a
/// win when the momentum is at least -6.
pub open spec fn simulated_court(stats: AdvocateStats, seed: u64) -> CourtView {
    let c = court_turns(stat_score(stats), seed_bias(seed), 3);
    CourtView {
        status: CourtStatus::Resolved,
        result: Some(
            CourtResult {
                verdict: if c.momentum >= -6 { CourtVerdict::Win } else { CourtVerdict::Loss },
                final_momentum: c.momentum,
            },
        ),
        ..c
    }
}

/// Each turn adds one log line.
pub proof fn lemma_court_turns_log_len(score: int, bias: int, n: nat)
    ensures
        court_turns(score, bias, n).log.len() == n,
    decreases n,
{
    if n > 0 {
        lemma_court_turns_log_len(score, bias, (n - 1) as nat);
    }
}

/// After `n` of the three turns: `n` turns taken, each logged with its own swing, the
/// trial still running without a result, both sides' hit points within `0..=100`, and
/// the momentum moved by at most 24 a turn.
proof fn lemma_court_turns_bounds(score: int, bias: int, n: nat)
    requires
        n <= 3,
    ensures
        court_turns(score, bias, n).log.len() == n,
        forall|i: int| 0 <= i < n ==> #[trigger] court_turns(score, bias, n).log[i] == turn_log_line(
            (i + 1) as nat,
            turn_swing(score, bias, i + 1),
        ),
        n > 0 ==> court_turns(score, bias, n).turn == n,
        court_turns(score, bias, n).status == CourtStatus::Running,
        court_turns(score, bias, n).result is None,
        0 <= court_turns(score, bias, n).ally_hp <= 100,
        0 <= court_turns(score, bias, n).enemy_hp <= 100,
        -24 * n <= court_turns(score, bias, n).momentum <= 24 * n,
    decreases n,
{
    if n > 0 {
        let m = (n - 1) as nat;
        lemma_court_turns_bounds(score, bias, m);
        let c = court_turns(score, bias, m);
        let s = turn_swing(score, bias, n as int);
        assert(-24 <= s <= 24);
        assert(-8 <= div_toward_zero(s, 3) <= 8);
        let d = court_turns(score, bias, n);
        assert(d == court_turn(c, score, bias, n as int));
        assert forall|i: int| 0 <= i < n implies #[trigger] d.log[i] == turn_log_line(
            (i + 1) as nat,
            turn_swing(score, bias, i + 1),
        ) by {
            if i < m {
                assert(d.log[i] == c.log[i]);
            }
        }
    }
}

/// Every trial runs exactly three turns, each logged with its own swing, and ends
/// resolved with both sides' hit points within `0..=100` and the momentum within
/// `-72..=72`; it is won exactly when the momentum is at least -6.
pub proof fn lemma_trial_bounds(stats: AdvocateStats, seed: u64)
    ensures
        simulated_court(stats, seed).turn == 3,
        simulated_court(stats, seed).status == CourtStatus::Resolved,
        simulated_court(stats, seed).log.len() == 3,
        forall|i: int| 0 <= i < 3 ==> #[trigger] simulated_court(stats, seed).log[i] == turn_log_line(
            (i + 1) as nat,
            turn_swing(stat_score(stats), seed_bias(seed), i + 1),
        ),
        0 <= simulated_court(stats, seed).ally_hp <= 100,
        0 <= simulated_court(stats, seed).enemy_hp <= 100,
        -72 <= simulated_court(stats, seed).momentum <= 72,
        simulated_court(stats, seed).result == Some(
            CourtResult {
                verdict: if simulated_court(stats, seed).momentum >= -6 {
                    CourtVerdict::Win
                } else {
                    CourtVerdict::Loss
                },
                final_momentum: simulated_court(stats, seed).momentum,
            },
        ),
{
    lemma_court_turns_bounds(stat_score(stats), seed_bias(seed), 3);
}

/// The hit points a turn with swing `swing` costs the prosecution: a contradiction (a
/// non-negative swing) costs 12 and a third of the swing, rounded down; an attack by the
/// prosecution costs it nothing.
pub open spec fn prosecution_loss(swing: int) -> int {
    if swing >= 0 {
        12 + swing / 3
    } else {
        0
    }
}

/// The hit points a turn with swing `swing` costs the defence: an attack by the
/// prosecution (a negative swing) costs 10 and a third of its size, rounded down; a
/// contradiction costs the defence nothing.
pub open spec fn defence_loss(swing: int) -> int {
    if swing < 0 {
        10 + (-swing) / 3
    } else {
        0
    }
}

/// Over a whole trial each side loses hit points only on the other side's turns: the
/// prosecution loses `prosecution_loss` of every swing and the defence `defence_loss`,
/// from 100 each (neither reaches zero in three turns), and the momentum is the sum of
/// the three swings.
pub proof fn lemma_trial_hit_points(stats: AdvocateStats, seed: u64)
    ensures
        simulated_court(stats, seed).ally_hp == 100 - defence_loss(turn_swing(stat_score(stats), seed_bias(seed), 1))
            - defence_loss(turn_swing(stat_score(stats), seed_bias(seed), 2)) - defence_loss(
            turn_swing(stat_score(stats), seed_bias(seed), 3),
        ),
        simulated_court(stats, seed).enemy_hp == 100 - prosecution_loss(turn_swing(stat_score(stats), seed_bias(seed), 1))
            - prosecution_loss(turn_swing(stat_score(stats), seed_bias(seed), 2)) - prosecution_loss(
            turn_swing(stat_score(stats), seed_bias(seed), 3),
        ),
        simulated_court(stats, seed).momentum == turn_swing(stat_score(stats), seed_bias(seed), 1) + turn_swing(
            stat_score(stats),
            seed_bias(seed),
            2,
        ) + turn_swing(stat_score(stats), seed_bias(seed), 3),
{
    let sc = stat_score(stats);
    let b = seed_bias(seed);
    let s1 = turn_swing(sc, b, 1);
    let s2 = turn_swing(sc, b, 2);
    let s3 = turn_swing(sc, b, 3);
    assert(-24 <= s1 <= 24 && -24 <= s2 <= 24 && -24 <= s3 <= 24);
    let c0 = court_turns(sc, b, 0);
    let c1 = court_turns(sc, b, 1);
    let c2 = court_turns(sc, b, 2);
    let c3 = court_turns(sc, b, 3);
    assert(c1 == court_turn(c0, sc, b, 1));
    assert(c2 == court_turn(c1, sc, b, 2));
    assert(c3 == court_turn(c2, sc, b, 3));
    assert(c1.ally_hp == 100 - defence_loss(s1) && c1.enemy_hp == 100 - prosecution_loss(s1) && c1.momentum == s1);
    assert(c2.ally_hp == c1.ally_hp - defence_loss(s2) && c2.enemy_hp == c1.enemy_hp - prosecution_loss(s2)
        && c2.momentum == c1.momentum + s2);
    assert(c3.ally_hp == c2.ally_hp - defence_loss(s3) && c3.enemy_hp == c2.enemy_hp - prosecution_loss(s3)
        && c3.momentum == c2.momentum + s3);
}

proof fn lemma_swing_monotone(score1: int, score2: int, bias: int, turn1: int, turn2: int)
    requires
        score1 - turn1 * 9 <= score2 - turn2 * 9,
    ensures
        turn_swing(score1, bias, turn1) <= turn_swing(score2, bias, turn2),
{
    let a = score1 - (132 + turn1 * 9);
    let b = score2 - (132 + turn2 * 9);
    assert(div_toward_zero(a, 8) <= div_toward_zero(b, 8));
}

/// A stronger advocate never fares worse: with the same seed, a higher score gives every
/// turn a swing at least as large, so at least as much momentum, and a win stays a win;
/// and each turn is at least as hard as the one before it.
#[verifier::spinoff_prover]
pub proof fn lemma_stronger_never_worse(stats1: AdvocateStats, stats2: AdvocateStats, seed: u64, turn: int)
    requires
        stat_score(stats1) <= stat_score(stats2),
    ensures
        turn_swing(stat_score(stats1), seed_bias(seed), turn) <= turn_swing(stat_score(stats2), seed_bias(seed), turn),
        turn_swing(stat_score(stats1), seed_bias(seed), turn + 1) <= turn_swing(stat_score(stats1), seed_bias(seed), turn),
        simulated_court(stats1, seed).momentum <= simulated_court(stats2, seed).momentum,
        (simulated_court(stats1, seed).result matches Some(r) && r.verdict == CourtVerdict::Win)
            ==> (simulated_court(stats2, seed).result matches Some(r2) && r2.verdict == CourtVerdict::Win),
{
    let s1 = stat_score(stats1);
    let s2 = stat_score(stats2);
    let b = seed_bias(seed);
    lemma_swing_monotone(s1, s2, b, turn, turn);
    lemma_swing_monotone(s1, s1, b, turn + 1, turn);
    lemma_swing_monotone(s1, s2, b, 1, 1);
    lemma_swing_monotone(s1, s2, b, 2, 2);
    lemma_swing_monotone(s1, s2, b, 3, 3);
    lemma_trial_hit_points(stats1, seed);
    lemma_trial_hit_points(stats2, seed);
}

/// The abilities can be scored without overflow.
pub open spec fn stats_scorable(stats: AdvocateStats) -> bool {
    stats_total(stats) <= u16::MAX && !(32768 <= stats_total(stats) <= 32926)
}

fn push_turn_line(log: &mut Vec<String>, turn: u16, swing: i16)
    ensures
        final(log)@.map_values(|line: String| line@) == old(log)@.map_values(|line: String| line@).push(
            turn_log_line(turn as nat, swing as int),
        ),
{
    let mut line = String::new();
    line.append("turn ");
    push_u64(&mut line, turn as u64);
    if swing >= 0 {
        line.append(": Furina finds a contradiction (+");
    } else {
        line.append(": prosecutor pressures the timeline (");
    }
    push_i64(&mut line, swing as i64);
    line.append(")");
    let ghost before = log@;
    log.push(line);
    assert(log@.map_values(|line: String| line@) =~= before.map_values(|line: String| line@).push(
        turn_log_line(turn as nat, swing as int),
    ));
}

/// Runs the automatic trial on a snapshot of the abilities with the session's seed.
pub fn simulate_court(stats: AdvocateStats, seed: u64) -> (c: CourtState)
    requires
        stats_scorable(stats),
    ensures
        c@ == simulated_court(stats, seed),
{
    let mut state = CourtState {
        turn: 0,
        status: CourtStatus::Running,
        ally_hp: 100,
        enemy_hp: 100,
        momentum: 0,
        log: Vec::new(),
        result: None,
    };
    let total = stats.total();
    proof {
        let t = total;
        if t >= 32927 {
            assert((t as i16) >= -32609i16) by (bit_vector)
                requires t >= 32927u16;
        } else {
            assert(t <= 32767);
            assert((t as i16) == t) by (bit_vector)
                requires t <= 32767u16;
        }
    }
    let score: i16 = total as i16;
    let bias: i16 = (seed % 17) as i16 - 8;
    assert(state@.log =~= Seq::<Seq<char>>::empty());
    let mut turn: u16 = 1;
    while turn <= 3
        invariant
            1 <= turn <= 4,
            score as int == stat_score(stats),
            score >= -32609,
            bias as int == seed_bias(seed),
            state@ == court_turns(score as int, bias as int, (turn - 1) as nat),
            -24 * (turn - 1) <= state.momentum <= 24 * (turn - 1),
            0 <= state.ally_hp <= 100,
            0 <= state.enemy_hp <= 100,
        decreases 4 - turn,
    {
        let pressure: i16 = 132 + (turn as i16) * 9;
        let raw = (score - pressure) / 8 + bias;
        let swing: i16 = if raw < -24 {
            -24
        } else if raw > 24 {
            24
        } else {
            raw
        };
        let ghost prev = state@;
        state.turn = turn;
        state.momentum = state.momentum + swing;
        if swing >= 0 {
            let hp = state.enemy_hp - 12 - swing / 3;
            state.enemy_hp = if hp < 0 { 0 } else { hp };
        } else {
            let hp = state.ally_hp - 10 + swing / 3;
            state.ally_hp = if hp < 0 { 0 } else { hp };
        }
        push_turn_line(&mut state.log, turn, swing);
        assert(state@ == court_turn(prev, score as int, bias as int, turn as int));
        turn = turn + 1;
    }
    let verdict = if state.momentum >= -6 {
        CourtVerdict::Win
    } else {
        CourtVerdict::Loss
    };
    state.status = CourtStatus::Resolved;
    state.result = Some(CourtResult { verdict, final_momentum: state.momentum });
    state
}

} // verus!
