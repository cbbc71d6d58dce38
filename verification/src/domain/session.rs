use vstd::prelude::*;

use super::court::{CourtResult, CourtState, CourtView, simulate_court, simulated_court};
use super::dating::DatingEndReason;
use super::lifecycle::{DomainError, ensure_phase, phase_check};
use super::phase::{GamePhase, phase_rank};
use super::training::{
    AdvocateStats, TrainingActionId, action_delta, apply_delta, default_stats, delta_applied,
    stats_in_range, stats_total, training_action,
};
use crate::domain::court::empty_court;
use crate::text::{trim, trim_chars};

verus! {

/// The commands that move a game session along.
#[derive(Debug, Clone, PartialEq, Eq)]
pub enum DomainCommand {
    /// Train for the week: the action's delta is applied and the session goes to court.
    SelectTrainingAction(TrainingActionId),
    /// Run the automatic trial; the session goes on to the date.
    StartCourt,
    /// Train and run the trial in one step.
    CompleteTrainingAction(TrainingActionId),
    /// Record what the player said during the date.
    SubmitDatingInput(String),
    /// End the date; the session shows its result.
    FinishDating(DatingEndReason),
}

/// One playthrough: training, one automatic trial, one date, then the result.
#[derive(Debug, PartialEq, Eq)]
pub struct GameSession {
    phase: GamePhase,
    session_id: u64,
    week: u16,
    stats: AdvocateStats,
    court: CourtState,
    transcript: Vec<String>,
}

/// A session as plain values.
pub struct SessionView {
    pub phase: GamePhase,
    pub session_id: u64,
    pub week: u16,
    pub stats: AdvocateStats,
    pub court: CourtView,
    pub transcript: Seq<Seq<char>>,
}

impl View for GameSession {
    type V = SessionView;

    closed spec fn view(&self) -> SessionView {
        SessionView {
            phase: self.phase,
            session_id: self.session_id,
            week: self.week,
            stats: self.stats,
            court: self.court@,
            transcript: self.transcript@.map_values(|line: String| line@),
        }
    }
}

/// What every session keeps: abilities within range, one week of training at most,
/// taken only after the training phase, and a trial log only once the trial has run.
pub open spec fn session_valid(s: SessionView) -> bool {
    &&& stats_in_range(s.stats)
    &&& 1 <= s.week <= 2
    &&& (s.phase == GamePhase::Training ==> s.week == 1)
    &&& (s.phase == GamePhase::Training || s.phase == GamePhase::Court ==> s.court.log.len() == 0)
    &&& (s.phase == GamePhase::Dating || s.phase == GamePhase::Result ==> s.court.log.len() == 3)
}

/// A new session with the given seed: training phase, week one, starting abilities,
/// no trial, no transcript.
pub open spec fn new_session(session_id: u64) -> SessionView {
    SessionView {
        phase: GamePhase::Training,
        session_id,
        week: 1,
        stats: default_stats(),
        court: empty_court(),
        transcript: seq![],
    }
}

/// The session after a week of training: the action's delta applied, the week
/// counted, the session in court.
pub open spec fn trained(s: SessionView, id: TrainingActionId) -> SessionView {
    SessionView {
        stats: delta_applied(s.stats, action_delta(id)),
        week: (s.week + 1) as u16,
        phase: GamePhase::Court,
        ..s
    }
}

/// The session after its trial: the trial run on its abilities and seed, the session on
/// to the date.
pub open spec fn tried(s: SessionView) -> SessionView {
    SessionView { court: simulated_court(s.stats, s.session_id), phase: GamePhase::Dating, ..s }
}

/// The transcript line for what the player said, if anything is left once trimmed.
pub open spec fn with_input(s: SessionView, input: Seq<char>) -> SessionView {
    if trim_chars(input).len() > 0 {
        SessionView { transcript: s.transcript.push("user: "@ + trim_chars(input)), ..s }
    } else {
        s
    }
}

/// The session after the date ended for `reason`.
pub open spec fn finished(s: SessionView, reason: DatingEndReason) -> SessionView {
    SessionView {
        transcript: s.transcript.push("dating ended: "@ + reason.name()),
        phase: GamePhase::Result,
        ..s
    }
}

/// The phase a command runs in.
pub open spec fn command_phase(cmd: DomainCommand) -> GamePhase {
    match cmd {
        DomainCommand::SelectTrainingAction(_) => GamePhase::Training,
        DomainCommand::StartCourt => GamePhase::Court,
        DomainCommand::CompleteTrainingAction(_) => GamePhase::Training,
        DomainCommand::SubmitDatingInput(_) => GamePhase::Dating,
        DomainCommand::FinishDating(_) => GamePhase::Dating,
    }
}

/// What a command does to a session: refused with `InvalidPhase` outside its phase,
/// else the session it leads to.
pub open spec fn session_step(s: SessionView, cmd: DomainCommand) -> Result<SessionView, DomainError> {
    match phase_check(s.phase, command_phase(cmd)) {
        Err(e) => Err(e),
        Ok(_) => Ok(
            match cmd {
                DomainCommand::SelectTrainingAction(id) => trained(s, id),
                DomainCommand::StartCourt => tried(s),
                DomainCommand::CompleteTrainingAction(id) => tried(trained(s, id)),
                DomainCommand::SubmitDatingInput(input) => with_input(s, input@),
                DomainCommand::FinishDating(reason) => finished(s, reason),
            },
        ),
    }
}

/// Training and running the trial in one step is the same as selecting the training
/// action and then starting the trial.
pub proof fn lemma_complete_is_select_then_court(s: SessionView, id: TrainingActionId)
    ensures
        session_step(s, DomainCommand::CompleteTrainingAction(id)) == match session_step(
            s,
            DomainCommand::SelectTrainingAction(id),
        ) {
            Ok(t) => session_step(t, DomainCommand::StartCourt),
            Err(e) => Err(e),
        },
{
}

/// A command is refused exactly when the session is not in the command's phase, and the
/// refusal names the phase expected and the phase the session is in.
pub proof fn lemma_refused_exactly_outside_phase(s: SessionView, cmd: DomainCommand)
    ensures
        session_step(s, cmd) is Err <==> s.phase != command_phase(cmd),
        s.phase != command_phase(cmd) ==> session_step(s, cmd) == Err::<SessionView, DomainError>(
            DomainError::InvalidPhase { expected: command_phase(cmd), actual: s.phase },
        ),
{
}

/// Phases only move forward: no command takes a session back to an earlier phase, and
/// every accepted command other than dating input moves it on.
pub proof fn lemma_phase_moves_forward(s: SessionView, cmd: DomainCommand)
    ensures
        session_step(s, cmd) matches Ok(t) ==> phase_rank(t.phase) >= phase_rank(s.phase),
        session_step(s, cmd) matches Ok(t) ==> (cmd is SubmitDatingInput <==> t.phase == s.phase),
{
}

/// Every command keeps a session valid: abilities stay within `0..=100` and the week
/// advances once at most.
pub proof fn lemma_step_keeps_session_valid(s: SessionView, cmd: DomainCommand)
    requires
        session_valid(s),
    ensures
        session_step(s, cmd) matches Ok(t) ==> session_valid(t),
{
    lemma_trial_is_resolved(s);
    if let DomainCommand::CompleteTrainingAction(id) = cmd {
        lemma_trial_is_resolved(trained(s, id));
    }
}

/// An ability raised by `by`, held at 100.
pub open spec fn raised(v: u16, by: int) -> u16 {
    if v + by > 100 {
        100
    } else {
        (v + by) as u16
    }
}

/// A week of training raises exactly the abilities its action trains, each held at 100,
/// and leaves the others as they were: Logic Drill adds 12 to logic speed, Speech
/// Practice 12 to speech power, Law Study 12 to intellect, and Nerve Control 8 to
/// mental stamina and 6 to guts. Training and running the trial in one step trains the
/// same way.
pub proof fn lemma_training_effects(s: SessionView, id: TrainingActionId)
    requires
        session_valid(s),
        s.phase == GamePhase::Training,
    ensures
        session_step(s, DomainCommand::SelectTrainingAction(id)) is Ok,
        session_step(s, DomainCommand::CompleteTrainingAction(id)) is Ok,
        session_step(s, DomainCommand::CompleteTrainingAction(id))->Ok_0.stats == session_step(
            s,
            DomainCommand::SelectTrainingAction(id),
        )->Ok_0.stats,
        session_step(s, DomainCommand::SelectTrainingAction(id))->Ok_0.stats == match id {
            TrainingActionId::LogicDrill => AdvocateStats { logic_speed: raised(s.stats.logic_speed, 12), ..s.stats },
            TrainingActionId::SpeechPractice => AdvocateStats { speech_power: raised(s.stats.speech_power, 12), ..s.stats },
            TrainingActionId::LawStudy => AdvocateStats { intellect: raised(s.stats.intellect, 12), ..s.stats },
            TrainingActionId::NerveControl => AdvocateStats {
                mental_stamina: raised(s.stats.mental_stamina, 8),
                guts: raised(s.stats.guts, 6),
                ..s.stats
            },
        },
{
}

/// A new session is valid.
pub proof fn lemma_new_session_valid(session_id: u64)
    ensures
        session_valid(new_session(session_id)),
{
}

/// Equal sessions given the same command end in the same state: the trial depends on the
/// abilities and the seed alone.
pub proof fn lemma_step_deterministic(s1: SessionView, s2: SessionView, cmd: DomainCommand)
    requires
        s1 == s2,
    ensures
        session_step(s1, cmd) == session_step(s2, cmd),
{
}

/// After the trial the session holds a resolved trial of three logged turns.
pub proof fn lemma_trial_is_resolved(s: SessionView)
    ensures
        tried(s).court.log.len() == 3,
        tried(s).court.result is Some,
        tried(s).court.status == super::court::CourtStatus::Resolved,
{
    super::court::lemma_court_turns_log_len(
        super::court::stat_score(s.stats),
        super::court::seed_bias(s.session_id),
        3,
    );
}

impl GameSession {
    #[verifier::type_invariant]
    spec fn inv(&self) -> bool {
        session_valid(self@)
    }

    /// A new session in the training phase, seeded with `session_id`.
    pub fn new(session_id: u64) -> (s: Self)
        ensures
            s@ == new_session(session_id),
            session_valid(s@),
    {
        let s = GameSession {
            phase: GamePhase::Training,
            session_id,
            week: 1,
            stats: AdvocateStats::default(),
            court: CourtState::default(),
            transcript: Vec::new(),
        };
        assert(s@.transcript =~= Seq::<Seq<char>>::empty());
        s
    }

    pub fn stats(&self) -> (r: AdvocateStats)
        ensures
            r == self@.stats,
    {
        self.stats
    }

    pub fn phase(&self) -> (r: GamePhase)
        ensures
            r == self@.phase,
    {
        self.phase
    }

    pub fn court_log(&self) -> (r: &[String])
        ensures
            r@.map_values(|line: String| line@) == self@.court.log,
    {
        self.court.log.as_slice()
    }

    pub fn court_result(&self) -> (r: Option<CourtResult>)
        ensures
            r == self@.court.result,
    {
        self.court.result
    }

    pub fn transcript_len(&self) -> (r: usize)
        ensures
            r == self@.transcript.len(),
    {
        self.transcript.len()
    }

    pub fn week(&self) -> (r: u16)
        ensures
            r == self@.week,
    {
        self.week
    }

    pub fn ally_hp(&self) -> (r: i16)
        ensures
            r == self@.court.ally_hp,
    {
        self.court.ally_hp
    }

    pub fn enemy_hp(&self) -> (r: i16)
        ensures
            r == self@.court.enemy_hp,
    {
        self.court.enemy_hp
    }

    pub fn momentum(&self) -> (r: i16)
        ensures
            r == self@.court.momentum,
    {
        self.court.momentum
    }

    /// Runs a command: on success the session becomes what `session_step` gives, on
    /// refusal it is left unchanged and the error is returned.
    pub fn apply(&mut self, cmd: DomainCommand) -> (r: Result<(), DomainError>)
        ensures
            match session_step(old(self)@, cmd) {
                Ok(next) => r is Ok && final(self)@ == next,
                Err(e) => r == Err::<(), DomainError>(e) && final(self)@ == old(self)@,
            },
            session_valid(final(self)@),
    {
        proof { use_type_invariant(&*self); }
        match cmd {
            DomainCommand::SelectTrainingAction(id) => self.select_training_action(id),
            DomainCommand::StartCourt => self.start_court(),
            DomainCommand::CompleteTrainingAction(id) => self.complete_training_action(id),
            DomainCommand::SubmitDatingInput(input) => self.submit_dating_input(input),
            DomainCommand::FinishDating(reason) => self.finish_dating(reason),
        }
    }

    /// Trains for the week and moves the session to court.
    pub fn select_training_action(&mut self, id: TrainingActionId) -> (r: Result<(), DomainError>)
        ensures
            match session_step(old(self)@, DomainCommand::SelectTrainingAction(id)) {
                Ok(next) => r is Ok && final(self)@ == next,
                Err(e) => r == Err::<(), DomainError>(e) && final(self)@ == old(self)@,
            },
            session_valid(final(self)@),
    {
        proof { use_type_invariant(&*self); }
        ensure_phase(self.phase, GamePhase::Training)?;
        let action = training_action(id);
        let stats = apply_delta(self.stats, action.delta);
        let week = self.week + 1;
        self.stats = stats;
        self.phase = GamePhase::Court;
        self.week = week;
        proof { use_type_invariant(&*self); }
        Ok(())
    }

    /// Runs the automatic trial and moves the session on to the date.
    pub fn start_court(&mut self) -> (r: Result<(), DomainError>)
        ensures
            match session_step(old(self)@, DomainCommand::StartCourt) {
                Ok(next) => r is Ok && final(self)@ == next,
                Err(e) => r == Err::<(), DomainError>(e) && final(self)@ == old(self)@,
            },
            session_valid(final(self)@),
    {
        proof { use_type_invariant(&*self); }
        ensure_phase(self.phase, GamePhase::Court)?;
        let court = simulate_court(self.stats, self.session_id);
        proof { lemma_trial_is_resolved(self@); }
        let mut transcript: Vec<String> = Vec::new();
        std::mem::swap(&mut transcript, &mut self.transcript);
        *self = GameSession {
            phase: GamePhase::Dating,
            session_id: self.session_id,
            week: self.week,
            stats: self.stats,
            court,
            transcript,
        };
        proof { use_type_invariant(&*self); }
        Ok(())
    }

    /// Trains for the week and runs the trial at once; the session goes on to the date.
    pub fn complete_training_action(&mut self, id: TrainingActionId) -> (r: Result<(), DomainError>)
        ensures
            match session_step(old(self)@, DomainCommand::CompleteTrainingAction(id)) {
                Ok(next) => r is Ok && final(self)@ == next,
                Err(e) => r == Err::<(), DomainError>(e) && final(self)@ == old(self)@,
            },
            session_valid(final(self)@),
    {
        proof { use_type_invariant(&*self); }
        ensure_phase(self.phase, GamePhase::Training)?;
        let action = training_action(id);
        let stats = apply_delta(self.stats, action.delta);
        let week = self.week + 1;
        let court = simulate_court(stats, self.session_id);
        proof { lemma_trial_is_resolved(trained(self@, id)); }
        let mut transcript: Vec<String> = Vec::new();
        std::mem::swap(&mut transcript, &mut self.transcript);
        *self = GameSession {
            phase: GamePhase::Dating,
            session_id: self.session_id,
            week,
            stats,
            court,
            transcript,
        };
        proof { use_type_invariant(&*self); }
        Ok(())
    }

    /// Records what the player said, trimmed; blank input leaves no line.
    pub fn submit_dating_input(&mut self, input: String) -> (r: Result<(), DomainError>)
        ensures
            match session_step(old(self)@, DomainCommand::SubmitDatingInput(input)) {
                Ok(next) => r is Ok && final(self)@ == next,
                Err(e) => r == Err::<(), DomainError>(e) && final(self)@ == old(self)@,
            },
            session_valid(final(self)@),
    {
        proof { use_type_invariant(&*self); }
        ensure_phase(self.phase, GamePhase::Dating)?;
        let trimmed = trim(input.as_str());
        if trimmed.unicode_len() > 0 {
            let mut line = String::from_str("user: ");
            line.append(trimmed.as_str());
            let ghost before = self.transcript@;
            let mut transcript: Vec<String> = Vec::new();
            std::mem::swap(&mut transcript, &mut self.transcript);
            transcript.push(line);
            std::mem::swap(&mut transcript, &mut self.transcript);
            assert(self.transcript@.map_values(|l: String| l@) =~= before.map_values(|l: String| l@).push(
                "user: "@ + trim_chars(input@),
            ));
        }
        proof { use_type_invariant(&*self); }
        Ok(())
    }

    /// Ends the date for `reason` and moves the session to its result.
    pub fn finish_dating(&mut self, reason: DatingEndReason) -> (r: Result<(), DomainError>)
        ensures
            match session_step(old(self)@, DomainCommand::FinishDating(reason)) {
                Ok(next) => r is Ok && final(self)@ == next,
                Err(e) => r == Err::<(), DomainError>(e) && final(self)@ == old(self)@,
            },
            session_valid(final(self)@),
    {
        proof { use_type_invariant(&*self); }
        ensure_phase(self.phase, GamePhase::Dating)?;
        let mut line = String::from_str("dating ended: ");
        reason.push_name(&mut line);
        let ghost before = self.transcript@;
        let mut transcript: Vec<String> = Vec::new();
        std::mem::swap(&mut transcript, &mut self.transcript);
        transcript.push(line);
        std::mem::swap(&mut transcript, &mut self.transcript);
        assert(self.transcript@.map_values(|l: String| l@) =~= before.map_values(|l: String| l@).push(
            "dating ended: "@ + reason.name(),
        ));
        self.phase = GamePhase::Result;
        proof { use_type_invariant(&*self); }
        Ok(())
    }
}

} // verus!
