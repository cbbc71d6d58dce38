use furina_advocate_sim::domain::dating::DatingEndReason;
use furina_advocate_sim::domain::lifecycle::{DomainError, ensure_phase};
use furina_advocate_sim::domain::phase::GamePhase;
use furina_advocate_sim::domain::session::{DomainCommand, GameSession};
use furina_advocate_sim::domain::training::{AdvocateStats, TrainingActionId, apply_delta, training_action};
use furina_advocate_sim::domain::court::{CourtStatus, CourtVerdict, simulate_court};

#[test]
fn training_action_updates_stats_and_enters_court() {
    let mut session = GameSession::new(1);
    session
        .apply(DomainCommand::SelectTrainingAction(TrainingActionId::LogicDrill))
        .unwrap();

    assert_eq!(session.phase(), GamePhase::Court);
    assert_eq!(session.week(), 2);
    assert_eq!(session.stats().logic_speed, 40);
}

#[test]
fn court_generates_result_and_dating_context() {
    let mut session = GameSession::new(1);
    session
        .apply(DomainCommand::SelectTrainingAction(TrainingActionId::LogicDrill))
        .unwrap();
    session.apply(DomainCommand::StartCourt).unwrap();

    assert_eq!(session.phase(), GamePhase::Dating);
    assert!(session.court_result().is_some());
    assert_eq!(session.court_log().len(), 3);
}

#[test]
fn rejects_command_in_wrong_phase() {
    let mut session = GameSession::new(1);
    let error = session.apply(DomainCommand::StartCourt).unwrap_err();

    assert_eq!(
        error,
        DomainError::InvalidPhase {
            expected: GamePhase::Court,
            actual: GamePhase::Training,
        }
    );
}

#[test]
fn dating_can_finish_for_failure_paths() {
    for reason in [
        DatingEndReason::Completed,
        DatingEndReason::Failed,
        DatingEndReason::Cancelled,
        DatingEndReason::Timeout,
    ] {
        let mut session = GameSession::new(1);
        session
            .apply(DomainCommand::SelectTrainingAction(TrainingActionId::LogicDrill))
            .unwrap();
        session.apply(DomainCommand::StartCourt).unwrap();
        session.apply(DomainCommand::FinishDating(reason)).unwrap();

        assert_eq!(session.phase(), GamePhase::Result);
    }
}

fn run_full_loop() -> GameSession {
    let mut session = GameSession::new(42);
    session
        .apply(DomainCommand::SelectTrainingAction(TrainingActionId::SpeechPractice))
        .unwrap();
    session.apply(DomainCommand::StartCourt).unwrap();
    session
        .apply(DomainCommand::SubmitDatingInput("nice".to_string()))
        .unwrap();
    session
        .apply(DomainCommand::FinishDating(DatingEndReason::Completed))
        .unwrap();
    session
}

#[test]
fn full_mvp_loop_is_deterministic() {
    assert_eq!(run_full_loop(), run_full_loop());
}

#[test]
fn complete_training_matches_select_then_court() {
    let mut combined = GameSession::new(7);
    combined
        .apply(DomainCommand::CompleteTrainingAction(TrainingActionId::LawStudy))
        .unwrap();
    let mut stepwise = GameSession::new(7);
    stepwise
        .apply(DomainCommand::SelectTrainingAction(TrainingActionId::LawStudy))
        .unwrap();
    stepwise.apply(DomainCommand::StartCourt).unwrap();
    assert_eq!(combined, stepwise);
    assert_eq!(combined.phase(), GamePhase::Dating);
}

#[test]
fn refused_command_leaves_session_unchanged() {
    let mut session = GameSession::new(3);
    let before = GameSession::new(3);
    let error = session
        .apply(DomainCommand::FinishDating(DatingEndReason::Timeout))
        .unwrap_err();
    assert_eq!(
        error,
        DomainError::InvalidPhase {
            expected: GamePhase::Dating,
            actual: GamePhase::Training,
        }
    );
    assert_eq!(session, before);
    assert_eq!(
        error.describe(),
        "InvalidPhase { expected: Dating, actual: Training }"
    );
}

#[test]
fn dating_input_is_trimmed_and_blank_input_is_dropped() {
    let mut session = GameSession::new(1);
    session
        .apply(DomainCommand::CompleteTrainingAction(TrainingActionId::LogicDrill))
        .unwrap();
    session
        .apply(DomainCommand::SubmitDatingInput("  \t ".to_string()))
        .unwrap();
    assert_eq!(session.transcript_len(), 0);
    session
        .apply(DomainCommand::SubmitDatingInput("  hi there \n".to_string()))
        .unwrap();
    assert_eq!(session.transcript_len(), 1);
    session
        .apply(DomainCommand::FinishDating(DatingEndReason::Completed))
        .unwrap();
    assert_eq!(session.transcript_len(), 2);
    assert_eq!(session.phase(), GamePhase::Result);
}

#[test]
fn apply_delta_clamps_to_range() {
    let stats = AdvocateStats {
        logic_speed: 95,
        mental_stamina: 2,
        speech_power: 50,
        guts: 100,
        intellect: 0,
    };
    let delta = training_action(TrainingActionId::LogicDrill).delta;
    let out = apply_delta(stats, delta);
    assert_eq!(out.logic_speed, 100);
    assert_eq!(out.mental_stamina, 2);
    let nerve = apply_delta(stats, training_action(TrainingActionId::NerveControl).delta);
    assert_eq!(nerve.mental_stamina, 10);
    assert_eq!(nerve.guts, 100);
    assert_eq!(AdvocateStats::default().total(), 149);
}

#[test]
fn court_simulation_known_values() {
    let stats = AdvocateStats::default();
    let court = simulate_court(stats, 1);
    // score 149, bias -7: swings (149-141)/8-7 = -6, (149-150)/8-7 = -7, (149-159)/8-7 = -8
    assert_eq!(court.log.len(), 3);
    assert_eq!(court.momentum, -21);
    assert_eq!(court.ally_hp, 100 - 12 - 12 - 12);
    assert_eq!(court.enemy_hp, 100);
    assert_eq!(court.status, CourtStatus::Resolved);
    assert_eq!(court.result.unwrap().verdict, CourtVerdict::Loss);
    assert_eq!(court.log[0], "turn 1: prosecutor pressures the timeline (-6)");
    let strong = AdvocateStats {
        logic_speed: 100,
        mental_stamina: 100,
        speech_power: 100,
        guts: 100,
        intellect: 100,
    };
    let win = simulate_court(strong, 8);
    assert_eq!(win.result.unwrap().verdict, CourtVerdict::Win);
    assert_eq!(win.log[0], "turn 1: Furina finds a contradiction (+24)");
}

#[test]
fn every_trial_stays_within_its_bounds() {
    for value in [0u16, 10, 25, 50, 75, 100] {
        for seed in 0u64..17 {
            let stats = AdvocateStats {
                logic_speed: value,
                mental_stamina: value,
                speech_power: value,
                guts: value,
                intellect: value,
            };
            let court = simulate_court(stats, seed);
            assert_eq!(court.turn, 3);
            assert_eq!(court.log.len(), 3);
            for (i, line) in court.log.iter().enumerate() {
                assert!(line.starts_with(&format!("turn {}: ", i + 1)));
            }
            assert!((0..=100).contains(&court.ally_hp) && (0..=100).contains(&court.enemy_hp));
            assert!((-72..=72).contains(&court.momentum));
            let result = court.result.unwrap();
            assert_eq!(result.final_momentum, court.momentum);
            assert_eq!(result.verdict == CourtVerdict::Win, court.momentum >= -6);
        }
    }
}

#[test]
fn ensure_phase_reports_both_phases() {
    assert_eq!(ensure_phase(GamePhase::Court, GamePhase::Court), Ok(()));
    assert_eq!(
        ensure_phase(GamePhase::Result, GamePhase::Training),
        Err(DomainError::InvalidPhase {
            expected: GamePhase::Training,
            actual: GamePhase::Result,
        })
    );
}
