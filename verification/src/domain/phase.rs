use vstd::prelude::*;

verus! {

/// Where a game session stands. Phases only move forward:
/// Training, then Court, then Dating, then Result.
#[derive(Debug, Clone, Copy, PartialEq, Eq, Structural)]
pub enum GamePhase {
    Training,
    Court,
    Dating,
    Result,
    Exit,
}

/// The position of a phase in the forward order of a session.
pub open spec fn phase_rank(p: GamePhase) -> nat {
    match p {
        GamePhase::Training => 0,
        GamePhase::Court => 1,
        GamePhase::Dating => 2,
        GamePhase::Result => 3,
        GamePhase::Exit => 4,
    }
}

impl GamePhase {
    /// The variant's name, as `{:?}` prints it.
    pub open spec fn name(self) -> Seq<char> {
        match self {
            GamePhase::Training => "Training"@,
            GamePhase::Court => "Court"@,
            GamePhase::Dating => "Dating"@,
            GamePhase::Result => "Result"@,
            GamePhase::Exit => "Exit"@,
        }
    }

    /// Appends the variant's name.
    pub fn push_name(self, s: &mut String)
        ensures
            final(s)@ == old(s)@ + self.name(),
    {
        match self {
            GamePhase::Training => s.append("Training"),
            GamePhase::Court => s.append("Court"),
            GamePhase::Dating => s.append("Dating"),
            GamePhase::Result => s.append("Result"),
            GamePhase::Exit => s.append("Exit"),
        }
    }
}

} // verus!
