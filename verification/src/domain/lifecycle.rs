use vstd::prelude::*;

use super::phase::GamePhase;

verus! {

/// Why a domain command was refused.
#[derive(Debug, Clone, Copy, PartialEq, Eq, Structural)]
pub enum DomainError {
    InvalidPhase { expected: GamePhase, actual: GamePhase },
    UnknownTrainingAction,
}

/// A command may run only in its phase.
pub open spec fn phase_check(actual: GamePhase, expected: GamePhase) -> Result<(), DomainError> {
    if actual == expected {
        Ok(())
    } else {
        Err(DomainError::InvalidPhase { expected, actual })
    }
}

/// `Ok` exactly when the session is in the expected phase, else the error naming both.
pub fn ensure_phase(actual: GamePhase, expected: GamePhase) -> (r: Result<(), DomainError>)
    ensures
        r == phase_check(actual, expected),
{
    if actual == expected {
        Ok(())
    } else {
        Err(DomainError::InvalidPhase { expected, actual })
    }
}

impl DomainError {
    /// The error as `{:?}` prints it.
    pub open spec fn debug_text(self) -> Seq<char> {
        match self {
            DomainError::InvalidPhase { expected, actual } => "InvalidPhase { expected: "@ + expected.name()
                + ", actual: "@ + actual.name() + " }"@,
            DomainError::UnknownTrainingAction => "UnknownTrainingAction"@,
        }
    }

    /// The error as `{:?}` prints it.
    pub fn describe(&self) -> (s: String)
        ensures
            s@ == self.debug_text(),
    {
        let mut s = String::new();
        match self {
            DomainError::InvalidPhase { expected, actual } => {
                s.append("InvalidPhase { expected: ");
                expected.push_name(&mut s);
                s.append(", actual: ");
                actual.push_name(&mut s);
                s.append(" }");
            },
            DomainError::UnknownTrainingAction => s.append("UnknownTrainingAction"),
        }
        s
    }
}

} // verus!
