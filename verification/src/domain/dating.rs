use vstd::prelude::*;

verus! {

/// Why a dating conversation ended.
#[derive(Debug, Clone, Copy, PartialEq, Eq, Structural)]
pub enum DatingEndReason {
    Completed,
    Failed,
    Cancelled,
    Timeout,
}

impl DatingEndReason {
    /// The variant's name, as `{:?}` prints it.
    pub open spec fn name(self) -> Seq<char> {
        match self {
            DatingEndReason::Completed => "Completed"@,
            DatingEndReason::Failed => "Failed"@,
            DatingEndReason::Cancelled => "Cancelled"@,
            DatingEndReason::Timeout => "Timeout"@,
        }
    }

    /// Appends the variant's name.
    pub fn push_name(self, s: &mut String)
        ensures
            final(s)@ == old(s)@ + self.name(),
    {
        match self {
            DatingEndReason::Completed => s.append("Completed"),
            DatingEndReason::Failed => s.append("Failed"),
            DatingEndReason::Cancelled => s.append("Cancelled"),
            DatingEndReason::Timeout => s.append("Timeout"),
        }
    }
}

} // verus!
