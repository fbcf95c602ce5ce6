//! Process priority levels.

use vstd::prelude::*;

verus! {

/// A process's scheduling priority class.
#[derive(Clone, Copy, Debug, PartialEq, Eq, Structural, Hash)]
pub enum CpuPriority {
    Idle,
    BelowNormal,
    Normal,
    AboveNormal,
    High,
    /// Use with caution.
    Realtime,
}

/// The text that describes `p` to a user.
pub open spec fn description_spec(p: CpuPriority) -> Seq<char> {
    match p {
        CpuPriority::Idle => "Idle - Lowest priority, runs only when system is idle"@,
        CpuPriority::BelowNormal => "Below Normal - Lower than normal priority"@,
        CpuPriority::Normal => "Normal - Standard priority"@,
        CpuPriority::AboveNormal => "Above Normal - Higher than normal priority"@,
        CpuPriority::High => "High - High priority, may affect system responsiveness"@,
        CpuPriority::Realtime => "Realtime - Highest priority, DANGEROUS if misused!"@,
    }
}

impl CpuPriority {
    /// A one-line description of this priority for a user.
    pub fn description(&self) -> (r: &'static str)
        ensures
            r@ == description_spec(*self),
    {
        match self {
            CpuPriority::Idle => "Idle - Lowest priority, runs only when system is idle",
            CpuPriority::BelowNormal => "Below Normal - Lower than normal priority",
            CpuPriority::Normal => "Normal - Standard priority",
            CpuPriority::AboveNormal => "Above Normal - Higher than normal priority",
            CpuPriority::High => "High - High priority, may affect system responsiveness",
            CpuPriority::Realtime => "Realtime - Highest priority, DANGEROUS if misused!",
        }
    }
}

} // verus!
