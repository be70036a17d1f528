use vstd::prelude::*;

verus! {

/// Status of a stream at a given moment.
#[derive(Debug, Clone, Copy, PartialEq, Eq, Structural)]
pub enum StreamStatus {
    /// The start time has not been reached yet.
    Scheduled,
    /// Units are vesting.
    Running,
    /// Paused by hand, or stopped because the whole allocation has vested.
    Paused,
}

impl StreamStatus {
    /// Position of the status in the forward order `Scheduled`, `Running`, `Paused`.
    pub open spec fn rank(self) -> int {
        match self {
            StreamStatus::Scheduled => 0,
            StreamStatus::Running => 1,
            StreamStatus::Paused => 2,
        }
    }
}

/// Kind of treasury. A locked treasury forbids pausing, resuming, topping up and
/// closing its running streams.
#[derive(Debug, Clone, Copy, PartialEq, Eq, Structural)]
pub enum TreasuryType {
    Opened,
    Locked,
}

impl TreasuryType {
    /// The tag stored in a treasury record.
    pub fn as_u8(&self) -> (r: u8)
        ensures
            r == (match *self {
                TreasuryType::Opened => 0u8,
                TreasuryType::Locked => 1u8,
            }),
    {
        match self {
            TreasuryType::Opened => 0,
            TreasuryType::Locked => 1,
        }
    }
}

} // verus!
