use vstd::prelude::*;

verus! {

/// Parameters shared by the streams a treasury creates from it.
#[derive(Debug, Clone, Copy)]
pub struct StreamTemplate {
    pub version: u8,
    pub bump: u8,
    /// The start time, in seconds.
    pub start_utc_in_seconds: u64,
    /// The cliff as parts per `PERCENT_DENOMINATOR` of each stream's allocation.
    pub cliff_vest_percent: u64,
    pub rate_interval_in_seconds: u64,
    pub duration_number_of_units: u64,
    pub fee_payed_by_treasurer: bool,
}

} // verus!
