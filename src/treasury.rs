//! The treasury record: a funding pool shared by the streams it backs.
use vstd::prelude::*;
use crate::address::Address;
use crate::constants::TREASURY_TYPE_LOCKED;
use crate::errors::ErrorCode;

verus! {

#[derive(Debug, Clone)]
pub struct Treasury {
    pub initialized: bool,
    pub version: u8,
    pub bump: u8,
    pub slot: u64,
    pub name: [u8; 32],
    pub treasurer_address: Address,
    pub associated_token_address: Address,
    /// Deprecated: the mint of the funding unit.
    pub mint_address: Address,
    pub labels: Vec<String>,
    /// Cached balance of the treasury's funding account.
    pub last_known_balance_units: u64,
    pub last_known_balance_slot: u64,
    pub last_known_balance_block_time: u64,
    /// Allocation committed to streams and not yet withdrawn.
    pub allocation_assigned_units: u64,
    /// Deprecated.
    pub allocation_reserved_units: u64,
    /// Units withdrawn by all streams of the treasury.
    pub total_withdrawals_units: u64,
    /// Number of live streams.
    pub total_streams: u64,
    pub created_on_utc: u64,
    /// `TREASURY_TYPE_OPEN` or `TREASURY_TYPE_LOCKED`.
    pub treasury_type: u8,
    pub auto_close: bool,
    /// Whether flat fees come out of the treasury's own lamports.
    pub sol_fee_payed_by_treasury: bool,
    pub category: u8,
    pub sub_category: u8,
}

impl Treasury {
    /// Cached balance not committed to any stream.
    pub open spec fn unallocated(self) -> int {
        self.last_known_balance_units - self.allocation_assigned_units
    }

    pub open spec fn is_locked(self) -> bool {
        self.treasury_type == TREASURY_TYPE_LOCKED
    }

    /// The cached balance covers everything allocated to streams.
    pub open spec fn inv(self) -> bool {
        self.allocation_assigned_units <= self.last_known_balance_units
    }

    /// Gets the last known unallocated balance.
    pub fn last_known_unallocated_balance(&self) -> (r: Result<u64, ErrorCode>)
        ensures
            r is Ok <==> self.inv(),
            r is Ok ==> r->Ok_0 == self.unallocated(),
            r is Err ==> r->Err_0 == ErrorCode::Overflow,
    {
        if self.allocation_assigned_units > self.last_known_balance_units {
            return Err(ErrorCode::Overflow);
        }
        Ok(self.last_known_balance_units - self.allocation_assigned_units)
    }

    /// Whether the true balance of the funding account, read after the transfers of
    /// an operation, still covers the cached balance.
    pub fn is_balance_covered(&self, actual_balance: u64) -> (r: bool)
        ensures
            r == (actual_balance >= self.last_known_balance_units),
    {
        actual_balance >= self.last_known_balance_units
    }
}

} // verus!
