//! The fee schedule and the proportional-fee computation.
use vstd::prelude::*;
use crate::constants::{
    ADD_FUNDS_FLAT_FEE, CLOSE_STREAM_FLAT_FEE, CLOSE_STREAM_PERCENT_FEE, CLOSE_TREASURY_FLAT_FEE,
    CREATE_STREAM_FLAT_FEE, CREATE_TREASURY_FLAT_FEE, CREATE_TREASURY_INITIAL_BALANCE_FOR_FEES,
    PERCENT_DENOMINATOR, TRANSFER_STREAM_FLAT_FEE, TREASURY_WITHDRAW_PERCENT_FEE,
    WITHDRAW_PERCENT_FEE,
};
use crate::math::{lemma_fraction_le, lemma_mul_u64_fits_u128};

verus! {

/// `percent` parts per `PERCENT_DENOMINATOR` of `amount`, rounded down.
pub open spec fn percent_of(percent: int, amount: int) -> int {
    percent * amount / (PERCENT_DENOMINATOR as int)
}

/// The fees charged by each operation: flat fees in lamports, proportional fees in
/// parts per `PERCENT_DENOMINATOR` of the amount moved.
#[derive(Debug, Clone, Copy, PartialEq, Eq, Structural)]
pub struct FeeSchedule {
    pub create_treasury_flat_fee: u64,
    pub create_treasury_initial_balance_for_fees: u64,
    pub create_stream_flat_fee: u64,
    pub add_funds_flat_fee: u64,
    pub withdraw_percent_fee: u64,
    pub close_stream_flat_fee: u64,
    pub close_stream_percent_fee: u64,
    pub close_treasury_flat_fee: u64,
    pub transfer_stream_flat_fee: u64,
    pub treasury_withdraw_percent_fee: u64,
}

impl FeeSchedule {
    /// No proportional fee takes more than the amount it applies to.
    pub open spec fn wf(self) -> bool {
        &&& self.withdraw_percent_fee <= PERCENT_DENOMINATOR
        &&& self.close_stream_percent_fee <= PERCENT_DENOMINATOR
        &&& self.treasury_withdraw_percent_fee <= PERCENT_DENOMINATOR
    }

    /// The protocol's standard fee schedule.
    pub fn standard() -> (r: FeeSchedule)
        ensures
            r.wf(),
            r == (FeeSchedule {
                create_treasury_flat_fee: CREATE_TREASURY_FLAT_FEE,
                create_treasury_initial_balance_for_fees: CREATE_TREASURY_INITIAL_BALANCE_FOR_FEES,
                create_stream_flat_fee: CREATE_STREAM_FLAT_FEE,
                add_funds_flat_fee: ADD_FUNDS_FLAT_FEE,
                withdraw_percent_fee: WITHDRAW_PERCENT_FEE,
                close_stream_flat_fee: CLOSE_STREAM_FLAT_FEE,
                close_stream_percent_fee: CLOSE_STREAM_PERCENT_FEE,
                close_treasury_flat_fee: CLOSE_TREASURY_FLAT_FEE,
                transfer_stream_flat_fee: TRANSFER_STREAM_FLAT_FEE,
                treasury_withdraw_percent_fee: TREASURY_WITHDRAW_PERCENT_FEE,
            }),
    {
        FeeSchedule {
            create_treasury_flat_fee: CREATE_TREASURY_FLAT_FEE,
            create_treasury_initial_balance_for_fees: CREATE_TREASURY_INITIAL_BALANCE_FOR_FEES,
            create_stream_flat_fee: CREATE_STREAM_FLAT_FEE,
            add_funds_flat_fee: ADD_FUNDS_FLAT_FEE,
            withdraw_percent_fee: WITHDRAW_PERCENT_FEE,
            close_stream_flat_fee: CLOSE_STREAM_FLAT_FEE,
            close_stream_percent_fee: CLOSE_STREAM_PERCENT_FEE,
            close_treasury_flat_fee: CLOSE_TREASURY_FLAT_FEE,
            transfer_stream_flat_fee: TRANSFER_STREAM_FLAT_FEE,
            treasury_withdraw_percent_fee: TREASURY_WITHDRAW_PERCENT_FEE,
        }
    }
}

/// The proportional fee `percent` (parts per `PERCENT_DENOMINATOR`) on `amount`,
/// computed with a 128-bit intermediate product.
pub fn proportional_fee(percent: u64, amount: u64) -> (r: u64)
    requires
        percent <= PERCENT_DENOMINATOR,
    ensures
        r == percent_of(percent as int, amount as int),
        r <= amount,
{
    proof {
        lemma_mul_u64_fits_u128(percent, amount);
        lemma_fraction_le(percent as int, amount as int, PERCENT_DENOMINATOR as int);
    }
    let product: u128 = (percent as u128) * (amount as u128);
    let fee: u128 = product / (PERCENT_DENOMINATOR as u128);
    fee as u64
}

} // verus!
