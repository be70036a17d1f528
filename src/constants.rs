use vstd::prelude::*;

verus! {

/// Flat fee (in lamports) charged when a treasury is created.
pub const CREATE_TREASURY_FLAT_FEE: u64 = 10_000;

/// Lamports moved into a treasury that pays its own flat fees.
pub const CREATE_TREASURY_INITIAL_BALANCE_FOR_FEES: u64 = 100_000;

/// Flat fee charged when a stream is created.
pub const CREATE_STREAM_FLAT_FEE: u64 = 10_000;

/// Flat fee charged when funds are added to a treasury.
pub const ADD_FUNDS_FLAT_FEE: u64 = 25_000;

/// Proportional fee on withdrawals, in parts per `PERCENT_DENOMINATOR`.
pub const WITHDRAW_PERCENT_FEE: u64 = 2_500;

/// Flat fee charged when a stream is closed.
pub const CLOSE_STREAM_FLAT_FEE: u64 = 10_000;

/// Proportional fee on the final payout of a closed stream.
pub const CLOSE_STREAM_PERCENT_FEE: u64 = 2_500;

/// Flat fee charged when a treasury is closed.
pub const CLOSE_TREASURY_FLAT_FEE: u64 = 10_000;

/// Flat fee charged when a stream changes beneficiary.
pub const TRANSFER_STREAM_FLAT_FEE: u64 = 10_000;

/// Proportional fee on withdrawals of unallocated treasury funds.
pub const TREASURY_WITHDRAW_PERCENT_FEE: u64 = 2_500;

/// Denominator of every proportional quantity (fees, cliff percentages).
pub const PERCENT_DENOMINATOR: u64 = 1_000_000;

pub const LAMPORTS_PER_SOL: u64 = 1_000_000_000;

pub const ALLOCATION_TYPE_ASSIGN_TO_SPECIFIC_STREAM: u8 = 1;

pub const ALLOCATION_TYPE_LEAVE_UNALLOCATED: u8 = 2;

pub const TREASURY_TYPE_OPEN: u8 = 0;

pub const TREASURY_TYPE_LOCKED: u8 = 1;

/// Version of the instruction interface.
pub const IDL_FILE_VERSION: u8 = 3;

/// Version tag written into every stream, treasury and template record.
pub const ACCOUNT_VERSION: u8 = 2;

/// Serialized size of a stream record.
pub const STREAM_ACCOUNT_SIZE: u64 = 500;

/// Serialized size of a treasury record.
pub const TREASURY_ACCOUNT_SIZE: u64 = 300;

/// Length of the fixed-size name field of streams and treasuries.
pub const NAME_LENGTH: usize = 32;

} // verus!
