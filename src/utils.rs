//! Helpers shared by the operations.
use vstd::prelude::*;
use vstd::utf8::encode_utf8;
use crate::address::Address;
use crate::categories::{Category, SubCategory};
use crate::constants::{ACCOUNT_VERSION, TREASURY_TYPE_LOCKED};
use crate::errors::ErrorCode;
use crate::fees::{percent_of, proportional_fee, FeeSchedule};
use crate::ledger::{flat_fee, Currency, Party, Transfer};
use crate::operations::fee_transfers;
use crate::stream::Stream;
use crate::template::StreamTemplate;
use crate::treasury::Treasury;

verus! {

/// A name of at most 32 bytes, padded with spaces to exactly 32.
pub open spec fn padded_name(bytes: Seq<u8>) -> Seq<u8> {
    bytes + Seq::new((32 - bytes.len()) as nat, |i: int| 32u8)
}

/// Encodes a name into the fixed 32-byte field of a record, padding with spaces.
pub fn string_to_bytes(string: String) -> (r: Result<[u8; 32], ErrorCode>)
    ensures
        r is Ok <==> encode_utf8(string@).len() <= 32,
        r is Ok ==> r->Ok_0@ == padded_name(encode_utf8(string@)),
        r is Err ==> r->Err_0 == ErrorCode::StringTooLong,
{
    let string_bytes = string.as_str().as_bytes();
    if string_bytes.len() > 32 {
        return Err(ErrorCode::StringTooLong);
    }
    let mut string_data: [u8; 32] = [32u8; 32];
    let mut i: usize = 0;
    while i < string_bytes.len()
        invariant
            0 <= i <= string_bytes@.len() <= 32,
            string_data@.len() == 32,
            forall|j: int| 0 <= j < i ==> string_data@[j] == string_bytes@[j],
            forall|j: int| i <= j < 32 ==> string_data@[j] == 32u8,
        decreases string_bytes@.len() - i,
    {
        string_data[i] = string_bytes[i];
        i = i + 1;
    }
    assert(string_data@ =~= padded_name(string_bytes@));
    Ok(string_data)
}

/// The later of a requested start time and the current time.
pub open spec fn effective_start(start_utc: u64, now: u64) -> u64 {
    if start_utc < now {
        now
    } else {
        start_utc
    }
}

/// Fills a stream template; a start time in the past becomes `now`.
pub fn construct_stream_template(
    start_utc: u64,
    rate_interval_in_seconds: u64,
    duration_number_of_units: u64,
    cliff_vest_percent: u64,
    fee_payed_by_treasurer: bool,
    template: &mut StreamTemplate,
    template_bump: u8,
    template_version: u8,
    now: u64,
) -> (r: Result<(), ErrorCode>)
    ensures
        r == Ok::<(), ErrorCode>(()),
        *final(template) == (StreamTemplate {
            version: template_version,
            bump: template_bump,
            start_utc_in_seconds: effective_start(start_utc, now),
            cliff_vest_percent,
            rate_interval_in_seconds,
            duration_number_of_units,
            fee_payed_by_treasurer,
        }),
{
    template.version = template_version;
    template.bump = template_bump;
    template.rate_interval_in_seconds = rate_interval_in_seconds;
    template.fee_payed_by_treasurer = fee_payed_by_treasurer;
    template.duration_number_of_units = duration_number_of_units;
    template.cliff_vest_percent = cliff_vest_percent;
    if start_utc < now {
        template.start_utc_in_seconds = now;
    } else {
        template.start_utc_in_seconds = start_utc;
    }
    Ok(())
}

/// The flat creation fee, then the lamports set aside for the treasury's own fees.
pub open spec fn create_treasury_transfers(sol_fee_payed_by_treasury: bool, fees: FeeSchedule) -> Seq<
    Transfer,
> {
    seq![flat_fee(false, fees.create_treasury_flat_fee)] + if sol_fee_payed_by_treasury {
        seq![
            Transfer {
                currency: Currency::Lamports,
                from: Party::Payer,
                to: Party::Treasury,
                amount: fees.create_treasury_initial_balance_for_fees,
            },
        ]
    } else {
        Seq::<Transfer>::empty()
    }
}

/// A freshly created treasury with the given settings.
pub open spec fn is_new_treasury(
    t: Treasury,
    name: Seq<u8>,
    treasury_type: u8,
    auto_close: bool,
    sol_fee_payed_by_treasury: bool,
    category: Category,
    sub_category: SubCategory,
    treasury_bump: u8,
    treasurer: Address,
    associated_token: Address,
    slot: u64,
    now: u64,
) -> bool {
    &&& t.initialized
    &&& t.version == ACCOUNT_VERSION
    &&& t.bump == treasury_bump
    &&& t.slot == slot
    &&& t.name@ == padded_name(name)
    &&& t.treasurer_address == treasurer
    &&& t.associated_token_address == associated_token
    &&& t.labels@.len() == 0
    &&& t.last_known_balance_units == 0
    &&& t.last_known_balance_slot == 0
    &&& t.last_known_balance_block_time == 0
    &&& t.allocation_assigned_units == 0
    &&& t.allocation_reserved_units == 0
    &&& t.total_withdrawals_units == 0
    &&& t.total_streams == 0
    &&& t.created_on_utc == now
    &&& t.treasury_type == treasury_type
    &&& t.auto_close == auto_close
    &&& t.sol_fee_payed_by_treasury == sol_fee_payed_by_treasury
    &&& t.category == category.spec_tag()
    &&& t.sub_category == sub_category.spec_tag()
}

/// Creates a treasury record at time `now` and charges its creation fee.
pub fn construct_treasury_account(
    name: String,
    treasury_type: u8,
    auto_close: bool,
    sol_fee_payed_by_treasury: bool,
    category: Category,
    sub_category: SubCategory,
    treasury_bump: u8,
    treasurer: Address,
    associated_token: Address,
    slot: u64,
    now: u64,
    fees: &FeeSchedule,
) -> (r: Result<(Treasury, Vec<Transfer>), ErrorCode>)
    ensures
        r is Ok <==> encode_utf8(name@).len() <= 32,
        r is Err ==> r->Err_0 == ErrorCode::StringTooLong,
        r is Ok ==> is_new_treasury(
            r->Ok_0.0,
            encode_utf8(name@),
            treasury_type,
            auto_close,
            sol_fee_payed_by_treasury,
            category,
            sub_category,
            treasury_bump,
            treasurer,
            associated_token,
            slot,
            now,
        ) && r->Ok_0.1@ == create_treasury_transfers(sol_fee_payed_by_treasury, *fees),
{
    let name_bytes = string_to_bytes(name)?;
    let treasury = Treasury {
        initialized: true,
        version: ACCOUNT_VERSION,
        bump: treasury_bump,
        slot,
        name: name_bytes,
        treasurer_address: treasurer,
        associated_token_address: associated_token,
        mint_address: Address::zero(),
        labels: Vec::new(),
        last_known_balance_units: 0,
        last_known_balance_slot: 0,
        last_known_balance_block_time: 0,
        allocation_assigned_units: 0,
        allocation_reserved_units: 0,
        total_withdrawals_units: 0,
        total_streams: 0,
        created_on_utc: now,
        treasury_type,
        auto_close,
        sol_fee_payed_by_treasury,
        category: category.as_u8(),
        sub_category: sub_category.as_u8(),
    };
    let mut transfers: Vec<Transfer> = Vec::new();
    transfers.push(Transfer::fee(false, fees.create_treasury_flat_fee));
    if sol_fee_payed_by_treasury {
        transfers.push(
            Transfer {
                currency: Currency::Lamports,
                from: Party::Payer,
                to: Party::Treasury,
                amount: fees.create_treasury_initial_balance_for_fees,
            },
        );
    }
    assert(transfers@ =~= create_treasury_transfers(sol_fee_payed_by_treasury, *fees));
    Ok((treasury, transfers))
}

/// The fee the treasury pays up front when it also pays the beneficiary's fees.
pub open spec fn create_stream_fee(
    allocation_assigned_units: u64,
    fee_payed_by_treasurer: bool,
    fees: FeeSchedule,
) -> int {
    if fee_payed_by_treasurer {
        percent_of(fees.withdraw_percent_fee as int, allocation_assigned_units as int)
    } else {
        0
    }
}

/// The checks of creating a stream record, in order.
pub open spec fn construct_stream_check(
    name: Seq<u8>,
    allocation_assigned_units: u64,
    fee_payed_by_treasurer: bool,
    treasury: Treasury,
    fees: FeeSchedule,
) -> Result<(), ErrorCode> {
    let total = allocation_assigned_units + create_stream_fee(
        allocation_assigned_units,
        fee_payed_by_treasurer,
        fees,
    );
    if total > u64::MAX || !treasury.inv() {
        Err(ErrorCode::Overflow)
    } else if total > treasury.unallocated() {
        Err(ErrorCode::InsufficientTreasuryBalance)
    } else if treasury.treasury_type == TREASURY_TYPE_LOCKED && allocation_assigned_units == 0 {
        Err(ErrorCode::InvalidRequestedStreamAllocation)
    } else if name.len() > 32 {
        Err(ErrorCode::StringTooLong)
    } else if treasury.total_streams == u64::MAX {
        Err(ErrorCode::Overflow)
    } else {
        Ok(())
    }
}

/// A freshly created stream with the given settings.
pub open spec fn is_new_stream(
    s: Stream,
    name: Seq<u8>,
    start_utc: u64,
    rate_amount_units: u64,
    rate_interval_in_seconds: u64,
    allocation_assigned_units: u64,
    fee_payed_by_treasurer: bool,
    effective_cliff_units: u64,
    treasury: Treasury,
    treasury_address: Address,
    beneficiary: Address,
    beneficiary_associated_token: Address,
    now: u64,
) -> bool {
    &&& s.version == ACCOUNT_VERSION
    &&& s.initialized
    &&& s.name@ == padded_name(name)
    &&& s.treasurer_address == treasury.treasurer_address
    &&& s.rate_amount_units == rate_amount_units
    &&& s.rate_interval_in_seconds == rate_interval_in_seconds
    &&& s.start_utc == effective_start(start_utc, now)
    &&& s.start_utc_in_seconds == effective_start(start_utc, now)
    &&& s.cliff_vest_amount_units == effective_cliff_units
    &&& s.cliff_vest_percent == 0
    &&& s.beneficiary_address == beneficiary
    &&& s.beneficiary_associated_token == beneficiary_associated_token
    &&& s.treasury_address == treasury_address
    &&& s.allocation_assigned_units == allocation_assigned_units
    &&& s.allocation_reserved_units == 0
    &&& s.total_withdrawals_units == 0
    &&& s.last_withdrawal_units == 0
    &&& s.last_withdrawal_slot == 0
    &&& s.last_withdrawal_block_time == 0
    &&& s.last_manual_stop_withdrawable_units_snap == 0
    &&& s.last_manual_stop_slot == 0
    &&& s.last_manual_stop_block_time == 0
    &&& s.last_manual_resume_remaining_allocation_units_snap == 0
    &&& s.last_manual_resume_slot == 0
    &&& s.last_manual_resume_block_time == 0
    &&& s.last_known_total_seconds_in_paused_status == 0
    &&& s.last_auto_stop_block_time == 0
    &&& s.fee_payed_by_treasurer == fee_payed_by_treasurer
    &&& s.created_on_utc == now
    &&& s.category == treasury.category
    &&& s.sub_category == treasury.sub_category
}

/// The treasury once it backs a new stream of `allocation_assigned_units`, having
/// paid `fee` up front.
pub open spec fn treasury_after_create_stream(
    treasury: Treasury,
    allocation_assigned_units: u64,
    fee: int,
    now: u64,
    slot: u64,
) -> Treasury {
    let t = Treasury {
        allocation_assigned_units: (treasury.allocation_assigned_units
            + allocation_assigned_units) as u64,
        total_streams: (treasury.total_streams + 1) as u64,
        ..treasury
    };
    if fee > 0 {
        Treasury {
            last_known_balance_slot: slot,
            last_known_balance_block_time: now,
            last_known_balance_units: (t.last_known_balance_units - fee) as u64,
            ..t
        }
    } else {
        t
    }
}

/// Creates a stream record backed by `treasury` at time `now`. The allocation, and
/// the fee the treasurer pays up front when it pays the beneficiary's fees, must
/// fit in the treasury's unallocated balance. A start time in the past becomes
/// `now`.
pub fn construct_stream_account(
    name: String,
    start_utc: u64,
    rate_amount_units: u64,
    rate_interval_in_seconds: u64,
    allocation_assigned_units: u64,
    fee_payed_by_treasurer: bool,
    effective_cliff_units: u64,
    treasury: &mut Treasury,
    treasury_address: Address,
    beneficiary: Address,
    beneficiary_associated_token: Address,
    now: u64,
    slot: u64,
    fees: &FeeSchedule,
) -> (r: Result<(Stream, Vec<Transfer>), ErrorCode>)
    requires
        fees.wf(),
    ensures
        r is Err <==> construct_stream_check(
            encode_utf8(name@),
            allocation_assigned_units,
            fee_payed_by_treasurer,
            *old(treasury),
            *fees,
        ) is Err,
        r is Err ==> *final(treasury) == *old(treasury) && r->Err_0 == construct_stream_check(
            encode_utf8(name@),
            allocation_assigned_units,
            fee_payed_by_treasurer,
            *old(treasury),
            *fees,
        )->Err_0,
        r is Ok ==> ({
            let fee = create_stream_fee(allocation_assigned_units, fee_payed_by_treasurer, *fees);
            &&& is_new_stream(
                r->Ok_0.0,
                encode_utf8(name@),
                start_utc,
                rate_amount_units,
                rate_interval_in_seconds,
                allocation_assigned_units,
                fee_payed_by_treasurer,
                effective_cliff_units,
                *old(treasury),
                treasury_address,
                beneficiary,
                beneficiary_associated_token,
                now,
            )
            &&& *final(treasury) == treasury_after_create_stream(
                *old(treasury),
                allocation_assigned_units,
                fee,
                now,
                slot,
            )
            &&& r->Ok_0.1@ == fee_transfers(fee).push(
                flat_fee(old(treasury).sol_fee_payed_by_treasury, fees.create_stream_flat_fee),
            )
            &&& r->Ok_0.0.inv()
            &&& final(treasury).inv()
            &&& final(treasury).allocation_assigned_units >= r->Ok_0.0.allocation_assigned_units
        }),
{
    let treasurer_fee_amount = if fee_payed_by_treasurer {
        proportional_fee(fees.withdraw_percent_fee, allocation_assigned_units)
    } else {
        0
    };
    if allocation_assigned_units > u64::MAX - treasurer_fee_amount {
        return Err(ErrorCode::Overflow);
    }
    let total_treasury_allocation_amount = allocation_assigned_units + treasurer_fee_amount;
    let unallocated = treasury.last_known_unallocated_balance()?;
    if total_treasury_allocation_amount > unallocated {
        return Err(ErrorCode::InsufficientTreasuryBalance);
    }
    if treasury.treasury_type == TREASURY_TYPE_LOCKED && allocation_assigned_units == 0 {
        return Err(ErrorCode::InvalidRequestedStreamAllocation);
    }
    let name_bytes = string_to_bytes(name)?;
    if treasury.total_streams == u64::MAX {
        return Err(ErrorCode::Overflow);
    }
    let start = if start_utc < now {
        now
    } else {
        start_utc
    };
    let stream = Stream {
        version: ACCOUNT_VERSION,
        initialized: true,
        name: name_bytes,
        treasurer_address: treasury.treasurer_address,
        rate_amount_units,
        rate_interval_in_seconds,
        start_utc: start,
        cliff_vest_amount_units: effective_cliff_units,
        cliff_vest_percent: 0,
        beneficiary_address: beneficiary,
        beneficiary_associated_token,
        treasury_address,
        allocation_assigned_units,
        allocation_reserved_units: 0,
        total_withdrawals_units: 0,
        last_withdrawal_units: 0,
        last_withdrawal_slot: 0,
        last_withdrawal_block_time: 0,
        last_manual_stop_withdrawable_units_snap: 0,
        last_manual_stop_slot: 0,
        last_manual_stop_block_time: 0,
        last_manual_resume_remaining_allocation_units_snap: 0,
        last_manual_resume_slot: 0,
        last_manual_resume_block_time: 0,
        last_known_total_seconds_in_paused_status: 0,
        last_auto_stop_block_time: 0,
        fee_payed_by_treasurer,
        start_utc_in_seconds: start,
        created_on_utc: now,
        category: treasury.category,
        sub_category: treasury.sub_category,
    };
    treasury.allocation_assigned_units = treasury.allocation_assigned_units
        + allocation_assigned_units;
    treasury.total_streams = treasury.total_streams + 1;
    let mut transfers: Vec<Transfer> = Vec::new();
    if treasurer_fee_amount > 0 {
        transfers.push(Transfer::token(Party::Treasury, Party::FeeTreasury, treasurer_fee_amount));
        treasury.last_known_balance_slot = slot;
        treasury.last_known_balance_block_time = now;
        treasury.last_known_balance_units = treasury.last_known_balance_units
            - treasurer_fee_amount;
    }
    transfers.push(Transfer::fee(treasury.sol_fee_payed_by_treasury, fees.create_stream_flat_fee));
    assert(transfers@ =~= fee_transfers(treasurer_fee_amount as int).push(
        flat_fee(old(treasury).sol_fee_payed_by_treasury, fees.create_stream_flat_fee),
    ));
    Ok((stream, transfers))
}

} // verus!
