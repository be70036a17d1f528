//! The operations that mutate streams and treasuries. Each one validates before it
//! mutates: on an error nothing changes. On success it returns the transfers that
//! the host ledger must carry out.
use vstd::prelude::*;
use crate::enums::StreamStatus;
use crate::errors::ErrorCode;
use crate::events::{
    derived_figures_match, get_stream_data_event, recorded_fields_match, stream_data_check,
    StreamEvent,
};
use crate::extensions::{close_stream_update_treasury, treasury_after_close};
use crate::fees::{percent_of, proportional_fee, FeeSchedule};
use crate::ledger::{flat_fee, token_transfer, Party, Transfer};
use crate::stream::Stream;
use vstd::utf8::encode_utf8;
use crate::address::Address;
use crate::categories::{Category, SubCategory};
use crate::constants::PERCENT_DENOMINATOR;
use crate::ledger::Currency;
use crate::math::lemma_mul_u64_fits_u128;
use crate::template::StreamTemplate;
use crate::utils::{
    construct_stream_account, construct_stream_check, construct_stream_template,
    construct_treasury_account, create_stream_fee, create_treasury_transfers, effective_start,
    is_new_stream, is_new_treasury, treasury_after_create_stream,
};
use crate::treasury::Treasury;

verus! {

// ---------------------------------------------------------------- withdraw

/// The checks of a withdrawal, in order; on success, the amount withdrawn.
pub open spec fn withdraw_check(stream: Stream, treasury: Treasury, amount: u64, now: u64) -> Result<
    u64,
    ErrorCode,
> {
    let s = stream.with_cliff_resolved();
    if amount == 0 {
        Err(ErrorCode::ZeroWithdrawalAmount)
    } else if stream.start_seconds() > now {
        Err(ErrorCode::StreamIsScheduled)
    } else if !stream.cliff_fits() {
        Err(ErrorCode::Overflow)
    } else if !s.withdrawable_defined(now) {
        Err(s.withdrawable_error(now))
    } else if s.withdrawable_at(now) == 0 {
        Err(ErrorCode::ZeroWithdrawalAmount)
    } else {
        let requested = if amount > s.withdrawable_at(now) {
            s.withdrawable_at(now)
        } else {
            amount as int
        };
        if stream.total_withdrawals_units + requested > u64::MAX || (stream.manually_paused()
            && stream.last_manual_stop_withdrawable_units_snap < requested)
            || treasury.allocation_assigned_units < requested || treasury.last_known_balance_units
            < requested || treasury.total_withdrawals_units + requested > u64::MAX {
            Err(ErrorCode::Overflow)
        } else {
            Ok(requested as u64)
        }
    }
}

/// The fee taken out of a withdrawal of `requested` units.
pub open spec fn withdraw_fee(stream: Stream, requested: u64, fees: FeeSchedule) -> int {
    if stream.fee_payed_by_treasurer {
        0
    } else {
        percent_of(fees.withdraw_percent_fee as int, requested as int)
    }
}

pub open spec fn stream_after_withdraw(stream: Stream, requested: u64, now: u64, slot: u64) -> Stream {
    let s = stream.with_cliff_resolved().with_start_normalized();
    Stream {
        last_withdrawal_slot: slot,
        last_withdrawal_block_time: now,
        last_withdrawal_units: requested,
        total_withdrawals_units: (s.total_withdrawals_units + requested) as u64,
        last_manual_stop_withdrawable_units_snap: if s.manually_paused() {
            (s.last_manual_stop_withdrawable_units_snap - requested) as u64
        } else {
            s.last_manual_stop_withdrawable_units_snap
        },
        ..s
    }
}

pub open spec fn treasury_after_withdraw(
    treasury: Treasury,
    requested: u64,
    now: u64,
    slot: u64,
) -> Treasury {
    Treasury {
        allocation_assigned_units: (treasury.allocation_assigned_units - requested) as u64,
        last_known_balance_slot: slot,
        last_known_balance_block_time: now,
        last_known_balance_units: (treasury.last_known_balance_units - requested) as u64,
        total_withdrawals_units: (treasury.total_withdrawals_units + requested) as u64,
        ..treasury
    }
}

/// The payout to the beneficiary, then the fee if there is one.
pub open spec fn payout_transfers(gross: u64, fee: int) -> Seq<Transfer> {
    seq![token_transfer(Party::Treasury, Party::Beneficiary, (gross - fee) as u64)] + if fee > 0 {
        seq![token_transfer(Party::Treasury, Party::FeeTreasury, fee as u64)]
    } else {
        Seq::<Transfer>::empty()
    }
}

/// Withdraws up to `amount` vested units to the beneficiary at time `now`. The
/// amount is capped at what is withdrawable; the fee, unless the treasurer pays
/// it, comes out of that amount, and both stream and treasury count the full
/// amount as withdrawn.
pub fn withdraw(
    stream: &mut Stream,
    treasury: &mut Treasury,
    amount: u64,
    now: u64,
    slot: u64,
    fees: &FeeSchedule,
) -> (r: Result<Vec<Transfer>, ErrorCode>)
    requires
        fees.wf(),
    ensures
        r is Err <==> withdraw_check(*old(stream), *old(treasury), amount, now) is Err,
        r is Err ==> r->Err_0 == withdraw_check(*old(stream), *old(treasury), amount, now)->Err_0
            && *final(stream) == *old(stream) && *final(treasury) == *old(treasury),
        r is Ok ==> ({
            let requested = withdraw_check(*old(stream), *old(treasury), amount, now)->Ok_0;
            &&& *final(stream) == stream_after_withdraw(*old(stream), requested, now, slot)
            &&& *final(treasury) == treasury_after_withdraw(*old(treasury), requested, now, slot)
            &&& r->Ok_0@ == payout_transfers(requested, withdraw_fee(*old(stream), requested, *fees))
        }),
        r is Ok && old(stream).inv() ==> final(stream).inv(),
        r is Ok && old(treasury).inv() ==> final(treasury).inv(),
{
    if amount == 0 {
        return Err(ErrorCode::ZeroWithdrawalAmount);
    }
    let start_utc_seconds = stream.get_start_utc()?;
    if start_utc_seconds > now {
        return Err(ErrorCode::StreamIsScheduled);
    }
    stream.primitive_get_cliff_units()?;
    let mut s = *stream;
    s.save_effective_cliff();
    let withdrawable_amount = s.get_beneficiary_withdrawable_amount(now)?;
    if withdrawable_amount == 0 {
        return Err(ErrorCode::ZeroWithdrawalAmount);
    }
    let requested = if amount > withdrawable_amount {
        withdrawable_amount
    } else {
        amount
    };
    let fee_amount = if s.fee_payed_by_treasurer {
        0
    } else {
        proportional_fee(fees.withdraw_percent_fee, requested)
    };
    let transfer_amount = requested - fee_amount;
    let is_manual_pause = s.primitive_is_manually_paused();
    if requested > u64::MAX - s.total_withdrawals_units || (is_manual_pause
        && s.last_manual_stop_withdrawable_units_snap < requested)
        || treasury.allocation_assigned_units < requested || treasury.last_known_balance_units
        < requested || requested > u64::MAX - treasury.total_withdrawals_units {
        return Err(ErrorCode::Overflow);
    }
    proof {
        if old(stream).inv() {
            s.lemma_withdrawable_within_allocation(now);
        }
    }
    let mut transfers: Vec<Transfer> = Vec::new();
    transfers.push(Transfer::token(Party::Treasury, Party::Beneficiary, transfer_amount));
    if fee_amount > 0 {
        transfers.push(Transfer::token(Party::Treasury, Party::FeeTreasury, fee_amount));
    }
    s.last_withdrawal_slot = slot;
    s.last_withdrawal_block_time = now;
    s.last_withdrawal_units = requested;
    s.total_withdrawals_units = s.total_withdrawals_units + requested;
    if is_manual_pause {
        s.last_manual_stop_withdrawable_units_snap = s.last_manual_stop_withdrawable_units_snap
            - requested;
    }
    s.update_start_utc()?;
    *stream = s;
    treasury.allocation_assigned_units = treasury.allocation_assigned_units - requested;
    treasury.last_known_balance_slot = slot;
    treasury.last_known_balance_block_time = now;
    treasury.last_known_balance_units = treasury.last_known_balance_units - requested;
    treasury.total_withdrawals_units = treasury.total_withdrawals_units + requested;
    assert(transfers@ =~= payout_transfers(requested, withdraw_fee(*old(stream), requested, *fees)));
    Ok(transfers)
}

// ---------------------------------------------------------------- allocate

/// The fee the treasury pays on a top-up when it also pays the beneficiary's fees.
pub open spec fn allocate_fee(stream: Stream, amount: u64, fees: FeeSchedule) -> int {
    if stream.fee_payed_by_treasurer {
        percent_of(fees.withdraw_percent_fee as int, amount as int)
    } else {
        0
    }
}

/// The checks of a top-up, in order.
pub open spec fn allocate_check(
    stream: Stream,
    treasury: Treasury,
    amount: u64,
    now: u64,
    fees: FeeSchedule,
) -> Result<(), ErrorCode> {
    let s = stream.with_cliff_resolved();
    let funding = amount + allocate_fee(stream, amount, fees);
    if treasury.is_locked() {
        Err(ErrorCode::AllocateNotAllowedOnLockedStreams)
    } else if amount == 0 {
        Err(ErrorCode::ZeroContributionAmount)
    } else if stream.rate_amount_units == 0 || stream.rate_interval_in_seconds == 0 {
        Err(ErrorCode::InvalidStreamRate)
    } else if !stream.cliff_fits() || funding > u64::MAX || !treasury.inv() {
        Err(ErrorCode::Overflow)
    } else if funding > treasury.unallocated() {
        Err(ErrorCode::InsufficientTreasuryBalance)
    } else if !s.status_defined(now) {
        Err(ErrorCode::Overflow)
    } else if s.auto_paused_at(now) && (!s.depletion_defined() || s.total_withdrawals_units
        > s.allocation_assigned_units || now < s.depletion_time()
        || s.last_known_total_seconds_in_paused_status + (now - s.depletion_time()) > u64::MAX) {
        Err(ErrorCode::Overflow)
    } else if s.allocation_assigned_units + amount > u64::MAX {
        Err(ErrorCode::Overflow)
    } else {
        Ok(())
    }
}

/// A stream stopped for lack of allocation, resumed at `now`: the time since it
/// ran dry counts as paused.
pub open spec fn reconciled(s: Stream, now: u64, slot: u64) -> Stream {
    Stream {
        last_auto_stop_block_time: s.depletion_time() as u64,
        last_known_total_seconds_in_paused_status: (s.last_known_total_seconds_in_paused_status + (
        now - s.depletion_time())) as u64,
        last_manual_resume_remaining_allocation_units_snap: s.remaining() as u64,
        last_manual_resume_slot: slot,
        last_manual_resume_block_time: now,
        ..s
    }
}

pub open spec fn stream_after_allocate(stream: Stream, amount: u64, now: u64, slot: u64) -> Stream {
    let s = stream.with_cliff_resolved();
    let r = if s.auto_paused_at(now) {
        reconciled(s, now, slot)
    } else {
        s
    };
    Stream { allocation_assigned_units: (r.allocation_assigned_units + amount) as u64, ..r }.with_start_normalized()
}

pub open spec fn treasury_after_allocate(
    treasury: Treasury,
    amount: u64,
    fee: int,
    now: u64,
    slot: u64,
) -> Treasury {
    Treasury {
        allocation_assigned_units: (treasury.allocation_assigned_units + amount) as u64,
        last_known_balance_slot: slot,
        last_known_balance_block_time: now,
        last_known_balance_units: (treasury.last_known_balance_units - fee) as u64,
        ..treasury
    }
}

/// The treasury's payment of a fee, if there is one.
pub open spec fn fee_transfers(fee: int) -> Seq<Transfer> {
    if fee > 0 {
        seq![token_transfer(Party::Treasury, Party::FeeTreasury, fee as u64)]
    } else {
        Seq::<Transfer>::empty()
    }
}

/// Commits `amount` more units of the treasury to the stream at time `now`. A
/// stream that had stopped because its allocation had fully vested resumes here:
/// the time since it ran dry is added to its paused time.
pub fn allocate(
    stream: &mut Stream,
    treasury: &mut Treasury,
    amount: u64,
    now: u64,
    slot: u64,
    fees: &FeeSchedule,
) -> (r: Result<Vec<Transfer>, ErrorCode>)
    requires
        fees.wf(),
    ensures
        r is Err <==> allocate_check(*old(stream), *old(treasury), amount, now, *fees) is Err,
        r is Err ==> r->Err_0 == allocate_check(*old(stream), *old(treasury), amount, now, *fees)->Err_0
            && *final(stream) == *old(stream) && *final(treasury) == *old(treasury),
        r is Ok ==> ({
            &&& *final(stream) == stream_after_allocate(*old(stream), amount, now, slot)
            &&& *final(treasury) == treasury_after_allocate(
                *old(treasury),
                amount,
                allocate_fee(*old(stream), amount, *fees),
                now,
                slot,
            )
            &&& r->Ok_0@ == fee_transfers(allocate_fee(*old(stream), amount, *fees))
        }),
        r is Ok && old(stream).inv() && old(stream).events_before(now) ==> final(stream).inv(),
        r is Ok ==> final(treasury).inv(),
{
    if treasury.treasury_type == crate::constants::TREASURY_TYPE_LOCKED {
        return Err(ErrorCode::AllocateNotAllowedOnLockedStreams);
    }
    if amount == 0 {
        return Err(ErrorCode::ZeroContributionAmount);
    }
    if stream.rate_amount_units == 0 || stream.rate_interval_in_seconds == 0 {
        return Err(ErrorCode::InvalidStreamRate);
    }
    stream.primitive_get_cliff_units()?;
    let mut s = *stream;
    s.save_effective_cliff();
    let fee_amount = if s.fee_payed_by_treasurer {
        proportional_fee(fees.withdraw_percent_fee, amount)
    } else {
        0
    };
    if amount > u64::MAX - fee_amount {
        return Err(ErrorCode::Overflow);
    }
    let funding_amount = amount + fee_amount;
    let unallocated = treasury.last_known_unallocated_balance()?;
    if funding_amount > unallocated {
        return Err(ErrorCode::InsufficientTreasuryBalance);
    }
    let status = s.get_status(now)?;
    let is_manual_pause = s.primitive_is_manually_paused();
    if status == StreamStatus::Paused && !is_manual_pause {
        let est_depletion_time = s.get_est_depletion_blocktime(now)?;
        let remaining_allocation = s.get_remaining_allocation()?;
        if now < est_depletion_time {
            return Err(ErrorCode::Overflow);
        }
        let seconds_paused_since_last_auto_stop = now - est_depletion_time;
        if seconds_paused_since_last_auto_stop > u64::MAX
            - s.last_known_total_seconds_in_paused_status {
            return Err(ErrorCode::Overflow);
        }
        if s.allocation_assigned_units > u64::MAX - amount {
            return Err(ErrorCode::Overflow);
        }
        s.last_auto_stop_block_time = est_depletion_time;
        s.last_known_total_seconds_in_paused_status = s.last_known_total_seconds_in_paused_status
            + seconds_paused_since_last_auto_stop;
        s.last_manual_resume_remaining_allocation_units_snap = remaining_allocation;
        s.last_manual_resume_slot = slot;
        s.last_manual_resume_block_time = now;
    } else if s.allocation_assigned_units > u64::MAX - amount {
        return Err(ErrorCode::Overflow);
    }
    let mut transfers: Vec<Transfer> = Vec::new();
    if fee_amount > 0 {
        transfers.push(Transfer::token(Party::Treasury, Party::FeeTreasury, fee_amount));
    }
    proof {
        if old(stream).inv() && old(stream).events_before(now) {
            s.lemma_top_up_keeps_pause_record(amount);
        }
    }
    s.allocation_assigned_units = s.allocation_assigned_units + amount;
    s.update_start_utc()?;
    *stream = s;
    treasury.allocation_assigned_units = treasury.allocation_assigned_units + amount;
    treasury.last_known_balance_slot = slot;
    treasury.last_known_balance_block_time = now;
    treasury.last_known_balance_units = treasury.last_known_balance_units - fee_amount;
    assert(transfers@ =~= fee_transfers(allocate_fee(*old(stream), amount, *fees)));
    Ok(transfers)
}

// ---------------------------------------------------------------- pause and resume

/// The checks of a manual pause, in order.
pub open spec fn pause_check(stream: Stream, treasury: Treasury, now: u64) -> Result<(), ErrorCode> {
    let s = stream.with_cliff_resolved();
    if treasury.is_locked() {
        Err(ErrorCode::PauseOrResumeLockedStreamNotAllowed)
    } else if !stream.cliff_fits() {
        Err(ErrorCode::Overflow)
    } else if !s.withdrawable_defined(now) {
        Err(s.withdrawable_error(now))
    } else if !s.status_defined(now) {
        Err(ErrorCode::Overflow)
    } else if s.status_at(now) != StreamStatus::Running {
        Err(ErrorCode::StreamAlreadyPaused)
    } else if stream.last_manual_resume_block_time == now {
        Err(ErrorCode::CannotPauseAndUnpauseOnSameBlockTime)
    } else {
        Ok(())
    }
}

pub open spec fn stream_after_pause(stream: Stream, now: u64, slot: u64) -> Stream {
    let s = stream.with_cliff_resolved();
    Stream {
        last_manual_stop_withdrawable_units_snap: s.withdrawable_at(now) as u64,
        last_manual_stop_slot: slot,
        last_manual_stop_block_time: now,
        ..s
    }.with_start_normalized()
}

/// Pauses a running stream by hand at time `now`, freezing what the beneficiary
/// can withdraw until it resumes.
pub fn pause_stream(stream: &mut Stream, treasury: &Treasury, now: u64, slot: u64) -> (r: Result<
    (),
    ErrorCode,
>)
    ensures
        r is Err <==> pause_check(*old(stream), *treasury, now) is Err,
        r is Err ==> r->Err_0 == pause_check(*old(stream), *treasury, now)->Err_0 && *final(stream)
            == *old(stream),
        r is Ok ==> *final(stream) == stream_after_pause(*old(stream), now, slot),
        r is Ok && old(stream).inv() && old(stream).events_before(now) ==> final(stream).inv(),
{
    if treasury.treasury_type == crate::constants::TREASURY_TYPE_LOCKED {
        return Err(ErrorCode::PauseOrResumeLockedStreamNotAllowed);
    }
    stream.primitive_get_cliff_units()?;
    let mut s = *stream;
    s.save_effective_cliff();
    let withdrawable_amount = s.get_beneficiary_withdrawable_amount(now)?;
    let stream_status = s.get_status(now)?;
    if stream_status == StreamStatus::Paused || stream_status == StreamStatus::Scheduled {
        return Err(ErrorCode::StreamAlreadyPaused);
    }
    if s.last_manual_resume_block_time == now {
        return Err(ErrorCode::CannotPauseAndUnpauseOnSameBlockTime);
    }
    proof {
        if old(stream).inv() {
            s.lemma_withdrawable_within_allocation(now);
        }
    }
    s.last_manual_stop_withdrawable_units_snap = withdrawable_amount;
    s.last_manual_stop_slot = slot;
    s.last_manual_stop_block_time = now;
    s.update_start_utc()?;
    *stream = s;
    Ok(())
}

/// The checks of a manual resume, in order.
pub open spec fn resume_check(stream: Stream, treasury: Treasury, now: u64) -> Result<(), ErrorCode> {
    let s = stream.with_cliff_resolved();
    if treasury.is_locked() {
        Err(ErrorCode::PauseOrResumeLockedStreamNotAllowed)
    } else if !stream.cliff_fits() || !s.status_defined(now) {
        Err(ErrorCode::Overflow)
    } else if s.status_at(now) != StreamStatus::Paused {
        Err(ErrorCode::StreamAlreadyRunning)
    } else if stream.last_manual_stop_block_time == now {
        Err(ErrorCode::CannotPauseAndUnpauseOnSameBlockTime)
    } else if stream.total_withdrawals_units > stream.allocation_assigned_units {
        Err(ErrorCode::Overflow)
    } else if stream.remaining() == 0 {
        Err(ErrorCode::StreamZeroRemainingAllocation)
    } else if stream.last_known_stop() <= stream.last_manual_resume_block_time {
        Err(ErrorCode::CannotResumeAutoPausedStream)
    } else if now < stream.last_known_stop() || stream.last_known_total_seconds_in_paused_status + (
    now - stream.last_known_stop()) > u64::MAX {
        Err(ErrorCode::Overflow)
    } else {
        Ok(())
    }
}

pub open spec fn stream_after_resume(stream: Stream, now: u64, slot: u64) -> Stream {
    let s = stream.with_cliff_resolved();
    Stream {
        last_known_total_seconds_in_paused_status: (s.last_known_total_seconds_in_paused_status + (
        now - s.last_known_stop())) as u64,
        last_manual_resume_remaining_allocation_units_snap: s.remaining() as u64,
        last_manual_resume_slot: slot,
        last_manual_resume_block_time: now,
        ..s
    }.with_start_normalized()
}

/// Resumes a manually paused stream at time `now`; the time since it stopped
/// counts as paused. A stream stopped because its allocation had vested resumes
/// through `allocate` instead.
pub fn resume_stream(stream: &mut Stream, treasury: &Treasury, now: u64, slot: u64) -> (r: Result<
    (),
    ErrorCode,
>)
    ensures
        r is Err <==> resume_check(*old(stream), *treasury, now) is Err,
        r is Err ==> r->Err_0 == resume_check(*old(stream), *treasury, now)->Err_0 && *final(stream)
            == *old(stream),
        r is Ok ==> *final(stream) == stream_after_resume(*old(stream), now, slot),
        r is Ok && old(stream).inv() ==> final(stream).inv(),
{
    if treasury.treasury_type == crate::constants::TREASURY_TYPE_LOCKED {
        return Err(ErrorCode::PauseOrResumeLockedStreamNotAllowed);
    }
    stream.primitive_get_cliff_units()?;
    let mut s = *stream;
    s.save_effective_cliff();
    let stream_status = s.get_status(now)?;
    if stream_status == StreamStatus::Running || stream_status == StreamStatus::Scheduled {
        return Err(ErrorCode::StreamAlreadyRunning);
    }
    if s.last_manual_stop_block_time == now {
        return Err(ErrorCode::CannotPauseAndUnpauseOnSameBlockTime);
    }
    let remaining_allocation = s.get_remaining_allocation()?;
    if remaining_allocation == 0 {
        return Err(ErrorCode::StreamZeroRemainingAllocation);
    }
    let last_known_stop_block_time = s.primitive_get_last_known_stop_block_time();
    if last_known_stop_block_time <= s.last_manual_resume_block_time {
        return Err(ErrorCode::CannotResumeAutoPausedStream);
    }
    if now < last_known_stop_block_time {
        return Err(ErrorCode::Overflow);
    }
    let seconds_paused_since_last_stop = now - last_known_stop_block_time;
    if seconds_paused_since_last_stop > u64::MAX - s.last_known_total_seconds_in_paused_status {
        return Err(ErrorCode::Overflow);
    }
    s.last_known_total_seconds_in_paused_status = s.last_known_total_seconds_in_paused_status
        + seconds_paused_since_last_stop;
    s.last_manual_resume_remaining_allocation_units_snap = remaining_allocation;
    s.last_manual_resume_slot = slot;
    s.last_manual_resume_block_time = now;
    s.update_start_utc()?;
    *stream = s;
    Ok(())
}

// ---------------------------------------------------------------- close stream

/// The checks of closing a stream, in order; on success, the beneficiary's final
/// withdrawable amount.
pub open spec fn close_stream_check(stream: Stream, treasury: Treasury, now: u64) -> Result<
    u64,
    ErrorCode,
> {
    let s = stream.with_cliff_resolved();
    if treasury.is_locked() && !stream.status_defined(now) {
        Err(ErrorCode::Overflow)
    } else if treasury.is_locked() && stream.status_at(now) == StreamStatus::Running {
        Err(ErrorCode::CloseLockedStreamNotAllowedWhileRunning)
    } else if !stream.cliff_fits() {
        Err(ErrorCode::Overflow)
    } else if !s.withdrawable_defined(now) {
        Err(s.withdrawable_error(now))
    } else if s.withdrawable_at(now) > s.remaining() {
        Err(ErrorCode::Overflow)
    } else if treasury.total_streams == 0 {
        Err(ErrorCode::InvalidTotalStreamsInTreasury)
    } else {
        Ok(s.withdrawable_at(now) as u64)
    }
}

/// The fee on the final payout, unless the treasurer pays the beneficiary's fees.
pub open spec fn close_fee(stream: Stream, closing: u64, fees: FeeSchedule) -> int {
    if !stream.fee_payed_by_treasurer && closing > 0 {
        percent_of(fees.close_stream_percent_fee as int, closing as int)
    } else {
        0
    }
}

/// The final payout and its fee, if any, then the flat closing fee.
pub open spec fn close_stream_transfers(
    closing: u64,
    fee: int,
    fee_paid_by_treasury: bool,
    fees: FeeSchedule,
) -> Seq<Transfer> {
    (if closing > 0 {
        payout_transfers(closing, fee)
    } else {
        Seq::<Transfer>::empty()
    }).push(flat_fee(fee_paid_by_treasury, fees.close_stream_flat_fee))
}

/// How the remaining allocation of a closed stream is split.
pub struct CloseStreamOutcome {
    /// What the beneficiary was entitled to at closing, before the fee.
    pub beneficiary_closing_amount: u64,
    /// The fee taken out of that amount.
    pub fee_amount: u64,
    /// What the beneficiary receives.
    pub amount_sent_to_beneficiary: u64,
    /// Allocation that returns to the treasury's unallocated balance.
    pub kept_in_treasury: u64,
    pub transfers: Vec<Transfer>,
}

/// Closes a stream at time `now`: pays the beneficiary what is withdrawable, less
/// a fee, and returns the rest of the stream's allocation to the treasury. The
/// treasury's cached balance is first refreshed to `treasury_token_balance`. The
/// stream record is discarded by the caller.
pub fn close_stream(
    stream: &Stream,
    treasury: &mut Treasury,
    treasury_token_balance: u64,
    now: u64,
    slot: u64,
    fees: &FeeSchedule,
) -> (r: Result<CloseStreamOutcome, ErrorCode>)
    requires
        fees.wf(),
    ensures
        r is Err <==> close_stream_check(*stream, *old(treasury), now) is Err,
        r is Err ==> r->Err_0 == close_stream_check(*stream, *old(treasury), now)->Err_0
            && *final(treasury) == *old(treasury),
        r is Ok ==> ({
            let closing = close_stream_check(*stream, *old(treasury), now)->Ok_0;
            let out = r->Ok_0;
            &&& out.beneficiary_closing_amount == closing
            &&& out.fee_amount == close_fee(*stream, closing, *fees)
            &&& out.amount_sent_to_beneficiary == closing - out.fee_amount
            &&& out.kept_in_treasury == stream.remaining() - closing
            &&& stream.total_withdrawals_units + out.amount_sent_to_beneficiary
                + out.kept_in_treasury + out.fee_amount == stream.allocation_assigned_units
            &&& out.transfers@ == close_stream_transfers(
                closing,
                out.fee_amount as int,
                old(treasury).sol_fee_payed_by_treasury,
                *fees,
            )
            &&& *final(treasury) == treasury_after_close(
                (Treasury { last_known_balance_units: treasury_token_balance, ..*old(treasury) }),
                closing,
                stream.remaining() as u64,
                now,
                slot,
            )
        }),
{
    if treasury.treasury_type == crate::constants::TREASURY_TYPE_LOCKED {
        let status = stream.get_status(now)?;
        if status == StreamStatus::Running {
            return Err(ErrorCode::CloseLockedStreamNotAllowedWhileRunning);
        }
    }
    stream.primitive_get_cliff_units()?;
    let mut s = *stream;
    s.save_effective_cliff();
    let beneficiary_closing_amount = s.get_beneficiary_withdrawable_amount(now)?;
    let remaining_allocation = s.allocation_assigned_units - s.total_withdrawals_units;
    if beneficiary_closing_amount > remaining_allocation {
        return Err(ErrorCode::Overflow);
    }
    if treasury.total_streams == 0 {
        return Err(ErrorCode::InvalidTotalStreamsInTreasury);
    }
    let closing_amount_kept_in_treasury = remaining_allocation - beneficiary_closing_amount;
    let fee_amount = if !s.fee_payed_by_treasurer && beneficiary_closing_amount > 0 {
        proportional_fee(fees.close_stream_percent_fee, beneficiary_closing_amount)
    } else {
        0
    };
    let amount_sent_to_beneficiary = beneficiary_closing_amount - fee_amount;
    let mut transfers: Vec<Transfer> = Vec::new();
    if beneficiary_closing_amount > 0 {
        transfers.push(
            Transfer::token(Party::Treasury, Party::Beneficiary, amount_sent_to_beneficiary),
        );
        if fee_amount > 0 {
            transfers.push(Transfer::token(Party::Treasury, Party::FeeTreasury, fee_amount));
        }
    }
    transfers.push(Transfer::fee(treasury.sol_fee_payed_by_treasury, fees.close_stream_flat_fee));
    treasury.last_known_balance_units = treasury_token_balance;
    let deallocated_units = beneficiary_closing_amount + closing_amount_kept_in_treasury;
    close_stream_update_treasury(
        treasury,
        beneficiary_closing_amount,
        deallocated_units,
        now,
        slot,
    )?;
    assert(transfers@ =~= close_stream_transfers(
        beneficiary_closing_amount,
        fee_amount as int,
        old(treasury).sol_fee_payed_by_treasury,
        *fees,
    ));
    Ok(
        CloseStreamOutcome {
            beneficiary_closing_amount,
            fee_amount,
            amount_sent_to_beneficiary,
            kept_in_treasury: closing_amount_kept_in_treasury,
            transfers,
        },
    )
}

// ---------------------------------------------------------------- treasury funds

/// The flat fee of adding funds, then the contributed tokens.
pub open spec fn add_funds_transfers(
    fee_paid_by_treasury: bool,
    amount: u64,
    fees: FeeSchedule,
) -> Seq<Transfer> {
    seq![
        flat_fee(fee_paid_by_treasury, fees.add_funds_flat_fee),
        token_transfer(Party::Contributor, Party::Treasury, amount),
    ]
}

/// Moves `amount` tokens from `contributor` into the treasury and charges the
/// flat fee, out of the treasury's own lamports when the contributor is the
/// treasurer and the treasury pays its fees.
pub fn add_funds(
    treasury: &mut Treasury,
    contributor: &Address,
    associated_token: &Address,
    amount: u64,
    now: u64,
    slot: u64,
    fees: &FeeSchedule,
) -> (r: Result<Vec<Transfer>, ErrorCode>)
    ensures
        r is Ok && old(treasury).inv() ==> final(treasury).inv(),
        amount == 0 ==> r == Err::<Vec<Transfer>, ErrorCode>(ErrorCode::ZeroContributionAmount),
        amount > 0 && old(treasury).last_known_balance_units + amount > u64::MAX ==> r == Err::<
            Vec<Transfer>,
            ErrorCode,
        >(ErrorCode::Overflow),
        r is Err ==> *final(treasury) == *old(treasury),
        amount > 0 && old(treasury).last_known_balance_units + amount <= u64::MAX ==> ({
            &&& r is Ok
            &&& r->Ok_0@ == add_funds_transfers(
                contributor.bytes@ == old(treasury).treasurer_address.bytes@
                    && old(treasury).sol_fee_payed_by_treasury,
                amount,
                *fees,
            )
            &&& *final(treasury) == (Treasury {
                associated_token_address: *associated_token,
                last_known_balance_slot: slot,
                last_known_balance_block_time: now,
                last_known_balance_units: (old(treasury).last_known_balance_units + amount) as u64,
                ..*old(treasury)
            })
        }),
{
    if amount == 0 {
        return Err(ErrorCode::ZeroContributionAmount);
    }
    if treasury.last_known_balance_units > u64::MAX - amount {
        return Err(ErrorCode::Overflow);
    }
    let fee_paid_by_treasury = *contributor == treasury.treasurer_address
        && treasury.sol_fee_payed_by_treasury;
    let mut transfers: Vec<Transfer> = Vec::new();
    transfers.push(Transfer::fee(fee_paid_by_treasury, fees.add_funds_flat_fee));
    transfers.push(Transfer::token(Party::Contributor, Party::Treasury, amount));
    treasury.associated_token_address = *associated_token;
    treasury.last_known_balance_slot = slot;
    treasury.last_known_balance_block_time = now;
    treasury.last_known_balance_units = treasury.last_known_balance_units + amount;
    assert(transfers@ =~= add_funds_transfers(fee_paid_by_treasury, amount, *fees));
    Ok(transfers)
}

/// The checks of withdrawing unallocated funds, in order.
pub open spec fn treasury_withdraw_check(treasury: Treasury, amount: u64) -> Result<(), ErrorCode> {
    if amount == 0 {
        Err(ErrorCode::InvalidWithdrawalAmount)
    } else if !treasury.inv() {
        Err(ErrorCode::Overflow)
    } else if treasury.unallocated() < amount {
        Err(ErrorCode::InsufficientTreasuryBalance)
    } else {
        Ok(())
    }
}

/// The fee, if any, then the rest to the destination.
pub open spec fn treasury_withdraw_transfers(amount: u64, fee: int) -> Seq<Transfer> {
    fee_transfers(fee).push(token_transfer(Party::Treasury, Party::Destination, (amount - fee) as u64))
}

/// Withdraws `amount` unallocated units from the treasury to a destination, less
/// a proportional fee.
pub fn treasury_withdraw(
    treasury: &mut Treasury,
    amount: u64,
    now: u64,
    slot: u64,
    fees: &FeeSchedule,
) -> (r: Result<Vec<Transfer>, ErrorCode>)
    requires
        fees.wf(),
    ensures
        r is Err <==> treasury_withdraw_check(*old(treasury), amount) is Err,
        r is Err ==> r->Err_0 == treasury_withdraw_check(*old(treasury), amount)->Err_0
            && *final(treasury) == *old(treasury),
        r is Ok ==> ({
            &&& r->Ok_0@ == treasury_withdraw_transfers(
                amount,
                percent_of(fees.treasury_withdraw_percent_fee as int, amount as int),
            )
            &&& *final(treasury) == (Treasury {
                last_known_balance_slot: slot,
                last_known_balance_block_time: now,
                last_known_balance_units: (old(treasury).last_known_balance_units - amount) as u64,
                ..*old(treasury)
            })
            &&& final(treasury).inv()
        }),
{
    if amount == 0 {
        return Err(ErrorCode::InvalidWithdrawalAmount);
    }
    let unallocated = treasury.last_known_unallocated_balance()?;
    if unallocated < amount {
        return Err(ErrorCode::InsufficientTreasuryBalance);
    }
    let fee_amount = proportional_fee(fees.treasury_withdraw_percent_fee, amount);
    let destination_amount = amount - fee_amount;
    let mut transfers: Vec<Transfer> = Vec::new();
    if fee_amount > 0 {
        transfers.push(Transfer::token(Party::Treasury, Party::FeeTreasury, fee_amount));
    }
    transfers.push(Transfer::token(Party::Treasury, Party::Destination, destination_amount));
    treasury.last_known_balance_slot = slot;
    treasury.last_known_balance_block_time = now;
    treasury.last_known_balance_units = treasury.last_known_balance_units - amount;
    assert(transfers@ =~= treasury_withdraw_transfers(amount, fee_amount as int));
    Ok(transfers)
}

/// The tokens left in the treasury go to the destination, then the flat fee.
pub open spec fn close_treasury_transfers(
    treasury_token_amount: u64,
    fee_paid_by_treasury: bool,
    fees: FeeSchedule,
) -> Seq<Transfer> {
    (if treasury_token_amount > 0 {
        seq![token_transfer(Party::Treasury, Party::Destination, treasury_token_amount)]
    } else {
        Seq::<Transfer>::empty()
    }).push(flat_fee(fee_paid_by_treasury, fees.close_treasury_flat_fee))
}

/// Closes a treasury that backs no stream: its `treasury_token_amount` tokens go
/// to the destination and the flat fee is charged, from `treasury_lamports` when
/// the treasury pays its own fees. The host then closes the treasury's token
/// account and the treasury record.
pub fn close_treasury(
    treasury: &Treasury,
    treasury_token_amount: u64,
    treasury_lamports: u64,
    fees: &FeeSchedule,
) -> (r: Result<Vec<Transfer>, ErrorCode>)
    ensures
        treasury.total_streams != 0 ==> r == Err::<Vec<Transfer>, ErrorCode>(
            ErrorCode::TreasuryContainsStreams,
        ),
        treasury.total_streams == 0 && treasury.sol_fee_payed_by_treasury
            && fees.close_treasury_flat_fee > treasury_lamports ==> r == Err::<
            Vec<Transfer>,
            ErrorCode,
        >(ErrorCode::InsufficientLamports),
        treasury.total_streams == 0 && !(treasury.sol_fee_payed_by_treasury
            && fees.close_treasury_flat_fee > treasury_lamports) ==> r is Ok && r->Ok_0@
            == close_treasury_transfers(
            treasury_token_amount,
            treasury.sol_fee_payed_by_treasury,
            *fees,
        ),
{
    if treasury.total_streams != 0 {
        return Err(ErrorCode::TreasuryContainsStreams);
    }
    let mut transfers: Vec<Transfer> = Vec::new();
    if treasury_token_amount > 0 {
        transfers.push(Transfer::token(Party::Treasury, Party::Destination, treasury_token_amount));
    }
    if treasury.sol_fee_payed_by_treasury && fees.close_treasury_flat_fee > treasury_lamports {
        return Err(ErrorCode::InsufficientLamports);
    }
    transfers.push(Transfer::fee(treasury.sol_fee_payed_by_treasury, fees.close_treasury_flat_fee));
    assert(transfers@ =~= close_treasury_transfers(
        treasury_token_amount,
        treasury.sol_fee_payed_by_treasury,
        *fees,
    ));
    Ok(transfers)
}

/// Resynchronizes the cached balance with the funding account's true balance.
pub fn refresh_treasury_data(treasury: &mut Treasury, treasury_token_balance: u64, now: u64, slot: u64)
    ensures
        *final(treasury) == (Treasury {
            last_known_balance_slot: slot,
            last_known_balance_block_time: now,
            last_known_balance_units: treasury_token_balance,
            ..*old(treasury)
        }),
{
    treasury.last_known_balance_slot = slot;
    treasury.last_known_balance_block_time = now;
    treasury.last_known_balance_units = treasury_token_balance;
}

// ---------------------------------------------------------------- creation

/// Creates a treasury at time `now`; `slot` is part of the treasury's identity.
pub fn create_treasury(
    slot: u64,
    name: String,
    treasury_type: u8,
    auto_close: bool,
    sol_fee_payed_by_treasury: bool,
    category: Category,
    sub_category: SubCategory,
    treasury_bump: u8,
    treasurer: Address,
    associated_token: Address,
    now: u64,
    fees: &FeeSchedule,
) -> (r: Result<(Treasury, Vec<Transfer>), ErrorCode>)
    ensures
        r is Ok <==> encode_utf8(name@).len() <= 32,
        r is Err ==> r->Err_0 == ErrorCode::StringTooLong,
        r is Ok ==> is_new_treasury(
            r->Ok_0.0,
            encode_utf8(name@),
            treasury_type,
            auto_close,
            sol_fee_payed_by_treasury,
            category,
            sub_category,
            treasury_bump,
            treasurer,
            associated_token,
            slot,
            now,
        ) && r->Ok_0.1@ == create_treasury_transfers(sol_fee_payed_by_treasury, *fees),
{
    construct_treasury_account(
        name,
        treasury_type,
        auto_close,
        sol_fee_payed_by_treasury,
        category,
        sub_category,
        treasury_bump,
        treasurer,
        associated_token,
        slot,
        now,
        fees,
    )
}

/// The checks of the parameters of a new stream, in order.
pub open spec fn stream_parameters_check(
    rate_amount_units: u64,
    rate_interval_in_seconds: u64,
    allocation_assigned_units: u64,
    cliff_vest_amount_units: u64,
    cliff_vest_percent: u64,
) -> Result<(), ErrorCode> {
    if !((rate_amount_units == 0 && rate_interval_in_seconds == 0 && cliff_vest_amount_units > 0
        && cliff_vest_amount_units == allocation_assigned_units) || (rate_amount_units > 0
        && rate_interval_in_seconds > 0)) {
        Err(ErrorCode::InvalidStreamRate)
    } else if allocation_assigned_units < cliff_vest_amount_units || cliff_vest_percent
        > PERCENT_DENOMINATOR || (cliff_vest_amount_units != 0 && cliff_vest_percent != 0) {
        Err(ErrorCode::InvalidCliff)
    } else {
        Ok(())
    }
}

/// The cliff of a new stream as an absolute amount.
pub open spec fn effective_cliff(
    allocation_assigned_units: u64,
    cliff_vest_amount_units: u64,
    cliff_vest_percent: u64,
) -> u64 {
    if cliff_vest_percent > 0 {
        percent_of(cliff_vest_percent as int, allocation_assigned_units as int) as u64
    } else {
        cliff_vest_amount_units
    }
}

/// Creates a stream backed by `treasury` at time `now`. Either the rate is
/// positive, or the stream pays its whole allocation as a cliff. The cliff is
/// given as an amount or as a percentage of the allocation, not both.
pub fn create_stream(
    treasury: &mut Treasury,
    name: String,
    start_utc: u64,
    rate_amount_units: u64,
    rate_interval_in_seconds: u64,
    allocation_assigned_units: u64,
    cliff_vest_amount_units: u64,
    cliff_vest_percent: u64,
    fee_payed_by_treasurer: bool,
    treasury_address: Address,
    beneficiary: Address,
    beneficiary_associated_token: Address,
    now: u64,
    slot: u64,
    fees: &FeeSchedule,
) -> (r: Result<(Stream, Vec<Transfer>), ErrorCode>)
    requires
        fees.wf(),
    ensures
        stream_parameters_check(
            rate_amount_units,
            rate_interval_in_seconds,
            allocation_assigned_units,
            cliff_vest_amount_units,
            cliff_vest_percent,
        ) is Err ==> r is Err && r->Err_0 == stream_parameters_check(
            rate_amount_units,
            rate_interval_in_seconds,
            allocation_assigned_units,
            cliff_vest_amount_units,
            cliff_vest_percent,
        )->Err_0 && *final(treasury) == *old(treasury),
        stream_parameters_check(
            rate_amount_units,
            rate_interval_in_seconds,
            allocation_assigned_units,
            cliff_vest_amount_units,
            cliff_vest_percent,
        ) is Ok ==> {
            let check = construct_stream_check(
                encode_utf8(name@),
                allocation_assigned_units,
                fee_payed_by_treasurer,
                *old(treasury),
                *fees,
            );
            &&& r is Err <==> check is Err
            &&& r is Err ==> r->Err_0 == check->Err_0 && *final(treasury) == *old(treasury)
            &&& r is Ok ==> is_new_stream(
                r->Ok_0.0,
                encode_utf8(name@),
                start_utc,
                rate_amount_units,
                rate_interval_in_seconds,
                allocation_assigned_units,
                fee_payed_by_treasurer,
                effective_cliff(
                    allocation_assigned_units,
                    cliff_vest_amount_units,
                    cliff_vest_percent,
                ),
                *old(treasury),
                treasury_address,
                beneficiary,
                beneficiary_associated_token,
                now,
            ) && *final(treasury) == treasury_after_create_stream(
                *old(treasury),
                allocation_assigned_units,
                create_stream_fee(allocation_assigned_units, fee_payed_by_treasurer, *fees),
                now,
                slot,
            ) && r->Ok_0.1@ == fee_transfers(
                create_stream_fee(allocation_assigned_units, fee_payed_by_treasurer, *fees),
            ).push(flat_fee(old(treasury).sol_fee_payed_by_treasury, fees.create_stream_flat_fee))
                && r->Ok_0.0.inv()
        },
{
    if !((rate_amount_units == 0 && rate_interval_in_seconds == 0 && cliff_vest_amount_units > 0
        && cliff_vest_amount_units == allocation_assigned_units) || (rate_amount_units > 0
        && rate_interval_in_seconds > 0)) {
        return Err(ErrorCode::InvalidStreamRate);
    }
    if allocation_assigned_units < cliff_vest_amount_units || cliff_vest_percent
        > PERCENT_DENOMINATOR || (cliff_vest_amount_units != 0 && cliff_vest_percent != 0) {
        return Err(ErrorCode::InvalidCliff);
    }
    let effective_cliff_units = if cliff_vest_percent > 0 {
        proportional_fee(cliff_vest_percent, allocation_assigned_units)
    } else {
        cliff_vest_amount_units
    };
    construct_stream_account(
        name,
        start_utc,
        rate_amount_units,
        rate_interval_in_seconds,
        allocation_assigned_units,
        fee_payed_by_treasurer,
        effective_cliff_units,
        treasury,
        treasury_address,
        beneficiary,
        beneficiary_associated_token,
        now,
        slot,
        fees,
    )
}

/// The cliff of a stream created from a template, as an absolute amount.
pub open spec fn template_cliff(template: StreamTemplate, allocation_assigned_units: u64) -> int {
    if template.cliff_vest_percent > 0 {
        percent_of(template.cliff_vest_percent as int, allocation_assigned_units as int)
    } else {
        0
    }
}

/// Creates a stream from a template: its start time, interval, cliff percentage
/// and fee payer come from the template.
pub fn create_stream_with_template(
    treasury: &mut Treasury,
    template: &StreamTemplate,
    name: String,
    rate_amount_units: u64,
    allocation_assigned_units: u64,
    treasury_address: Address,
    beneficiary: Address,
    beneficiary_associated_token: Address,
    now: u64,
    slot: u64,
    fees: &FeeSchedule,
) -> (r: Result<(Stream, Vec<Transfer>), ErrorCode>)
    requires
        fees.wf(),
    ensures
        template_cliff(*template, allocation_assigned_units) > u64::MAX ==> r is Err && r->Err_0
            == ErrorCode::Overflow && *final(treasury) == *old(treasury),
        template_cliff(*template, allocation_assigned_units) <= u64::MAX ==> {
            let check = construct_stream_check(
                encode_utf8(name@),
                allocation_assigned_units,
                template.fee_payed_by_treasurer,
                *old(treasury),
                *fees,
            );
            &&& r is Err <==> check is Err
            &&& r is Err ==> r->Err_0 == check->Err_0 && *final(treasury) == *old(treasury)
            &&& r is Ok ==> is_new_stream(
                r->Ok_0.0,
                encode_utf8(name@),
                template.start_utc_in_seconds,
                rate_amount_units,
                template.rate_interval_in_seconds,
                allocation_assigned_units,
                template.fee_payed_by_treasurer,
                template_cliff(*template, allocation_assigned_units) as u64,
                *old(treasury),
                treasury_address,
                beneficiary,
                beneficiary_associated_token,
                now,
            ) && *final(treasury) == treasury_after_create_stream(
                *old(treasury),
                allocation_assigned_units,
                create_stream_fee(
                    allocation_assigned_units,
                    template.fee_payed_by_treasurer,
                    *fees,
                ),
                now,
                slot,
            )
        },
{
    let effective_cliff_units = if template.cliff_vest_percent > 0 {
        proof {
            lemma_mul_u64_fits_u128(template.cliff_vest_percent, allocation_assigned_units);
        }
        let product: u128 = (template.cliff_vest_percent as u128)
            * (allocation_assigned_units as u128);
        let units: u128 = product / (PERCENT_DENOMINATOR as u128);
        if units > u64::MAX as u128 {
            return Err(ErrorCode::Overflow);
        }
        units as u64
    } else {
        0
    };
    construct_stream_account(
        name,
        template.start_utc_in_seconds,
        rate_amount_units,
        template.rate_interval_in_seconds,
        allocation_assigned_units,
        template.fee_payed_by_treasurer,
        effective_cliff_units,
        treasury,
        treasury_address,
        beneficiary,
        beneficiary_associated_token,
        now,
        slot,
        fees,
    )
}

/// The checks of the parameters of a new template, in order.
pub open spec fn template_parameters_check(
    rate_interval_in_seconds: u64,
    duration_number_of_units: u64,
    cliff_vest_percent: u64,
) -> Result<(), ErrorCode> {
    if rate_interval_in_seconds == 0 {
        Err(ErrorCode::InvalidStreamRate)
    } else if duration_number_of_units == 0 {
        Err(ErrorCode::NumberOfIntervalsMustBePossitive)
    } else if cliff_vest_percent > PERCENT_DENOMINATOR {
        Err(ErrorCode::InvalidCliff)
    } else {
        Ok(())
    }
}

/// Fills a new stream template at time `now`.
pub fn create_stream_template(
    template: &mut StreamTemplate,
    start_utc: u64,
    rate_interval_in_seconds: u64,
    duration_number_of_units: u64,
    cliff_vest_percent: u64,
    fee_payed_by_treasurer: bool,
    template_bump: u8,
    now: u64,
) -> (r: Result<(), ErrorCode>)
    ensures
        r == template_parameters_check(
            rate_interval_in_seconds,
            duration_number_of_units,
            cliff_vest_percent,
        ),
        r is Err ==> *final(template) == *old(template),
        r is Ok ==> *final(template) == (StreamTemplate {
            version: crate::constants::ACCOUNT_VERSION,
            bump: template_bump,
            start_utc_in_seconds: effective_start(start_utc, now),
            cliff_vest_percent,
            rate_interval_in_seconds,
            duration_number_of_units,
            fee_payed_by_treasurer,
        }),
{
    if rate_interval_in_seconds == 0 {
        return Err(ErrorCode::InvalidStreamRate);
    }
    if duration_number_of_units == 0 {
        return Err(ErrorCode::NumberOfIntervalsMustBePossitive);
    }
    if cliff_vest_percent > PERCENT_DENOMINATOR {
        return Err(ErrorCode::InvalidCliff);
    }
    construct_stream_template(
        start_utc,
        rate_interval_in_seconds,
        duration_number_of_units,
        cliff_vest_percent,
        fee_payed_by_treasurer,
        template,
        template_bump,
        crate::constants::ACCOUNT_VERSION,
        now,
    )
}

/// The checks of changing a template, in order: only a treasury without streams
/// may change its template.
pub open spec fn modify_template_check(
    treasury: Treasury,
    rate_interval_in_seconds: u64,
    cliff_vest_percent: u64,
) -> Result<(), ErrorCode> {
    if treasury.total_streams != 0 {
        Err(ErrorCode::CannotModifyTemplate)
    } else if rate_interval_in_seconds == 0 {
        Err(ErrorCode::InvalidStreamRate)
    } else if cliff_vest_percent > PERCENT_DENOMINATOR {
        Err(ErrorCode::InvalidCliff)
    } else {
        Ok(())
    }
}

/// Changes the parameters of a template at time `now`, keeping its version and bump.
pub fn modify_stream_template(
    treasury: &Treasury,
    template: &mut StreamTemplate,
    start_utc: u64,
    rate_interval_in_seconds: u64,
    duration_number_of_units: u64,
    cliff_vest_percent: u64,
    fee_payed_by_treasurer: bool,
    now: u64,
) -> (r: Result<(), ErrorCode>)
    ensures
        r == modify_template_check(*treasury, rate_interval_in_seconds, cliff_vest_percent),
        r is Err ==> *final(template) == *old(template),
        r is Ok ==> *final(template) == (StreamTemplate {
            version: old(template).version,
            bump: old(template).bump,
            start_utc_in_seconds: effective_start(start_utc, now),
            cliff_vest_percent,
            rate_interval_in_seconds,
            duration_number_of_units,
            fee_payed_by_treasurer,
        }),
{
    if treasury.total_streams != 0 {
        return Err(ErrorCode::CannotModifyTemplate);
    }
    if rate_interval_in_seconds == 0 {
        return Err(ErrorCode::InvalidStreamRate);
    }
    if cliff_vest_percent > PERCENT_DENOMINATOR {
        return Err(ErrorCode::InvalidCliff);
    }
    let template_bump = template.bump;
    let template_version = template.version;
    construct_stream_template(
        start_utc,
        rate_interval_in_seconds,
        duration_number_of_units,
        cliff_vest_percent,
        fee_payed_by_treasurer,
        template,
        template_bump,
        template_version,
        now,
    )
}

/// Creates a treasury and fills its stream template in one step.
pub fn create_treasury_and_template(
    template: &mut StreamTemplate,
    name: String,
    treasury_type: u8,
    auto_close: bool,
    sol_fee_payed_by_treasury: bool,
    category: Category,
    sub_category: SubCategory,
    start_utc: u64,
    rate_interval_in_seconds: u64,
    duration_number_of_units: u64,
    cliff_vest_percent: u64,
    fee_payed_by_treasurer: bool,
    slot: u64,
    treasury_bump: u8,
    template_bump: u8,
    treasurer: Address,
    associated_token: Address,
    now: u64,
    fees: &FeeSchedule,
) -> (r: Result<(Treasury, Vec<Transfer>), ErrorCode>)
    ensures
        template_parameters_check(
            rate_interval_in_seconds,
            duration_number_of_units,
            cliff_vest_percent,
        ) is Err ==> r is Err && r->Err_0 == template_parameters_check(
            rate_interval_in_seconds,
            duration_number_of_units,
            cliff_vest_percent,
        )->Err_0,
        template_parameters_check(
            rate_interval_in_seconds,
            duration_number_of_units,
            cliff_vest_percent,
        ) is Ok && encode_utf8(name@).len() > 32 ==> r is Err && r->Err_0
            == ErrorCode::StringTooLong,
        r is Err ==> *final(template) == *old(template),
        r is Ok ==> template_parameters_check(
            rate_interval_in_seconds,
            duration_number_of_units,
            cliff_vest_percent,
        ) is Ok && encode_utf8(name@).len() <= 32,
        r is Ok ==> is_new_treasury(
            r->Ok_0.0,
            encode_utf8(name@),
            treasury_type,
            auto_close,
            sol_fee_payed_by_treasury,
            category,
            sub_category,
            treasury_bump,
            treasurer,
            associated_token,
            slot,
            now,
        ) && r->Ok_0.1@ == create_treasury_transfers(sol_fee_payed_by_treasury, *fees)
            && *final(template) == (StreamTemplate {
            version: crate::constants::ACCOUNT_VERSION,
            bump: template_bump,
            start_utc_in_seconds: effective_start(start_utc, now),
            cliff_vest_percent,
            rate_interval_in_seconds,
            duration_number_of_units,
            fee_payed_by_treasurer,
        }),
{
    if rate_interval_in_seconds == 0 {
        return Err(ErrorCode::InvalidStreamRate);
    }
    if duration_number_of_units == 0 {
        return Err(ErrorCode::NumberOfIntervalsMustBePossitive);
    }
    if cliff_vest_percent > PERCENT_DENOMINATOR {
        return Err(ErrorCode::InvalidCliff);
    }
    let created = construct_treasury_account(
        name,
        treasury_type,
        auto_close,
        sol_fee_payed_by_treasury,
        category,
        sub_category,
        treasury_bump,
        treasurer,
        associated_token,
        slot,
        now,
        fees,
    )?;
    create_stream_template(
        template,
        start_utc,
        rate_interval_in_seconds,
        duration_number_of_units,
        cliff_vest_percent,
        fee_payed_by_treasurer,
        template_bump,
        now,
    )?;
    Ok(created)
}

/// Hands the stream to a new beneficiary, who pays the flat transfer fee.
pub fn transfer_stream(stream: &mut Stream, new_beneficiary: Address, fees: &FeeSchedule) -> (r:
    Result<Vec<Transfer>, ErrorCode>)
    ensures
        r is Ok <==> old(stream).cliff_fits(),
        r is Err ==> r->Err_0 == ErrorCode::Overflow && *final(stream) == *old(stream),
        r is Ok ==> *final(stream) == (Stream {
            beneficiary_address: new_beneficiary,
            ..old(stream).with_cliff_resolved()
        }).with_start_normalized() && r->Ok_0@ == seq![
            Transfer {
                currency: Currency::Lamports,
                from: Party::Beneficiary,
                to: Party::FeeTreasury,
                amount: fees.transfer_stream_flat_fee,
            },
        ],
        r is Ok && old(stream).inv() ==> final(stream).inv(),
{
    stream.primitive_get_cliff_units()?;
    let mut s = *stream;
    s.save_effective_cliff();
    s.beneficiary_address = new_beneficiary;
    s.update_start_utc()?;
    *stream = s;
    let mut transfers: Vec<Transfer> = Vec::new();
    transfers.push(
        Transfer {
            currency: Currency::Lamports,
            from: Party::Beneficiary,
            to: Party::FeeTreasury,
            amount: fees.transfer_stream_flat_fee,
        },
    );
    Ok(transfers)
}

// ---------------------------------------------------------------- report

/// Reports the state of a stream at time `now`, for the notification sink.
pub fn get_stream(stream: &Stream, now: u64) -> (r: Result<StreamEvent, ErrorCode>)
    ensures
        r is Err <==> stream_data_check(*stream, now) is Err,
        r is Err ==> r->Err_0 == stream_data_check(*stream, now)->Err_0,
        r is Ok ==> recorded_fields_match(r->Ok_0, *stream) && derived_figures_match(
            r->Ok_0,
            *stream,
            now,
        ),
{
    get_stream_data_event(stream, now)
}

} // verus!
