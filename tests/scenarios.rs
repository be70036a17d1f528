use msp::address::Address;
use msp::categories::{Category, SubCategory};
use msp::enums::{StreamStatus, TreasuryType};
use msp::errors::ErrorCode;
use msp::fees::FeeSchedule;
use msp::operations::{
    add_funds, allocate, close_stream, create_stream, create_treasury, pause_stream,
    resume_stream, withdraw,
};
use msp::stream::Stream;
use msp::treasury::Treasury;

const T0: u64 = 1_700_000_000;

fn addr(b: u8) -> Address {
    Address { bytes: [b; 32] }
}

fn funded_treasury(amount: u64, treasury_type: TreasuryType) -> Treasury {
    let fees = FeeSchedule::standard();
    let (mut treasury, _) = create_treasury(
        0,
        "test treasury".to_string(),
        treasury_type.as_u8(),
        false,
        true,
        Category::Default,
        SubCategory::Default,
        255,
        addr(1),
        addr(2),
        T0,
        &fees,
    )
    .unwrap();
    add_funds(&mut treasury, &addr(1), &addr(2), amount, T0, 1, &fees).unwrap();
    treasury
}

fn new_stream(
    treasury: &mut Treasury,
    rate_amount: u64,
    rate_interval: u64,
    allocation: u64,
    fee_payed_by_treasurer: bool,
) -> Stream {
    let fees = FeeSchedule::standard();
    let (stream, _) = create_stream(
        treasury,
        "test stream".to_string(),
        0,
        rate_amount,
        rate_interval,
        allocation,
        0,
        0,
        fee_payed_by_treasurer,
        addr(3),
        addr(4),
        addr(2),
        T0,
        2,
        &fees,
    )
    .unwrap();
    stream
}

fn check(stream: &Stream, t: u64, withdrawable: u64, status: StreamStatus) {
    assert_eq!(
        stream.get_beneficiary_withdrawable_amount(t).unwrap(),
        withdrawable,
        "incorrect withdrawable amount"
    );
    assert_eq!(stream.get_status(t).unwrap(), status, "incorrect status");
}

#[test]
fn create_treasury_test_1() {
    let fees = FeeSchedule::standard();
    let mut treasury = funded_treasury(1000, TreasuryType::Opened);
    let mut stream = new_stream(&mut treasury, 5, 2, 6, true);
    assert_eq!(stream.version, 2, "incorrect version");
    assert_eq!(stream.rate_amount_units, 5, "incorrect rate amount");
    assert_eq!(stream.rate_interval_in_seconds, 2, "incorrect rate interval");
    assert_eq!(stream.allocation_assigned_units, 6, "incorrect stream allocation");
    assert_eq!(stream.start_utc, T0);
    check(&stream, T0, 0, StreamStatus::Running);
    check(&stream, T0 + 1, 2, StreamStatus::Running);
    check(&stream, T0 + 2, 6, StreamStatus::Paused);
    allocate(&mut stream, &mut treasury, 4, T0 + 2, 3, &fees).unwrap();
    assert_eq!(stream.allocation_assigned_units, 10, "incorrect stream allocation");
    check(&stream, T0 + 2, 5, StreamStatus::Running);
    check(&stream, T0 + 3, 7, StreamStatus::Running);
    check(&stream, T0 + 4, 10, StreamStatus::Paused);
}

#[test]
fn create_treasury_test_2() {
    let fees = FeeSchedule::standard();
    let mut treasury = funded_treasury(1000, TreasuryType::Opened);
    let mut stream = new_stream(&mut treasury, 5, 2, 6, true);
    check(&stream, T0, 0, StreamStatus::Running);
    check(&stream, T0 + 1, 2, StreamStatus::Running);
    check(&stream, T0 + 2, 6, StreamStatus::Paused);
    check(&stream, T0 + 3, 6, StreamStatus::Paused);
    allocate(&mut stream, &mut treasury, 4, T0 + 3, 3, &fees).unwrap();
    assert_eq!(stream.allocation_assigned_units, 10, "incorrect stream allocation");
    assert_eq!(stream.last_auto_stop_block_time, T0 + 2);
    assert_eq!(stream.last_known_total_seconds_in_paused_status, 1);
    check(&stream, T0 + 3, 5, StreamStatus::Running);
    check(&stream, T0 + 4, 7, StreamStatus::Running);
    check(&stream, T0 + 5, 10, StreamStatus::Paused);
}

#[test]
fn create_treasury_test_3() {
    let fees = FeeSchedule::standard();
    let mut treasury = funded_treasury(1000, TreasuryType::Opened);
    let mut stream = new_stream(&mut treasury, 4, 2, 8, true);
    assert_eq!(stream.rate_amount_units, 4, "incorrect rate amount");
    assert_eq!(stream.allocation_assigned_units, 8, "incorrect stream allocation");
    check(&stream, T0, 0, StreamStatus::Running);
    check(&stream, T0 + 1, 2, StreamStatus::Running);
    check(&stream, T0 + 2, 4, StreamStatus::Running);
    check(&stream, T0 + 4, 8, StreamStatus::Paused);
    allocate(&mut stream, &mut treasury, 4, T0 + 4, 3, &fees).unwrap();
    assert_eq!(stream.allocation_assigned_units, 12, "incorrect stream allocation");
    check(&stream, T0 + 4, 8, StreamStatus::Running);
    check(&stream, T0 + 5, 10, StreamStatus::Running);
    check(&stream, T0 + 6, 12, StreamStatus::Paused);
}

#[test]
fn auto_paused_stream_resumes_only_through_allocate() {
    let fees = FeeSchedule::standard();
    let mut treasury = funded_treasury(1000, TreasuryType::Opened);
    let mut stream = new_stream(&mut treasury, 5, 2, 6, true);
    assert_eq!(stream.get_status(T0 + 2).unwrap(), StreamStatus::Paused);
    let before = stream;
    assert_eq!(
        resume_stream(&mut stream, &treasury, T0 + 2, 3),
        Err(ErrorCode::CannotResumeAutoPausedStream)
    );
    assert_eq!(stream.last_manual_resume_block_time, before.last_manual_resume_block_time);
    allocate(&mut stream, &mut treasury, 4, T0 + 2, 3, &fees).unwrap();
    assert_eq!(stream.get_status(T0 + 2).unwrap(), StreamStatus::Running);
}

#[test]
fn small_top_up_of_auto_paused_stream_stays_paused() {
    let fees = FeeSchedule::standard();
    let mut treasury = funded_treasury(1000, TreasuryType::Opened);
    let mut stream = new_stream(&mut treasury, 5, 2, 6, true);
    allocate(&mut stream, &mut treasury, 1, T0 + 2, 3, &fees).unwrap();
    assert_eq!(stream.allocation_assigned_units, 7);
    assert_eq!(stream.get_status(T0 + 2).unwrap(), StreamStatus::Paused);
}

#[test]
fn pause_then_resume_at_same_instant_fails() {
    let mut treasury = funded_treasury(1000, TreasuryType::Opened);
    let mut stream = new_stream(&mut treasury, 1, 1, 100, true);
    pause_stream(&mut stream, &treasury, T0 + 10, 3).unwrap();
    assert_eq!(stream.get_status(T0 + 10).unwrap(), StreamStatus::Paused);
    assert_eq!(
        resume_stream(&mut stream, &treasury, T0 + 10, 4),
        Err(ErrorCode::CannotPauseAndUnpauseOnSameBlockTime)
    );
}

#[test]
fn resume_after_manual_pause_runs_again() {
    let mut treasury = funded_treasury(1000, TreasuryType::Opened);
    let mut stream = new_stream(&mut treasury, 1, 1, 100, true);
    pause_stream(&mut stream, &treasury, T0 + 10, 3).unwrap();
    assert_eq!(stream.last_manual_stop_withdrawable_units_snap, 10);
    check(&stream, T0 + 30, 10, StreamStatus::Paused);
    resume_stream(&mut stream, &treasury, T0 + 30, 4).unwrap();
    assert_eq!(stream.last_known_total_seconds_in_paused_status, 20);
    assert_eq!(stream.last_manual_resume_remaining_allocation_units_snap, 100);
    check(&stream, T0 + 30, 10, StreamStatus::Running);
    check(&stream, T0 + 35, 15, StreamStatus::Running);
    check(&stream, T0 + 120, 100, StreamStatus::Paused);
}

#[test]
fn pause_of_paused_stream_fails() {
    let mut treasury = funded_treasury(1000, TreasuryType::Opened);
    let mut stream = new_stream(&mut treasury, 1, 1, 100, true);
    pause_stream(&mut stream, &treasury, T0 + 10, 3).unwrap();
    assert_eq!(
        pause_stream(&mut stream, &treasury, T0 + 11, 4),
        Err(ErrorCode::StreamAlreadyPaused)
    );
    assert_eq!(
        resume_stream(&mut new_stream(&mut treasury, 1, 1, 100, true), &treasury, T0 + 11, 4),
        Err(ErrorCode::StreamAlreadyRunning)
    );
}

#[test]
fn withdraw_while_manually_paused_reduces_snapshot() {
    let fees = FeeSchedule::standard();
    let mut treasury = funded_treasury(1000, TreasuryType::Opened);
    let mut stream = new_stream(&mut treasury, 1, 1, 100, true);
    pause_stream(&mut stream, &treasury, T0 + 10, 3).unwrap();
    let transfers = withdraw(&mut stream, &mut treasury, 4, T0 + 12, 5, &fees).unwrap();
    assert_eq!(transfers.len(), 1);
    assert_eq!(transfers[0].amount, 4);
    assert_eq!(stream.total_withdrawals_units, 4);
    assert_eq!(stream.last_manual_stop_withdrawable_units_snap, 6);
    assert_eq!(stream.get_beneficiary_withdrawable_amount(T0 + 13).unwrap(), 6);
    let transfers = withdraw(&mut stream, &mut treasury, 50, T0 + 14, 6, &fees).unwrap();
    assert_eq!(transfers[0].amount, 6);
    assert_eq!(stream.total_withdrawals_units, 10);
    assert_eq!(
        withdraw(&mut stream, &mut treasury, 1, T0 + 15, 7, &fees),
        Err(ErrorCode::ZeroWithdrawalAmount)
    );
}

#[test]
fn withdrawable_plus_withdrawn_within_allocation() {
    let fees = FeeSchedule::standard();
    let mut treasury = funded_treasury(10_000, TreasuryType::Opened);
    let mut stream = new_stream(&mut treasury, 3, 2, 50, false);
    for (i, t) in [1u64, 5, 9, 20, 40].iter().enumerate() {
        let w = stream.get_beneficiary_withdrawable_amount(T0 + t).unwrap();
        assert!(w + stream.total_withdrawals_units <= stream.allocation_assigned_units);
        if w > 0 && i % 2 == 0 {
            withdraw(&mut stream, &mut treasury, w / 2 + 1, T0 + t, 9, &fees).unwrap();
        }
    }
    let w = stream.get_beneficiary_withdrawable_amount(T0 + 100).unwrap();
    assert_eq!(w + stream.total_withdrawals_units, stream.allocation_assigned_units);
}

#[test]
fn status_moves_forward_in_time() {
    let mut treasury = funded_treasury(1000, TreasuryType::Opened);
    let (stream, _) = create_stream(
        &mut treasury,
        "later".to_string(),
        T0 + 10,
        1,
        1,
        5,
        0,
        0,
        true,
        addr(3),
        addr(4),
        addr(2),
        T0,
        2,
        &FeeSchedule::standard(),
    )
    .unwrap();
    let rank = |s: StreamStatus| match s {
        StreamStatus::Scheduled => 0,
        StreamStatus::Running => 1,
        StreamStatus::Paused => 2,
    };
    let mut last = 0;
    for t in T0..T0 + 30 {
        let r = rank(stream.get_status(t).unwrap());
        assert!(r >= last);
        last = r;
    }
    assert_eq!(stream.get_status(T0 + 9).unwrap(), StreamStatus::Scheduled);
    assert_eq!(stream.get_status(T0 + 12).unwrap(), StreamStatus::Running);
    assert_eq!(stream.get_status(T0 + 15).unwrap(), StreamStatus::Paused);
}

#[test]
fn close_stream_splits_allocation_exactly() {
    let fees = FeeSchedule::standard();
    let mut treasury = funded_treasury(10_000_000, TreasuryType::Opened);
    let mut stream = new_stream(&mut treasury, 1000, 1, 1_000_000, false);
    withdraw(&mut stream, &mut treasury, 100_000, T0 + 200, 3, &fees).unwrap();
    assert_eq!(stream.total_withdrawals_units, 100_000);
    let balance = treasury.last_known_balance_units;
    let out = close_stream(&stream, &mut treasury, balance, T0 + 500, 4, &fees).unwrap();
    assert_eq!(out.beneficiary_closing_amount, 400_000);
    assert_eq!(out.fee_amount, 1_000);
    assert_eq!(out.amount_sent_to_beneficiary, 399_000);
    assert_eq!(out.kept_in_treasury, 500_000);
    assert_eq!(
        stream.total_withdrawals_units
            + out.amount_sent_to_beneficiary
            + out.kept_in_treasury
            + out.fee_amount,
        stream.allocation_assigned_units
    );
    assert_eq!(treasury.total_streams, 0);
    assert_eq!(treasury.allocation_assigned_units, 0);
    assert_eq!(treasury.last_known_balance_units, balance - 400_000);
    assert_eq!(out.transfers.len(), 3);
}
