use msp::address::Address;
use msp::categories::{Category, SubCategory};
use msp::enums::{StreamStatus, TreasuryType};
use msp::errors::ErrorCode;
use msp::fees::FeeSchedule;
use msp::ledger::{Currency, Party, Transfer};
use msp::operations::{
    add_funds, allocate, close_stream, close_treasury, create_stream, create_stream_template,
    create_stream_with_template, create_treasury, create_treasury_and_template,
    modify_stream_template, pause_stream, refresh_treasury_data, resume_stream, transfer_stream,
    treasury_withdraw, withdraw,
};
use msp::stream::Stream;
use msp::template::StreamTemplate;
use msp::treasury::Treasury;

const NOW: u64 = 1_000_000;

fn addr(b: u8) -> Address {
    Address { bytes: [b; 32] }
}

fn treasury_with(balance: u64, locked: bool, sol_fee_payed_by_treasury: bool) -> Treasury {
    let fees = FeeSchedule::standard();
    let kind = if locked { TreasuryType::Locked } else { TreasuryType::Opened };
    let (mut t, transfers) = create_treasury(
        7,
        "pool".to_string(),
        kind.as_u8(),
        false,
        sol_fee_payed_by_treasury,
        Category::Vesting,
        SubCategory::Team,
        254,
        addr(1),
        addr(2),
        NOW,
        &fees,
    )
    .unwrap();
    assert_eq!(t.category, 1);
    assert_eq!(t.sub_category, 8);
    assert_eq!(transfers.len(), if sol_fee_payed_by_treasury { 2 } else { 1 });
    if balance > 0 {
        add_funds(&mut t, &addr(9), &addr(2), balance, NOW, 1, &fees).unwrap();
    }
    t
}

fn stream_in(t: &mut Treasury, allocation: u64, fee_payed_by_treasurer: bool) -> Stream {
    create_stream(
        t,
        "s".to_string(),
        NOW,
        1,
        1,
        allocation,
        0,
        0,
        fee_payed_by_treasurer,
        addr(3),
        addr(4),
        addr(2),
        NOW,
        2,
        &FeeSchedule::standard(),
    )
    .unwrap()
    .0
}

#[test]
fn create_stream_parameter_errors() {
    let fees = FeeSchedule::standard();
    let mut t = treasury_with(1000, false, false);
    let mut attempt = |rate: u64, interval: u64, alloc: u64, cliff: u64, percent: u64| {
        create_stream(
            &mut t, "s".to_string(), 0, rate, interval, alloc, cliff, percent, false, addr(3),
            addr(4), addr(2), NOW, 2, &fees,
        )
        .map(|(s, _)| s.cliff_vest_amount_units)
    };
    assert_eq!(attempt(0, 1, 10, 0, 0), Err(ErrorCode::InvalidStreamRate));
    assert_eq!(attempt(0, 0, 10, 5, 0), Err(ErrorCode::InvalidStreamRate));
    assert_eq!(attempt(0, 0, 10, 10, 0), Ok(10));
    assert_eq!(attempt(1, 1, 10, 11, 0), Err(ErrorCode::InvalidCliff));
    assert_eq!(attempt(1, 1, 10, 0, 1_000_001), Err(ErrorCode::InvalidCliff));
    assert_eq!(attempt(1, 1, 10, 1, 1), Err(ErrorCode::InvalidCliff));
    assert_eq!(attempt(1, 1, 200, 0, 100_000), Ok(20));
    assert_eq!(attempt(1, 1, 2000, 0, 0), Err(ErrorCode::InsufficientTreasuryBalance));
}

#[test]
fn create_stream_charges_treasury_paid_fee() {
    let fees = FeeSchedule::standard();
    let mut t = treasury_with(2_000_000, false, true);
    let (s, transfers) = create_stream(
        &mut t, "s".to_string(), NOW - 5, 1, 1, 1_000_000, 0, 0, true, addr(3), addr(4),
        addr(2), NOW, 2, &fees,
    )
    .unwrap();
    assert_eq!(s.start_utc, NOW);
    assert_eq!(s.treasurer_address, addr(1));
    assert_eq!(t.allocation_assigned_units, 1_000_000);
    assert_eq!(t.last_known_balance_units, 2_000_000 - 2_500);
    assert_eq!(t.total_streams, 1);
    assert_eq!(
        transfers,
        vec![
            Transfer { currency: Currency::Token, from: Party::Treasury, to: Party::FeeTreasury, amount: 2_500 },
            Transfer { currency: Currency::Lamports, from: Party::Treasury, to: Party::FeeTreasury, amount: 10_000 },
        ]
    );
}

#[test]
fn locked_treasury_restrictions() {
    let fees = FeeSchedule::standard();
    let mut t = treasury_with(1000, true, false);
    let r = create_stream(
        &mut t, "s".to_string(), 0, 1, 1, 0, 0, 0, false, addr(3), addr(4), addr(2), NOW, 2, &fees,
    );
    assert_eq!(r.map(|_| ()), Err(ErrorCode::InvalidRequestedStreamAllocation));
    let mut s = stream_in(&mut t, 100, false);
    assert_eq!(
        pause_stream(&mut s, &t, NOW + 5, 3),
        Err(ErrorCode::PauseOrResumeLockedStreamNotAllowed)
    );
    assert_eq!(
        resume_stream(&mut s, &t, NOW + 5, 3),
        Err(ErrorCode::PauseOrResumeLockedStreamNotAllowed)
    );
    assert_eq!(
        allocate(&mut s, &mut t, 5, NOW + 5, 3, &fees),
        Err(ErrorCode::AllocateNotAllowedOnLockedStreams)
    );
    let bal = t.last_known_balance_units;
    assert_eq!(
        close_stream(&s, &mut t, bal, NOW + 5, 3, &fees).map(|o| o.kept_in_treasury),
        Err(ErrorCode::CloseLockedStreamNotAllowedWhileRunning)
    );
    let out = close_stream(&s, &mut t, bal, NOW + 200, 3, &fees).unwrap();
    assert_eq!(out.beneficiary_closing_amount, 100);
    assert_eq!(out.kept_in_treasury, 0);
}

#[test]
fn withdraw_errors_and_fee() {
    let fees = FeeSchedule::standard();
    let mut t = treasury_with(1_000_000, false, false);
    let mut s = stream_in(&mut t, 800, false);
    assert_eq!(withdraw(&mut s, &mut t, 0, NOW + 5, 3, &fees), Err(ErrorCode::ZeroWithdrawalAmount));
    assert_eq!(withdraw(&mut s, &mut t, 5, NOW - 1, 3, &fees), Err(ErrorCode::StreamIsScheduled));
    assert_eq!(withdraw(&mut s, &mut t, 5, NOW, 3, &fees), Err(ErrorCode::ZeroWithdrawalAmount));
    let transfers = withdraw(&mut s, &mut t, 1000, NOW + 800, 3, &fees).unwrap();
    assert_eq!(transfers[0].amount, 798);
    assert_eq!(transfers[1].to, Party::FeeTreasury);
    assert_eq!(transfers[1].amount, 2);
    assert_eq!(s.total_withdrawals_units, 800);
    assert_eq!(s.last_withdrawal_units, 800);
    assert_eq!(t.allocation_assigned_units, 0);
    assert_eq!(t.total_withdrawals_units, 800);
}

#[test]
fn allocate_errors() {
    let fees = FeeSchedule::standard();
    let mut t = treasury_with(1000, false, false);
    let mut s = stream_in(&mut t, 100, false);
    assert_eq!(allocate(&mut s, &mut t, 0, NOW, 3, &fees), Err(ErrorCode::ZeroContributionAmount));
    assert_eq!(
        allocate(&mut s, &mut t, 901, NOW, 3, &fees),
        Err(ErrorCode::InsufficientTreasuryBalance)
    );
    let mut otp = s;
    otp.rate_amount_units = 0;
    assert_eq!(allocate(&mut otp, &mut t, 1, NOW, 3, &fees), Err(ErrorCode::InvalidStreamRate));
    assert_eq!(allocate(&mut s, &mut t, 900, NOW + 1, 3, &fees).map(|v| v.len()), Ok(0));
    assert_eq!(t.allocation_assigned_units, 1000);
}

#[test]
fn resume_with_nothing_left_fails() {
    let fees = FeeSchedule::standard();
    let mut t = treasury_with(1000, false, false);
    let mut s = stream_in(&mut t, 10, false);
    assert_eq!(s.get_status(NOW + 21), Ok(StreamStatus::Paused));
    withdraw(&mut s, &mut t, 10, NOW + 21, 4, &fees).unwrap();
    assert_eq!(
        resume_stream(&mut s, &t, NOW + 22, 5),
        Err(ErrorCode::StreamZeroRemainingAllocation)
    );
}

#[test]
fn treasury_funds_operations() {
    let fees = FeeSchedule::standard();
    let mut t = treasury_with(0, false, true);
    assert_eq!(
        add_funds(&mut t, &addr(1), &addr(2), 0, NOW, 1, &fees),
        Err(ErrorCode::ZeroContributionAmount)
    );
    let transfers = add_funds(&mut t, &addr(1), &addr(2), 1_000_000, NOW, 1, &fees).unwrap();
    assert_eq!(transfers[0].from, Party::Treasury);
    assert_eq!(transfers[0].amount, 25_000);
    let transfers = add_funds(&mut t, &addr(8), &addr(2), 10, NOW, 1, &fees).unwrap();
    assert_eq!(transfers[0].from, Party::Payer);
    assert_eq!(
        add_funds(&mut t, &addr(8), &addr(2), u64::MAX, NOW, 1, &fees),
        Err(ErrorCode::Overflow)
    );
    let _s = stream_in(&mut t, 500_000, false);
    assert_eq!(treasury_withdraw(&mut t, 0, NOW, 2, &fees), Err(ErrorCode::InvalidWithdrawalAmount));
    assert_eq!(
        treasury_withdraw(&mut t, 500_011, NOW, 2, &fees),
        Err(ErrorCode::InsufficientTreasuryBalance)
    );
    let transfers = treasury_withdraw(&mut t, 400_000, NOW, 2, &fees).unwrap();
    assert_eq!(transfers[0].amount, 1_000);
    assert_eq!(transfers[1].to, Party::Destination);
    assert_eq!(transfers[1].amount, 399_000);
    assert_eq!(t.last_known_balance_units, 600_010);
    refresh_treasury_data(&mut t, 123_456, NOW + 1, 3);
    assert_eq!(t.last_known_balance_units, 123_456);
    assert_eq!(close_treasury(&t, 1, 1, &fees), Err(ErrorCode::TreasuryContainsStreams));
}

#[test]
fn close_treasury_outcomes() {
    let fees = FeeSchedule::standard();
    let t = treasury_with(50, false, true);
    assert_eq!(close_treasury(&t, 50, 9_999, &fees), Err(ErrorCode::InsufficientLamports));
    let transfers = close_treasury(&t, 50, 10_000, &fees).unwrap();
    assert_eq!(transfers.len(), 2);
    assert_eq!(transfers[0].amount, 50);
    assert_eq!(transfers[1].from, Party::Treasury);
    let u = treasury_with(0, false, false);
    let transfers = close_treasury(&u, 0, 0, &fees).unwrap();
    assert_eq!(transfers.len(), 1);
    assert_eq!(transfers[0].from, Party::Payer);
}

#[test]
fn templates() {
    let fees = FeeSchedule::standard();
    let mut tpl = StreamTemplate {
        version: 0,
        bump: 0,
        start_utc_in_seconds: 0,
        cliff_vest_percent: 0,
        rate_interval_in_seconds: 0,
        duration_number_of_units: 0,
        fee_payed_by_treasurer: false,
    };
    assert_eq!(
        create_stream_template(&mut tpl, 0, 0, 1, 0, false, 9, NOW),
        Err(ErrorCode::InvalidStreamRate)
    );
    assert_eq!(
        create_stream_template(&mut tpl, 0, 1, 0, 0, false, 9, NOW),
        Err(ErrorCode::NumberOfIntervalsMustBePossitive)
    );
    assert_eq!(
        create_stream_template(&mut tpl, 0, 1, 1, 1_000_001, false, 9, NOW),
        Err(ErrorCode::InvalidCliff)
    );
    let (mut t, _) = create_treasury_and_template(
        &mut tpl, "pool".to_string(), 0, false, false, Category::Default, SubCategory::Seed, 0, 60,
        12, 100_000, false, 3, 200, 201, addr(1), addr(2), NOW, &fees,
    )
    .unwrap();
    assert_eq!(tpl.start_utc_in_seconds, NOW);
    assert_eq!(tpl.bump, 201);
    assert_eq!(tpl.version, 2);
    assert_eq!(t.bump, 200);
    modify_stream_template(&t, &mut tpl, NOW + 100, 30, 4, 0, true, NOW).unwrap();
    assert_eq!(tpl.start_utc_in_seconds, NOW + 100);
    assert_eq!(tpl.bump, 201);
    tpl.cliff_vest_percent = 100_000;
    add_funds(&mut t, &addr(1), &addr(2), 10_000, NOW, 1, &fees).unwrap();
    let (s, _) = create_stream_with_template(
        &mut t, &tpl, "s".to_string(), 5, 1000, addr(3), addr(4), addr(2), NOW, 2, &fees,
    )
    .unwrap();
    assert_eq!(s.cliff_vest_amount_units, 100);
    assert_eq!(s.rate_interval_in_seconds, 30);
    assert_eq!(s.start_utc, NOW + 100);
    assert_eq!(
        modify_stream_template(&t, &mut tpl, 0, 30, 4, 0, true, NOW),
        Err(ErrorCode::CannotModifyTemplate)
    );
}

#[test]
fn stream_transfer_to_new_beneficiary() {
    let fees = FeeSchedule::standard();
    let mut t = treasury_with(1000, false, false);
    let mut s = stream_in(&mut t, 100, false);
    let transfers = transfer_stream(&mut s, addr(7), &fees).unwrap();
    assert_eq!(s.beneficiary_address, addr(7));
    assert_eq!(transfers[0].from, Party::Beneficiary);
    assert_eq!(transfers[0].amount, 10_000);
}
