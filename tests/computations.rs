use msp::address::Address;
use msp::enums::StreamStatus;
use msp::errors::ErrorCode;
use msp::events::get_stream_data_event;
use msp::extensions::{close_stream_update_treasury, validate_stream};
use msp::fees::{proportional_fee, FeeSchedule};
use msp::ledger::{treasury_transfer_sol_amount, Currency, Party};
use msp::stream::Stream;
use msp::treasury::Treasury;
use msp::utils::string_to_bytes;

fn addr(b: u8) -> Address {
    Address { bytes: [b; 32] }
}

fn base_stream() -> Stream {
    Stream {
        version: 2,
        initialized: true,
        name: [b' '; 32],
        treasurer_address: addr(1),
        rate_amount_units: 10,
        rate_interval_in_seconds: 4,
        start_utc: 1000,
        cliff_vest_amount_units: 0,
        cliff_vest_percent: 0,
        beneficiary_address: addr(4),
        beneficiary_associated_token: addr(2),
        treasury_address: addr(3),
        allocation_assigned_units: 100,
        allocation_reserved_units: 0,
        total_withdrawals_units: 0,
        last_withdrawal_units: 0,
        last_withdrawal_slot: 0,
        last_withdrawal_block_time: 0,
        last_manual_stop_withdrawable_units_snap: 0,
        last_manual_stop_slot: 0,
        last_manual_stop_block_time: 0,
        last_manual_resume_remaining_allocation_units_snap: 0,
        last_manual_resume_slot: 0,
        last_manual_resume_block_time: 0,
        last_known_total_seconds_in_paused_status: 0,
        last_auto_stop_block_time: 0,
        fee_payed_by_treasurer: false,
        start_utc_in_seconds: 1000,
        created_on_utc: 1000,
        category: 0,
        sub_category: 0,
    }
}

fn base_treasury() -> Treasury {
    Treasury {
        initialized: true,
        version: 2,
        bump: 1,
        slot: 0,
        name: [b' '; 32],
        treasurer_address: addr(1),
        associated_token_address: addr(2),
        mint_address: addr(0),
        labels: Vec::new(),
        last_known_balance_units: 500,
        last_known_balance_slot: 0,
        last_known_balance_block_time: 0,
        allocation_assigned_units: 300,
        allocation_reserved_units: 0,
        total_withdrawals_units: 0,
        total_streams: 2,
        created_on_utc: 0,
        treasury_type: 0,
        auto_close: false,
        sol_fee_payed_by_treasury: false,
        category: 0,
        sub_category: 0,
    }
}

#[test]
fn proportional_fee_values() {
    assert_eq!(proportional_fee(2_500, 1_000_000), 2_500);
    assert_eq!(proportional_fee(2_500, 399), 0);
    assert_eq!(proportional_fee(2_500, 400), 1);
    assert_eq!(proportional_fee(1_000_000, u64::MAX), u64::MAX);
    assert_eq!(proportional_fee(0, 12345), 0);
}

#[test]
fn standard_fee_schedule() {
    let f = FeeSchedule::standard();
    assert_eq!(f.create_treasury_flat_fee, 10_000);
    assert_eq!(f.add_funds_flat_fee, 25_000);
    assert_eq!(f.withdraw_percent_fee, 2_500);
    assert_eq!(f.close_stream_percent_fee, 2_500);
    assert_eq!(f.treasury_withdraw_percent_fee, 2_500);
}

#[test]
fn cliff_from_percent_and_amount() {
    let mut s = base_stream();
    s.cliff_vest_percent = 250_000;
    assert_eq!(s.primitive_get_cliff_units(), Ok(25));
    s.save_effective_cliff();
    assert_eq!(s.cliff_vest_amount_units, 25);
    assert_eq!(s.cliff_vest_percent, 0);
    assert_eq!(s.primitive_get_cliff_units(), Ok(25));
    s.cliff_vest_amount_units = 7;
    assert_eq!(s.primitive_get_cliff_units(), Ok(7));
}

#[test]
fn cliff_overflow_is_reported() {
    let mut s = base_stream();
    s.cliff_vest_percent = u64::MAX;
    s.allocation_assigned_units = u64::MAX;
    assert_eq!(s.primitive_get_cliff_units(), Err(ErrorCode::Overflow));
    assert_eq!(s.get_status(2000), Err(ErrorCode::Overflow));
}

#[test]
fn streamed_units_are_capped_by_streamable() {
    let mut s = base_stream();
    s.cliff_vest_amount_units = 20;
    // streamable 80, rate 10 per 4 s: fully vested after 32 s
    assert_eq!(s.primitive_get_streamed_units(0), Ok(0));
    assert_eq!(s.primitive_get_streamed_units(3), Ok(7));
    assert_eq!(s.primitive_get_streamed_units(31), Ok(77));
    assert_eq!(s.primitive_get_streamed_units(32), Ok(80));
    assert_eq!(s.primitive_get_streamed_units(u64::MAX), Ok(80));
    s.rate_interval_in_seconds = 0;
    assert_eq!(s.primitive_get_streamed_units(100), Ok(0));
    s.rate_interval_in_seconds = 4;
    s.rate_amount_units = 0;
    assert_eq!(s.primitive_get_streamed_units(1), Err(ErrorCode::Overflow));
}

#[test]
fn streamed_units_use_wide_intermediate() {
    let mut s = base_stream();
    s.allocation_assigned_units = u64::MAX;
    s.rate_amount_units = 1;
    s.rate_interval_in_seconds = u64::MAX;
    assert_eq!(s.primitive_get_streamed_units(u64::MAX), Ok(1));
}

#[test]
fn status_and_withdrawable_with_cliff() {
    let mut s = base_stream();
    s.cliff_vest_amount_units = 20;
    assert_eq!(s.get_status(999), Ok(StreamStatus::Scheduled));
    assert_eq!(s.get_beneficiary_withdrawable_amount(999), Ok(0));
    assert_eq!(s.get_status(1000), Ok(StreamStatus::Running));
    assert_eq!(s.get_beneficiary_withdrawable_amount(1000), Ok(20));
    assert_eq!(s.get_beneficiary_withdrawable_amount(1010), Ok(45));
    assert_eq!(s.get_status(1032), Ok(StreamStatus::Paused));
    assert_eq!(s.get_beneficiary_withdrawable_amount(1032), Ok(100));
}

#[test]
fn paused_seconds_delay_vesting() {
    let mut s = base_stream();
    s.last_known_total_seconds_in_paused_status = 8;
    assert_eq!(s.get_beneficiary_withdrawable_amount(1012), Ok(10));
    assert_eq!(s.get_status(1004), Err(ErrorCode::Overflow));
}

#[test]
fn withdrawable_errors() {
    let mut s = base_stream();
    s.total_withdrawals_units = 101;
    assert_eq!(s.get_remaining_allocation(), Err(ErrorCode::Overflow));
    assert_eq!(s.get_beneficiary_withdrawable_amount(1010), Err(ErrorCode::Overflow));
    let mut s = base_stream();
    s.rate_interval_in_seconds = 0;
    s.rate_amount_units = 0;
    s.cliff_vest_amount_units = 50;
    assert_eq!(s.get_status(1010), Ok(StreamStatus::Running));
    assert_eq!(s.get_beneficiary_withdrawable_amount(1010), Err(ErrorCode::InvalidArgument));
}

#[test]
fn withdrawable_never_below_withdrawn() {
    let mut s = base_stream();
    s.total_withdrawals_units = 60;
    assert_eq!(s.get_beneficiary_withdrawable_amount(1004), Ok(0));
    assert_eq!(s.get_beneficiary_withdrawable_amount(1028), Ok(10));
    assert_eq!(s.get_funds_sent_to_beneficiary(1028), Ok(70));
    assert_eq!(s.get_funds_left_in_account(1028), Ok(30));
    assert_eq!(s.get_remaining_allocation(), Ok(40));
}

#[test]
fn manual_pause_returns_snapshot() {
    let mut s = base_stream();
    s.last_manual_stop_block_time = 1010;
    s.last_manual_stop_withdrawable_units_snap = 25;
    assert!(s.primitive_is_manually_paused());
    assert_eq!(s.get_status(1500), Ok(StreamStatus::Paused));
    assert_eq!(s.get_beneficiary_withdrawable_amount(1500), Ok(25));
    s.last_auto_stop_block_time = 900;
    assert_eq!(s.primitive_get_last_known_stop_block_time(), 1010);
    s.last_manual_resume_block_time = 1020;
    assert!(!s.primitive_is_manually_paused());
}

#[test]
fn depletion_time_estimate() {
    let mut s = base_stream();
    s.cliff_vest_amount_units = 20;
    s.last_known_total_seconds_in_paused_status = 5;
    assert_eq!(s.get_est_depletion_blocktime(7777), Ok(1037));
    s.rate_interval_in_seconds = 0;
    assert_eq!(s.get_est_depletion_blocktime(7777), Ok(7777));
    let mut s = base_stream();
    s.start_utc = u64::MAX - 10;
    assert_eq!(s.get_est_depletion_blocktime(0), Err(ErrorCode::Overflow));
}

#[test]
fn start_time_in_milliseconds_is_normalized() {
    let mut s = base_stream();
    s.start_utc = 1_700_000_000_123;
    s.start_utc_in_seconds = 0;
    assert_eq!(s.get_start_utc(), Ok(1_700_000_000));
    assert_eq!(s.update_start_utc(), Ok(()));
    assert_eq!(s.start_utc, 1_700_000_000);
    assert_eq!(s.start_utc_in_seconds, 1_700_000_000);
    assert_eq!(s.update_start_utc(), Ok(()));
    assert_eq!(s.start_utc, 1_700_000_000);
}

#[test]
fn unallocated_balance() {
    let mut t = base_treasury();
    assert_eq!(t.last_known_unallocated_balance(), Ok(200));
    assert!(t.is_balance_covered(500));
    assert!(!t.is_balance_covered(499));
    t.allocation_assigned_units = 501;
    assert_eq!(t.last_known_unallocated_balance(), Err(ErrorCode::Overflow));
}

#[test]
fn name_encoding() {
    let b = string_to_bytes("abc".to_string()).unwrap();
    assert_eq!(&b[..3], b"abc");
    assert!(b[3..].iter().all(|c| *c == b' '));
    assert_eq!(string_to_bytes("x".repeat(32)).unwrap(), [b'x'; 32]);
    assert_eq!(string_to_bytes("x".repeat(33)), Err(ErrorCode::StringTooLong));
}

#[test]
fn treasury_lamports_keep_rent_exempt_minimum() {
    assert_eq!(treasury_transfer_sol_amount(1000, 400, 5, 600), Ok((400, 605)));
    assert_eq!(
        treasury_transfer_sol_amount(1000, 400, 5, 601),
        Err(ErrorCode::InsufficientLamports)
    );
    assert_eq!(treasury_transfer_sol_amount(300, 400, 5, 1), Err(ErrorCode::InsufficientLamports));
    assert_eq!(
        treasury_transfer_sol_amount(1000, 0, u64::MAX, 1),
        Err(ErrorCode::InvalidArgument)
    );
}

#[test]
fn stream_record_validation() {
    let s = base_stream();
    assert_eq!(validate_stream(&s, &addr(3), &addr(2), 500), Ok(()));
    assert_eq!(validate_stream(&s, &addr(9), &addr(2), 500), Err(ErrorCode::InvalidTreasury));
    assert_eq!(validate_stream(&s, &addr(3), &addr(9), 500), Err(ErrorCode::InvalidTreasury));
    assert_eq!(validate_stream(&s, &addr(3), &addr(2), 499), Err(ErrorCode::InvalidStreamSize));
    let mut v = base_stream();
    v.version = 1;
    assert_eq!(validate_stream(&v, &addr(3), &addr(2), 500), Err(ErrorCode::InvalidStreamVersion));
    let mut u = base_stream();
    u.initialized = false;
    assert_eq!(validate_stream(&u, &addr(3), &addr(2), 500), Err(ErrorCode::StreamNotInitialized));
}

#[test]
fn treasury_update_on_close() {
    let mut t = base_treasury();
    assert_eq!(close_stream_update_treasury(&mut t, 50, 120, 77, 8), Ok(()));
    assert_eq!(t.allocation_assigned_units, 180);
    assert_eq!(t.last_known_balance_units, 450);
    assert_eq!(t.total_streams, 1);
    assert_eq!(t.last_known_balance_block_time, 77);
    assert_eq!(close_stream_update_treasury(&mut t, 600, 600, 78, 9), Ok(()));
    assert_eq!(t.allocation_assigned_units, 0);
    assert_eq!(t.last_known_balance_units, 0);
    assert_eq!(
        close_stream_update_treasury(&mut t, 0, 0, 79, 10),
        Err(ErrorCode::InvalidTotalStreamsInTreasury)
    );
}

#[test]
fn stream_report() {
    let mut s = base_stream();
    s.last_known_total_seconds_in_paused_status = 4;
    s.total_withdrawals_units = 5;
    let e = get_stream_data_event(&s, 1012).unwrap();
    assert_eq!(e.status, "Running");
    assert_eq!(e.seconds_since_start, 12);
    assert_eq!(e.non_stop_earning_units, 30);
    assert_eq!(e.missed_units_while_paused, 10);
    assert_eq!(e.entitled_earnings_units, 20);
    assert_eq!(e.withdrawable_units_while_running, 15);
    assert_eq!(e.beneficiary_withdrawable_amount, 15);
    assert_eq!(e.beneficiary_remaining_allocation, 95);
    assert_eq!(e.funds_left_in_stream, 80);
    assert_eq!(e.funds_sent_to_beneficiary, 20);
    assert_eq!(e.est_depletion_time, 1044);
    assert_eq!(e.withdrawable_units_while_paused, 0);
    let e = get_stream_data_event(&s, 10).unwrap();
    assert_eq!(e.status, "Scheduled");
    assert_eq!(e.seconds_since_start, 0);
}

#[test]
fn plain_value_equality() {
    assert_ne!(ErrorCode::Overflow, ErrorCode::InvalidArgument);
    assert_eq!(Party::Treasury, Party::Treasury);
    assert_ne!(Currency::Token, Currency::Lamports);
}

#[test]
fn address_equality() {
    assert_eq!(addr(5), addr(5));
    assert_ne!(addr(5), addr(6));
    let mut a = addr(5);
    a.bytes[31] = 6;
    assert_ne!(a, addr(5));
    assert_eq!(Address::zero(), addr(0));
}
