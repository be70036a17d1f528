//! A read-only report of a stream's state and of the quantities derived from it.
use vstd::prelude::*;
use crate::address::Address;
use crate::enums::StreamStatus;
use crate::errors::ErrorCode;
use crate::stream::Stream;

verus! {

/// Everything a stream records, with what its status and balances are at
/// `current_block_time`.
#[derive(Debug, Clone)]
pub struct StreamEvent {
    pub version: u8,
    pub initialized: bool,
    /// The name field as stored: up to 32 bytes, padded with spaces.
    pub name: [u8; 32],
    pub treasurer_address: Address,
    pub rate_amount_units: u64,
    pub rate_interval_in_seconds: u64,
    pub start_utc: u64,
    pub cliff_vest_amount_units: u64,
    pub cliff_vest_percent: u64,
    pub beneficiary_address: Address,
    pub beneficiary_associated_token: Address,
    pub treasury_address: Address,
    pub allocation_assigned_units: u64,
    pub allocation_reserved_units: u64,
    pub total_withdrawals_units: u64,
    pub last_withdrawal_units: u64,
    pub last_withdrawal_slot: u64,
    pub last_withdrawal_block_time: u64,
    pub last_manual_stop_withdrawable_units_snap: u64,
    pub last_manual_stop_slot: u64,
    pub last_manual_stop_block_time: u64,
    pub last_manual_resume_remaining_allocation_units_snap: u64,
    pub last_manual_resume_slot: u64,
    pub last_manual_resume_block_time: u64,
    pub last_known_total_seconds_in_paused_status: u64,
    pub last_auto_stop_block_time: u64,
    pub fee_payed_by_treasurer: bool,
    /// `Scheduled`, `Running` or `Paused`.
    pub status: String,
    pub is_manual_pause: bool,
    pub cliff_units: u64,
    pub current_block_time: u64,
    pub seconds_since_start: u64,
    pub est_depletion_time: u64,
    pub funds_left_in_stream: u64,
    pub funds_sent_to_beneficiary: u64,
    pub withdrawable_units_while_paused: u64,
    /// Cliff plus what would have vested had the stream never paused.
    pub non_stop_earning_units: u64,
    /// What would have vested during the time spent paused.
    pub missed_units_while_paused: u64,
    pub entitled_earnings_units: u64,
    pub withdrawable_units_while_running: u64,
    pub beneficiary_remaining_allocation: u64,
    pub beneficiary_withdrawable_amount: u64,
    pub last_known_stop_block_time: u64,
    pub created_on_utc: u64,
    pub category: u8,
    pub sub_category: u8,
}

/// The name of a status.
pub open spec fn status_name(status: StreamStatus) -> Seq<char> {
    match status {
        StreamStatus::Scheduled => "Scheduled"@,
        StreamStatus::Running => "Running"@,
        StreamStatus::Paused => "Paused"@,
    }
}

/// The report at `now` can be computed; otherwise, the error it fails with.
pub open spec fn stream_data_check(s: Stream, now: u64) -> Result<(), ErrorCode> {
    if !s.status_defined(now) || !s.streaming_defined() || !s.cliff_fits()
        || s.total_withdrawals_units > s.allocation_assigned_units || !s.depletion_defined() {
        Err(ErrorCode::Overflow)
    } else if !s.withdrawable_defined(now) {
        Err(s.withdrawable_error(now))
    } else if s.withdrawable_at(now) > s.remaining() || s.total_withdrawals_units
        + s.withdrawable_at(now) > u64::MAX {
        Err(ErrorCode::Overflow)
    } else {
        Ok(())
    }
}

/// Seconds since the start, or zero before it.
pub open spec fn seconds_since_start(s: Stream, now: u64) -> int {
    if now > s.start_seconds() {
        now - s.start_seconds()
    } else {
        0
    }
}

/// `a - b`, or zero when `b` exceeds `a`.
pub open spec fn sub_or_zero(a: int, b: int) -> int {
    if a >= b {
        a - b
    } else {
        0
    }
}

/// The derived quantities of the report at `now`.
pub open spec fn derived_figures_match(e: StreamEvent, s: Stream, now: u64) -> bool {
    let non_stop = s.cliff() + s.streamed(seconds_since_start(s, now));
    let missed = s.streamed(s.last_known_total_seconds_in_paused_status as int);
    let entitled = sub_or_zero(non_stop, missed);
    &&& e.status@ == status_name(s.status_at(now))
    &&& e.is_manual_pause == s.manually_paused()
    &&& e.cliff_units == s.cliff()
    &&& e.current_block_time == now
    &&& e.seconds_since_start == seconds_since_start(s, now)
    &&& (s.rate_interval_in_seconds == 0 ==> e.est_depletion_time == now)
    &&& (s.rate_interval_in_seconds != 0 ==> e.est_depletion_time == s.depletion_time())
    &&& e.funds_left_in_stream == s.remaining() - s.withdrawable_at(now)
    &&& e.funds_sent_to_beneficiary == s.total_withdrawals_units + s.withdrawable_at(now)
    &&& e.withdrawable_units_while_paused == (if s.status_at(now) == StreamStatus::Paused {
        if s.manually_paused() {
            s.last_manual_stop_withdrawable_units_snap as int
        } else {
            s.remaining()
        }
    } else {
        0
    })
    &&& e.non_stop_earning_units == non_stop
    &&& e.missed_units_while_paused == missed
    &&& e.entitled_earnings_units == entitled
    &&& e.withdrawable_units_while_running == sub_or_zero(entitled, s.total_withdrawals_units as int)
    &&& e.beneficiary_remaining_allocation == s.remaining()
    &&& e.beneficiary_withdrawable_amount == s.withdrawable_at(now)
    &&& e.last_known_stop_block_time == s.last_known_stop()
}

/// The recorded fields of the report, copied from the stream.
pub open spec fn recorded_fields_match(e: StreamEvent, s: Stream) -> bool {
    &&& e.version == s.version
    &&& e.initialized == s.initialized
    &&& e.name == s.name
    &&& e.treasurer_address == s.treasurer_address
    &&& e.rate_amount_units == s.rate_amount_units
    &&& e.rate_interval_in_seconds == s.rate_interval_in_seconds
    &&& e.start_utc == s.start_seconds()
    &&& e.cliff_vest_amount_units == s.cliff_vest_amount_units
    &&& e.cliff_vest_percent == s.cliff_vest_percent
    &&& e.beneficiary_address == s.beneficiary_address
    &&& e.beneficiary_associated_token == s.beneficiary_associated_token
    &&& e.treasury_address == s.treasury_address
    &&& e.allocation_assigned_units == s.allocation_assigned_units
    &&& e.allocation_reserved_units == 0
    &&& e.total_withdrawals_units == s.total_withdrawals_units
    &&& e.last_withdrawal_units == s.last_withdrawal_units
    &&& e.last_withdrawal_slot == s.last_withdrawal_slot
    &&& e.last_withdrawal_block_time == s.last_withdrawal_block_time
    &&& e.last_manual_stop_withdrawable_units_snap == s.last_manual_stop_withdrawable_units_snap
    &&& e.last_manual_stop_slot == s.last_manual_stop_slot
    &&& e.last_manual_stop_block_time == s.last_manual_stop_block_time
    &&& e.last_manual_resume_remaining_allocation_units_snap
        == s.last_manual_resume_remaining_allocation_units_snap
    &&& e.last_manual_resume_slot == s.last_manual_resume_slot
    &&& e.last_manual_resume_block_time == s.last_manual_resume_block_time
    &&& e.last_known_total_seconds_in_paused_status == s.last_known_total_seconds_in_paused_status
    &&& e.last_auto_stop_block_time == s.last_auto_stop_block_time
    &&& e.fee_payed_by_treasurer == s.fee_payed_by_treasurer
    &&& e.created_on_utc == s.created_on_utc
    &&& e.category == s.category
    &&& e.sub_category == s.sub_category
}

/// Reports the state of a stream at time `now`.
pub fn get_stream_data_event(stream: &Stream, now: u64) -> (r: Result<StreamEvent, ErrorCode>)
    ensures
        r is Err <==> stream_data_check(*stream, now) is Err,
        r is Err ==> r->Err_0 == stream_data_check(*stream, now)->Err_0,
        r is Ok ==> recorded_fields_match(r->Ok_0, *stream) && derived_figures_match(
            r->Ok_0,
            *stream,
            now,
        ),
{
    let status = stream.get_status(now)?;
    let status_name = if status == StreamStatus::Scheduled {
        "Scheduled"
    } else if status == StreamStatus::Running {
        "Running"
    } else {
        "Paused"
    };
    let is_manual_pause = stream.primitive_is_manually_paused();
    let mut withdrawable_while_paused: u64 = 0;
    if status == StreamStatus::Paused {
        if is_manual_pause {
            withdrawable_while_paused = stream.last_manual_stop_withdrawable_units_snap;
        } else if stream.allocation_assigned_units >= stream.total_withdrawals_units {
            withdrawable_while_paused = stream.allocation_assigned_units
                - stream.total_withdrawals_units;
        }
    }
    let start_utc_seconds = stream.get_start_utc()?;
    let mut seconds_since_start: u64 = 0;
    if now > start_utc_seconds {
        seconds_since_start = now - start_utc_seconds;
    }
    let streamed_units_since_started = stream.primitive_get_streamed_units(seconds_since_start)?;
    let cliff_units = stream.primitive_get_cliff_units()?;
    proof {
        stream.lemma_streamed_bounds(seconds_since_start as int);
    }
    let non_stop_earning_units = cliff_units + streamed_units_since_started;
    let missed_units_while_paused = stream.primitive_get_streamed_units(
        stream.last_known_total_seconds_in_paused_status,
    )?;
    proof {
        stream.lemma_streamed_bounds(stream.last_known_total_seconds_in_paused_status as int);
    }
    let mut entitled_earnings_units: u64 = 0;
    if non_stop_earning_units >= missed_units_while_paused {
        entitled_earnings_units = non_stop_earning_units - missed_units_while_paused;
    }
    let mut withdrawable_units_while_running: u64 = 0;
    if entitled_earnings_units >= stream.total_withdrawals_units {
        withdrawable_units_while_running = entitled_earnings_units - stream.total_withdrawals_units;
    }
    let unused_allocation = stream.get_remaining_allocation()?;
    let est_depletion_time = stream.get_est_depletion_blocktime(now)?;
    let funds_left_in_stream = stream.get_funds_left_in_account(now)?;
    let funds_sent_to_beneficiary = stream.get_funds_sent_to_beneficiary(now)?;
    let beneficiary_withdrawable_amount = stream.get_beneficiary_withdrawable_amount(now)?;
    let last_known_stop_block_time = stream.primitive_get_last_known_stop_block_time();
    proof {
        reveal_strlit("Scheduled");
        reveal_strlit("Running");
        reveal_strlit("Paused");
    }
    Ok(
        StreamEvent {
            version: stream.version,
            initialized: stream.initialized,
            name: stream.name,
            treasurer_address: stream.treasurer_address,
            rate_amount_units: stream.rate_amount_units,
            rate_interval_in_seconds: stream.rate_interval_in_seconds,
            start_utc: start_utc_seconds,
            cliff_vest_amount_units: stream.cliff_vest_amount_units,
            cliff_vest_percent: stream.cliff_vest_percent,
            beneficiary_address: stream.beneficiary_address,
            beneficiary_associated_token: stream.beneficiary_associated_token,
            treasury_address: stream.treasury_address,
            allocation_assigned_units: stream.allocation_assigned_units,
            allocation_reserved_units: 0,
            total_withdrawals_units: stream.total_withdrawals_units,
            last_withdrawal_units: stream.last_withdrawal_units,
            last_withdrawal_slot: stream.last_withdrawal_slot,
            last_withdrawal_block_time: stream.last_withdrawal_block_time,
            last_manual_stop_withdrawable_units_snap: stream.last_manual_stop_withdrawable_units_snap,
            last_manual_stop_slot: stream.last_manual_stop_slot,
            last_manual_stop_block_time: stream.last_manual_stop_block_time,
            last_manual_resume_remaining_allocation_units_snap:
                stream.last_manual_resume_remaining_allocation_units_snap,
            last_manual_resume_slot: stream.last_manual_resume_slot,
            last_manual_resume_block_time: stream.last_manual_resume_block_time,
            last_known_total_seconds_in_paused_status:
                stream.last_known_total_seconds_in_paused_status,
            last_auto_stop_block_time: stream.last_auto_stop_block_time,
            fee_payed_by_treasurer: stream.fee_payed_by_treasurer,
            status: status_name.to_owned(),
            is_manual_pause,
            cliff_units,
            current_block_time: now,
            seconds_since_start,
            est_depletion_time,
            funds_left_in_stream,
            funds_sent_to_beneficiary,
            withdrawable_units_while_paused: withdrawable_while_paused,
            non_stop_earning_units,
            missed_units_while_paused,
            entitled_earnings_units,
            withdrawable_units_while_running,
            beneficiary_remaining_allocation: unused_allocation,
            beneficiary_withdrawable_amount,
            last_known_stop_block_time,
            created_on_utc: stream.created_on_utc,
            category: stream.category,
            sub_category: stream.sub_category,
        },
    )
}

} // verus!
