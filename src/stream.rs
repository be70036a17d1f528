//! The stream record and the pure computations derived from it: cliff, vested
//! units, status, withdrawable amount and estimated depletion time.
use vstd::prelude::*;
use crate::address::Address;
use crate::constants::PERCENT_DENOMINATOR;
use crate::enums::StreamStatus;
use crate::errors::ErrorCode;
use crate::math::{
    lemma_below_full, lemma_budget_seconds_monotone, lemma_div_pos, lemma_fraction_le, lemma_mul_u64_fits_u128,
    lemma_scaled_div_monotone,
};

verus! {

/// One beneficiary's payment schedule, funded from a treasury.
#[derive(Debug, Clone, Copy)]
pub struct Stream {
    pub version: u8,
    pub initialized: bool,
    pub name: [u8; 32],
    pub treasurer_address: Address,
    pub rate_amount_units: u64,
    pub rate_interval_in_seconds: u64,
    /// The start time, in seconds once normalized (see `start_utc_in_seconds`).
    pub start_utc: u64,
    /// Units available as soon as the stream starts.
    pub cliff_vest_amount_units: u64,
    /// Deprecated: the cliff as parts per `PERCENT_DENOMINATOR` of the allocation.
    pub cliff_vest_percent: u64,
    pub beneficiary_address: Address,
    pub beneficiary_associated_token: Address,
    pub treasury_address: Address,
    /// Units ever committed to the stream.
    pub allocation_assigned_units: u64,
    /// Deprecated.
    pub allocation_reserved_units: u64,
    /// Units withdrawn by the beneficiary so far.
    pub total_withdrawals_units: u64,
    pub last_withdrawal_units: u64,
    pub last_withdrawal_slot: u64,
    pub last_withdrawal_block_time: u64,
    /// Withdrawable amount frozen by the last manual pause, reduced by the
    /// withdrawals made while paused.
    pub last_manual_stop_withdrawable_units_snap: u64,
    pub last_manual_stop_slot: u64,
    pub last_manual_stop_block_time: u64,
    pub last_manual_resume_remaining_allocation_units_snap: u64,
    pub last_manual_resume_slot: u64,
    pub last_manual_resume_block_time: u64,
    /// Seconds spent paused since the start, accumulated at each resume.
    pub last_known_total_seconds_in_paused_status: u64,
    /// Estimated moment at which the stream last ran out of allocation.
    pub last_auto_stop_block_time: u64,
    pub fee_payed_by_treasurer: bool,
    /// The start time in seconds once `start_utc` has been normalized; zero while
    /// `start_utc` still holds milliseconds.
    pub start_utc_in_seconds: u64,
    pub created_on_utc: u64,
    pub category: u8,
    pub sub_category: u8,
}

impl Stream {
    /// The start time in seconds.
    pub open spec fn start_seconds(self) -> int {
        if self.start_utc_in_seconds > 0 {
            self.start_utc as int
        } else {
            self.start_utc as int / 1000
        }
    }

    /// The last pause was a manual one and no resume followed it.
    pub open spec fn manually_paused(self) -> bool {
        self.last_manual_stop_block_time != 0
            && self.last_manual_stop_block_time > self.last_manual_resume_block_time
    }

    /// The later of the last auto-stop and the last manual stop.
    pub open spec fn last_known_stop(self) -> int {
        if self.last_auto_stop_block_time >= self.last_manual_stop_block_time {
            self.last_auto_stop_block_time as int
        } else {
            self.last_manual_stop_block_time as int
        }
    }

    /// The cliff as an absolute amount.
    pub open spec fn cliff(self) -> int {
        if self.cliff_vest_percent > 0 {
            self.cliff_vest_percent * self.allocation_assigned_units / (PERCENT_DENOMINATOR as int)
        } else {
            self.cliff_vest_amount_units as int
        }
    }

    pub open spec fn cliff_fits(self) -> bool {
        self.cliff() <= u64::MAX
    }

    /// The part of the allocation that vests over time.
    pub open spec fn streamable(self) -> int {
        self.allocation_assigned_units - self.cliff()
    }

    /// Seconds of streaming after which the streamable part has fully vested.
    pub open spec fn full_streaming_seconds(self) -> int {
        self.streamable() * self.rate_interval_in_seconds / (self.rate_amount_units as int)
    }

    /// Units vested, without the cliff, after `seconds` seconds of streaming.
    pub open spec fn streamed(self, seconds: int) -> int {
        if self.rate_interval_in_seconds == 0 {
            0
        } else if seconds >= self.full_streaming_seconds() {
            self.streamable()
        } else {
            self.rate_amount_units * seconds / (self.rate_interval_in_seconds as int)
        }
    }

    /// The vesting computation is free of arithmetic errors.
    pub open spec fn streaming_defined(self) -> bool {
        self.rate_interval_in_seconds == 0 || (self.cliff_fits() && self.cliff()
            <= self.allocation_assigned_units && self.rate_amount_units > 0)
    }

    /// Seconds of actual streaming at time `t`: elapsed time minus paused time.
    pub open spec fn streaming_seconds_at(self, t: u64) -> int {
        t - self.start_seconds() - self.last_known_total_seconds_in_paused_status
    }

    /// Units earned at time `t`: the cliff plus what has vested.
    pub open spec fn earned_at(self, t: u64) -> int {
        self.cliff() + self.streamed(self.streaming_seconds_at(t))
    }

    /// The status at time `t` can be computed without an arithmetic error.
    pub open spec fn status_defined(self, t: u64) -> bool {
        t < self.start_seconds() || self.manually_paused() || (self.cliff_fits()
            && self.streaming_defined() && self.streaming_seconds_at(t) >= 0)
    }

    /// The status at time `t`.
    pub open spec fn status_at(self, t: u64) -> StreamStatus {
        if t < self.start_seconds() {
            StreamStatus::Scheduled
        } else if self.manually_paused() {
            StreamStatus::Paused
        } else if self.allocation_assigned_units > self.earned_at(t) {
            StreamStatus::Running
        } else {
            StreamStatus::Paused
        }
    }

    /// Allocation that has not been withdrawn.
    pub open spec fn remaining(self) -> int {
        self.allocation_assigned_units - self.total_withdrawals_units
    }

    /// The withdrawable amount at time `t` can be computed without an error.
    pub open spec fn withdrawable_defined(self, t: u64) -> bool {
        self.total_withdrawals_units <= self.allocation_assigned_units && (self.remaining() == 0
            || (self.status_defined(t) && (self.status_at(t) == StreamStatus::Running
            ==> self.rate_interval_in_seconds != 0 && self.rate_amount_units != 0)))
    }

    /// The error reported when the withdrawable amount cannot be computed.
    pub open spec fn withdrawable_error(self, t: u64) -> ErrorCode {
        if self.total_withdrawals_units > self.allocation_assigned_units || !self.status_defined(
            t,
        ) {
            ErrorCode::Overflow
        } else {
            ErrorCode::InvalidArgument
        }
    }

    /// The amount the beneficiary can withdraw at time `t`.
    pub open spec fn withdrawable_at(self, t: u64) -> int {
        if self.remaining() == 0 {
            0
        } else {
            match self.status_at(t) {
                StreamStatus::Scheduled => 0,
                StreamStatus::Paused => if self.manually_paused() {
                    self.last_manual_stop_withdrawable_units_snap as int
                } else {
                    self.remaining()
                },
                StreamStatus::Running => {
                    let earned = if self.earned_at(t) >= self.total_withdrawals_units {
                        self.earned_at(t)
                    } else {
                        self.total_withdrawals_units as int
                    };
                    let while_running = earned - self.total_withdrawals_units;
                    if self.remaining() <= while_running {
                        self.remaining()
                    } else {
                        while_running
                    }
                },
            }
        }
    }

    /// Estimated moment at which the current allocation is fully vested, counting
    /// the time spent paused.
    pub open spec fn depletion_time(self) -> int {
        self.start_seconds() + self.full_streaming_seconds()
            + self.last_known_total_seconds_in_paused_status
    }

    /// The depletion estimate can be computed without an arithmetic error.
    pub open spec fn depletion_defined(self) -> bool {
        self.rate_interval_in_seconds == 0 || (self.streaming_defined() && self.depletion_time()
            <= u64::MAX)
    }

    /// The stream as it stands once its start time has been normalized to seconds.
    pub open spec fn with_start_normalized(self) -> Stream {
        if self.start_utc_in_seconds == 0 {
            Stream {
                start_utc: (self.start_utc / 1000) as u64,
                start_utc_in_seconds: (self.start_utc / 1000) as u64,
                ..self
            }
        } else {
            self
        }
    }

    /// The stream as it stands once a percentage cliff has been resolved to an amount.
    pub open spec fn with_cliff_resolved(self) -> Stream {
        Stream { cliff_vest_amount_units: self.cliff() as u64, cliff_vest_percent: 0, ..self }
    }

    /// The record invariant kept by every operation: withdrawals never exceed the
    /// allocation, the amount frozen by a manual pause fits in what is left, an
    /// automatic stop is always followed by the resume that reconciled it, and a
    /// manual pause on record was taken while the stream was running.
    pub open spec fn inv(self) -> bool {
        &&& self.total_withdrawals_units <= self.allocation_assigned_units
        &&& self.manually_paused() ==> self.last_manual_stop_withdrawable_units_snap
            + self.total_withdrawals_units <= self.allocation_assigned_units
        &&& self.last_auto_stop_block_time <= self.last_manual_resume_block_time
        &&& self.paused_while_running()
    }

    /// Every pause, resume and automatic stop on record happened no later than `t`.
    pub open spec fn events_before(self, t: u64) -> bool {
        &&& self.last_manual_stop_block_time <= t
        &&& self.last_manual_resume_block_time <= t
        &&& self.last_auto_stop_block_time <= t
    }

    /// Paused because the whole allocation has vested, not by hand.
    pub open spec fn auto_paused_at(self, t: u64) -> bool {
        self.status_at(t) == StreamStatus::Paused && !self.manually_paused()
    }

    /// A manual pause on record was taken while the stream was running: at the
    /// stop time, with the current allocation, it had not vested everything yet,
    /// and no automatic stop came after it.
    pub open spec fn paused_while_running(self) -> bool {
        self.manually_paused() ==> {
            &&& self.last_auto_stop_block_time <= self.last_manual_stop_block_time
            &&& self.cliff_fits()
            &&& self.streaming_defined()
            &&& self.start_seconds() + self.last_known_total_seconds_in_paused_status
                <= self.last_manual_stop_block_time
            &&& self.allocation_assigned_units > self.earned_at(self.last_manual_stop_block_time)
        }
    }

    /// Calculates the cliff amount.
    pub fn primitive_get_cliff_units(&self) -> (r: Result<u64, ErrorCode>)
        ensures
            r is Ok <==> self.cliff_fits(),
            r is Ok ==> r->Ok_0 == self.cliff(),
            r is Err ==> r->Err_0 == ErrorCode::Overflow,
    {
        if self.cliff_vest_percent > 0 {
            proof {
                lemma_mul_u64_fits_u128(self.cliff_vest_percent, self.allocation_assigned_units);
            }
            let product: u128 = (self.cliff_vest_percent as u128)
                * (self.allocation_assigned_units as u128);
            let units: u128 = product / (PERCENT_DENOMINATOR as u128);
            if units > u64::MAX as u128 {
                Err(ErrorCode::Overflow)
            } else {
                Ok(units as u64)
            }
        } else {
            Ok(self.cliff_vest_amount_units)
        }
    }

    /// Stores the cliff as an absolute amount and clears the deprecated percentage.
    pub fn save_effective_cliff(&mut self)
        requires
            old(self).cliff_fits(),
        ensures
            *final(self) == old(self).with_cliff_resolved(),
            final(self).cliff() == old(self).cliff(),
    {
        let cliff_units = if self.cliff_vest_percent > 0 {
            proof {
                lemma_mul_u64_fits_u128(self.cliff_vest_percent, self.allocation_assigned_units);
            }
            let product: u128 = (self.cliff_vest_percent as u128)
                * (self.allocation_assigned_units as u128);
            (product / (PERCENT_DENOMINATOR as u128)) as u64
        } else {
            self.cliff_vest_amount_units
        };
        self.cliff_vest_amount_units = cliff_units;
        self.cliff_vest_percent = 0;
    }

    /// Whether the stream was paused by hand and not resumed since.
    pub fn primitive_is_manually_paused(&self) -> (r: bool)
        ensures
            r == self.manually_paused(),
    {
        if self.last_manual_stop_block_time == 0 {
            return false;
        }
        self.last_manual_stop_block_time > self.last_manual_resume_block_time
    }

    /// The last known moment at which the stream stopped, automatically or by hand.
    pub fn primitive_get_last_known_stop_block_time(&self) -> (r: u64)
        ensures
            r == self.last_known_stop(),
    {
        if self.last_auto_stop_block_time >= self.last_manual_stop_block_time {
            self.last_auto_stop_block_time
        } else {
            self.last_manual_stop_block_time
        }
    }

    /// Units vested during `seconds` seconds of streaming, without the cliff and
    /// never more than the streamable part of the allocation.
    pub fn primitive_get_streamed_units(&self, seconds: u64) -> (r: Result<u64, ErrorCode>)
        ensures
            r is Ok <==> self.streaming_defined(),
            r is Ok ==> r->Ok_0 == self.streamed(seconds as int),
            r is Err ==> r->Err_0 == ErrorCode::Overflow,
    {
        if self.rate_interval_in_seconds == 0 {
            return Ok(0);
        }
        let cliff_units = self.primitive_get_cliff_units()?;
        if cliff_units > self.allocation_assigned_units || self.rate_amount_units == 0 {
            return Err(ErrorCode::Overflow);
        }
        let streamable_units = self.allocation_assigned_units - cliff_units;
        proof {
            lemma_mul_u64_fits_u128(streamable_units, self.rate_interval_in_seconds);
            lemma_mul_u64_fits_u128(self.rate_amount_units, seconds);
        }
        let streaming_seconds: u128 = (streamable_units as u128)
            * (self.rate_interval_in_seconds as u128) / (self.rate_amount_units as u128);
        if seconds as u128 >= streaming_seconds {
            return Ok(streamable_units);
        }
        proof {
            lemma_below_full(
                streamable_units as int,
                self.rate_interval_in_seconds as int,
                self.rate_amount_units as int,
                seconds as int,
            );
        }
        let streamed: u128 = (self.rate_amount_units as u128) * (seconds as u128)
            / (self.rate_interval_in_seconds as u128);
        Ok(streamed as u64)
    }

    /// Gets the start time in seconds.
    pub fn get_start_utc(&self) -> (r: Result<u64, ErrorCode>)
        ensures
            r is Ok,
            r->Ok_0 == self.start_seconds(),
    {
        if self.start_utc_in_seconds > 0 {
            return Ok(self.start_utc);
        }
        Ok(self.start_utc / 1000)
    }

    /// Normalizes the start time to seconds, once.
    pub fn update_start_utc(&mut self) -> (r: Result<(), ErrorCode>)
        ensures
            r is Ok,
            *final(self) == old(self).with_start_normalized(),
            final(self).start_seconds() == old(self).start_seconds(),
    {
        let start_utc_seconds = self.get_start_utc()?;
        if self.start_utc_in_seconds == 0 {
            self.start_utc = start_utc_seconds;
            self.start_utc_in_seconds = start_utc_seconds;
        }
        Ok(())
    }

    /// Gets the status at time `timestamp`.
    pub fn get_status(&self, timestamp: u64) -> (r: Result<StreamStatus, ErrorCode>)
        ensures
            r is Ok <==> self.status_defined(timestamp),
            r is Ok ==> r->Ok_0 == self.status_at(timestamp),
            r is Err ==> r->Err_0 == ErrorCode::Overflow,
    {
        let start_utc_seconds = self.get_start_utc()?;
        if start_utc_seconds > timestamp {
            return Ok(StreamStatus::Scheduled);
        }
        if self.primitive_is_manually_paused() {
            return Ok(StreamStatus::Paused);
        }
        let cliff_units = self.primitive_get_cliff_units()?;
        let seconds_since_start = timestamp - start_utc_seconds;
        let non_stop_streamed_units = self.primitive_get_streamed_units(seconds_since_start)?;
        if seconds_since_start < self.last_known_total_seconds_in_paused_status {
            return Err(ErrorCode::Overflow);
        }
        let actual_streamed_seconds = seconds_since_start
            - self.last_known_total_seconds_in_paused_status;
        let actual_streamed_units = self.primitive_get_streamed_units(actual_streamed_seconds)?;
        proof {
            self.lemma_streamed_bounds(actual_streamed_seconds as int);
            self.lemma_streamed_monotone(
                actual_streamed_seconds as int,
                seconds_since_start as int,
            );
        }
        let actual_earned_units = cliff_units + actual_streamed_units;
        if self.allocation_assigned_units > actual_earned_units {
            return Ok(StreamStatus::Running);
        }
        Ok(StreamStatus::Paused)
    }

    /// Estimated moment at which the current allocation is fully vested; `now`
    /// for a stream that pays its cliff only.
    pub fn get_est_depletion_blocktime(&self, now: u64) -> (r: Result<u64, ErrorCode>)
        ensures
            r is Ok <==> self.depletion_defined(),
            r is Ok && self.rate_interval_in_seconds == 0 ==> r->Ok_0 == now,
            r is Ok && self.rate_interval_in_seconds != 0 ==> r->Ok_0 == self.depletion_time(),
            r is Err ==> r->Err_0 == ErrorCode::Overflow,
    {
        if self.rate_interval_in_seconds == 0 {
            return Ok(now);
        }
        let cliff_units = self.primitive_get_cliff_units()?;
        if cliff_units > self.allocation_assigned_units || self.rate_amount_units == 0 {
            return Err(ErrorCode::Overflow);
        }
        let streamable_units = self.allocation_assigned_units - cliff_units;
        proof {
            lemma_mul_u64_fits_u128(streamable_units, self.rate_interval_in_seconds);
            lemma_div_pos(
                streamable_units as int * self.rate_interval_in_seconds as int,
                self.rate_amount_units as int,
            );
            lemma_scaled_div_monotone(
                1,
                streamable_units as int * self.rate_interval_in_seconds as int,
                u128::MAX as int,
                self.rate_amount_units as int,
            );
            assert(u128::MAX as int / self.rate_amount_units as int <= u128::MAX) by {
                lemma_fraction_le(1, u128::MAX as int, self.rate_amount_units as int);
            }
        }
        let streaming_seconds: u128 = (streamable_units as u128)
            * (self.rate_interval_in_seconds as u128) / (self.rate_amount_units as u128);
        let start_utc_seconds = self.get_start_utc()?;
        if streaming_seconds > (u64::MAX as u128) {
            return Err(ErrorCode::Overflow);
        }
        let streaming_seconds: u64 = streaming_seconds as u64;
        if streaming_seconds > u64::MAX - self.last_known_total_seconds_in_paused_status {
            return Err(ErrorCode::Overflow);
        }
        let duration_span_seconds = streaming_seconds
            + self.last_known_total_seconds_in_paused_status;
        if start_utc_seconds > u64::MAX - duration_span_seconds {
            return Err(ErrorCode::Overflow);
        }
        Ok(start_utc_seconds + duration_span_seconds)
    }

    /// Allocation that has not been withdrawn.
    pub fn get_remaining_allocation(&self) -> (r: Result<u64, ErrorCode>)
        ensures
            r is Ok <==> self.total_withdrawals_units <= self.allocation_assigned_units,
            r is Ok ==> r->Ok_0 == self.remaining(),
            r is Err ==> r->Err_0 == ErrorCode::Overflow,
    {
        if self.total_withdrawals_units > self.allocation_assigned_units {
            return Err(ErrorCode::Overflow);
        }
        Ok(self.allocation_assigned_units - self.total_withdrawals_units)
    }

    /// Gets the amount the beneficiary can withdraw at time `timestamp`.
    pub fn get_beneficiary_withdrawable_amount(&self, timestamp: u64) -> (r: Result<u64, ErrorCode>)
        ensures
            r is Ok <==> self.withdrawable_defined(timestamp),
            r is Ok ==> r->Ok_0 == self.withdrawable_at(timestamp),
            r is Err ==> r->Err_0 == self.withdrawable_error(timestamp),
    {
        let remaining_allocation = self.get_remaining_allocation()?;
        if remaining_allocation == 0 {
            return Ok(0);
        }
        let status = self.get_status(timestamp)?;
        if status == StreamStatus::Scheduled {
            return Ok(0);
        }
        if status == StreamStatus::Paused {
            if self.primitive_is_manually_paused() {
                return Ok(self.last_manual_stop_withdrawable_units_snap);
            }
            return Ok(remaining_allocation);
        }
        if self.rate_interval_in_seconds == 0 || self.rate_amount_units == 0 {
            return Err(ErrorCode::InvalidArgument);
        }
        let cliff_units = self.primitive_get_cliff_units()?;
        let start_utc_seconds = self.get_start_utc()?;
        let seconds_since_start = timestamp - start_utc_seconds;
        let actual_streamed_seconds = seconds_since_start
            - self.last_known_total_seconds_in_paused_status;
        let actual_streamed_units = self.primitive_get_streamed_units(actual_streamed_seconds)?;
        proof {
            self.lemma_streamed_bounds(actual_streamed_seconds as int);
        }
        let mut actual_earned_units = cliff_units + actual_streamed_units;
        // Streams topped up after running dry may compute fewer earned units than
        // already withdrawn; never report a negative withdrawable amount.
        if actual_earned_units < self.total_withdrawals_units {
            actual_earned_units = self.total_withdrawals_units;
        }
        let withdrawable_units_while_running = actual_earned_units - self.total_withdrawals_units;
        if remaining_allocation <= withdrawable_units_while_running {
            Ok(remaining_allocation)
        } else {
            Ok(withdrawable_units_while_running)
        }
    }

    /// Total funds handed to the beneficiary: withdrawn plus withdrawable.
    pub fn get_funds_sent_to_beneficiary(&self, timestamp: u64) -> (r: Result<u64, ErrorCode>)
        ensures
            r is Ok <==> self.withdrawable_defined(timestamp) && self.total_withdrawals_units
                + self.withdrawable_at(timestamp) <= u64::MAX,
            r is Ok ==> r->Ok_0 == self.total_withdrawals_units + self.withdrawable_at(timestamp),
            r is Err && self.withdrawable_defined(timestamp) ==> r->Err_0 == ErrorCode::Overflow,
            r is Err && !self.withdrawable_defined(timestamp) ==> r->Err_0
                == self.withdrawable_error(timestamp),
    {
        let withdrawable = self.get_beneficiary_withdrawable_amount(timestamp)?;
        if withdrawable > u64::MAX - self.total_withdrawals_units {
            return Err(ErrorCode::Overflow);
        }
        Ok(self.total_withdrawals_units + withdrawable)
    }

    /// Funds of the stream that are neither withdrawn nor withdrawable.
    pub fn get_funds_left_in_account(&self, timestamp: u64) -> (r: Result<u64, ErrorCode>)
        ensures
            r is Ok <==> self.withdrawable_defined(timestamp) && self.withdrawable_at(timestamp)
                <= self.remaining(),
            r is Ok ==> r->Ok_0 == self.remaining() - self.withdrawable_at(timestamp),
            r is Err && self.withdrawable_defined(timestamp) ==> r->Err_0 == ErrorCode::Overflow,
            r is Err && !self.withdrawable_defined(timestamp) ==> r->Err_0
                == self.withdrawable_error(timestamp),
    {
        let withdrawable = self.get_beneficiary_withdrawable_amount(timestamp)?;
        let remaining_allocation = self.allocation_assigned_units - self.total_withdrawals_units;
        if withdrawable > remaining_allocation {
            return Err(ErrorCode::Overflow);
        }
        Ok(remaining_allocation - withdrawable)
    }

    /// What can be withdrawn at any moment, added to what was withdrawn before,
    /// never exceeds the stream's allocation.
    pub proof fn lemma_withdrawable_within_allocation(self, t: u64)
        requires
            self.inv(),
            self.withdrawable_defined(t),
        ensures
            0 <= self.withdrawable_at(t),
            self.withdrawable_at(t) + self.total_withdrawals_units <= self.allocation_assigned_units,
    {
    }

    /// Topping up a stream whose cliff is stored as an amount keeps a manual pause
    /// on record a pause of a running stream: more allocation vests for longer.
    pub proof fn lemma_top_up_keeps_pause_record(self, amount: u64)
        requires
            self.paused_while_running(),
            self.cliff_vest_percent == 0,
            self.allocation_assigned_units + amount <= u64::MAX,
        ensures
            (Stream {
                allocation_assigned_units: (self.allocation_assigned_units + amount) as u64,
                ..self
            }).paused_while_running(),
    {
        let t = Stream {
            allocation_assigned_units: (self.allocation_assigned_units + amount) as u64,
            ..self
        };
        if self.manually_paused() && self.rate_interval_in_seconds != 0 {
            let x = self.streaming_seconds_at(self.last_manual_stop_block_time);
            lemma_budget_seconds_monotone(
                self.streamable(),
                t.streamable(),
                self.rate_interval_in_seconds as int,
                self.rate_amount_units as int,
            );
            assert(x < self.full_streaming_seconds());
            assert(t.streamed(x) == self.streamed(x));
        }
    }

    /// What has vested never exceeds the streamable part of the allocation.
    pub proof fn lemma_streamed_bounds(self, seconds: int)
        requires
            self.streaming_defined(),
            seconds >= 0,
        ensures
            0 <= self.streamed(seconds),
            self.rate_interval_in_seconds != 0 ==> self.streamed(seconds) <= self.streamable(),
            self.cliff() + self.streamed(seconds) <= self.allocation_assigned_units
                || self.rate_interval_in_seconds == 0,
    {
        if self.rate_interval_in_seconds != 0 && seconds < self.full_streaming_seconds() {
            lemma_below_full(
                self.streamable(),
                self.rate_interval_in_seconds as int,
                self.rate_amount_units as int,
                seconds,
            );
        }
    }

    /// Vesting never goes backwards in time.
    pub proof fn lemma_streamed_monotone(self, s1: int, s2: int)
        requires
            self.streaming_defined(),
            0 <= s1 <= s2,
        ensures
            self.streamed(s1) <= self.streamed(s2),
    {
        if self.rate_interval_in_seconds != 0 {
            let full = self.full_streaming_seconds();
            if s1 < full {
                lemma_below_full(
                    self.streamable(),
                    self.rate_interval_in_seconds as int,
                    self.rate_amount_units as int,
                    s1,
                );
                if s2 < full {
                    lemma_scaled_div_monotone(
                        self.rate_amount_units as int,
                        s1,
                        s2,
                        self.rate_interval_in_seconds as int,
                    );
                }
            }
        }
    }
}

} // verus!
