//! Properties that relate several operations, or one computation at several
//! moments, proved over the specifications of the operations.
use vstd::prelude::*;
use crate::enums::StreamStatus;
use crate::errors::ErrorCode;
use crate::fees::FeeSchedule;
use crate::math::lemma_full_seconds_within_budget;
use crate::operations::{
    allocate_check, pause_check, resume_check, stream_after_allocate, stream_after_pause,
    stream_after_resume,
};
use crate::stream::Stream;
use crate::treasury::Treasury;

verus! {

/// With no event in between, a stream's status only moves forward in time:
/// `Scheduled`, then `Running`, then `Paused`, never back.
pub proof fn lemma_status_monotone(s: Stream, t1: u64, t2: u64)
    requires
        t1 <= t2,
        s.status_defined(t1),
        s.status_defined(t2),
    ensures
        s.status_at(t1).rank() <= s.status_at(t2).rank(),
{
    if t1 >= s.start_seconds() && !s.manually_paused() {
        s.lemma_streamed_monotone(s.streaming_seconds_at(t1), s.streaming_seconds_at(t2));
    }
}

/// Resuming a stream that was paused by hand while running, then asking for its
/// status at the same moment, finds it running; a stream with nothing left to
/// pay is never resumed.
pub proof fn lemma_resume_then_running(s: Stream, treasury: Treasury, now: u64, slot: u64)
    requires
        s.inv(),
    ensures
        resume_check(s, treasury, now) is Ok ==> s.remaining() > 0 && stream_after_resume(
            s,
            now,
            slot,
        ).status_at(now) == StreamStatus::Running,
        s.remaining() == 0 ==> resume_check(s, treasury, now) is Err,
{
    if resume_check(s, treasury, now) is Ok {
        let p = stream_after_resume(s, now, slot);
        let stop = s.last_manual_stop_block_time;
        assert(s.manually_paused());
        assert(s.last_known_stop() == stop);
        assert(p.start_seconds() == s.start_seconds());
        assert(p.cliff() == s.cliff());
        assert(p.streaming_seconds_at(now) == s.streaming_seconds_at(stop));
        assert(p.earned_at(now) == s.earned_at(stop));
    }
}

/// A stream that stopped because its allocation had vested cannot be resumed by
/// hand: resuming fails with `CannotResumeAutoPausedStream`.
pub proof fn lemma_auto_paused_cannot_resume(s: Stream, treasury: Treasury, now: u64)
    requires
        s.inv(),
        s.events_before(now),
        !treasury.is_locked(),
        s.status_defined(now),
        s.auto_paused_at(now),
        s.remaining() > 0,
        s.last_manual_stop_block_time != now,
    ensures
        resume_check(s, treasury, now) == Err::<(), ErrorCode>(
            ErrorCode::CannotResumeAutoPausedStream,
        ),
{
}

/// A top-up of a stream that stopped because its allocation had vested restarts
/// it, provided the new allocation lasts at least one second longer.
pub proof fn lemma_allocation_restarts_auto_paused(
    s: Stream,
    treasury: Treasury,
    amount: u64,
    now: u64,
    slot: u64,
    fees: FeeSchedule,
)
    requires
        s.events_before(now),
        s.auto_paused_at(now),
        allocate_check(s, treasury, amount, now, fees) is Ok,
        (s.streamable() + amount) * s.rate_interval_in_seconds / (s.rate_amount_units as int)
            > s.full_streaming_seconds(),
    ensures
        stream_after_allocate(s, amount, now, slot).status_at(now) == StreamStatus::Running,
{
    let r = s.with_cliff_resolved();
    assert(r.auto_paused_at(now));
    lemma_full_seconds_within_budget(
        s.streamable(),
        s.rate_interval_in_seconds as int,
        s.rate_amount_units as int,
    );
}

/// Pausing and resuming at the same instant is refused: the resume fails.
pub proof fn lemma_pause_resume_same_instant_fails(
    s: Stream,
    treasury: Treasury,
    now: u64,
    slot: u64,
)
    requires
        pause_check(s, treasury, now) is Ok,
    ensures
        resume_check(stream_after_pause(s, now, slot), treasury, now) is Err,
{
}

} // verus!
