//! Record checks and the treasury bookkeeping of a closed stream.
use vstd::prelude::*;
use crate::address::Address;
use crate::constants::{ACCOUNT_VERSION, STREAM_ACCOUNT_SIZE};
use crate::errors::ErrorCode;
use crate::stream::Stream;
use crate::treasury::Treasury;

verus! {

/// The checks of a stream record loaded with its treasury, in order.
pub open spec fn stream_record_check(
    stream: Stream,
    treasury_key: Address,
    associated_token_key: Address,
    data_len: u64,
) -> Result<(), ErrorCode> {
    if stream.treasury_address.bytes@ != treasury_key.bytes@ {
        Err(ErrorCode::InvalidTreasury)
    } else if stream.beneficiary_associated_token.bytes@ != associated_token_key.bytes@ {
        Err(ErrorCode::InvalidTreasury)
    } else if stream.version != ACCOUNT_VERSION {
        Err(ErrorCode::InvalidStreamVersion)
    } else if !stream.initialized {
        Err(ErrorCode::StreamNotInitialized)
    } else if data_len != STREAM_ACCOUNT_SIZE {
        Err(ErrorCode::InvalidStreamSize)
    } else {
        Ok(())
    }
}

/// Checks that a stream record belongs to the given treasury and mint, carries
/// the current version, is initialized and has the expected serialized size.
pub fn validate_stream(
    stream: &Stream,
    treasury_key: &Address,
    associated_token_key: &Address,
    data_len: u64,
) -> (r: Result<(), ErrorCode>)
    ensures
        r == stream_record_check(*stream, *treasury_key, *associated_token_key, data_len),
{
    if !(stream.treasury_address == *treasury_key) {
        return Err(ErrorCode::InvalidTreasury);
    }
    if !(stream.beneficiary_associated_token == *associated_token_key) {
        return Err(ErrorCode::InvalidTreasury);
    }
    if stream.version != ACCOUNT_VERSION {
        return Err(ErrorCode::InvalidStreamVersion);
    }
    if !stream.initialized {
        return Err(ErrorCode::StreamNotInitialized);
    }
    if data_len != STREAM_ACCOUNT_SIZE {
        return Err(ErrorCode::InvalidStreamSize);
    }
    Ok(())
}

/// The treasury once a stream has been closed: `deallocated_units` leave its
/// allocation, `transferred_out_units` leave its balance (neither going below
/// zero), and it counts one stream fewer.
pub open spec fn treasury_after_close(
    treasury: Treasury,
    transferred_out_units: u64,
    deallocated_units: u64,
    timestamp: u64,
    slot: u64,
) -> Treasury {
    Treasury {
        allocation_assigned_units: if treasury.allocation_assigned_units > deallocated_units {
            (treasury.allocation_assigned_units - deallocated_units) as u64
        } else {
            0
        },
        last_known_balance_slot: slot,
        last_known_balance_block_time: timestamp,
        last_known_balance_units: if treasury.last_known_balance_units > transferred_out_units {
            (treasury.last_known_balance_units - transferred_out_units) as u64
        } else {
            0
        },
        total_streams: (treasury.total_streams - 1) as u64,
        ..treasury
    }
}

/// Updates a treasury for a stream that is being closed.
pub fn close_stream_update_treasury(
    treasury: &mut Treasury,
    transferred_out_units: u64,
    deallocated_units: u64,
    timestamp: u64,
    slot: u64,
) -> (r: Result<(), ErrorCode>)
    requires
        deallocated_units >= transferred_out_units,
    ensures
        r is Ok <==> old(treasury).total_streams > 0,
        r is Ok ==> *final(treasury) == treasury_after_close(
            *old(treasury),
            transferred_out_units,
            deallocated_units,
            timestamp,
            slot,
        ),
        r is Err ==> r->Err_0 == ErrorCode::InvalidTotalStreamsInTreasury && *final(treasury)
            == *old(treasury),
{
    if treasury.total_streams == 0 {
        return Err(ErrorCode::InvalidTotalStreamsInTreasury);
    }
    if treasury.allocation_assigned_units > deallocated_units {
        treasury.allocation_assigned_units = treasury.allocation_assigned_units - deallocated_units;
    } else {
        treasury.allocation_assigned_units = 0;
    }
    treasury.last_known_balance_slot = slot;
    treasury.last_known_balance_block_time = timestamp;
    if treasury.last_known_balance_units > transferred_out_units {
        treasury.last_known_balance_units = treasury.last_known_balance_units
            - transferred_out_units;
    } else {
        treasury.last_known_balance_units = 0;
    }
    treasury.total_streams = treasury.total_streams - 1;
    Ok(())
}

} // verus!
