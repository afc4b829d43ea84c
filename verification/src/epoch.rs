//! Epoch timing. The network controller exposes the current epoch number,
//! the block number of the next epoch's start and the epoch length; the
//! epoch's start time is never read directly but derived: the block
//! `nextEpoch - epochLength` is resolved against the anchor chain — the
//! controller's block numbers are always expressed in the anchor chain's
//! numbering, whichever chain the contracts are deployed on — and that
//! block's timestamp is the start time.

use vstd::prelude::*;

use crate::u256::U256;
use crate::ClientError;

verus! {

/// The current epoch number, narrowed to 32 bits. The chain is assumed never
/// to reach an epoch beyond that range, so wider values are ruled out rather
/// than handled.
pub fn epoch_number(raw: &U256) -> (r: u32)
    requires
        raw.as_int() <= u32::MAX,
    ensures
        r == raw.as_int(),
{
    match raw.try_to_u32() {
        Some(n) => n,
        None => unreached(),
    }
}

/// The anchor-chain block number at which the current epoch started:
/// `nextEpoch - epochLength`. The difference of two anchor-chain block
/// numbers never underflows nor exceeds 64 bits, so anything else is ruled
/// out rather than handled.
pub fn epoch_start_block(next_epoch: &U256, epoch_length: &U256) -> (r: u64)
    requires
        next_epoch.as_int() >= epoch_length.as_int(),
        next_epoch.as_int() - epoch_length.as_int() <= u64::MAX,
    ensures
        r == next_epoch.as_int() - epoch_length.as_int(),
{
    let diff = match next_epoch.checked_sub(epoch_length) {
        Some(d) => d,
        None => unreached(),
    };
    match diff.try_to_u64() {
        Some(b) => b,
        None => unreached(),
    }
}

/// The epoch start time, in seconds since the Unix epoch, from the outcome
/// of looking the start block up on the anchor chain: the block's timestamp
/// when the block exists, and the distinct block-not-found error — no other
/// kind — when it does not. No fallback block exists, so the failure is hard.
pub fn epoch_start_time(block_timestamp: Option<u64>) -> (r: Result<u64, ClientError>)
    ensures
        block_timestamp matches Some(t) ==> r == Ok::<u64, ClientError>(t),
        block_timestamp is None ==> r == Err::<u64, ClientError>(ClientError::BlockNotFound),
{
    match block_timestamp {
        Some(t) => Ok(t),
        None => Err(ClientError::BlockNotFound),
    }
}

} // verus!
