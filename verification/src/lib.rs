//! On-chain registry and allocation read-model for a decentralized
//! data-serving network.
//!
//! The library computes, from values read off two EVM-compatible chains,
//! which peers (workers and gateways) currently participate in the network,
//! how many compute units each gateway-worker pair is entitled to for the
//! running epoch, and the deduplicated membership set that feeds the
//! transport layer. All decision logic is verified; the network transport
//! that fetches raw values lives outside this crate and hands them in as
//! plain data.

use vstd::prelude::*;

pub mod addr;
pub mod allocation;
pub mod cli;
pub mod client;
pub mod cluster;
pub mod epoch;
pub mod gateways;
pub mod membership;
pub mod messages;
pub mod pagination;
pub mod peer;
pub mod u256;
pub mod worker;

verus! {

/// The error kinds that facade operations surface to callers.
#[derive(Clone, Copy, Debug, PartialEq, Eq, Structural)]
pub enum ClientError {
    /// Transport or RPC failure: connection or node-level error.
    Transport,
    /// Contract revert or response decode failure.
    Contract,
    /// The anchor-chain block needed to timestamp the epoch start does not
    /// exist; there is no fallback block, so this is a hard failure.
    BlockNotFound,
    /// A peer-identifier byte blob read from the chain does not decode.
    InvalidPeerId,
}

} // verus!
