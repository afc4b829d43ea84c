//! Per-gateway compute-unit entitlements. The gateway's strategy contract
//! decides how its budget is spread over the workers; when that strategy is
//! the network's default one — known to split evenly — a single fetched value
//! stands for every worker, otherwise one value is fetched per worker in one
//! batched round trip.

use vstd::prelude::*;

use crate::addr::Address;
use crate::peer::PeerId;
use crate::u256::U256;
use crate::worker::Worker;

verus! {

/// CU entitlement of one worker under one gateway for the current epoch.
pub struct Allocation {
    pub worker_peer_id: PeerId,
    pub worker_onchain_id: U256,
    pub computation_units: U256,
}

impl Clone for Allocation {
    /// A clone denotes the same entitlement.
    fn clone(&self) -> (r: Self)
        ensures
            r.worker_peer_id@ == self.worker_peer_id@,
            r.worker_onchain_id == self.worker_onchain_id,
            r.computation_units == self.computation_units,
    {
        Allocation {
            worker_peer_id: self.worker_peer_id.clone(),
            worker_onchain_id: self.worker_onchain_id,
            computation_units: self.computation_units,
        }
    }
}

/// The contract calls one allocation query needs. Planning is separate from
/// execution so that the call count is pinned down: an empty worker list
/// issues no call at all, the default strategy issues exactly one.
pub enum AllocationCalls {
    /// The worker list is empty: the result is empty without any call.
    NoCalls,
    /// The gateway uses the network's default strategy, which splits compute
    /// units evenly: query the first worker once and replicate the value.
    SingleCall { worker_onchain_id: U256 },
    /// Any other strategy: query every worker, batched into one round trip.
    BatchCalls { worker_onchain_ids: Vec<U256> },
}

/// Decides which strategy-contract calls an allocation query must issue for
/// the given workers, given the gateway's resolved strategy address and the
/// registry's default strategy address. The single-call shortcut applies
/// exactly when the two addresses are equal.
pub fn plan_allocation_calls(
    workers: &Vec<Worker>,
    strategy_addr: &Address,
    default_strategy_addr: &Address,
) -> (r: AllocationCalls)
    ensures
        r is NoCalls <==> workers@.len() == 0,
        workers@.len() > 0 && strategy_addr@ == default_strategy_addr@ ==> r == (
        AllocationCalls::SingleCall { worker_onchain_id: workers@[0].onchain_id }),
        workers@.len() > 0 && strategy_addr@ != default_strategy_addr@ ==> r is BatchCalls,
        r matches AllocationCalls::BatchCalls { worker_onchain_ids } ==> worker_onchain_ids@
            =~= workers@.map_values(|w: Worker| w.onchain_id),
{
    if workers.len() == 0 {
        return AllocationCalls::NoCalls;
    }
    if strategy_addr == default_strategy_addr {
        return AllocationCalls::SingleCall { worker_onchain_id: workers[0].onchain_id };
    }
    let mut worker_onchain_ids: Vec<U256> = Vec::new();
    let mut i: usize = 0;
    while i < workers.len()
        invariant
            i <= workers@.len(),
            worker_onchain_ids@.len() == i,
            forall|j: int| 0 <= j < i ==> worker_onchain_ids@[j] == workers@[j].onchain_id,
        decreases workers@.len() - i,
    {
        worker_onchain_ids.push(workers[i].onchain_id);
        i = i + 1;
    }
    proof {
        assert(worker_onchain_ids@ =~= workers@.map_values(|w: Worker| w.onchain_id));
    }
    AllocationCalls::BatchCalls { worker_onchain_ids }
}

/// Pairs every worker with the one compute-unit figure fetched under the
/// default strategy: all entitlements are identical and equal that figure.
pub fn allocations_uniform(workers: Vec<Worker>, cus_per_epoch: U256) -> (r: Vec<Allocation>)
    ensures
        r@.len() == workers@.len(),
        forall|i: int| 0 <= i < r@.len() ==> (#[trigger] r@[i]).worker_peer_id@
            == workers@[i].peer_id@ && r@[i].worker_onchain_id == workers@[i].onchain_id
            && r@[i].computation_units == cus_per_epoch,
{
    let mut out: Vec<Allocation> = Vec::new();
    let mut i: usize = 0;
    while i < workers.len()
        invariant
            i <= workers@.len(),
            out@.len() == i,
            forall|j: int| 0 <= j < i ==> (#[trigger] out@[j]).worker_peer_id@
                == workers@[j].peer_id@ && out@[j].worker_onchain_id == workers@[j].onchain_id
                && out@[j].computation_units == cus_per_epoch,
        decreases workers@.len() - i,
    {
        out.push(Allocation {
            worker_peer_id: workers[i].peer_id.clone(),
            worker_onchain_id: workers[i].onchain_id,
            computation_units: cus_per_epoch,
        });
        i = i + 1;
    }
    out
}

/// Pairs each worker positionally with the compute-unit figure fetched for
/// it: entry `i` of the result speaks of worker `i` and carries figure `i`.
/// Like the zip it is, the result stops at the shorter of the two lists.
pub fn allocations_zip(workers: Vec<Worker>, compute_units: &Vec<U256>) -> (r: Vec<Allocation>)
    ensures
        r@.len() == vstd::math::min(workers@.len() as int, compute_units@.len() as int),
        forall|i: int| 0 <= i < r@.len() ==> (#[trigger] r@[i]).worker_peer_id@
            == workers@[i].peer_id@ && r@[i].worker_onchain_id == workers@[i].onchain_id
            && r@[i].computation_units == compute_units@[i],
{
    let mut out: Vec<Allocation> = Vec::new();
    let mut i: usize = 0;
    let n = if workers.len() <= compute_units.len() {
        workers.len()
    } else {
        compute_units.len()
    };
    while i < n
        invariant
            i <= n,
            n == vstd::math::min(workers@.len() as int, compute_units@.len() as int),
            out@.len() == i,
            forall|j: int| 0 <= j < i ==> (#[trigger] out@[j]).worker_peer_id@
                == workers@[j].peer_id@ && out@[j].worker_onchain_id == workers@[j].onchain_id
                && out@[j].computation_units == compute_units@[j],
        decreases n - i,
    {
        out.push(Allocation {
            worker_peer_id: workers[i].peer_id.clone(),
            worker_onchain_id: workers[i].onchain_id,
            computation_units: compute_units[i],
        });
        i = i + 1;
    }
    out
}

} // verus!
