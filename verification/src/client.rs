//! The resolved configuration behind a client handle. Construction resolves
//! the five contract addresses from the argument set — override or network
//! default — and pins the default allocation strategy address, read from the
//! gateway registry once at start-up. The handle holding this configuration
//! is freely duplicated for long-lived concurrent tasks; every read it
//! serves goes back to these same addresses.

use vstd::prelude::*;

use crate::addr::Address;
use crate::cli::{
    resolved_allocations_viewer, resolved_gateway_registry, resolved_multicall,
    resolved_network_controller, resolved_worker_registration, RpcArgs,
};

verus! {

/// The contract addresses a client works against, fixed at construction.
pub struct ClientConfig {
    pub gateway_registry: Address,
    pub worker_registration: Address,
    pub network_controller: Address,
    pub allocations_viewer: Address,
    pub multicall_contract_addr: Option<Address>,
    /// The registry's default allocation strategy, read once at start-up;
    /// the even-split shortcut applies exactly to this address.
    pub default_strategy_addr: Address,
}

impl ClientConfig {
    /// Resolves every contract address from the argument set, and pins the
    /// default strategy address fetched from the gateway registry.
    pub fn resolve(rpc_args: &RpcArgs, default_strategy_addr: Address) -> (r: ClientConfig)
        ensures
            r.gateway_registry@ == resolved_gateway_registry(*rpc_args),
            r.worker_registration@ == resolved_worker_registration(*rpc_args),
            r.network_controller@ == resolved_network_controller(*rpc_args),
            r.allocations_viewer@ == resolved_allocations_viewer(*rpc_args),
            r.multicall_contract_addr matches Some(a) && a@ == resolved_multicall(*rpc_args),
            r.default_strategy_addr == default_strategy_addr,
    {
        ClientConfig {
            gateway_registry: rpc_args.gateway_registry_addr(),
            worker_registration: rpc_args.worker_registration_addr(),
            network_controller: rpc_args.network_controller_addr(),
            allocations_viewer: rpc_args.allocations_viewer_addr(),
            multicall_contract_addr: Some(rpc_args.multicall_addr()),
            default_strategy_addr,
        }
    }
}

impl Clone for ClientConfig {
    /// A duplicated handle works against the same addresses.
    fn clone(&self) -> (r: Self)
        ensures
            r.gateway_registry@ == self.gateway_registry@,
            r.worker_registration@ == self.worker_registration@,
            r.network_controller@ == self.network_controller@,
            r.allocations_viewer@ == self.allocations_viewer@,
            r.multicall_contract_addr is Some <==> self.multicall_contract_addr is Some,
            (r.multicall_contract_addr matches Some(a) ==> self.multicall_contract_addr matches
                Some(b) && a@ == b@),
            r.default_strategy_addr@ == self.default_strategy_addr@,
    {
        ClientConfig {
            gateway_registry: self.gateway_registry.clone(),
            worker_registration: self.worker_registration.clone(),
            network_controller: self.network_controller.clone(),
            allocations_viewer: self.allocations_viewer.clone(),
            multicall_contract_addr: match &self.multicall_contract_addr {
                Some(a) => Some(a.clone()),
                None => None,
            },
            default_strategy_addr: self.default_strategy_addr.clone(),
        }
    }
}

} // verus!
