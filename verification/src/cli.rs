//! Construction inputs for the client: the network selector with its
//! hard-coded per-network default contract addresses, and the optional
//! explicit overrides. Each contract address falls back to the selected
//! network's default when no override is given; the multicall helper's
//! default is the same well-known canonical deployment on every network.

use vstd::prelude::*;

use crate::addr::Address;

verus! {

/// The networks the client knows default contract addresses for.
#[derive(Clone, Copy, Debug, PartialEq, Eq, Structural)]
pub enum Network {
    Tethys,
    Mainnet,
}

/// Default gateway registry contract address on Tethys.
pub open spec fn tethys_gateway_registry() -> Seq<u8> {
    seq![0xabu8, 0x46u8, 0xf6u8, 0x88u8, 0xabu8, 0xa4u8, 0xfcu8, 0xd1u8, 0x92u8, 0x0fu8, 0x21u8, 0xe9u8, 0xbdu8, 0x16u8, 0xb2u8, 0x29u8, 0x31u8, 0x6du8, 0x8bu8, 0x0au8]
}

/// Default gateway registry contract address on Mainnet.
pub open spec fn mainnet_gateway_registry() -> Seq<u8> {
    seq![0x8au8, 0x90u8, 0xa1u8, 0xceu8, 0x5fu8, 0xa8u8, 0xcfu8, 0x71u8, 0xdeu8, 0x9eu8, 0x6fu8, 0x76u8, 0xb7u8, 0xd3u8, 0xc0u8, 0xb7u8, 0x2fu8, 0xebu8, 0x8cu8, 0x4bu8]
}

/// Default worker registration contract address on Tethys.
pub open spec fn tethys_worker_registration() -> Seq<u8> {
    seq![0xcdu8, 0x8eu8, 0x98u8, 0x3fu8, 0x8cu8, 0x42u8, 0x02u8, 0xb0u8, 0x08u8, 0x58u8, 0x25u8, 0xcfu8, 0x21u8, 0x83u8, 0x39u8, 0x27u8, 0xd1u8, 0xe2u8, 0xb6u8, 0xdcu8]
}

/// Default worker registration contract address on Mainnet.
pub open spec fn mainnet_worker_registration() -> Seq<u8> {
    seq![0x36u8, 0xe2u8, 0xb1u8, 0x47u8, 0xdbu8, 0x67u8, 0xe7u8, 0x6au8, 0xb6u8, 0x7au8, 0x4du8, 0x07u8, 0xc2u8, 0x93u8, 0x67u8, 0x0eu8, 0xbeu8, 0xfcu8, 0xaeu8, 0x4eu8]
}

/// Default network controller contract address on Tethys.
pub open spec fn tethys_network_controller() -> Seq<u8> {
    seq![0x68u8, 0xfcu8, 0x7eu8, 0x37u8, 0x59u8, 0x45u8, 0xd8u8, 0xc8u8, 0xdfu8, 0xb0u8, 0x05u8, 0x0cu8, 0x33u8, 0x7fu8, 0xf0u8, 0x9eu8, 0x96u8, 0x2du8, 0x97u8, 0x6du8]
}

/// Default network controller contract address on Mainnet.
pub open spec fn mainnet_network_controller() -> Seq<u8> {
    seq![0x4cu8, 0xf5u8, 0x80u8, 0x97u8, 0xd7u8, 0x90u8, 0xb1u8, 0x93u8, 0xd2u8, 0x2eu8, 0xd6u8, 0x33u8, 0xbfu8, 0x8bu8, 0x15u8, 0xc9u8, 0xbcu8, 0x4fu8, 0x0du8, 0xa7u8]
}

/// Default allocations viewer contract address on Tethys.
pub open spec fn tethys_allocations_viewer() -> Seq<u8> {
    seq![0xc0u8, 0xafu8, 0x64u8, 0x32u8, 0x94u8, 0x7du8, 0xb5u8, 0x1eu8, 0x0cu8, 0x17u8, 0x90u8, 0x50u8, 0xdau8, 0xf8u8, 0x01u8, 0xf1u8, 0x9du8, 0x40u8, 0xd2u8, 0xb7u8]
}

/// Default allocations viewer contract address on Mainnet.
pub open spec fn mainnet_allocations_viewer() -> Seq<u8> {
    seq![0x88u8, 0xceu8, 0x6du8, 0x8du8, 0x70u8, 0xdfu8, 0x9fu8, 0xe0u8, 0x49u8, 0x31u8, 0x5fu8, 0xd9u8, 0xd6u8, 0xc3u8, 0xd5u8, 0x91u8, 0x08u8, 0xc1u8, 0x5cu8, 0x4cu8]
}

/// The multicall helper's canonical deployment address, the same on every network.
pub open spec fn multicall_deployment() -> Seq<u8> {
    seq![0xcau8, 0x11u8, 0xbdu8, 0xe0u8, 0x59u8, 0x77u8, 0xb3u8, 0x63u8, 0x11u8, 0x67u8, 0x02u8, 0x88u8, 0x62u8, 0xbeu8, 0x2au8, 0x17u8, 0x39u8, 0x76u8, 0xcau8, 0x11u8]
}

/// An address from twenty literal bytes.
fn addr_from_array(b: &[u8; 20]) -> (r: Address)
    ensures
        r@ == b@,
{
    let mut v: Vec<u8> = Vec::new();
    let mut i: usize = 0;
    while i < 20
        invariant
            i <= 20,
            v@.len() == i,
            forall|j: int| 0 <= j < i ==> v@[j] == b@[j],
        decreases 20 - i,
    {
        v.push(b[i]);
        i = i + 1;
    }
    proof {
        assert(v@ =~= b@);
    }
    match Address::from_bytes(v) {
        Some(a) => a,
        None => unreached(),
    }
}

impl Network {

    /// The default gateway registry contract address of this network.
    pub fn gateway_registry_default_addr(&self) -> (r: Address)
        ensures
            *self is Tethys ==> r@ == tethys_gateway_registry(),
            *self is Mainnet ==> r@ == mainnet_gateway_registry(),
    {
        match self {
            Network::Tethys => {
                let a = addr_from_array(&[0xab, 0x46, 0xf6, 0x88, 0xab, 0xa4, 0xfc, 0xd1, 0x92, 0x0f, 0x21, 0xe9, 0xbd, 0x16, 0xb2, 0x29, 0x31, 0x6d, 0x8b, 0x0a]);
                proof {
                    assert(a@ =~= tethys_gateway_registry());
                }
                a
            },
            Network::Mainnet => {
                let a = addr_from_array(&[0x8a, 0x90, 0xa1, 0xce, 0x5f, 0xa8, 0xcf, 0x71, 0xde, 0x9e, 0x6f, 0x76, 0xb7, 0xd3, 0xc0, 0xb7, 0x2f, 0xeb, 0x8c, 0x4b]);
                proof {
                    assert(a@ =~= mainnet_gateway_registry());
                }
                a
            },
        }
    }

    /// The default worker registration contract address of this network.
    pub fn worker_registration_default_addr(&self) -> (r: Address)
        ensures
            *self is Tethys ==> r@ == tethys_worker_registration(),
            *self is Mainnet ==> r@ == mainnet_worker_registration(),
    {
        match self {
            Network::Tethys => {
                let a = addr_from_array(&[0xcd, 0x8e, 0x98, 0x3f, 0x8c, 0x42, 0x02, 0xb0, 0x08, 0x58, 0x25, 0xcf, 0x21, 0x83, 0x39, 0x27, 0xd1, 0xe2, 0xb6, 0xdc]);
                proof {
                    assert(a@ =~= tethys_worker_registration());
                }
                a
            },
            Network::Mainnet => {
                let a = addr_from_array(&[0x36, 0xe2, 0xb1, 0x47, 0xdb, 0x67, 0xe7, 0x6a, 0xb6, 0x7a, 0x4d, 0x07, 0xc2, 0x93, 0x67, 0x0e, 0xbe, 0xfc, 0xae, 0x4e]);
                proof {
                    assert(a@ =~= mainnet_worker_registration());
                }
                a
            },
        }
    }

    /// The default network controller contract address of this network.
    pub fn network_controller_default_addr(&self) -> (r: Address)
        ensures
            *self is Tethys ==> r@ == tethys_network_controller(),
            *self is Mainnet ==> r@ == mainnet_network_controller(),
    {
        match self {
            Network::Tethys => {
                let a = addr_from_array(&[0x68, 0xfc, 0x7e, 0x37, 0x59, 0x45, 0xd8, 0xc8, 0xdf, 0xb0, 0x05, 0x0c, 0x33, 0x7f, 0xf0, 0x9e, 0x96, 0x2d, 0x97, 0x6d]);
                proof {
                    assert(a@ =~= tethys_network_controller());
                }
                a
            },
            Network::Mainnet => {
                let a = addr_from_array(&[0x4c, 0xf5, 0x80, 0x97, 0xd7, 0x90, 0xb1, 0x93, 0xd2, 0x2e, 0xd6, 0x33, 0xbf, 0x8b, 0x15, 0xc9, 0xbc, 0x4f, 0x0d, 0xa7]);
                proof {
                    assert(a@ =~= mainnet_network_controller());
                }
                a
            },
        }
    }

    /// The default allocations viewer contract address of this network.
    pub fn allocations_viewer_default_addr(&self) -> (r: Address)
        ensures
            *self is Tethys ==> r@ == tethys_allocations_viewer(),
            *self is Mainnet ==> r@ == mainnet_allocations_viewer(),
    {
        match self {
            Network::Tethys => {
                let a = addr_from_array(&[0xc0, 0xaf, 0x64, 0x32, 0x94, 0x7d, 0xb5, 0x1e, 0x0c, 0x17, 0x90, 0x50, 0xda, 0xf8, 0x01, 0xf1, 0x9d, 0x40, 0xd2, 0xb7]);
                proof {
                    assert(a@ =~= tethys_allocations_viewer());
                }
                a
            },
            Network::Mainnet => {
                let a = addr_from_array(&[0x88, 0xce, 0x6d, 0x8d, 0x70, 0xdf, 0x9f, 0xe0, 0x49, 0x31, 0x5f, 0xd9, 0xd6, 0xc3, 0xd5, 0x91, 0x08, 0xc1, 0x5c, 0x4c]);
                proof {
                    assert(a@ =~= mainnet_allocations_viewer());
                }
                a
            },
        }
    }

    /// The multicall helper's default address: the canonical deployment,
    /// identical on every network.
    pub fn multicall_default_addr(&self) -> (r: Address)
        ensures
            r@ == multicall_deployment(),
    {
        let a = addr_from_array(&[0xca, 0x11, 0xbd, 0xe0, 0x59, 0x77, 0xb3, 0x63, 0x11, 0x67, 0x02, 0x88, 0x62, 0xbe, 0x2a, 0x17, 0x39, 0x76, 0xca, 0x11]);
        proof {
            assert(a@ =~= multicall_deployment());
        }
        a
    }
}

/// Explicit contract-address overrides; any that is absent falls back to
/// the selected network's default.
pub struct ContractAddrs {
    pub gateway_registry_contract_addr: Option<Address>,
    pub worker_registration_contract_addr: Option<Address>,
    pub network_controller_contract_addr: Option<Address>,
    pub allocations_viewer_contract_addr: Option<Address>,
    pub multicall_contract_addr: Option<Address>,
}

/// The constructor input for the client: RPC endpoint of the chain the
/// contracts live on, optional separate endpoint of the anchor chain
/// (the primary stands in for it when absent), the network selector and the
/// optional contract-address overrides.
pub struct RpcArgs {
    pub rpc_url: String,
    pub l1_rpc_url: Option<String>,
    pub contract_addrs: ContractAddrs,
    pub network: Network,
}


/// The gateway-registry address an argument set resolves to.
pub open spec fn resolved_gateway_registry(args: RpcArgs) -> Seq<u8> {
    match args.contract_addrs.gateway_registry_contract_addr {
        Some(a) => a@,
        None => match args.network {
            Network::Tethys => tethys_gateway_registry(),
            Network::Mainnet => mainnet_gateway_registry(),
        },
    }
}

/// The worker-registration address an argument set resolves to.
pub open spec fn resolved_worker_registration(args: RpcArgs) -> Seq<u8> {
    match args.contract_addrs.worker_registration_contract_addr {
        Some(a) => a@,
        None => match args.network {
            Network::Tethys => tethys_worker_registration(),
            Network::Mainnet => mainnet_worker_registration(),
        },
    }
}

/// The network-controller address an argument set resolves to.
pub open spec fn resolved_network_controller(args: RpcArgs) -> Seq<u8> {
    match args.contract_addrs.network_controller_contract_addr {
        Some(a) => a@,
        None => match args.network {
            Network::Tethys => tethys_network_controller(),
            Network::Mainnet => mainnet_network_controller(),
        },
    }
}

/// The allocations-viewer address an argument set resolves to.
pub open spec fn resolved_allocations_viewer(args: RpcArgs) -> Seq<u8> {
    match args.contract_addrs.allocations_viewer_contract_addr {
        Some(a) => a@,
        None => match args.network {
            Network::Tethys => tethys_allocations_viewer(),
            Network::Mainnet => mainnet_allocations_viewer(),
        },
    }
}

/// The multicall helper address an argument set resolves to.
pub open spec fn resolved_multicall(args: RpcArgs) -> Seq<u8> {
    match args.contract_addrs.multicall_contract_addr {
        Some(a) => a@,
        None => multicall_deployment(),
    }
}

impl RpcArgs {

    /// The gateway registry contract address: the override when given,
    /// else the network's default.
    pub fn gateway_registry_addr(&self) -> (r: Address)
        ensures
            r@ == resolved_gateway_registry(*self),
    {
        match &self.contract_addrs.gateway_registry_contract_addr {
            Some(a) => a.clone(),
            None => self.network.gateway_registry_default_addr(),
        }
    }

    /// The worker registration contract address: the override when given,
    /// else the network's default.
    pub fn worker_registration_addr(&self) -> (r: Address)
        ensures
            r@ == resolved_worker_registration(*self),
    {
        match &self.contract_addrs.worker_registration_contract_addr {
            Some(a) => a.clone(),
            None => self.network.worker_registration_default_addr(),
        }
    }

    /// The network controller contract address: the override when given,
    /// else the network's default.
    pub fn network_controller_addr(&self) -> (r: Address)
        ensures
            r@ == resolved_network_controller(*self),
    {
        match &self.contract_addrs.network_controller_contract_addr {
            Some(a) => a.clone(),
            None => self.network.network_controller_default_addr(),
        }
    }

    /// The allocations viewer contract address: the override when given,
    /// else the network's default.
    pub fn allocations_viewer_addr(&self) -> (r: Address)
        ensures
            r@ == resolved_allocations_viewer(*self),
    {
        match &self.contract_addrs.allocations_viewer_contract_addr {
            Some(a) => a.clone(),
            None => self.network.allocations_viewer_default_addr(),
        }
    }

    /// The multicall helper contract address: the override when given, else
    /// the canonical deployment.
    pub fn multicall_addr(&self) -> (r: Address)
        ensures
            r@ == resolved_multicall(*self),
    {
        match &self.contract_addrs.multicall_contract_addr {
            Some(a) => a.clone(),
            None => self.network.multicall_default_addr(),
        }
    }

    /// The RPC endpoint the anchor chain is read over: the separate anchor
    /// endpoint when configured, else the primary one stands in for it.
    pub fn anchor_rpc_url(&self) -> (r: &String)
        ensures
            self.l1_rpc_url matches Some(u) ==> r@ == u@,
            self.l1_rpc_url is None ==> r@ == self.rpc_url@,
    {
        match &self.l1_rpc_url {
            Some(u) => u,
            None => &self.rpc_url,
        }
    }
}

} // verus!
