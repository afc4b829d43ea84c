use contract_client::addr::Address;
use contract_client::cli::{ContractAddrs, Network, RpcArgs};
use contract_client::client::ClientConfig;

#[test]
fn resolve_pins_defaults_and_strategy() {
    let args = RpcArgs {
        rpc_url: String::from("http://127.0.0.1:8545/"),
        l1_rpc_url: None,
        contract_addrs: ContractAddrs {
            gateway_registry_contract_addr: None,
            worker_registration_contract_addr: None,
            network_controller_contract_addr: None,
            allocations_viewer_contract_addr: None,
            multicall_contract_addr: None,
        },
        network: Network::Tethys,
    };
    let strategy = Address::parse("0x2222222222222222222222222222222222222222").unwrap();
    let config = ClientConfig::resolve(&args, strategy.clone());
    assert_eq!(config.gateway_registry, Network::Tethys.gateway_registry_default_addr());
    assert_eq!(config.worker_registration, Network::Tethys.worker_registration_default_addr());
    assert_eq!(config.network_controller, Network::Tethys.network_controller_default_addr());
    assert_eq!(config.allocations_viewer, Network::Tethys.allocations_viewer_default_addr());
    assert_eq!(config.multicall_contract_addr, Some(Network::Tethys.multicall_default_addr()));
    assert_eq!(config.default_strategy_addr, strategy);

    let copy = config.clone();
    assert_eq!(copy.gateway_registry, config.gateway_registry);
    assert_eq!(copy.default_strategy_addr, config.default_strategy_addr);
}
