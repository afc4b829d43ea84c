use contract_client::addr::Address;
use contract_client::cli::{ContractAddrs, Network, RpcArgs};

fn no_overrides() -> ContractAddrs {
    ContractAddrs {
        gateway_registry_contract_addr: None,
        worker_registration_contract_addr: None,
        network_controller_contract_addr: None,
        allocations_viewer_contract_addr: None,
        multicall_contract_addr: None,
    }
}

#[test]
fn parse_roundtrips_known_address() {
    let a = Address::parse("0xcA11bde05977b3631167028862bE2a173976CA11").unwrap();
    let expected: Vec<u8> = vec![
        0xca, 0x11, 0xbd, 0xe0, 0x59, 0x77, 0xb3, 0x63, 0x11, 0x67, 0x02, 0x88, 0x62, 0xbe, 0x2a,
        0x17, 0x39, 0x76, 0xca, 0x11,
    ];
    assert_eq!(a.as_bytes(), &expected);
    assert_eq!(a, Address::from_bytes(expected).unwrap());
}

#[test]
fn parse_rejects_malformed_literals() {
    assert!(Address::parse("cA11bde05977b3631167028862bE2a173976CA11").is_none());
    assert!(Address::parse("0xcA11bde05977b3631167028862bE2a173976CA1").is_none());
    assert!(Address::parse("0xcA11bde05977b3631167028862bE2a173976CA111").is_none());
    assert!(Address::parse("0xgA11bde05977b3631167028862bE2a173976CA11").is_none());
    assert!(Address::parse("").is_none());
    assert!(Address::parse("0x").is_none());
}

#[test]
fn zero_address_is_zero() {
    let z = Address::parse("0x0000000000000000000000000000000000000000").unwrap();
    assert!(z.is_zero());
    assert_eq!(z, Address::zero());
    let nz = Address::parse("0x0000000000000000000000000000000000000001").unwrap();
    assert!(!nz.is_zero());
    assert_ne!(nz, Address::zero());
}

#[test]
fn from_bytes_needs_twenty() {
    assert!(Address::from_bytes(vec![0u8; 19]).is_none());
    assert!(Address::from_bytes(vec![0u8; 21]).is_none());
    assert!(Address::from_bytes(vec![7u8; 20]).is_some());
}

#[test]
fn network_defaults_match_known_deployments() {
    let cases: Vec<(Address, &str)> = vec![
        (
            Network::Tethys.gateway_registry_default_addr(),
            "0xAB46F688AbA4FcD1920F21E9BD16B229316D8b0a",
        ),
        (
            Network::Mainnet.gateway_registry_default_addr(),
            "0x8A90A1cE5fa8Cf71De9e6f76B7d3c0B72feB8c4b",
        ),
        (
            Network::Tethys.worker_registration_default_addr(),
            "0xCD8e983F8c4202B0085825Cf21833927D1e2b6Dc",
        ),
        (
            Network::Mainnet.worker_registration_default_addr(),
            "0x36E2B147Db67E76aB67a4d07C293670EbeFcAE4E",
        ),
        (
            Network::Tethys.network_controller_default_addr(),
            "0x68Fc7E375945d8C8dFb0050c337Ff09E962D976D",
        ),
        (
            Network::Mainnet.network_controller_default_addr(),
            "0x4cf58097D790B193D22ed633bF8b15c9bc4F0da7",
        ),
        (
            Network::Tethys.allocations_viewer_default_addr(),
            "0xC0Af6432947db51e0C179050dAF801F19d40D2B7",
        ),
        (
            Network::Mainnet.allocations_viewer_default_addr(),
            "0x88CE6D8D70df9Fe049315fd9D6c3d59108C15c4C",
        ),
        (
            Network::Tethys.multicall_default_addr(),
            "0xcA11bde05977b3631167028862bE2a173976CA11",
        ),
        (
            Network::Mainnet.multicall_default_addr(),
            "0xcA11bde05977b3631167028862bE2a173976CA11",
        ),
    ];
    for (got, hex) in cases {
        assert_eq!(got, Address::parse(hex).unwrap());
    }
}

#[test]
fn override_wins_over_default() {
    let custom = Address::parse("0x1111111111111111111111111111111111111111").unwrap();
    let mut addrs = no_overrides();
    addrs.gateway_registry_contract_addr = Some(custom.clone());
    let args = RpcArgs {
        rpc_url: String::from("http://127.0.0.1:8545/"),
        l1_rpc_url: None,
        contract_addrs: addrs,
        network: Network::Mainnet,
    };
    assert_eq!(args.gateway_registry_addr(), custom);
    assert_eq!(
        args.worker_registration_addr(),
        Network::Mainnet.worker_registration_default_addr()
    );
    assert_eq!(
        args.network_controller_addr(),
        Network::Mainnet.network_controller_default_addr()
    );
    assert_eq!(
        args.allocations_viewer_addr(),
        Network::Mainnet.allocations_viewer_default_addr()
    );
    assert_eq!(args.multicall_addr(), Network::Mainnet.multicall_default_addr());
}

#[test]
fn anchor_url_falls_back_to_primary() {
    let args = RpcArgs {
        rpc_url: String::from("http://primary/"),
        l1_rpc_url: Some(String::from("http://anchor/")),
        contract_addrs: no_overrides(),
        network: Network::Tethys,
    };
    assert_eq!(args.anchor_rpc_url(), "http://anchor/");
    let args = RpcArgs {
        rpc_url: String::from("http://primary/"),
        l1_rpc_url: None,
        contract_addrs: no_overrides(),
        network: Network::Tethys,
    };
    assert_eq!(args.anchor_rpc_url(), "http://primary/");
}
