use contract_client::addr::Address;
use contract_client::gateways::{operator_registered, ActiveGatewaysQuery};
use contract_client::pagination::{PageCursor, PAGE_SIZE};
use contract_client::peer::PeerId;
use contract_client::u256::U256;
use contract_client::worker::{workers_from_chain, OnchainWorker, Worker};
use contract_client::ClientError;

/// A valid peer-id blob: a SHA-256 multihash (code 0x12, 32-byte digest).
fn peer_blob(tag: u8) -> Vec<u8> {
    let mut v = vec![0x12u8, 0x20];
    v.extend(std::iter::repeat(tag).take(32));
    v
}

fn onchain_worker(peer_id: Vec<u8>, deregistered_at: u128) -> OnchainWorker {
    OnchainWorker {
        peer_id,
        creator: Address::from_bytes(vec![9u8; 20]).unwrap(),
        bond: U256::from_u64(1_000),
        registered_at: 42,
        deregistered_at,
    }
}

#[test]
fn peer_id_accepts_what_the_transport_accepts() {
    let good = peer_blob(1);
    assert!(libp2p::PeerId::from_bytes(&good).is_ok());
    assert!(PeerId::from_bytes(good.clone()).is_some());
    assert_eq!(PeerId::from_bytes(good.clone()).unwrap().to_bytes(), &good);

    let truncated = vec![0x12u8, 0x20];
    assert!(libp2p::PeerId::from_bytes(&truncated).is_err());
    assert!(PeerId::from_bytes(truncated).is_none());

    assert!(PeerId::from_bytes(Vec::new()).is_none());
}

#[test]
fn worker_new_maps_zero_sentinel_to_none() {
    let w = Worker::new(onchain_worker(peer_blob(1), 0), U256::from_u64(7)).unwrap();
    assert_eq!(w.deregistered_at, None);
    assert_eq!(w.onchain_id, U256::from_u64(7));
    assert_eq!(w.registered_at, 42);
    assert_eq!(w.bond, U256::from_u64(1_000));
    assert_eq!(w.peer_id.to_bytes(), &peer_blob(1));
}

#[test]
fn worker_new_keeps_positive_deregistration() {
    let w = Worker::new(onchain_worker(peer_blob(1), 555), U256::from_u64(7)).unwrap();
    assert_eq!(w.deregistered_at, Some(555));
}

#[test]
fn worker_new_rejects_bad_peer_blob() {
    let r = Worker::new(onchain_worker(vec![0xff, 0xff], 0), U256::from_u64(7));
    assert_eq!(r.err(), Some(ClientError::InvalidPeerId));
}

#[test]
fn workers_from_chain_drops_bad_records_only() {
    let raw = vec![
        onchain_worker(peer_blob(1), 0),
        onchain_worker(vec![0x00], 0), // does not decode: dropped
        onchain_worker(peer_blob(3), 9),
    ];
    let ids = vec![U256::from_u64(10), U256::from_u64(11), U256::from_u64(12)];
    let workers = workers_from_chain(raw, &ids);
    assert_eq!(workers.len(), 2);
    assert_eq!(workers[0].peer_id.to_bytes(), &peer_blob(1));
    assert_eq!(workers[0].onchain_id, U256::from_u64(10));
    assert_eq!(workers[0].deregistered_at, None);
    assert_eq!(workers[1].peer_id.to_bytes(), &peer_blob(3));
    assert_eq!(workers[1].onchain_id, U256::from_u64(12));
    assert_eq!(workers[1].deregistered_at, Some(9));
}

#[test]
fn workers_from_chain_zips_to_shorter_list() {
    let raw = vec![
        onchain_worker(peer_blob(1), 0),
        onchain_worker(peer_blob(2), 0),
        onchain_worker(peer_blob(3), 0),
    ];
    let ids = vec![U256::from_u64(1), U256::from_u64(2)];
    assert_eq!(workers_from_chain(raw, &ids).len(), 2);
}

#[test]
fn page_cursor_counts_and_stops() {
    let mut c = PageCursor::new();
    assert_eq!(c.next_request(), Some(0));
    c.accept_page(PAGE_SIZE as usize);
    assert_eq!(c.next_request(), Some(1));
    c.accept_page(PAGE_SIZE as usize - 1);
    assert_eq!(c.next_request(), None);
}

#[test]
fn gateway_pagination_three_pages() {
    let mut q = ActiveGatewaysQuery::new();
    let page_sizes = [10000usize, 10000, 4321];
    let mut requests = 0usize;
    while let Some(idx) = q.next_request() {
        assert_eq!(idx as usize, requests);
        assert!(requests < page_sizes.len(), "more page requests than pages");
        let n = page_sizes[requests];
        let page: Vec<Vec<u8>> = (0..n).map(|k| peer_blob((k % 251) as u8)).collect();
        q = q.accept_page(page);
        requests += 1;
    }
    assert_eq!(requests, 3);
    assert_eq!(q.into_gateways().len(), 24321);
}

#[test]
fn gateway_pagination_short_first_page() {
    let mut q = ActiveGatewaysQuery::new();
    let mut requests = 0usize;
    while let Some(_) = q.next_request() {
        let page: Vec<Vec<u8>> = (0..5).map(|k| peer_blob(k as u8)).collect();
        q = q.accept_page(page);
        requests += 1;
    }
    assert_eq!(requests, 1);
    assert_eq!(q.into_gateways().len(), 5);
}

#[test]
fn gateway_pagination_skips_undecodable_blobs() {
    let mut q = ActiveGatewaysQuery::new();
    q = q.accept_page(vec![peer_blob(1), vec![0xff], peer_blob(2)]);
    assert!(q.next_request().is_none());
    let gws = q.into_gateways();
    assert_eq!(gws.len(), 2);
    assert_eq!(gws[0].to_bytes(), &peer_blob(1));
    assert_eq!(gws[1].to_bytes(), &peer_blob(2));
}

#[test]
fn registration_is_non_zero_operator() {
    assert!(!operator_registered(&Address::zero()));
    assert!(operator_registered(&Address::from_bytes(vec![1u8; 20]).unwrap()));
}
