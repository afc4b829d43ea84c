use contract_client::addr::Address;
use contract_client::epoch::{epoch_number, epoch_start_block, epoch_start_time};
use contract_client::membership::{membership_tick, membership_union};
use contract_client::peer::PeerId;
use contract_client::u256::U256;
use contract_client::worker::{OnchainWorker, Worker};
use contract_client::ClientError;

fn peer_blob(tag: u8) -> Vec<u8> {
    let mut v = vec![0x12u8, 0x20];
    v.extend(std::iter::repeat(tag).take(32));
    v
}

fn peer(tag: u8) -> PeerId {
    PeerId::from_bytes(peer_blob(tag)).unwrap()
}

fn worker(tag: u8) -> Worker {
    Worker::new(
        OnchainWorker {
            peer_id: peer_blob(tag),
            creator: Address::from_bytes(vec![tag; 20]).unwrap(),
            bond: U256::from_u64(1),
            registered_at: 0,
            deregistered_at: 0,
        },
        U256::from_u64(tag as u64),
    )
    .unwrap()
}

#[test]
fn epoch_start_block_is_next_minus_length() {
    let b = epoch_start_block(&U256::from_u64(1000), &U256::from_u64(100));
    assert_eq!(b, 900);
}

#[test]
fn missing_anchor_block_is_the_block_not_found_error() {
    let r = epoch_start_time(None);
    assert_eq!(r, Err(ClientError::BlockNotFound));
    assert_ne!(r, Err(ClientError::Transport));
    assert_ne!(r, Err(ClientError::Contract));
    assert_ne!(r, Err(ClientError::InvalidPeerId));
}

#[test]
fn present_anchor_block_gives_its_timestamp() {
    assert_eq!(epoch_start_time(Some(1_700_000_000)), Ok(1_700_000_000));
}

#[test]
fn epoch_number_narrows() {
    assert_eq!(epoch_number(&U256::from_u64(123)), 123);
    assert_eq!(epoch_number(&U256::zero()), 0);
}

#[test]
fn union_deduplicates_shared_peer() {
    // Gateways {A, B}, workers {B, C}: the snapshot is exactly {A, B, C}.
    let gateways = vec![peer(b'A'), peer(b'B')];
    let workers = vec![worker(b'B'), worker(b'C')];
    let nodes = membership_union(gateways, &workers);
    assert_eq!(nodes.len(), 3);
    let blobs: Vec<Vec<u8>> = nodes.iter().map(|p| p.to_bytes().clone()).collect();
    assert!(blobs.contains(&peer_blob(b'A')));
    assert!(blobs.contains(&peer_blob(b'B')));
    assert!(blobs.contains(&peer_blob(b'C')));
}

#[test]
fn tick_error_does_not_end_the_stream() {
    // Tick 1 succeeds.
    let t1 = membership_tick(Ok(vec![peer(b'A'), peer(b'B')]), Ok(vec![worker(b'B'), worker(b'C')]));
    assert_eq!(t1.as_ref().map(|nodes| nodes.len()).ok(), Some(3));
    // Tick 2 fails fetching gateways: the item is that error.
    let t2 = membership_tick(Err(ClientError::Transport), Ok(vec![worker(b'C')]));
    assert!(matches!(t2, Err(ClientError::Transport)));
    // Tick 3 runs as if nothing happened.
    let t3 = membership_tick(Ok(vec![peer(b'A')]), Ok(vec![worker(b'C')]));
    assert_eq!(t3.map(|nodes| nodes.len()), Ok(2));
}

#[test]
fn worker_fetch_error_surfaces_second() {
    let t = membership_tick(Ok(vec![peer(b'A')]), Err(ClientError::Contract));
    assert!(matches!(t, Err(ClientError::Contract)));
    let t = membership_tick(Err(ClientError::Transport), Err(ClientError::Contract));
    assert!(matches!(t, Err(ClientError::Transport)));
}

#[test]
fn union_of_empty_inputs_is_empty() {
    let nodes = membership_union(Vec::new(), &Vec::new());
    assert!(nodes.is_empty());
}
