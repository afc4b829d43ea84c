use contract_client::addr::Address;
use contract_client::allocation::{
    allocations_uniform, allocations_zip, plan_allocation_calls, AllocationCalls,
};
use contract_client::u256::U256;
use contract_client::worker::{OnchainWorker, Worker};

fn peer_blob(tag: u8) -> Vec<u8> {
    let mut v = vec![0x12u8, 0x20];
    v.extend(std::iter::repeat(tag).take(32));
    v
}

fn worker(tag: u8, onchain_id: u64) -> Worker {
    Worker::new(
        OnchainWorker {
            peer_id: peer_blob(tag),
            creator: Address::from_bytes(vec![tag; 20]).unwrap(),
            bond: U256::from_u64(1),
            registered_at: 0,
            deregistered_at: 0,
        },
        U256::from_u64(onchain_id),
    )
    .unwrap()
}

fn addr(tag: u8) -> Address {
    Address::from_bytes(vec![tag; 20]).unwrap()
}

#[test]
fn empty_worker_list_issues_no_calls() {
    let plan = plan_allocation_calls(&Vec::new(), &addr(1), &addr(1));
    assert!(matches!(plan, AllocationCalls::NoCalls));
    let plan = plan_allocation_calls(&Vec::new(), &addr(1), &addr(2));
    assert!(matches!(plan, AllocationCalls::NoCalls));
}

#[test]
fn default_strategy_issues_one_call_for_first_worker() {
    let workers = vec![worker(1, 10), worker(2, 11), worker(3, 12)];
    let plan = plan_allocation_calls(&workers, &addr(7), &addr(7));
    match plan {
        AllocationCalls::SingleCall { worker_onchain_id } => {
            assert_eq!(worker_onchain_id, U256::from_u64(10));
        }
        _ => panic!("expected the single-call shortcut"),
    }
}

#[test]
fn other_strategy_issues_one_call_per_worker() {
    let workers = vec![worker(1, 10), worker(2, 11), worker(3, 12)];
    let plan = plan_allocation_calls(&workers, &addr(7), &addr(8));
    match plan {
        AllocationCalls::BatchCalls { worker_onchain_ids } => {
            assert_eq!(
                worker_onchain_ids,
                vec![U256::from_u64(10), U256::from_u64(11), U256::from_u64(12)]
            );
        }
        _ => panic!("expected one batched call per worker"),
    }
}

#[test]
fn uniform_allocations_replicate_the_fetched_value() {
    let workers = vec![worker(1, 10), worker(2, 11), worker(3, 12)];
    let allocations = allocations_uniform(workers, U256::from_u64(500));
    assert_eq!(allocations.len(), 3);
    for (i, a) in allocations.iter().enumerate() {
        assert_eq!(a.computation_units, U256::from_u64(500));
        assert_eq!(a.worker_onchain_id, U256::from_u64(10 + i as u64));
        assert_eq!(a.worker_peer_id.to_bytes(), &peer_blob(1 + i as u8));
    }
}

#[test]
fn zipped_allocations_stay_positional() {
    let workers = vec![worker(1, 10), worker(2, 11), worker(3, 12)];
    let cus = vec![U256::from_u64(5), U256::from_u64(0), U256::from_u64(77)];
    let allocations = allocations_zip(workers, &cus);
    assert_eq!(allocations.len(), 3);
    for (i, a) in allocations.iter().enumerate() {
        assert_eq!(a.computation_units, cus[i]);
        assert_eq!(a.worker_onchain_id, U256::from_u64(10 + i as u64));
        assert_eq!(a.worker_peer_id.to_bytes(), &peer_blob(1 + i as u8));
    }
}

#[test]
fn empty_inputs_give_empty_allocations() {
    assert!(allocations_uniform(Vec::new(), U256::from_u64(5)).is_empty());
    assert!(allocations_zip(Vec::new(), &Vec::new()).is_empty());
}
