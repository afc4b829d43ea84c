use contract_client::addr::Address;
use contract_client::cluster::{AllocationRecord, ClustersQuery};
use contract_client::u256::U256;

fn peer_blob(tag: u8) -> Vec<u8> {
    let mut v = vec![0x12u8, 0x20];
    v.extend(std::iter::repeat(tag).take(32));
    v
}

fn addr(tag: u8) -> Address {
    Address::from_bytes(vec![tag; 20]).unwrap()
}

fn record(gateway_tag: u8, operator_tag: u8, allocated: u64) -> AllocationRecord {
    AllocationRecord {
        gateway_id: peer_blob(gateway_tag),
        operator: addr(operator_tag),
        allocated: U256::from_u64(allocated),
    }
}

#[test]
fn same_operator_groups_with_first_seen_figure() {
    let q = ClustersQuery::new();
    let q = q.accept_page(vec![record(1, 7, 100), record(2, 7, 200)]);
    assert!(q.next_request().is_none());
    let clusters = q.into_clusters();
    assert_eq!(clusters.len(), 1);
    assert_eq!(clusters[0].operator_addr, addr(7));
    assert_eq!(clusters[0].gateway_ids.len(), 2);
    assert_eq!(clusters[0].gateway_ids[0].to_bytes(), &peer_blob(1));
    assert_eq!(clusters[0].gateway_ids[1].to_bytes(), &peer_blob(2));
    assert_eq!(clusters[0].allocated_computation_units, U256::from_u64(100));
}

#[test]
fn distinct_operators_make_distinct_clusters() {
    let q = ClustersQuery::new();
    let q = q.accept_page(vec![record(1, 7, 100), record(2, 8, 200), record(3, 7, 300)]);
    let clusters = q.into_clusters();
    assert_eq!(clusters.len(), 2);
    assert_eq!(clusters[0].operator_addr, addr(7));
    assert_eq!(clusters[0].gateway_ids.len(), 2);
    assert_eq!(clusters[0].allocated_computation_units, U256::from_u64(100));
    assert_eq!(clusters[1].operator_addr, addr(8));
    assert_eq!(clusters[1].gateway_ids.len(), 1);
    assert_eq!(clusters[1].allocated_computation_units, U256::from_u64(200));
}

#[test]
fn undecodable_gateway_records_are_skipped() {
    let q = ClustersQuery::new();
    let bad = AllocationRecord {
        gateway_id: vec![0xff, 0x00],
        operator: addr(7),
        allocated: U256::from_u64(999),
    };
    let q = q.accept_page(vec![bad, record(2, 7, 200)]);
    let clusters = q.into_clusters();
    assert_eq!(clusters.len(), 1);
    assert_eq!(clusters[0].gateway_ids.len(), 1);
    // The skipped record founded nothing: the figure is the decodable one's.
    assert_eq!(clusters[0].allocated_computation_units, U256::from_u64(200));
}

#[test]
fn grouping_spans_pages() {
    let q = ClustersQuery::new();
    // A full page keeps the read going; the next page joins the same cluster.
    let mut page: Vec<AllocationRecord> = (0..10000).map(|_| record(1, 7, 100)).collect();
    page[0] = record(9, 7, 100);
    let q = q.accept_page(page);
    assert_eq!(q.next_request(), Some(1));
    let q = q.accept_page(vec![record(2, 7, 999)]);
    assert!(q.next_request().is_none());
    let clusters = q.into_clusters();
    assert_eq!(clusters.len(), 1);
    assert_eq!(clusters[0].gateway_ids.len(), 10001);
    assert_eq!(clusters[0].allocated_computation_units, U256::from_u64(100));
}
