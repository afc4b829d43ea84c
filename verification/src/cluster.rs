//! Gateway clusters: the gateways sharing one operator account, with the
//! compute-unit budget of the allocation record under which the operator was
//! first encountered. Grouping is by operator address with first-write-wins
//! semantics: later records for the same operator only append their gateway
//! identifier, they never touch the budget figure.

use vstd::prelude::*;

use crate::addr::Address;
use crate::pagination::PageCursor;
use crate::peer::{peer_id_bytes_valid, PeerId};
use crate::u256::U256;

verus! {

/// An allocation record as the allocations-viewer contract returns it.
pub struct AllocationRecord {
    /// Raw peer-id blob of the gateway; records whose blob does not decode
    /// are skipped, never failing the enclosing read.
    pub gateway_id: Vec<u8>,
    pub operator: Address,
    pub allocated: U256,
}

/// The set of gateway peer ids sharing one operator account, with the
/// compute-unit figure of the record that created the cluster.
pub struct GatewayCluster {
    pub operator_addr: Address,
    pub gateway_ids: Vec<PeerId>,
    pub allocated_computation_units: U256,
}

/// The mathematical content of a `GatewayCluster`.
pub struct ClusterView {
    pub operator: Seq<u8>,
    pub gateway_ids: Seq<Seq<u8>>,
    pub allocated: int,
}

impl View for GatewayCluster {
    type V = ClusterView;

    open spec fn view(&self) -> ClusterView {
        ClusterView {
            operator: self.operator_addr@,
            gateway_ids: self.gateway_ids@.map_values(|p: PeerId| p@),
            allocated: self.allocated_computation_units.as_int(),
        }
    }
}

/// The views of a list of clusters.
pub open spec fn cluster_views(s: Seq<GatewayCluster>) -> Seq<ClusterView> {
    s.map_values(|c: GatewayCluster| c@)
}

/// Index of the cluster owned by `op`, or `-1` when no cluster is.
pub open spec fn cluster_index(cs: Seq<ClusterView>, op: Seq<u8>) -> int
    decreases cs.len(),
{
    if cs.len() == 0 {
        -1
    } else if cs[0].operator == op {
        0
    } else {
        let r = cluster_index(cs.drop_first(), op);
        if r < 0 {
            -1
        } else {
            r + 1
        }
    }
}

/// `cluster_index` finds the first cluster of the operator, and finds none
/// exactly when no cluster is the operator's.
pub proof fn lemma_cluster_index(cs: Seq<ClusterView>, op: Seq<u8>)
    ensures
        cluster_index(cs, op) == -1 || 0 <= cluster_index(cs, op) < cs.len(),
        cluster_index(cs, op) == -1 <==> forall|k: int|
            0 <= k < cs.len() ==> (#[trigger] cs[k]).operator != op,
        cluster_index(cs, op) >= 0 ==> cs[cluster_index(cs, op)].operator == op,
        forall|k: int| 0 <= k < cluster_index(cs, op) ==> (#[trigger] cs[k]).operator != op,
    decreases cs.len(),
{
    if cs.len() > 0 && cs[0].operator != op {
        lemma_cluster_index(cs.drop_first(), op);
        assert(forall|k: int|
            1 <= k < cs.len() ==> #[trigger] cs[k] == cs.drop_first()[k - 1]);
    }
}

/// The clusters after one record: a record whose gateway blob does not decode
/// is skipped; otherwise the record joins its operator's cluster, or founds
/// it — carrying the record's own figure — when none exists yet.
pub open spec fn clusters_step(cs: Seq<ClusterView>, rec: AllocationRecord) -> Seq<ClusterView> {
    if !peer_id_bytes_valid(rec.gateway_id@) {
        cs
    } else {
        let i = cluster_index(cs, rec.operator@);
        if i < 0 {
            cs + seq![
                ClusterView {
                    operator: rec.operator@,
                    gateway_ids: seq![rec.gateway_id@],
                    allocated: rec.allocated.as_int(),
                },
            ]
        } else {
            cs.update(
                i,
                ClusterView {
                    operator: cs[i].operator,
                    gateway_ids: cs[i].gateway_ids + seq![rec.gateway_id@],
                    allocated: cs[i].allocated,
                },
            )
        }
    }
}

/// The clusters after a whole list of records, in record order.
pub open spec fn clusters_fold(init: Seq<ClusterView>, recs: Seq<AllocationRecord>) -> Seq<
    ClusterView,
>
    decreases recs.len(),
{
    if recs.len() == 0 {
        init
    } else {
        clusters_step(clusters_fold(init, recs.drop_last()), recs.last())
    }
}

/// Folding records page by page is folding them all at once.
pub proof fn lemma_clusters_fold_concat(
    init: Seq<ClusterView>,
    a: Seq<AllocationRecord>,
    b: Seq<AllocationRecord>,
)
    ensures
        clusters_fold(init, a + b) == clusters_fold(clusters_fold(init, a), b),
    decreases b.len(),
{
    if b.len() == 0 {
        assert(a + b =~= a);
    } else {
        lemma_clusters_fold_concat(init, a, b.drop_last());
        assert((a + b).drop_last() =~= a + b.drop_last());
        assert((a + b).last() == b.last());
    }
}

/// Folds one page of allocation records into the accumulated clusters:
/// insert-if-absent by operator address, else append the gateway id, keeping
/// the figure of the record that founded the cluster.
pub fn add_allocation_records(
    clusters: &mut Vec<GatewayCluster>,
    records: &Vec<AllocationRecord>,
)
    ensures
        cluster_views(final(clusters)@) == clusters_fold(cluster_views(old(clusters)@), records@),
{
    let ghost init = cluster_views(clusters@);
    let mut i: usize = 0;
    proof {
        assert(records@.take(0) =~= Seq::<AllocationRecord>::empty());
    }
    while i < records.len()
        invariant
            i <= records@.len(),
            cluster_views(clusters@) == clusters_fold(init, records@.take(i as int)),
        decreases records@.len() - i,
    {
        let ghost prev = cluster_views(clusters@);
        let rec = &records[i];
        proof {
            assert(records@.take(i + 1).drop_last() =~= records@.take(i as int));
            assert(records@.take(i + 1).last() == records@[i as int]);
        }
        match PeerId::from_bytes(rec.gateway_id.clone()) {
            None => {},
            Some(gateway_peer_id) => {
                proof {
                    lemma_cluster_index(prev, rec.operator@);
                }
                let mut j: usize = 0;
                let mut found = false;
                while j < clusters.len()
                    invariant_except_break
                        j <= clusters@.len(),
                        !found,
                        i < records@.len(),
                        prev == cluster_views(clusters@),
                        forall|k: int|
                            0 <= k < j ==> (#[trigger] prev[k]).operator
                                != records@[i as int].operator@,
                        rec == records@[i as int],
                    ensures
                        prev == cluster_views(clusters@),
                        i < records@.len(),
                        rec == records@[i as int],
                        found ==> j < clusters@.len() && prev[j as int].operator
                            == records@[i as int].operator@,
                        !found ==> j == clusters@.len(),
                        forall|k: int|
                            0 <= k < j ==> (#[trigger] prev[k]).operator
                                != records@[i as int].operator@,
                    decreases clusters@.len() - j,
                {
                    if clusters[j].operator_addr == rec.operator {
                        found = true;
                        break;
                    }
                    j = j + 1;
                }
                if found {
                    proof {
                        assert(cluster_index(prev, rec.operator@) == j as int) by {
                            lemma_cluster_index(prev, rec.operator@);
                        }
                    }
                    let mut c = clusters.remove(j);
                    c.gateway_ids.push(gateway_peer_id);
                    proof {
                        assert(c.gateway_ids@.map_values(|p: PeerId| p@) =~= prev[j as int].gateway_ids
                            + seq![records@[i as int].gateway_id@]);
                    }
                    clusters.insert(j, c);
                    proof {
                        assert(cluster_views(clusters@) =~= clusters_step(prev, records@[i as int]));
                    }
                } else {
                    let mut gateway_ids: Vec<PeerId> = Vec::new();
                    gateway_ids.push(gateway_peer_id);
                    let c = GatewayCluster {
                        operator_addr: rec.operator.clone(),
                        gateway_ids,
                        allocated_computation_units: rec.allocated,
                    };
                    proof {
                        assert(c@.gateway_ids =~= seq![records@[i as int].gateway_id@]);
                        assert(cluster_index(prev, records@[i as int].operator@) == -1) by {
                            lemma_cluster_index(prev, records@[i as int].operator@);
                        }
                    }
                    clusters.push(c);
                    proof {
                        assert(cluster_views(clusters@) =~= clusters_step(prev, records@[i as int]));
                    }
                }
            },
        }
        i = i + 1;
        proof {
            assert(cluster_views(clusters@) == clusters_fold(init, records@.take(i as int)));
        }
    }
    proof {
        assert(records@.take(records@.len() as int) =~= records@);
    }
}

/// One gateway-cluster enumeration for a fixed worker: a page cursor plus
/// the clusters aggregated so far. The caller fetches the allocation-record
/// page each `next_request` names — pinned to the block height chosen before
/// the first page — and hands the records to `accept_page`.
pub struct ClustersQuery {
    cursor: PageCursor,
    clusters: Vec<GatewayCluster>,
    /// Every record every accepted page has carried, in order.
    seen: Ghost<Seq<AllocationRecord>>,
}

impl ClustersQuery {
    /// The records of all pages accepted so far.
    pub closed spec fn records_seen(self) -> Seq<AllocationRecord> {
        self.seen@
    }

    /// Whether the terminal page has been seen.
    pub closed spec fn is_done(self) -> bool {
        self.cursor.is_done()
    }

    /// The index of the next page to request.
    pub closed spec fn page_index(self) -> u64 {
        self.cursor.page_index()
    }

    #[verifier::type_invariant]
    closed spec fn wf(self) -> bool {
        cluster_views(self.clusters@) == clusters_fold(Seq::empty(), self.seen@)
    }

    /// An enumeration before any request: the first page has index zero.
    pub fn new() -> (r: ClustersQuery)
        ensures
            r.page_index() == 0,
            !r.is_done(),
            r.records_seen() == Seq::<AllocationRecord>::empty(),
    {
        let clusters: Vec<GatewayCluster> = Vec::new();
        proof {
            assert(cluster_views(clusters@) =~= clusters_fold(
                Seq::empty(),
                Seq::<AllocationRecord>::empty(),
            ));
        }
        ClustersQuery { cursor: PageCursor::new(), clusters, seen: Ghost(Seq::empty()) }
    }

    /// The page index to fetch next, or `None` once the read is over.
    pub fn next_request(&self) -> (r: Option<u64>)
        ensures
            r is Some <==> !self.is_done(),
            r matches Some(p) ==> p == self.page_index(),
    {
        self.cursor.next_request()
    }

    /// Accepts one fetched page of allocation records, folding them into the
    /// clusters; a page strictly shorter than the page size ends the read.
    pub fn accept_page(self, records: Vec<AllocationRecord>) -> (r: Self)
        requires
            !self.is_done(),
            self.page_index() < u64::MAX,
        ensures
            r.records_seen() == self.records_seen() + records@,
            r.page_index() == self.page_index() + 1,
            r.is_done() <==> records@.len() < crate::pagination::PAGE_SIZE,
    {
        proof {
            use_type_invariant(&self);
        }
        let ClustersQuery { mut cursor, mut clusters, seen } = self;
        cursor.accept_page(records.len());
        add_allocation_records(&mut clusters, &records);
        proof {
            lemma_clusters_fold_concat(Seq::empty(), seen@, records@);
        }
        ClustersQuery { cursor, clusters, seen: Ghost(seen@ + records@) }
    }

    /// The aggregated clusters, ending the enumeration. Output order is the
    /// order in which the operators were first encountered.
    pub fn into_clusters(self) -> (r: Vec<GatewayCluster>)
        ensures
            cluster_views(r@) == clusters_fold(Seq::empty(), self.records_seen()),
    {
        proof {
            use_type_invariant(&self);
        }
        let ClustersQuery { cursor: _, clusters, seen: _ } = self;
        clusters
    }
}

} // verus!
