//! Registered data-serving nodes. The chain hands back one raw record per
//! worker plus a parallel list of on-chain ids; records whose peer-id blob
//! does not decode are dropped, never failing the whole read.

use vstd::prelude::*;

use crate::addr::Address;
use crate::peer::{peer_id_bytes_valid, PeerId};
use crate::u256::U256;
use crate::ClientError;

verus! {

/// A worker record as the registration contract returns it.
pub struct OnchainWorker {
    pub peer_id: Vec<u8>,
    pub creator: Address,
    pub bond: U256,
    pub registered_at: u128,
    /// Zero is the chain's sentinel for "still active".
    pub deregistered_at: u128,
}

/// A registered data-serving node.
pub struct Worker {
    pub peer_id: PeerId,
    pub onchain_id: U256,
    pub address: Address,
    pub bond: U256,
    pub registered_at: u128,
    /// `None` while the worker is still active; a deregistration time is
    /// always strictly positive, the raw zero sentinel never shows here.
    pub deregistered_at: Option<u128>,
}

/// The mathematical content of a `Worker`.
pub struct WorkerView {
    pub peer_id: Seq<u8>,
    pub onchain_id: int,
    pub address: Seq<u8>,
    pub bond: int,
    pub registered_at: u128,
    pub deregistered_at: Option<u128>,
}

impl View for Worker {
    type V = WorkerView;

    open spec fn view(&self) -> WorkerView {
        WorkerView {
            peer_id: self.peer_id@,
            onchain_id: self.onchain_id.as_int(),
            address: self.address@,
            bond: self.bond.as_int(),
            registered_at: self.registered_at,
            deregistered_at: self.deregistered_at,
        }
    }
}

/// The `WorkerView` denoted by a raw record and its on-chain id.
pub open spec fn worker_view_of(ow: OnchainWorker, onchain_id: U256) -> WorkerView {
    WorkerView {
        peer_id: ow.peer_id@,
        onchain_id: onchain_id.as_int(),
        address: ow.creator@,
        bond: ow.bond.as_int(),
        registered_at: ow.registered_at,
        deregistered_at: if ow.deregistered_at > 0 {
            Some(ow.deregistered_at)
        } else {
            None
        },
    }
}

impl Worker {
    /// A public deregistration time is never the raw zero sentinel.
    pub open spec fn wf(self) -> bool {
        self.deregistered_at matches Some(t) ==> t > 0
    }

    /// Builds a worker from its raw record, decoding the peer-id blob and
    /// mapping the zero deregistration sentinel to `None`. Fails, and the
    /// record is dropped by callers, exactly when the blob does not decode.
    pub fn new(worker: OnchainWorker, onchain_id: U256) -> (r: Result<Worker, ClientError>)
        ensures
            r is Ok <==> peer_id_bytes_valid(worker.peer_id@),
            r matches Ok(w) ==> w@ == worker_view_of(worker, onchain_id) && w.wf(),
            r matches Err(e) ==> e == ClientError::InvalidPeerId,
    {
        let peer_id = match PeerId::from_bytes(worker.peer_id) {
            Some(p) => p,
            None => { return Err(ClientError::InvalidPeerId); },
        };
        let deregistered_at = if worker.deregistered_at > 0 {
            Some(worker.deregistered_at)
        } else {
            None
        };
        Ok(Worker {
            peer_id,
            onchain_id,
            address: worker.creator,
            bond: worker.bond,
            registered_at: worker.registered_at,
            deregistered_at,
        })
    }
}

impl Clone for Worker {
    /// A clone denotes the same worker.
    fn clone(&self) -> (r: Self)
        ensures
            r@ == self@,
    {
        Worker {
            peer_id: self.peer_id.clone(),
            onchain_id: self.onchain_id,
            address: self.address.clone(),
            bond: self.bond,
            registered_at: self.registered_at,
            deregistered_at: self.deregistered_at,
        }
    }
}

/// The views of a list of workers.
pub open spec fn worker_views(s: Seq<Worker>) -> Seq<WorkerView> {
    s.map_values(|w: Worker| w@)
}

/// The workers denoted by the raw records zipped positionally with the
/// parallel id list, records with undecodable peer-id blobs dropped.
pub open spec fn active_worker_views(raw: Seq<OnchainWorker>, ids: Seq<U256>) -> Seq<WorkerView>
    decreases raw.len(),
{
    if raw.len() == 0 || ids.len() == 0 {
        Seq::empty()
    } else {
        let rest = active_worker_views(raw.drop_first(), ids.drop_first());
        if peer_id_bytes_valid(raw[0].peer_id@) {
            seq![worker_view_of(raw[0], ids[0])] + rest
        } else {
            rest
        }
    }
}

/// Whatever raw records and ids the chain returns, no worker the model
/// yields ever shows the raw zero sentinel: its public deregistration time
/// is `None` or strictly positive.
pub proof fn lemma_active_workers_never_show_zero(raw: Seq<OnchainWorker>, ids: Seq<U256>)
    ensures
        forall|i: int|
            0 <= i < active_worker_views(raw, ids).len() ==> (#[trigger] active_worker_views(
                raw,
                ids,
            )[i].deregistered_at matches Some(t) ==> t > 0),
    decreases raw.len(),
{
    if raw.len() > 0 && ids.len() > 0 {
        lemma_active_workers_never_show_zero(raw.drop_first(), ids.drop_first());
    }
}

/// Zips the raw worker records with the parallel on-chain id list, building
/// one `Worker` per position; a record whose peer-id blob does not decode is
/// dropped and the rest of the list is unaffected.
pub fn workers_from_chain(raw: Vec<OnchainWorker>, ids: &Vec<U256>) -> (r: Vec<Worker>)
    ensures
        worker_views(r@) == active_worker_views(raw@, ids@),
        forall|i: int| 0 <= i < r@.len() ==> (#[trigger] r@[i]).wf(),
{
    let ghost orig_raw = raw@;
    let mut raw = raw;
    let mut out: Vec<Worker> = Vec::new();
    let mut k: usize = 0;
    proof {
        assert(orig_raw.skip(0) =~= orig_raw);
        assert(ids@.skip(0) =~= ids@);
        assert(worker_views(out@) + active_worker_views(raw@, ids@.skip(0)) =~=
            active_worker_views(orig_raw, ids@));
    }
    while raw.len() > 0 && k < ids.len()
        invariant
            k <= ids@.len(),
            k <= orig_raw.len(),
            raw@ =~= orig_raw.skip(k as int),
            worker_views(out@) + active_worker_views(raw@, ids@.skip(k as int))
                =~= active_worker_views(orig_raw, ids@),
            forall|i: int| 0 <= i < out@.len() ==> (#[trigger] out@[i]).wf(),
        decreases raw.len(),
    {
        let ghost prev_raw = raw@;
        let ghost prev_out = out@;
        let ow = raw.remove(0);
        match Worker::new(ow, *vstd::slice::slice_index_get(ids.as_slice(), k)) {
            Ok(w) => {
                out.push(w);
                proof {
                    assert(worker_views(out@) =~= worker_views(prev_out) + seq![w@]);
                    assert(worker_views(prev_out) + seq![w@] + active_worker_views(
                        raw@,
                        ids@.skip(k + 1),
                    ) =~= worker_views(prev_out) + (seq![w@] + active_worker_views(
                        raw@,
                        ids@.skip(k + 1),
                    )));
                    assert(prev_raw.drop_first() =~= raw@);
                    assert(ids@.skip(k as int).drop_first() =~= ids@.skip(k + 1));
                    assert(ids@.skip(k as int)[0] == ids@[k as int]);
                }
            },
            Err(_) => {
                proof {
                    assert(prev_raw.drop_first() =~= raw@);
                    assert(ids@.skip(k as int).drop_first() =~= ids@.skip(k + 1));
                }
            },
        }
        k = k + 1;
        proof {
            assert(orig_raw.skip(k - 1 as int).drop_first() =~= orig_raw.skip(k as int));
        }
    }
    proof {
        assert(active_worker_views(raw@, ids@.skip(k as int)) =~= Seq::<WorkerView>::empty());
        assert(worker_views(out@) + Seq::<WorkerView>::empty() =~= worker_views(out@));
    }
    out
}

} // verus!
