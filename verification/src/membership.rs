//! The membership snapshot a timer tick yields: the deduplicated union of
//! the active gateways' and the active workers' peer identifiers. Gateways
//! and workers are indistinguishable once in the set. A tick that fails
//! yields its first error as one stream item, and the next tick still runs.

use vstd::prelude::*;

use crate::gateways::peer_views;
use crate::peer::PeerId;
use crate::worker::Worker;
use crate::ClientError;

verus! {

/// Whether a list of peer identifiers has no duplicates.
pub open spec fn peers_distinct(s: Seq<Seq<u8>>) -> bool {
    forall|i: int, j: int| 0 <= i < j < s.len() ==> s[i] != s[j]
}

/// The peer identifiers of a list of workers.
pub open spec fn worker_peer_views(workers: Seq<Worker>) -> Seq<Seq<u8>> {
    workers.map_values(|w: Worker| w.peer_id@)
}

/// Whether `r` holds each identifier of `gateways` and of `workers` exactly
/// once and nothing else.
pub open spec fn is_membership_union(
    r: Seq<Seq<u8>>,
    gateways: Seq<Seq<u8>>,
    workers: Seq<Seq<u8>>,
) -> bool {
    &&& peers_distinct(r)
    &&& forall|b: Seq<u8>| r.contains(b) <==> gateways.contains(b) || workers.contains(b)
}

/// Whether a list of peer identifiers holds one with these bytes.
fn contains_peer(v: &Vec<PeerId>, p: &PeerId) -> (r: bool)
    ensures
        r == peer_views(v@).contains(p@),
{
    let mut i: usize = 0;
    while i < v.len()
        invariant
            i <= v@.len(),
            forall|j: int| 0 <= j < i ==> peer_views(v@)[j] != p@,
        decreases v@.len() - i,
    {
        if &v[i] == p {
            proof {
                assert(peer_views(v@)[i as int] == p@);
            }
            return true;
        }
        i = i + 1;
    }
    proof {
        if peer_views(v@).contains(p@) {
            let j = choose|j: int| 0 <= j < peer_views(v@).len() && peer_views(v@)[j] == p@;
            assert(peer_views(v@)[j] != p@);
        }
    }
    false
}

/// Appends to `out` every identifier of `more` not already present, keeping
/// `out` duplicate-free.
fn extend_distinct(out: &mut Vec<PeerId>, more: Vec<PeerId>)
    requires
        peers_distinct(peer_views(old(out)@)),
    ensures
        peers_distinct(peer_views(final(out)@)),
        forall|b: Seq<u8>| #[trigger] peer_views(final(out)@).contains(b) <==> peer_views(
            old(out)@,
        ).contains(b) || peer_views(more@).contains(b),
{
    let mut i: usize = 0;
    while i < more.len()
        invariant
            i <= more@.len(),
            peers_distinct(peer_views(out@)),
            forall|b: Seq<u8>| peer_views(out@).contains(b) <==> peer_views(old(out)@).contains(b)
                || peer_views(more@).take(i as int).contains(b),
        decreases more@.len() - i,
    {
        let ghost prev = peer_views(out@);
        let ghost take0 = peer_views(more@).take(i as int);
        let ghost take1 = peer_views(more@).take(i + 1);
        let p = more[i].clone();
        let ghost pv = p@;
        proof {
            assert(peer_views(more@)[i as int] == pv);
            assert(take1[i as int] == pv);
            assert(take1.contains(pv));
            assert forall|b: Seq<u8>| #[trigger] take0.contains(b) implies take1.contains(b) by {
                let j = choose|j: int| 0 <= j < take0.len() && #[trigger] take0[j] == b;
                assert(take1[j] == b);
            }
            assert forall|b: Seq<u8>| #[trigger] take1.contains(b) implies take0.contains(b) || b
                == pv by {
                let j = choose|j: int| 0 <= j < take1.len() && #[trigger] take1[j] == b;
                if j < i {
                    assert(take0[j] == b);
                }
            }
        }
        let absent = !contains_peer(out, &p);
        if absent {
            out.push(p);
            proof {
                assert(peer_views(out@) =~= prev.push(pv));
                assert(peer_views(out@)[prev.len() as int] == pv);
                assert(peer_views(out@).contains(pv));
                assert forall|b: Seq<u8>| #[trigger] peer_views(out@).contains(b) implies
                    prev.contains(b) || b == pv by {
                    let j = choose|j: int|
                        0 <= j < peer_views(out@).len() && #[trigger] peer_views(out@)[j] == b;
                    if j < prev.len() {
                        assert(prev[j] == b);
                    }
                }
                assert forall|b: Seq<u8>| #[trigger] prev.contains(b) implies peer_views(
                    out@,
                ).contains(b) by {
                    let j = choose|j: int| 0 <= j < prev.len() && #[trigger] prev[j] == b;
                    assert(peer_views(out@)[j] == b);
                }
                assert forall|k1: int, k2: int|
                    0 <= k1 < k2 < peer_views(out@).len() implies peer_views(out@)[k1]
                    != peer_views(out@)[k2] by {
                    if k2 == prev.len() {
                        assert(prev[k1] == peer_views(out@)[k1]);
                        assert(prev.contains(prev[k1]));
                    }
                }
            }
        } else {
            proof {
                assert(peer_views(out@).contains(pv));
            }
        }
        i = i + 1;
    }
    proof {
        assert(peer_views(more@).take(more@.len() as int) =~= peer_views(more@));
    }
}

/// One membership snapshot: the deduplicated union of the gateways' and the
/// workers' peer identifiers. Each identifier appears exactly once; which
/// role carried it is forgotten.
pub fn membership_union(gateways: Vec<PeerId>, workers: &Vec<Worker>) -> (r: Vec<PeerId>)
    ensures
        is_membership_union(peer_views(r@), peer_views(gateways@), worker_peer_views(workers@)),
{
    let mut worker_peers: Vec<PeerId> = Vec::new();
    let mut i: usize = 0;
    while i < workers.len()
        invariant
            i <= workers@.len(),
            worker_peers@.len() == i,
            forall|j: int| 0 <= j < i ==> (#[trigger] worker_peers@[j])@ == workers@[j].peer_id@,
        decreases workers@.len() - i,
    {
        worker_peers.push(workers[i].peer_id.clone());
        i = i + 1;
    }
    proof {
        assert(peer_views(worker_peers@) =~= worker_peer_views(workers@));
    }
    let mut nodes: Vec<PeerId> = Vec::new();
    proof {
        assert(peer_views(nodes@) =~= Seq::<Seq<u8>>::empty());
        assert(forall|b: Seq<u8>| !Seq::<Seq<u8>>::empty().contains(b));
    }
    let ghost empty_nodes = peer_views(nodes@);
    let ghost gw_views = peer_views(gateways@);
    let ghost wp_views = peer_views(worker_peers@);
    extend_distinct(&mut nodes, gateways);
    let ghost after_gateways = peer_views(nodes@);
    extend_distinct(&mut nodes, worker_peers);
    proof {
        assert forall|b: Seq<u8>| peer_views(nodes@).contains(b) <==> gw_views.contains(b)
            || worker_peer_views(workers@).contains(b) by {
            assert(peer_views(nodes@).contains(b) <==> after_gateways.contains(b)
                || wp_views.contains(b));
            assert(after_gateways.contains(b) <==> empty_nodes.contains(b) || gw_views.contains(b));
        }
    }
    nodes
}

/// One tick of the membership stream, from the two fetch outcomes: the
/// deduplicated union when both reads succeeded, else the first error —
/// gateways are fetched first. An error ends the item, never the stream.
pub fn membership_tick(
    gateways: Result<Vec<PeerId>, ClientError>,
    workers: Result<Vec<Worker>, ClientError>,
) -> (r: Result<Vec<PeerId>, ClientError>)
    ensures
        gateways matches Err(e) ==> r == Err::<Vec<PeerId>, ClientError>(e),
        gateways is Ok ==> (workers matches Err(e) ==> r == Err::<Vec<PeerId>, ClientError>(e)),
        r matches Ok(nodes) ==> gateways matches Ok(g) && workers matches Ok(w)
            && is_membership_union(peer_views(nodes@), peer_views(g@), worker_peer_views(w@)),
{
    let g = match gateways {
        Ok(g) => g,
        Err(e) => { return Err(e); },
    };
    let w = match workers {
        Ok(w) => w,
        Err(e) => { return Err(e); },
    };
    Ok(membership_union(g, &w))
}

} // verus!
