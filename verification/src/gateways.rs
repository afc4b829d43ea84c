//! Active-gateway enumeration and gateway registration. The gateway registry
//! returns pages of raw peer-id blobs; blobs that do not decode are skipped.
//! A gateway is registered exactly when its operator field is a non-zero
//! address.

use vstd::prelude::*;

use crate::addr::{Address, ADDRESS_LEN};
use crate::pagination::PageCursor;
use crate::peer::{peer_id_bytes_valid, PeerId};

verus! {

/// The views of a list of peer identifiers.
pub open spec fn peer_views(s: Seq<PeerId>) -> Seq<Seq<u8>> {
    s.map_values(|p: PeerId| p@)
}

/// The peer identifiers denoted by a list of raw blobs, in order, blobs that
/// do not decode dropped.
pub open spec fn decoded_peer_views(blobs: Seq<Seq<u8>>) -> Seq<Seq<u8>>
    decreases blobs.len(),
{
    if blobs.len() == 0 {
        Seq::empty()
    } else {
        let rest = decoded_peer_views(blobs.drop_first());
        if peer_id_bytes_valid(blobs[0]) {
            seq![blobs[0]] + rest
        } else {
            rest
        }
    }
}

/// Decoding blobs page by page is decoding them all at once.
pub proof fn lemma_decoded_peer_views_concat(a: Seq<Seq<u8>>, b: Seq<Seq<u8>>)
    ensures
        decoded_peer_views(a + b) == decoded_peer_views(a) + decoded_peer_views(b),
    decreases a.len(),
{
    if a.len() == 0 {
        assert(a + b =~= b);
        assert(decoded_peer_views(a) + decoded_peer_views(b) =~= decoded_peer_views(b));
    } else {
        lemma_decoded_peer_views_concat(a.drop_first(), b);
        assert((a + b).drop_first() =~= a.drop_first() + b);
        assert((a + b)[0] == a[0]);
        if peer_id_bytes_valid(a[0]) {
            assert(seq![a[0]] + (decoded_peer_views(a.drop_first()) + decoded_peer_views(b)) =~= (
            seq![a[0]] + decoded_peer_views(a.drop_first())) + decoded_peer_views(b));
        }
    }
}

/// Appends the decodable identifiers of one page of raw blobs, in order.
pub fn extend_decoded_peers(out: &mut Vec<PeerId>, blobs: &Vec<Vec<u8>>)
    ensures
        peer_views(final(out)@) == peer_views(old(out)@) + decoded_peer_views(
            blobs@.map_values(|b: Vec<u8>| b@),
        ),
{
    let ghost base = peer_views(out@);
    let ghost all = blobs@.map_values(|b: Vec<u8>| b@);
    let mut i: usize = 0;
    proof {
        assert(decoded_peer_views(all.take(0)) =~= Seq::<Seq<u8>>::empty());
        assert(base + decoded_peer_views(all.take(0)) =~= base);
    }
    while i < blobs.len()
        invariant
            i <= blobs@.len(),
            all == blobs@.map_values(|b: Vec<u8>| b@),
            peer_views(out@) == base + decoded_peer_views(all.take(i as int)),
        decreases blobs@.len() - i,
    {
        let ghost prev = peer_views(out@);
        proof {
            lemma_decoded_peer_views_concat(all.take(i as int), seq![all[i as int]]);
            assert(all.take(i + 1) =~= all.take(i as int) + seq![all[i as int]]);
            assert(decoded_peer_views(seq![all[i as int]].drop_first()) =~= Seq::<Seq<u8>>::empty());
            if peer_id_bytes_valid(all[i as int]) {
                assert(decoded_peer_views(seq![all[i as int]]) =~= seq![all[i as int]]);
            } else {
                assert(decoded_peer_views(seq![all[i as int]]) =~= Seq::<Seq<u8>>::empty());
            }
        }
        match PeerId::from_bytes(blobs[i].clone()) {
            Some(p) => {
                out.push(p);
                proof {
                    assert(peer_views(out@) =~= prev + seq![all[i as int]]);
                    assert(prev + seq![all[i as int]] =~= base + decoded_peer_views(all.take(i + 1)));
                }
            },
            None => {
                proof {
                    assert(base + decoded_peer_views(all.take(i + 1)) =~= base
                        + decoded_peer_views(all.take(i as int)));
                }
            },
        }
        i = i + 1;
    }
    proof {
        assert(all.take(blobs@.len() as int) =~= all);
    }
}

/// One active-gateway enumeration: a page cursor plus the identifiers
/// accumulated so far. The caller fetches the page each `next_request` names
/// — pinned to the block height chosen before the first page — and hands the
/// returned blobs to `accept_page`.
pub struct ActiveGatewaysQuery {
    cursor: PageCursor,
    gateways: Vec<PeerId>,
    /// Every blob every accepted page has carried, in order.
    seen: Ghost<Seq<Seq<u8>>>,
}

impl ActiveGatewaysQuery {
    /// The blobs of all pages accepted so far.
    pub closed spec fn blobs_seen(self) -> Seq<Seq<u8>> {
        self.seen@
    }

    /// Whether the terminal page has been seen.
    pub closed spec fn is_done(self) -> bool {
        self.cursor.is_done()
    }

    /// The index of the next page to request.
    pub closed spec fn page_index(self) -> u64 {
        self.cursor.page_index()
    }

    #[verifier::type_invariant]
    closed spec fn wf(self) -> bool {
        peer_views(self.gateways@) == decoded_peer_views(self.seen@)
    }

    /// An enumeration before any request: the first page has index zero.
    pub fn new() -> (r: ActiveGatewaysQuery)
        ensures
            r.page_index() == 0,
            !r.is_done(),
            r.blobs_seen() == Seq::<Seq<u8>>::empty(),
    {
        let gateways: Vec<PeerId> = Vec::new();
        proof {
            assert(peer_views(gateways@) =~= decoded_peer_views(Seq::<Seq<u8>>::empty()));
        }
        ActiveGatewaysQuery { cursor: PageCursor::new(), gateways, seen: Ghost(Seq::empty()) }
    }

    /// The page index to fetch next, or `None` once the read is over.
    pub fn next_request(&self) -> (r: Option<u64>)
        ensures
            r is Some <==> !self.is_done(),
            r matches Some(p) ==> p == self.page_index(),
    {
        self.cursor.next_request()
    }

    /// Accepts one fetched page of raw gateway-id blobs: every decodable blob
    /// joins the accumulated identifiers, and a page strictly shorter than
    /// the page size ends the read.
    pub fn accept_page(self, gateway_ids: Vec<Vec<u8>>) -> (r: Self)
        requires
            !self.is_done(),
            self.page_index() < u64::MAX,
        ensures
            r.blobs_seen() == self.blobs_seen() + gateway_ids@.map_values(|b: Vec<u8>| b@),
            r.page_index() == self.page_index() + 1,
            r.is_done() <==> gateway_ids@.len() < crate::pagination::PAGE_SIZE,
    {
        proof {
            use_type_invariant(&self);
        }
        let ghost page = gateway_ids@.map_values(|b: Vec<u8>| b@);
        let ActiveGatewaysQuery { mut cursor, mut gateways, seen } = self;
        cursor.accept_page(gateway_ids.len());
        extend_decoded_peers(&mut gateways, &gateway_ids);
        proof {
            lemma_decoded_peer_views_concat(seen@, page);
        }
        ActiveGatewaysQuery { cursor, gateways, seen: Ghost(seen@ + page) }
    }

    /// The accumulated active-gateway identifiers, ending the enumeration.
    pub fn into_gateways(self) -> (r: Vec<PeerId>)
        ensures
            peer_views(r@) == decoded_peer_views(self.blobs_seen()),
    {
        proof {
            use_type_invariant(&self);
        }
        let ActiveGatewaysQuery { cursor: _, gateways, seen: _ } = self;
        gateways
    }
}

/// Whether a gateway record marks a registered gateway: true exactly when
/// its operator field is a non-zero address.
pub fn operator_registered(operator: &Address) -> (r: bool)
    ensures
        r <==> operator@ != Seq::new(ADDRESS_LEN as nat, |i: int| 0u8),
{
    !operator.is_zero()
}

} // verus!
