//! Transport-layer peer identifiers. On chain a peer is stored as a raw byte
//! blob that must decode as a multihash-encoded peer identifier; a blob that
//! does not decode is recoverable (the record carrying it is skipped, the
//! enclosing call never fails).

use vstd::prelude::*;

verus! {

/// Whether a byte blob decodes as a peer identifier: a multihash whose code
/// is SHA-256, or the identity code with a digest of at most 42 bytes.
pub uninterp spec fn peer_id_bytes_valid(bytes: Seq<u8>) -> bool;

/// Relies on `libp2p::PeerId::from_bytes`: whether the blob decodes is a
/// function of the bytes alone.
#[verifier::external_body]
fn peer_id_decodes(bytes: &[u8]) -> (r: bool)
    ensures
        r == peer_id_bytes_valid(bytes@),
{
    libp2p::PeerId::from_bytes(bytes).is_ok()
}

/// A transport-layer peer identifier, held in its multihash byte encoding.
/// A `PeerId` exists only for blobs that decode.
#[derive(Debug)]
pub struct PeerId {
    bytes: Vec<u8>,
}

impl View for PeerId {
    type V = Seq<u8>;

    closed spec fn view(&self) -> Seq<u8> {
        self.bytes@
    }
}

impl PeerId {
    #[verifier::type_invariant]
    pub closed spec fn wf(self) -> bool {
        peer_id_bytes_valid(self.bytes@)
    }

    /// Decodes a peer identifier from its on-chain byte blob.
    /// `None` exactly when the blob is not a valid encoding.
    pub fn from_bytes(bytes: Vec<u8>) -> (r: Option<PeerId>)
        ensures
            r is Some <==> peer_id_bytes_valid(bytes@),
            r matches Some(p) ==> p@ == bytes@,
    {
        if peer_id_decodes(bytes.as_slice()) {
            Some(PeerId { bytes })
        } else {
            None
        }
    }

    /// The multihash byte encoding of the identifier.
    pub fn to_bytes(&self) -> (r: &Vec<u8>)
        ensures
            r@ == self@,
    {
        &self.bytes
    }
}

impl Clone for PeerId {
    /// A clone denotes the same identifier.
    fn clone(&self) -> (r: Self)
        ensures
            r@ == self@,
    {
        proof {
            use_type_invariant(self);
        }
        PeerId { bytes: self.bytes.clone() }
    }
}

impl PartialEq for PeerId {
    fn eq(&self, other: &Self) -> (r: bool)
    {
        let r = self.bytes == other.bytes;
        proof {
            if r {
                assert(self.bytes@ =~= other.bytes@);
            } else {
                if self.bytes@ == other.bytes@ {
                    assert(forall|i: int|
                        0 <= i < self.bytes@.len() ==> self.bytes@[i] == other.bytes@[i]);
                    assert(false);
                }
            }
        }
        r
    }
}

impl Eq for PeerId {}

impl vstd::std_specs::cmp::PartialEqSpecImpl for PeerId {
    open spec fn obeys_eq_spec() -> bool {
        true
    }

    open spec fn eq_spec(&self, other: &PeerId) -> bool {
        self@ == other@
    }
}

} // verus!
