use vstd::prelude::*;

verus! {

/// A 20-byte account or contract address.
#[derive(Clone, Copy, Debug, PartialEq, Eq)]
pub struct Address {
    pub bytes: [u8; 20],
}

/// A 32-byte word: a transaction hash or a log topic.
#[derive(Clone, Copy, Debug, PartialEq, Eq)]
pub struct B256 {
    pub bytes: [u8; 32],
}

/// Byte-wise equality of two slices.
pub fn bytes_eq(a: &[u8], b: &[u8]) -> (r: bool)
    ensures
        r == (a@ == b@),
{
    if a.len() != b.len() {
        return false;
    }
    let mut i: usize = 0;
    while i < a.len()
        invariant
            a@.len() == b@.len(),
            0 <= i <= a@.len(),
            forall|j: int| 0 <= j < i ==> a@[j] == b@[j],
        decreases a@.len() - i,
    {
        if a[i] != b[i] {
            return false;
        }
        i = i + 1;
    }
    assert(a@ =~= b@);
    true
}

impl Address {
    /// The all-zero address, which stands for "unknown".
    pub fn zero() -> (r: Address)
        ensures
            r.bytes@ == Seq::new(20, |i: int| 0u8),
    {
        let r = Address { bytes: [0u8; 20] };
        assert(r.bytes@ =~= Seq::new(20, |i: int| 0u8));
        r
    }

    pub fn equals(&self, other: &Address) -> (r: bool)
        ensures
            r == (self.bytes@ == other.bytes@),
    {
        bytes_eq(self.bytes.as_slice(), other.bytes.as_slice())
    }
}

impl B256 {
    /// The all-zero word.
    pub fn zero() -> (r: B256)
        ensures
            r.bytes@ == Seq::new(32, |i: int| 0u8),
    {
        let r = B256 { bytes: [0u8; 32] };
        assert(r.bytes@ =~= Seq::new(32, |i: int| 0u8));
        r
    }

    pub fn equals(&self, other: &B256) -> (r: bool)
        ensures
            r == (self.bytes@ == other.bytes@),
    {
        bytes_eq(self.bytes.as_slice(), other.bytes.as_slice())
    }
}

/// How a node decides that a premint has been realised on chain.
#[derive(Clone, Copy, Debug, PartialEq, Eq, Structural)]
pub enum InclusionMode {
    /// Run local checkers and verify peer claims against the chain.
    Check,
    /// Verify peer claims against the chain; no local checkers.
    Verify,
    /// Accept peer claims from trusted peers only.
    Trust,
}

/// Evidence that premint `premint_id` of kind `kind` was included on chain
/// `chain_id` in transaction `tx_hash`, at log `log_index`.
#[derive(Clone, Debug)]
pub struct InclusionClaim {
    pub premint_id: String,
    pub chain_id: u64,
    pub tx_hash: B256,
    pub log_index: u64,
    pub kind: String,
}

/// The mathematical value of an [`InclusionClaim`].
pub struct ClaimView {
    pub premint_id: Seq<char>,
    pub chain_id: u64,
    pub tx_hash: Seq<u8>,
    pub log_index: u64,
    pub kind: Seq<char>,
}

impl View for InclusionClaim {
    type V = ClaimView;

    open spec fn view(&self) -> ClaimView {
        ClaimView {
            premint_id: self.premint_id@,
            chain_id: self.chain_id,
            tx_hash: self.tx_hash.bytes@,
            log_index: self.log_index,
            kind: self.kind@,
        }
    }
}

impl InclusionClaim {
    /// A copy of the claim with the same value.
    pub fn duplicate(&self) -> (r: InclusionClaim)
        ensures
            r@ == self@,
    {
        InclusionClaim {
            premint_id: self.premint_id.clone(),
            chain_id: self.chain_id,
            tx_hash: self.tx_hash,
            log_index: self.log_index,
            kind: self.kind.clone(),
        }
    }

    /// Field-wise equality of two claims.
    pub fn same_as(&self, other: &InclusionClaim) -> (r: bool)
        ensures
            r == (self@ == other@),
    {
        self.premint_id == other.premint_id && self.chain_id == other.chain_id
            && self.tx_hash.equals(&other.tx_hash) && self.log_index == other.log_index
            && self.kind == other.kind
    }
}

/// An inclusion claim received from the gossip peer `from_peer_id`.
#[derive(Clone, Debug)]
pub struct PeerInclusionClaim {
    pub from_peer_id: Vec<u8>,
    pub claim: InclusionClaim,
}

/// Whether `peer` is one of `trusted`.
pub open spec fn peer_is_trusted(trusted: Seq<Vec<u8>>, peer: Seq<u8>) -> bool {
    exists|i: int| 0 <= i < trusted.len() && trusted[i]@ == peer
}

/// Whether the peer identity `peer` occurs in `trusted`.
pub fn contains_peer(trusted: &Vec<Vec<u8>>, peer: &Vec<u8>) -> (r: bool)
    ensures
        r == peer_is_trusted(trusted@, peer@),
{
    let mut i: usize = 0;
    while i < trusted.len()
        invariant
            0 <= i <= trusted@.len(),
            forall|j: int| 0 <= j < i ==> trusted@[j]@ != peer@,
        decreases trusted@.len() - i,
    {
        if bytes_eq(trusted[i].as_slice(), peer.as_slice()) {
            return true;
        }
        i = i + 1;
    }
    false
}

} // verus!
