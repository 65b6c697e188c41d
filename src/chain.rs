use vstd::prelude::*;

use crate::premint::{claim_holds, PremintTypes};
use crate::types::{Address, InclusionClaim, B256};
use crate::zora_v2::{
    event_contract_address, event_uid, log_index_or_zero, log_tx_hash, premint_factory_address,
    preminted_v2_well_formed, zora_v2_kind, ZoraPremintV2,
};
use crate::guid::guid;

verus! {

/// An event log as delivered by a chain node.
#[derive(Clone, Debug)]
pub struct Log {
    /// The contract that emitted the log.
    pub address: Address,
    pub topics: Vec<B256>,
    pub data: Vec<u8>,
    pub block_number: Option<u64>,
    pub transaction_hash: Option<B256>,
    pub log_index: Option<u64>,
}

/// The receipt of a mined transaction, with the logs it emitted in order.
#[derive(Clone, Debug)]
pub struct TransactionReceipt {
    pub transaction_hash: B256,
    pub logs: Vec<Log>,
}

/// A log subscription filter: one emitting address, one event signature,
/// and the first block to deliver (`None`: from the newest block on).
#[derive(Clone, Copy, Debug, PartialEq, Eq)]
pub struct LogFilter {
    pub address: Address,
    pub event_signature: B256,
    pub from_block: Option<u64>,
}

/// The Keccak-256 digest of the UTF-8 bytes of `text`.
pub uninterp spec fn keccak_of_text(text: Seq<char>) -> Seq<u8>;

/// Relies on alloy_primitives::keccak256: the 32-byte Keccak-256 digest of
/// the bytes handed to it, here the UTF-8 bytes of an event signature.
#[verifier::external_body]
pub(crate) fn keccak_text(text: &str) -> (r: B256)
    ensures
        r.bytes@ == keccak_of_text(text@),
{
    B256 { bytes: alloy_primitives::keccak256(text.as_bytes()).0 }
}

/// A 32-byte ABI word that holds an address: twelve zero bytes first.
pub open spec fn word_holds_address(w: Seq<u8>) -> bool {
    w.len() == 32 && forall|i: int| 0 <= i < 12 ==> w[i] == 0u8
}

/// A 32-byte ABI word that holds a `uint32`: twenty-eight zero bytes first.
pub open spec fn word_holds_u32(w: Seq<u8>) -> bool {
    w.len() == 32 && forall|i: int| 0 <= i < 28 ==> w[i] == 0u8
}

/// A 32-byte ABI word that holds a `bool`: zero or one.
pub open spec fn word_holds_bool(w: Seq<u8>) -> bool {
    w.len() == 32 && (forall|i: int| 0 <= i < 31 ==> w[i] == 0u8) && (w[31] == 0u8 || w[31]
        == 1u8)
}

/// The big-endian value of the last four bytes of a word.
pub open spec fn word_u32(w: Seq<u8>) -> int {
    w[28] as int * 16777216 + w[29] as int * 65536 + w[30] as int * 256 + w[31] as int
}

/// Whether the first `n` bytes of `b` from `start` are zero.
pub fn zeros_at(b: &[u8], start: usize, n: usize) -> (r: bool)
    requires
        start + n <= b@.len(),
    ensures
        r == forall|i: int| start <= i < start + n ==> b@[i] == 0u8,
{
    let len = b.len();
    let mut k: usize = 0;
    while k < n
        invariant
            len == b@.len(),
            start + n <= b@.len(),
            0 <= k <= n,
            forall|i: int| start <= i < start + k ==> b@[i] == 0u8,
        decreases n - k,
    {
        if b[start + k] != 0 {
            return false;
        }
        k = k + 1;
    }
    true
}

/// The first `n` bytes of the word at `start` of `data` are zero exactly
/// when the first `n` bytes of that word, taken alone, are.
pub proof fn lemma_word_zeros(data: Seq<u8>, start: int, n: int)
    requires
        0 <= start,
        0 <= n <= 32,
        start + 32 <= data.len(),
    ensures
        (forall|i: int| start <= i < start + n ==> data[i] == 0u8) <==> (forall|i: int|
            0 <= i < n ==> #[trigger] data.subrange(start, start + 32)[i] == 0u8),
{
    let w = data.subrange(start, start + 32);
    if forall|i: int| 0 <= i < n ==> w[i] == 0u8 {
        assert forall|i: int| start <= i < start + n implies data[i] == 0u8 by {
            assert(w[i - start] == data[i]);
        }
    }
}

/// The twenty bytes of `b` from `start`, as an address.
pub fn address_at(b: &[u8], start: usize) -> (r: Address)
    requires
        start + 20 <= b@.len(),
    ensures
        r.bytes@ == b@.subrange(start as int, start + 20),
{
    let mut bytes = [0u8; 20];
    let len = b.len();
    let mut k: usize = 0;
    while k < 20
        invariant
            len == b@.len(),
            start + 20 <= b@.len(),
            0 <= k <= 20,
            bytes@.len() == 20,
            forall|i: int| 0 <= i < k ==> bytes@[i] == b@[start + i],
        decreases 20 - k,
    {
        bytes[k] = b[start + k];
        k = k + 1;
    }
    let r = Address { bytes };
    assert(r.bytes@ =~= b@.subrange(start as int, start + 20));
    r
}

/// The big-endian `u32` in the four bytes of `b` from `start`.
pub fn u32_at(b: &[u8], start: usize) -> (r: u32)
    requires
        start + 4 <= b@.len(),
    ensures
        r as int == b@[start as int] as int * 16777216 + b@[start + 1] as int * 65536
            + b@[start + 2] as int * 256 + b@[start + 3] as int,
{
    (b[start] as u32) * 16777216 + (b[start + 1] as u32) * 65536 + (b[start + 2] as u32) * 256
        + (b[start + 3] as u32)
}

/// The 32 bytes of `b` from `start`, as a word.
pub fn word_at(b: &[u8], start: usize) -> (r: B256)
    requires
        start + 32 <= b@.len(),
    ensures
        r.bytes@ == b@.subrange(start as int, start + 32),
{
    let mut bytes = [0u8; 32];
    let len = b.len();
    let mut k: usize = 0;
    while k < 32
        invariant
            len == b@.len(),
            start + 32 <= b@.len(),
            0 <= k <= 32,
            bytes@.len() == 32,
            forall|i: int| 0 <= i < k ==> bytes@[i] == b@[start + i],
        decreases 32 - k,
    {
        bytes[k] = b[start + k];
        k = k + 1;
    }
    let r = B256 { bytes };
    assert(r.bytes@ =~= b@.subrange(start as int, start + 32));
    r
}

/// Whether the receipt fetched for `claim`'s transaction (`None`: not found)
/// proves `claim` for premint `p`: the receipt exists, has a log at the
/// claimed index, and that log proves the claim.
pub open spec fn inclusion_correct(
    p: PremintTypes,
    claim: InclusionClaim,
    receipt: Option<TransactionReceipt>,
) -> bool {
    match receipt {
        Some(tx) => claim.log_index < tx.logs@.len() && claim_holds(
            p,
            claim.chain_id,
            tx,
            tx.logs@[claim.log_index as int],
            claim,
        ),
        None => false,
    }
}

/// Checks an inclusion claim against the receipt of its transaction, as
/// fetched from `claim.chain_id` (`None` where the chain knows no such
/// transaction), so that the premint can safely be pruned.
pub fn inclusion_claim_correct(
    premint: &PremintTypes,
    claim: &InclusionClaim,
    receipt: &Option<TransactionReceipt>,
) -> (r: bool)
    ensures
        r == inclusion_correct(*premint, *claim, *receipt),
{
    match receipt {
        None => false,
        Some(tx) => {
            if claim.log_index >= tx.logs.len() as u64 {
                return false;
            }
            let log = &tx.logs[claim.log_index as usize];
            premint.verify_claim(claim.chain_id, tx, log, claim)
        },
    }
}

/// A claim found correct for a Zora premint meets every condition of the
/// check: the receipt exists and has the claimed log, the log is a strict
/// `PremintedV2` event of the factory in that transaction, and the claim's
/// hash, index, id, kind and chain, and the premint's collection and uid,
/// all agree with it.
pub proof fn lemma_inclusion_claim_sound(
    p: ZoraPremintV2,
    claim: InclusionClaim,
    receipt: Option<TransactionReceipt>,
)
    requires
        inclusion_correct(PremintTypes::ZoraV2(p), claim, receipt),
    ensures
        receipt is Some,
        receipt matches Some(tx) ==> {
            let log = tx.logs@[claim.log_index as int];
            &&& claim.log_index < tx.logs@.len()
            &&& preminted_v2_well_formed(log.topics@, log.data@)
            &&& log.address.bytes@ == premint_factory_address()
            &&& log_tx_hash(log) == tx.transaction_hash.bytes@
            &&& claim.tx_hash.bytes@ == tx.transaction_hash.bytes@
            &&& claim.log_index == log_index_or_zero(log)
            &&& claim.premint_id@ == guid(
                claim.chain_id,
                event_contract_address(log.topics@),
                event_uid(log.data@),
            )
            &&& claim.kind@ == zora_v2_kind()
            &&& p.collection_address.bytes@ == event_contract_address(log.topics@)
            &&& p.premint.uid == event_uid(log.data@)
        },
{
}

} // verus!
