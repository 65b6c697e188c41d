use vstd::prelude::*;
use vstd::slice::slice_subrange;
use vstd::utf8::{decode_utf8, valid_utf8};

use crate::chain::{
    keccak_of_text, keccak_text, lemma_word_zeros, u32_at, word_holds_u32, word_u32, zeros_at, Log,
    LogFilter,
};
use crate::types::{Address, B256};

verus! {

/// The block from which the directory contract's events are read.
pub const BOOTNODES_CONTRACT_DEPLOY_BLOCK: u64 = 1_000_000;

/// The chain on which the directory contract lives.
pub const BOOTNODES_CHAIN_ID: u64 = 7777777;

/// The address of the trusted-bootnodes directory contract.
pub open spec fn bootnodes_contract_address() -> Seq<u8> {
    seq![
        0x77u8, 0x77u8, 0x77u8, 0x77u8, 0x48u8, 0xbcu8, 0x44u8, 0xd8u8, 0xfdu8, 0x1du8,
        0xdbu8, 0x63u8, 0xd6u8, 0xc0u8, 0xa8u8, 0x02u8, 0xd9u8, 0xc0u8, 0x35u8, 0x88u8,
    ]
}

/// The canonical signature of the directory's `TrustedNodeAdded` event.
pub open spec fn trusted_node_added_signature() -> Seq<char> {
    "TrustedNodeAdded(string)"@
}

/// The filter for every `TrustedNodeAdded` log of the directory contract
/// since its deployment.
pub fn bootnodes_filter() -> (r: LogFilter)
    ensures
        r.address.bytes@ == bootnodes_contract_address(),
        r.event_signature.bytes@ == keccak_of_text(trusted_node_added_signature()),
        r.from_block == Some(BOOTNODES_CONTRACT_DEPLOY_BLOCK),
{
    let address = Address {
        bytes: [
            0x77, 0x77, 0x77, 0x77, 0x48, 0xbc, 0x44, 0xd8, 0xfd, 0x1d, 0xdb, 0x63, 0xd6, 0xc0,
            0xa8, 0x02, 0xd9, 0xc0, 0x35, 0x88,
        ],
    };
    assert(address.bytes@ =~= bootnodes_contract_address());
    LogFilter {
        address,
        event_signature: keccak_text("TrustedNodeAdded(string)"),
        from_block: Some(BOOTNODES_CONTRACT_DEPLOY_BLOCK),
    }
}

/// The length of `n` bytes padded to whole 32-byte words.
pub open spec fn padded_len(n: int) -> int {
    n + (32 - n % 32) % 32
}

/// The number of text bytes that a strict ABI encoding of one `string`
/// declares (meaningful where the first two words are well formed).
pub open spec fn abi_string_len(data: Seq<u8>) -> int {
    word_u32(data.subrange(32, 64))
}

/// Whether `data` is the strict ABI encoding of one `string` of valid UTF-8:
/// the offset word 32, a length word, the bytes, and zero padding to a
/// whole word.
pub open spec fn abi_string_well_formed(data: Seq<u8>) -> bool {
    &&& data.len() >= 64
    &&& word_holds_u32(data.subrange(0, 32))
    &&& word_u32(data.subrange(0, 32)) == 32
    &&& word_holds_u32(data.subrange(32, 64))
    &&& data.len() == 64 + padded_len(abi_string_len(data))
    &&& forall|i: int| 64 + abi_string_len(data) <= i < data.len() ==> data[i] == 0u8
    &&& valid_utf8(data.subrange(64, 64 + abi_string_len(data)))
}

/// The text of a well-formed ABI `string` encoding.
pub open spec fn abi_string_text(data: Seq<u8>) -> Seq<char> {
    decode_utf8(data.subrange(64, 64 + abi_string_len(data)))
}

/// Relies on std::str::from_utf8: it accepts exactly the valid UTF-8 byte
/// sequences and decodes them.
#[verifier::external_body]
fn text_from_utf8(b: &[u8]) -> (r: Option<String>)
    ensures
        r is Some <==> valid_utf8(b@),
        r matches Some(s) ==> s@ == decode_utf8(b@),
{
    std::str::from_utf8(b).ok().map(|s| s.to_string())
}

/// Decodes the text of one strictly ABI-encoded `string`.
pub fn decode_abi_string(data: &[u8]) -> (r: Option<String>)
    ensures
        r is Some <==> abi_string_well_formed(data@),
        r matches Some(s) ==> s@ == abi_string_text(data@),
{
    let len = data.len();
    if len < 64 {
        return None;
    }
    proof {
        lemma_word_zeros(data@, 0, 28);
        lemma_word_zeros(data@, 32, 28);
        let w0 = data@.subrange(0, 32);
        let w1 = data@.subrange(32, 64);
        assert(w0[28] == data@[28] && w0[29] == data@[29] && w0[30] == data@[30] && w0[31]
            == data@[31]);
        assert(w1[28] == data@[60] && w1[29] == data@[61] && w1[30] == data@[62] && w1[31]
            == data@[63]);
    }
    if !zeros_at(data, 0, 28) || !zeros_at(data, 32, 28) {
        return None;
    }
    let offset = u32_at(data, 28);
    if offset != 32 {
        return None;
    }
    let n32 = u32_at(data, 60) as u64;
    let padded64 = n32 + (32 - n32 % 32) % 32;
    if (len - 64) as u64 != padded64 {
        return None;
    }
    let n = n32 as usize;
    let padded = padded64 as usize;
    if !zeros_at(data, 64 + n, padded - n) {
        return None;
    }
    text_from_utf8(slice_subrange(data, 64, 64 + n))
}

/// The node address that a `TrustedNodeAdded` log announces, or `None`
/// where the log is not a strict `TrustedNodeAdded` event.
pub fn decode_trusted_node_added(log: &Log) -> (r: Option<String>)
    ensures
        r is Some <==> (log.topics@.len() == 1 && log.topics@[0].bytes@ == keccak_of_text(
            trusted_node_added_signature(),
        ) && abi_string_well_formed(log.data@)),
        r matches Some(s) ==> s@ == abi_string_text(log.data@),
{
    if log.topics.len() != 1 {
        return None;
    }
    let sig: B256 = keccak_text("TrustedNodeAdded(string)");
    if !log.topics[0].equals(&sig) {
        return None;
    }
    decode_abi_string(log.data.as_slice())
}

/// The nodes that every decodable log of `logs` announces, in order.
pub open spec fn announced_nodes(logs: Seq<Log>) -> Seq<Seq<char>>
    decreases logs.len(),
{
    if logs.len() == 0 {
        Seq::empty()
    } else {
        let rest = announced_nodes(logs.drop_last());
        let l = logs.last();
        if l.topics@.len() == 1 && l.topics@[0].bytes@ == keccak_of_text(
            trusted_node_added_signature(),
        ) && abi_string_well_formed(l.data@) {
            rest.push(abi_string_text(l.data@))
        } else {
            rest
        }
    }
}

/// The node addresses announced by the directory's logs, skipping any log
/// that does not decode.
pub fn trusted_node_candidates(logs: &Vec<Log>) -> (r: Vec<String>)
    ensures
        r@.map_values(|s: String| s@) == announced_nodes(logs@),
{
    let mut out: Vec<String> = Vec::new();
    let mut i: usize = 0;
    while i < logs.len()
        invariant
            0 <= i <= logs@.len(),
            out@.map_values(|s: String| s@) == announced_nodes(logs@.subrange(0, i as int)),
        decreases logs@.len() - i,
    {
        let ghost before = out@;
        proof {
            let s = logs@.subrange(0, i as int + 1);
            assert(s.drop_last() =~= logs@.subrange(0, i as int));
            assert(s.last() == logs@[i as int]);
        }
        match decode_trusted_node_added(&logs[i]) {
            Some(node) => {
                out.push(node);
                assert(out@.map_values(|s: String| s@) =~= before.map_values(|s: String| s@).push(
                    out@.last()@,
                ));
            },
            None => {},
        }
        i = i + 1;
    }
    assert(logs@.subrange(0, logs@.len() as int) =~= logs@);
    out
}

/// The nodes of `nodes` whose flag in `trusted` (same position) is set; a
/// node past the end of `trusted` is dropped.
pub open spec fn trusted_selection(nodes: Seq<Seq<char>>, trusted: Seq<bool>) -> Seq<Seq<char>>
    decreases nodes.len(),
{
    if nodes.len() == 0 {
        Seq::empty()
    } else {
        let rest = trusted_selection(nodes.drop_last(), trusted);
        let i = nodes.len() - 1;
        if i < trusted.len() && trusted[i] {
            rest.push(nodes[i])
        } else {
            rest
        }
    }
}

/// The candidates that the directory contract confirms as trusted: those
/// whose answer at the same position of `is_trusted` is `true`.
pub fn get_contract_boot_nodes(nodes: &Vec<String>, is_trusted: &Vec<bool>) -> (r: Vec<String>)
    ensures
        r@.map_values(|s: String| s@) == trusted_selection(
            nodes@.map_values(|s: String| s@),
            is_trusted@,
        ),
{
    let ghost all = nodes@.map_values(|s: String| s@);
    let mut out: Vec<String> = Vec::new();
    let mut i: usize = 0;
    while i < nodes.len()
        invariant
            0 <= i <= nodes@.len(),
            all == nodes@.map_values(|s: String| s@),
            out@.map_values(|s: String| s@) == trusted_selection(
                all.subrange(0, i as int),
                is_trusted@,
            ),
        decreases nodes@.len() - i,
    {
        let ghost before = out@;
        proof {
            let s = all.subrange(0, i as int + 1);
            assert(s.drop_last() =~= all.subrange(0, i as int));
            assert(s[i as int] == nodes@[i as int]@);
        }
        if i < is_trusted.len() && is_trusted[i] {
            out.push(nodes[i].clone());
            assert(out@.map_values(|s: String| s@) =~= before.map_values(|s: String| s@).push(
                nodes@[i as int]@,
            ));
        }
        i = i + 1;
    }
    assert(all.subrange(0, nodes@.len() as int) =~= all);
    out
}

} // verus!
