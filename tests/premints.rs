use mintpool::bootnodes::{
    bootnodes_filter, decode_abi_string, decode_trusted_node_added, get_contract_boot_nodes,
    trusted_node_candidates,
};
use mintpool::chain::{inclusion_claim_correct, Log, TransactionReceipt};
use mintpool::guid::guid_string;
use mintpool::premint::{PremintKind, PremintTypes};
use mintpool::types::{Address, InclusionClaim, B256};
use mintpool::zora_v2::{
    decode_preminted_v2, preminted_v2_topic, premint_factory, ClaimError, ZoraPremintV2,
};

fn addr(last: u8) -> Address {
    let mut bytes = [0u8; 20];
    bytes[0] = 0xab;
    bytes[19] = last;
    Address { bytes }
}

fn premint(chain_id: u64, collection: Address, uid: u32, version: u32) -> ZoraPremintV2 {
    let mut p = ZoraPremintV2::default();
    p.chain_id = chain_id;
    p.collection_address = collection;
    p.premint.uid = uid;
    p.premint.version = version;
    p.premint.token_config.token_uri = "ipfs://token".to_string();
    p
}

fn word_with_tail(tail: &[u8]) -> [u8; 32] {
    let mut w = [0u8; 32];
    w[32 - tail.len()..].copy_from_slice(tail);
    w
}

fn mint_log(collection: Address, uid: u32, tx: B256, index: u64, block: u64) -> Log {
    let mut data = Vec::new();
    data.extend_from_slice(&word_with_tail(&uid.to_be_bytes()));
    data.extend_from_slice(&word_with_tail(&[0x11; 20]));
    data.extend_from_slice(&word_with_tail(&[1]));
    Log {
        address: premint_factory(),
        topics: vec![
            preminted_v2_topic(),
            B256 { bytes: word_with_tail(&collection.bytes) },
            B256 { bytes: word_with_tail(&[7]) },
            B256 { bytes: word_with_tail(&[1]) },
        ],
        data,
        block_number: Some(block),
        transaction_hash: Some(tx),
        log_index: Some(index),
    }
}

#[test]
fn guid_is_decimal_hex_decimal() {
    let a = addr(0x0f);
    let s = guid_string(7777777, &a.bytes, 42);
    assert_eq!(s, "7777777:0xab0000000000000000000000000000000000000f:42");
    assert_eq!(guid_string(0, &[0u8; 20], 0), "0:0x0000000000000000000000000000000000000000:0");
}

#[test]
fn id_is_stable_across_fields() {
    let p = premint(8453, addr(1), 9, 1);
    let mut q = premint(8453, addr(1), 9, 5);
    q.premint.token_config.token_uri = "other".to_string();
    q.signature = "0xdead".to_string();
    assert_eq!(p.metadata().id, q.metadata().id);
    assert_eq!(p.metadata().id, "8453:0xab00000000000000000000000000000000000001:9");
    let r = premint(8453, addr(2), 9, 1);
    assert_ne!(p.metadata().id, r.metadata().id);
}

#[test]
fn metadata_fields() {
    let mut p = premint(7777777, addr(3), 258, 4);
    p.collection.contract_admin = addr(9);
    let m = p.metadata();
    assert_eq!(m.version, 4);
    assert_eq!(m.kind, "zora_premint_v2");
    assert_eq!(m.signer, addr(9));
    assert_eq!(m.chain_id, 7777777);
    assert_eq!(m.collection_address, Address { bytes: [0u8; 20] });
    assert_eq!(m.token_id.be_bytes[30], 1);
    assert_eq!(m.token_id.be_bytes[31], 2);
    assert_eq!(m.uri, "ipfs://token");
}

#[test]
fn default_premint_is_empty() {
    let p = ZoraPremintV2::default();
    assert_eq!(p.chain_id, 0);
    assert_eq!(p.premint.uid, 0);
    assert_eq!(p.signature, "");
    assert_eq!(p.collection_address, Address { bytes: [0u8; 20] });
}

#[test]
fn eip712_domain_names_preminter() {
    let p = premint(8453, addr(4), 1, 1);
    let d = p.eip712_domain();
    assert_eq!(d.name, "Preminter");
    assert_eq!(d.version, "2");
    assert_eq!(d.chain_id, 8453);
    assert_eq!(d.verifying_contract, addr(4));
}

#[test]
fn event_topic_is_signature_hash() {
    let t = preminted_v2_topic();
    let expected =
        alloy_primitives::keccak256("PremintedV2(address,uint256,bool,uint32,address,uint256)");
    assert_eq!(t.bytes, expected.0);
    assert_ne!(t.bytes, [0u8; 32]);
}

#[test]
fn check_filter_only_on_supported_chains() {
    let f = ZoraPremintV2::check_filter(7777777).unwrap();
    assert_eq!(f.address, premint_factory());
    assert_eq!(f.event_signature, preminted_v2_topic());
    assert_eq!(f.from_block, None);
    assert!(ZoraPremintV2::check_filter(8453).is_some());
    assert!(ZoraPremintV2::check_filter(1).is_none());
    assert!(PremintKind::ZoraV2.check_filter(10).is_none());
}

#[test]
fn map_claim_from_factory_log() {
    let tx = B256 { bytes: [5u8; 32] };
    let log = mint_log(addr(1), 77, tx, 3, 100);
    let c = ZoraPremintV2::map_claim(8453, &log).unwrap();
    assert_eq!(c.premint_id, "8453:0xab00000000000000000000000000000000000001:77");
    assert_eq!(c.chain_id, 8453);
    assert_eq!(c.tx_hash, tx);
    assert_eq!(c.log_index, 3);
    assert_eq!(c.kind, "zora_premint_v2");
}

#[test]
fn map_claim_defaults_missing_hash_and_index() {
    let mut log = mint_log(addr(1), 1, B256 { bytes: [5u8; 32] }, 3, 100);
    log.transaction_hash = None;
    log.log_index = None;
    let c = ZoraPremintV2::map_claim(8453, &log).unwrap();
    assert_eq!(c.tx_hash, B256 { bytes: [0u8; 32] });
    assert_eq!(c.log_index, 0);
}

#[test]
fn map_claim_rejects_bad_logs() {
    let good = mint_log(addr(1), 1, B256 { bytes: [5u8; 32] }, 0, 1);
    let mut wrong_topic = good.clone();
    wrong_topic.topics[0] = B256 { bytes: [1u8; 32] };
    assert_eq!(ZoraPremintV2::map_claim(8453, &wrong_topic).unwrap_err(), ClaimError::UndecodableLog);
    let mut short = good.clone();
    short.data.pop();
    assert!(ZoraPremintV2::map_claim(8453, &short).is_err());
    let mut dirty_address = good.clone();
    dirty_address.topics[1].bytes[0] = 1;
    assert!(ZoraPremintV2::map_claim(8453, &dirty_address).is_err());
    let mut bad_bool = good.clone();
    bad_bool.topics[3].bytes[31] = 2;
    assert!(ZoraPremintV2::map_claim(8453, &bad_bool).is_err());
}

#[test]
fn decode_event_fields() {
    let log = mint_log(addr(6), 0x01020304, B256 { bytes: [5u8; 32] }, 0, 1);
    let e = decode_preminted_v2(&log.topics, &log.data).unwrap();
    assert_eq!(e.contract_address, addr(6));
    assert_eq!(e.uid, 0x01020304);
    assert!(e.created_new_contract);
    assert_eq!(e.minter.bytes, [0x11; 20]);
    assert_eq!(e.token_id.bytes[31], 7);
    assert_eq!(e.quantity_minted.bytes[31], 1);
}

fn claim_for(p: &ZoraPremintV2, tx: B256, index: u64) -> InclusionClaim {
    InclusionClaim {
        premint_id: p.metadata().id,
        chain_id: p.chain_id,
        tx_hash: tx,
        log_index: index,
        kind: "zora_premint_v2".to_string(),
    }
}

#[test]
fn verify_claim_accepts_matching_log() {
    let p = premint(8453, addr(1), 12, 1);
    let tx = B256 { bytes: [9u8; 32] };
    let other = mint_log(addr(2), 3, tx, 0, 50);
    let log = mint_log(addr(1), 12, tx, 1, 50);
    let receipt = TransactionReceipt { transaction_hash: tx, logs: vec![other, log.clone()] };
    let claim = claim_for(&p, tx, 1);
    assert!(p.verify_claim(8453, &receipt, &log, &claim));
    let pt = PremintTypes::ZoraV2(p.clone());
    assert!(inclusion_claim_correct(&pt, &claim, &Some(receipt.clone())));
    assert!(!inclusion_claim_correct(&pt, &claim, &None));
    let mut out_of_range = claim.clone();
    out_of_range.log_index = 2;
    assert!(!inclusion_claim_correct(&pt, &out_of_range, &Some(receipt.clone())));
    let mut wrong_kind = claim.clone();
    wrong_kind.kind = "simple".to_string();
    assert!(!p.verify_claim(8453, &receipt, &log, &wrong_kind));
    assert!(!p.verify_claim(1, &receipt, &log, &claim));
    let q = premint(8453, addr(1), 13, 1);
    assert!(!q.verify_claim(8453, &receipt, &log, &claim));
    let mut foreign = log.clone();
    foreign.address = addr(0x55);
    assert!(!p.verify_claim(8453, &receipt, &foreign, &claim));
}

#[test]
fn verify_claim_rejects_other_tx_hash() {
    let p = premint(8453, addr(1), 12, 1);
    let tx = B256 { bytes: [9u8; 32] };
    let log = mint_log(addr(1), 12, tx, 0, 50);
    let receipt = TransactionReceipt { transaction_hash: tx, logs: vec![log.clone()] };
    let claim = claim_for(&p, B256 { bytes: [8u8; 32] }, 0);
    assert!(!p.verify_claim(8453, &receipt, &log, &claim));
    let pt = PremintTypes::ZoraV2(p);
    assert!(!inclusion_claim_correct(&pt, &claim, &Some(receipt)));
}

fn abi_string(s: &str) -> Vec<u8> {
    let mut data = Vec::new();
    data.extend_from_slice(&word_with_tail(&[32]));
    data.extend_from_slice(&word_with_tail(&(s.len() as u32).to_be_bytes()));
    data.extend_from_slice(s.as_bytes());
    while data.len() % 32 != 0 {
        data.push(0);
    }
    data
}

#[test]
fn abi_string_round() {
    let data = abi_string("/ip4/1.2.3.4/tcp/7778");
    assert_eq!(decode_abi_string(&data).unwrap(), "/ip4/1.2.3.4/tcp/7778");
    assert_eq!(decode_abi_string(&abi_string("")).unwrap(), "");
    let mut bad_offset = data.clone();
    bad_offset[31] = 64;
    assert!(decode_abi_string(&bad_offset).is_none());
    let mut dirty_padding = data.clone();
    let last = dirty_padding.len() - 1;
    dirty_padding[last] = 1;
    assert!(decode_abi_string(&dirty_padding).is_none());
    let mut not_utf8 = abi_string("ab");
    not_utf8[64] = 0xff;
    assert!(decode_abi_string(&not_utf8).is_none());
}

#[test]
fn boot_nodes_selected_by_flag() {
    let nodes = vec!["a".to_string(), "b".to_string(), "c".to_string()];
    assert_eq!(get_contract_boot_nodes(&nodes, &vec![true, false, true]), vec!["a", "c"]);
    assert_eq!(get_contract_boot_nodes(&nodes, &vec![false, true]), vec!["b"]);
    assert!(get_contract_boot_nodes(&vec![], &vec![true]).is_empty());
}

#[test]
fn boot_nodes_filter_from_deploy_block() {
    let f = bootnodes_filter();
    assert_eq!(f.from_block, Some(1_000_000));
    assert_eq!(f.address.bytes[0], 0x77);
    assert_eq!(f.address.bytes[19], 0x88);
    assert_eq!(f.event_signature.bytes, alloy_primitives::keccak256("TrustedNodeAdded(string)").0);
}

fn node_log(node: &str) -> Log {
    Log {
        address: bootnodes_filter().address,
        topics: vec![bootnodes_filter().event_signature],
        data: abi_string(node),
        block_number: Some(1_000_001),
        transaction_hash: None,
        log_index: None,
    }
}

#[test]
fn trusted_node_added_logs_decode() {
    let good = node_log("/dns4/node.example/tcp/7778");
    assert_eq!(decode_trusted_node_added(&good).unwrap(), "/dns4/node.example/tcp/7778");
    let mut other_event = good.clone();
    other_event.topics[0] = preminted_v2_topic();
    assert!(decode_trusted_node_added(&other_event).is_none());
    let mut garbled = node_log("x");
    garbled.data.truncate(40);
    let logs = vec![node_log("a"), garbled, other_event, node_log("b")];
    assert_eq!(trusted_node_candidates(&logs), vec!["a", "b"]);
}
