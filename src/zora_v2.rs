use vstd::prelude::*;
use vstd::string::StringExecFns;

use crate::chain::{
    address_at, keccak_of_text, keccak_text, lemma_word_zeros, u32_at, word_at, word_holds_address,
    word_holds_bool, word_holds_u32, word_u32, zeros_at, Log, LogFilter, TransactionReceipt,
};
use crate::guid::{guid, guid_string};
use crate::premint::PremintMetadata;
use crate::types::{Address, InclusionClaim, B256};

verus! {

/// A 256-bit unsigned integer as 32 big-endian bytes.
#[derive(Clone, Copy, Debug, PartialEq, Eq)]
pub struct U256 {
    pub be_bytes: [u8; 32],
}

impl U256 {
    /// The 256-bit integer whose value is `v`.
    pub fn from_u32(v: u32) -> (r: U256)
        ensures
            word_holds_u32(r.be_bytes@),
            word_u32(r.be_bytes@) == v as int,
    {
        let mut be_bytes = [0u8; 32];
        be_bytes[28] = (v / 16777216) as u8;
        be_bytes[29] = (v / 65536 % 256) as u8;
        be_bytes[30] = (v / 256 % 256) as u8;
        be_bytes[31] = (v % 256) as u8;
        assert((v / 16777216) * 16777216 + (v / 65536 % 256) * 65536 + (v / 256 % 256) * 256 + v
            % 256 == v) by (nonlinear_arith);
        U256 { be_bytes }
    }
}

/// The collection a premint deploys (or mints into).
#[derive(Clone, Debug)]
pub struct ContractCreationConfig {
    pub contract_admin: Address,
    pub contract_uri: String,
    pub contract_name: String,
}

/// The token a premint creates.
#[derive(Clone, Debug)]
pub struct TokenCreationConfig {
    pub token_uri: String,
    pub max_supply: U256,
    pub max_tokens_per_address: u64,
    pub price_per_token: u128,
    pub mint_start: u64,
    pub mint_duration: u64,
    pub royalty_bps: u32,
    pub payout_recipient: Address,
    pub fixed_price_minter: Address,
    pub create_referral: Address,
}

/// The signed part of a premint: the token, its uid within the collection,
/// and its version.
#[derive(Clone, Debug)]
pub struct CreatorAttribution {
    pub token_config: TokenCreationConfig,
    pub uid: u32,
    pub version: u32,
    pub deleted: bool,
}

/// A Zora premint of the second version.
#[derive(Clone, Debug)]
pub struct ZoraPremintV2 {
    pub collection: ContractCreationConfig,
    pub premint: CreatorAttribution,
    pub collection_address: Address,
    pub chain_id: u64,
    pub signature: String,
}

/// The EIP-712 domain under which a premint is signed.
#[derive(Clone, Debug)]
pub struct Eip712Domain {
    pub name: String,
    pub version: String,
    pub chain_id: u64,
    pub verifying_contract: Address,
}

/// The kind tag of Zora premints of the second version.
pub open spec fn zora_v2_kind() -> Seq<char> {
    "zora_premint_v2"@
}

/// The kind tag of Zora premints of the second version.
pub fn zora_v2_kind_string() -> (r: String)
    ensures
        r@ == zora_v2_kind(),
{
    String::from_str("zora_premint_v2")
}

/// The id of a Zora premint of the second version.
pub open spec fn zora_v2_id(p: ZoraPremintV2) -> Seq<char> {
    guid(p.chain_id, p.collection_address.bytes@, p.premint.uid)
}

/// The chains on which the premint factory is watched.
pub open spec fn zora_v2_chain_supported(chain_id: u64) -> bool {
    chain_id == 7777777 || chain_id == 8453
}

/// The address of the premint factory contract.
pub open spec fn premint_factory_address() -> Seq<u8> {
    seq![
        0x77u8, 0x77u8, 0x77u8, 0x36u8, 0x06u8, 0xe7u8, 0xe4u8, 0x6cu8, 0x8bu8, 0xa8u8,
        0xb9u8, 0x8cu8, 0x08u8, 0xf5u8, 0xcdu8, 0x21u8, 0x8eu8, 0x31u8, 0xd3u8, 0x40u8,
    ]
}

/// The address of the premint factory contract.
pub fn premint_factory() -> (r: Address)
    ensures
        r.bytes@ == premint_factory_address(),
{
    let r = Address {
        bytes: [
            0x77, 0x77, 0x77, 0x36, 0x06, 0xe7, 0xe4, 0x6c, 0x8b, 0xa8, 0xb9, 0x8c, 0x08, 0xf5,
            0xcd, 0x21, 0x8e, 0x31, 0xd3, 0x40,
        ],
    };
    assert(r.bytes@ =~= premint_factory_address());
    r
}

/// The canonical signature of the factory's `PremintedV2` event.
pub open spec fn preminted_v2_signature() -> Seq<char> {
    "PremintedV2(address,uint256,bool,uint32,address,uint256)"@
}

/// The first topic of every `PremintedV2` log: the hash of its signature.
pub fn preminted_v2_topic() -> (r: B256)
    ensures
        r.bytes@ == keccak_of_text(preminted_v2_signature()),
{
    keccak_text("PremintedV2(address,uint256,bool,uint32,address,uint256)")
}

/// The factory's `PremintedV2` event, decoded.
#[derive(Clone, Copy, Debug, PartialEq, Eq)]
pub struct PremintedV2 {
    pub contract_address: Address,
    pub token_id: B256,
    pub created_new_contract: bool,
    pub uid: u32,
    pub minter: Address,
    pub quantity_minted: B256,
}

/// Whether `topics` and `data` are the strict ABI encoding of a `PremintedV2`
/// event: the signature topic, three indexed words (address, uint256, bool)
/// and exactly three data words (uint32, address, uint256).
pub open spec fn preminted_v2_well_formed(topics: Seq<B256>, data: Seq<u8>) -> bool {
    &&& topics.len() == 4
    &&& topics[0].bytes@ == keccak_of_text(preminted_v2_signature())
    &&& word_holds_address(topics[1].bytes@)
    &&& word_holds_bool(topics[3].bytes@)
    &&& data.len() == 96
    &&& word_holds_u32(data.subrange(0, 32))
    &&& word_holds_address(data.subrange(32, 64))
}

/// The `contractAddress` field of a well-formed `PremintedV2` log.
pub open spec fn event_contract_address(topics: Seq<B256>) -> Seq<u8> {
    topics[1].bytes@.subrange(12, 32)
}

/// The `uid` field of a well-formed `PremintedV2` log.
pub open spec fn event_uid(data: Seq<u8>) -> u32 {
    word_u32(data.subrange(0, 32)) as u32
}

/// Whether `e` holds the fields encoded in `topics` and `data`.
pub open spec fn preminted_v2_decodes_to(topics: Seq<B256>, data: Seq<u8>, e: PremintedV2) -> bool {
    &&& e.contract_address.bytes@ == event_contract_address(topics)
    &&& e.token_id.bytes@ == topics[2].bytes@
    &&& e.created_new_contract == (topics[3].bytes@[31] == 1u8)
    &&& e.uid == event_uid(data)
    &&& e.minter.bytes@ == data.subrange(44, 64)
    &&& e.quantity_minted.bytes@ == data.subrange(64, 96)
}

/// Decodes a `PremintedV2` event from a log's topics and data, rejecting any
/// encoding that is not strict.
pub fn decode_preminted_v2(topics: &Vec<B256>, data: &Vec<u8>) -> (r: Option<PremintedV2>)
    ensures
        r is Some <==> preminted_v2_well_formed(topics@, data@),
        r matches Some(e) ==> preminted_v2_decodes_to(topics@, data@, e),
{
    if topics.len() != 4 || data.len() != 96 {
        return None;
    }
    let sig = preminted_v2_topic();
    if !topics[0].equals(&sig) {
        return None;
    }
    let t1 = topics[1].bytes.as_slice();
    let t3 = topics[3].bytes.as_slice();
    let d = data.as_slice();
    let ok = zeros_at(t1, 0, 12) && zeros_at(t3, 0, 31) && (t3[31] == 0 || t3[31] == 1)
        && zeros_at(d, 0, 28) && zeros_at(d, 32, 12);
    proof {
        lemma_word_zeros(topics@[1].bytes@, 0, 12);
        lemma_word_zeros(data@, 0, 28);
        lemma_word_zeros(data@, 32, 12);
    }
    if !ok {
        return None;
    }
    let uid = u32_at(d, 28);
    let e = PremintedV2 {
        contract_address: address_at(t1, 12),
        token_id: topics[2],
        created_new_contract: t3[31] == 1,
        uid,
        minter: address_at(d, 44),
        quantity_minted: word_at(d, 64),
    };
    proof {
        let w0 = data@.subrange(0, 32);
        assert(w0[28] == data@[28] && w0[29] == data@[29] && w0[30] == data@[30] && w0[31]
            == data@[31]);
    }
    Some(e)
}

/// Why a log could not be turned into an inclusion claim.
#[derive(Clone, Copy, Debug, PartialEq, Eq, Structural)]
pub enum ClaimError {
    /// The log is not a strictly encoded `PremintedV2` event.
    UndecodableLog,
}

/// The transaction hash of a log, zero where the node gave none.
pub open spec fn log_tx_hash(log: Log) -> Seq<u8> {
    match log.transaction_hash {
        Some(h) => h.bytes@,
        None => Seq::new(32, |i: int| 0u8),
    }
}

/// The index of a log in its block, zero where the node gave none.
pub open spec fn log_index_or_zero(log: Log) -> u64 {
    match log.log_index {
        Some(i) => i,
        None => 0,
    }
}

fn tx_hash_of(log: &Log) -> (r: B256)
    ensures
        r.bytes@ == log_tx_hash(*log),
{
    match log.transaction_hash {
        Some(h) => h,
        None => B256::zero(),
    }
}

fn log_index_of(log: &Log) -> (r: u64)
    ensures
        r == log_index_or_zero(*log),
{
    match log.log_index {
        Some(i) => i,
        None => 0,
    }
}

/// The filter under which Zora premints are watched on `chain_id`: the
/// factory's `PremintedV2` logs, on the supported chains only.
pub open spec fn zora_v2_filter(chain_id: u64, r: Option<LogFilter>) -> bool {
    &&& (r is Some <==> zora_v2_chain_supported(chain_id))
    &&& (r matches Some(f) ==> f.address.bytes@ == premint_factory_address()
        && f.event_signature.bytes@ == keccak_of_text(preminted_v2_signature())
        && f.from_block is None)
}

/// Whether `log` yields an inclusion claim: it is a strict `PremintedV2` log.
pub open spec fn zora_v2_log_maps(log: Log) -> bool {
    preminted_v2_well_formed(log.topics@, log.data@)
}

/// Whether `c` is the claim that `log` on `chain_id` makes.
pub open spec fn zora_v2_claim_of_log(chain_id: u64, log: Log, c: InclusionClaim) -> bool {
    &&& c.premint_id@ == guid(chain_id, event_contract_address(log.topics@), event_uid(log.data@))
    &&& c.chain_id == chain_id
    &&& c.tx_hash.bytes@ == log_tx_hash(log)
    &&& c.log_index == log_index_or_zero(log)
    &&& c.kind@ == zora_v2_kind()
}

/// All that must hold for `claim` to be proven by `log` of receipt `tx` for
/// premint `p` on chain `chain_id`.
pub open spec fn zora_v2_claim_holds(
    p: ZoraPremintV2,
    chain_id: u64,
    tx: TransactionReceipt,
    log: Log,
    claim: InclusionClaim,
) -> bool {
    &&& preminted_v2_well_formed(log.topics@, log.data@)
    &&& log.address.bytes@ == premint_factory_address()
    &&& log_tx_hash(log) == tx.transaction_hash.bytes@
    &&& claim.tx_hash.bytes@ == tx.transaction_hash.bytes@
    &&& claim.log_index == log_index_or_zero(log)
    &&& claim.premint_id@ == guid(
        chain_id,
        event_contract_address(log.topics@),
        event_uid(log.data@),
    )
    &&& claim.kind@ == zora_v2_kind()
    &&& claim.chain_id == chain_id
    &&& p.collection_address.bytes@ == event_contract_address(log.topics@)
    &&& p.premint.uid == event_uid(log.data@)
}

impl ZoraPremintV2 {
    /// The EIP-712 domain of this premint: "Preminter", version "2", bound
    /// to its chain and collection.
    pub fn eip712_domain(&self) -> (r: Eip712Domain)
        ensures
            r.name@ == "Preminter"@,
            r.version@ == "2"@,
            r.chain_id == self.chain_id,
            r.verifying_contract == self.collection_address,
    {
        Eip712Domain {
            name: String::from_str("Preminter"),
            version: String::from_str("2"),
            chain_id: self.chain_id,
            verifying_contract: self.collection_address,
        }
    }

    /// The deterministic id of the premint named by a `PremintedV2` event.
    pub fn event_to_guid(chain_id: u64, event: &PremintedV2) -> (r: String)
        ensures
            r@ == guid(chain_id, event.contract_address.bytes@, event.uid),
    {
        guid_string(chain_id, event.contract_address.bytes.as_slice(), event.uid)
    }

    /// The deterministic id of this premint.
    pub fn id(&self) -> (r: String)
        ensures
            r@ == zora_v2_id(*self),
    {
        guid_string(self.chain_id, self.collection_address.bytes.as_slice(), self.premint.uid)
    }

    /// The filter for the factory's `PremintedV2` logs on `chain_id`, or
    /// `None` where this kind is not watched on that chain.
    pub fn check_filter(chain_id: u64) -> (r: Option<LogFilter>)
        ensures
            zora_v2_filter(chain_id, r),
    {
        if chain_id != 7777777 && chain_id != 8453 {
            return None;
        }
        Some(
            LogFilter {
                address: premint_factory(),
                event_signature: preminted_v2_topic(),
                from_block: None,
            },
        )
    }

    /// The inclusion claim that a factory log on `chain_id` makes.
    pub fn map_claim(chain_id: u64, log: &Log) -> (r: Result<InclusionClaim, ClaimError>)
        ensures
            r is Ok <==> zora_v2_log_maps(*log),
            r matches Ok(c) ==> zora_v2_claim_of_log(chain_id, *log, c),
            r matches Err(e) ==> e == ClaimError::UndecodableLog,
    {
        match decode_preminted_v2(&log.topics, &log.data) {
            Some(event) => Ok(
                InclusionClaim {
                    premint_id: Self::event_to_guid(chain_id, &event),
                    chain_id,
                    tx_hash: tx_hash_of(log),
                    log_index: log_index_of(log),
                    kind: zora_v2_kind_string(),
                },
            ),
            None => Err(ClaimError::UndecodableLog),
        }
    }

    /// Whether `log` of receipt `tx` proves `claim` for this premint.
    pub fn verify_claim(
        &self,
        chain_id: u64,
        tx: &TransactionReceipt,
        log: &Log,
        claim: &InclusionClaim,
    ) -> (r: bool)
        ensures
            r == zora_v2_claim_holds(*self, chain_id, *tx, *log, *claim),
    {
        match decode_preminted_v2(&log.topics, &log.data) {
            Some(event) => {
                let factory = premint_factory();
                let kind = zora_v2_kind_string();
                let guid = Self::event_to_guid(chain_id, &event);
                log.address.equals(&factory) && tx_hash_of(log).equals(&tx.transaction_hash)
                    && claim.tx_hash.equals(&tx.transaction_hash) && claim.log_index
                    == log_index_of(log) && claim.premint_id == guid && claim.kind == kind
                    && claim.chain_id == chain_id && self.collection_address.equals(
                    &event.contract_address,
                ) && self.premint.uid == event.uid
            },
            None => false,
        }
    }
}

impl Default for ZoraPremintV2 {
    /// An empty premint: zero numbers, empty texts, zero addresses.
    fn default() -> (r: Self)
        ensures
            r.chain_id == 0,
            r.premint.uid == 0,
            r.premint.version == 0,
            !r.premint.deleted,
            r.signature@ == Seq::<char>::empty(),
            r.collection.contract_uri@ == Seq::<char>::empty(),
            r.collection.contract_name@ == Seq::<char>::empty(),
            r.premint.token_config.token_uri@ == Seq::<char>::empty(),
            r.collection_address.bytes@ == Seq::new(20, |i: int| 0u8),
            r.collection.contract_admin.bytes@ == Seq::new(20, |i: int| 0u8),
            r.premint.token_config.max_supply.be_bytes@ == Seq::new(32, |i: int| 0u8),
            r.premint.token_config.max_tokens_per_address == 0,
            r.premint.token_config.price_per_token == 0,
            r.premint.token_config.mint_start == 0,
            r.premint.token_config.mint_duration == 0,
            r.premint.token_config.royalty_bps == 0,
            r.premint.token_config.payout_recipient.bytes@ == Seq::new(20, |i: int| 0u8),
            r.premint.token_config.fixed_price_minter.bytes@ == Seq::new(20, |i: int| 0u8),
            r.premint.token_config.create_referral.bytes@ == Seq::new(20, |i: int| 0u8),
    {
        let max_supply = U256 { be_bytes: [0u8; 32] };
        assert(max_supply.be_bytes@ =~= Seq::new(32, |i: int| 0u8));
        ZoraPremintV2 {
            collection: ContractCreationConfig {
                contract_admin: Address::zero(),
                contract_uri: String::new(),
                contract_name: String::new(),
            },
            premint: CreatorAttribution {
                token_config: TokenCreationConfig {
                    token_uri: String::new(),
                    max_supply,
                    max_tokens_per_address: 0,
                    price_per_token: 0,
                    mint_start: 0,
                    mint_duration: 0,
                    royalty_bps: 0,
                    payout_recipient: Address::zero(),
                    fixed_price_minter: Address::zero(),
                    create_referral: Address::zero(),
                },
                uid: 0,
                version: 0,
                deleted: false,
            },
            collection_address: Address::zero(),
            chain_id: 0,
            signature: String::new(),
        }
    }
}

impl ZoraPremintV2 {
    /// The kind-independent description of this premint. The metadata's
    /// collection address is left zero (unknown).
    pub fn metadata(&self) -> (r: PremintMetadata)
        ensures
            r.id@ == zora_v2_id(*self),
            r.version == self.premint.version as u64,
            r.kind@ == zora_v2_kind(),
            r.signer == self.collection.contract_admin,
            r.chain_id == self.chain_id,
            r.collection_address.bytes@ == Seq::new(20, |i: int| 0u8),
            word_holds_u32(r.token_id.be_bytes@),
            word_u32(r.token_id.be_bytes@) == self.premint.uid as int,
            r.uri@ == self.premint.token_config.token_uri@,
    {
        PremintMetadata {
            id: self.id(),
            version: self.premint.version as u64,
            kind: zora_v2_kind_string(),
            signer: self.collection.contract_admin,
            chain_id: self.chain_id,
            collection_address: Address::zero(),
            token_id: U256::from_u32(self.premint.uid),
            uri: self.premint.token_config.token_uri.clone(),
        }
    }

    pub fn collection_address(&self) -> (r: Address)
        ensures
            r == self.collection_address,
    {
        self.collection_address
    }

    pub fn chain_id(&self) -> (r: u64)
        ensures
            r == self.chain_id,
    {
        self.chain_id
    }

    pub fn signature(&self) -> (r: String)
        ensures
            r == self.signature,
    {
        self.signature.clone()
    }
}

/// A premint's id depends on its chain, collection address and uid alone,
/// so every node computes the same id for it; and the claim that the
/// factory's log of that premint makes carries that same id.
pub proof fn lemma_id_stable(p: ZoraPremintV2, q: ZoraPremintV2, log: Log, c: InclusionClaim)
    requires
        p.chain_id == q.chain_id,
        p.collection_address.bytes@ == q.collection_address.bytes@,
        p.premint.uid == q.premint.uid,
        zora_v2_claim_of_log(p.chain_id, log, c),
        event_contract_address(log.topics@) == p.collection_address.bytes@,
        event_uid(log.data@) == p.premint.uid,
    ensures
        zora_v2_id(p) == zora_v2_id(q),
        c.premint_id@ == zora_v2_id(p),
{
}

} // verus!
