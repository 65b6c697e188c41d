use vstd::prelude::*;

use crate::chain::{word_holds_u32, word_u32, Log, LogFilter, TransactionReceipt};
use crate::types::{Address, InclusionClaim};
use crate::zora_v2::{
    zora_v2_claim_holds, zora_v2_claim_of_log, zora_v2_filter, zora_v2_id, zora_v2_kind,
    zora_v2_log_maps, ClaimError, ContractCreationConfig,
    CreatorAttribution, TokenCreationConfig, ZoraPremintV2, U256,
};

verus! {

/// What every premint kind tells about itself.
#[derive(Clone, Debug)]
pub struct PremintMetadata {
    pub id: String,
    pub version: u64,
    pub kind: String,
    pub signer: Address,
    pub chain_id: u64,
    pub collection_address: Address,
    pub token_id: U256,
    pub uri: String,
}

/// A premint of any known kind.
#[derive(Clone, Debug)]
pub enum PremintTypes {
    ZoraV2(ZoraPremintV2),
}

/// A premint kind, for what is asked of a kind rather than of a premint.
#[derive(Clone, Copy, Debug, PartialEq, Eq, Structural)]
pub enum PremintKind {
    ZoraV2,
}

/// The id of a premint.
pub open spec fn premint_id(p: PremintTypes) -> Seq<char> {
    match p {
        PremintTypes::ZoraV2(z) => zora_v2_id(z),
    }
}

/// The kind tag of a premint.
pub open spec fn premint_kind(p: PremintTypes) -> Seq<char> {
    match p {
        PremintTypes::ZoraV2(_) => zora_v2_kind(),
    }
}

/// The version of a premint.
pub open spec fn premint_version(p: PremintTypes) -> u64 {
    match p {
        PremintTypes::ZoraV2(z) => z.premint.version as u64,
    }
}

/// The chain a premint is meant for.
pub open spec fn premint_chain(p: PremintTypes) -> u64 {
    match p {
        PremintTypes::ZoraV2(z) => z.chain_id,
    }
}

/// What identifies a premint in a store: its kind and its id.
pub open spec fn premint_key(p: PremintTypes) -> (Seq<char>, Seq<char>) {
    (premint_kind(p), premint_id(p))
}

/// Whether `log` of receipt `tx` proves `claim` for premint `p`.
pub open spec fn claim_holds(
    p: PremintTypes,
    chain_id: u64,
    tx: TransactionReceipt,
    log: Log,
    claim: InclusionClaim,
) -> bool {
    match p {
        PremintTypes::ZoraV2(z) => zora_v2_claim_holds(z, chain_id, tx, log, claim),
    }
}

impl ZoraPremintV2 {
    /// A copy of the premint with the same value.
    pub fn duplicate(&self) -> (r: ZoraPremintV2)
        ensures
            r == *self,
    {
        let t = &self.premint.token_config;
        ZoraPremintV2 {
            collection: ContractCreationConfig {
                contract_admin: self.collection.contract_admin,
                contract_uri: self.collection.contract_uri.clone(),
                contract_name: self.collection.contract_name.clone(),
            },
            premint: CreatorAttribution {
                token_config: TokenCreationConfig {
                    token_uri: t.token_uri.clone(),
                    max_supply: t.max_supply,
                    max_tokens_per_address: t.max_tokens_per_address,
                    price_per_token: t.price_per_token,
                    mint_start: t.mint_start,
                    mint_duration: t.mint_duration,
                    royalty_bps: t.royalty_bps,
                    payout_recipient: t.payout_recipient,
                    fixed_price_minter: t.fixed_price_minter,
                    create_referral: t.create_referral,
                },
                uid: self.premint.uid,
                version: self.premint.version,
                deleted: self.premint.deleted,
            },
            collection_address: self.collection_address,
            chain_id: self.chain_id,
            signature: self.signature.clone(),
        }
    }
}

impl PremintTypes {
    /// A copy of the premint with the same value.
    pub fn duplicate(&self) -> (r: PremintTypes)
        ensures
            r == *self,
    {
        match self {
            PremintTypes::ZoraV2(z) => PremintTypes::ZoraV2(z.duplicate()),
        }
    }

    /// The premint's kind.
    pub fn kind(&self) -> (r: PremintKind)
        ensures
            self is ZoraV2 ==> r == PremintKind::ZoraV2,
    {
        match self {
            PremintTypes::ZoraV2(_) => PremintKind::ZoraV2,
        }
    }

    /// The premint's deterministic id.
    pub fn id(&self) -> (r: String)
        ensures
            r@ == premint_id(*self),
    {
        match self {
            PremintTypes::ZoraV2(z) => z.id(),
        }
    }

    /// The premint's kind tag.
    pub fn kind_name(&self) -> (r: String)
        ensures
            r@ == premint_kind(*self),
    {
        match self {
            PremintTypes::ZoraV2(_) => crate::zora_v2::zora_v2_kind_string(),
        }
    }

    /// The premint's version.
    pub fn version(&self) -> (r: u64)
        ensures
            r == premint_version(*self),
    {
        match self {
            PremintTypes::ZoraV2(z) => z.premint.version as u64,
        }
    }

    /// The chain the premint is meant for.
    pub fn chain_id(&self) -> (r: u64)
        ensures
            r == premint_chain(*self),
    {
        match self {
            PremintTypes::ZoraV2(z) => z.chain_id,
        }
    }

    /// The premint's metadata.
    pub fn metadata(&self) -> (r: PremintMetadata)
        ensures
            r.id@ == premint_id(*self),
            r.kind@ == premint_kind(*self),
            r.version == premint_version(*self),
            r.chain_id == premint_chain(*self),
            self matches PremintTypes::ZoraV2(z) ==> {
                &&& r.signer == z.collection.contract_admin
                &&& r.collection_address.bytes@ == Seq::new(20, |i: int| 0u8)
                &&& word_holds_u32(r.token_id.be_bytes@)
                &&& word_u32(r.token_id.be_bytes@) == z.premint.uid as int
                &&& r.uri@ == z.premint.token_config.token_uri@
            },
    {
        match self {
            PremintTypes::ZoraV2(z) => z.metadata(),
        }
    }

    /// Whether `log` of receipt `tx` proves `claim` for this premint.
    pub fn verify_claim(
        &self,
        chain_id: u64,
        tx: &TransactionReceipt,
        log: &Log,
        claim: &InclusionClaim,
    ) -> (r: bool)
        ensures
            r == claim_holds(*self, chain_id, *tx, *log, *claim),
    {
        match self {
            PremintTypes::ZoraV2(z) => z.verify_claim(chain_id, tx, log, claim),
        }
    }
}

impl PremintKind {
    /// The log filter under which premints of this kind are watched on
    /// `chain_id`, or `None` where the chain is not watched for this kind.
    pub fn check_filter(&self, chain_id: u64) -> (r: Option<LogFilter>)
        ensures
            self is ZoraV2 ==> zora_v2_filter(chain_id, r),
    {
        match self {
            PremintKind::ZoraV2 => ZoraPremintV2::check_filter(chain_id),
        }
    }

    /// The inclusion claim that a log on `chain_id` makes for this kind.
    pub fn map_claim(&self, chain_id: u64, log: &Log) -> (r: Result<InclusionClaim, ClaimError>)
        ensures
            self is ZoraV2 ==> (r is Ok <==> zora_v2_log_maps(*log)),
            self is ZoraV2 ==> (r matches Ok(c) ==> zora_v2_claim_of_log(chain_id, *log, c)),
    {
        match self {
            PremintKind::ZoraV2 => ZoraPremintV2::map_claim(chain_id, log),
        }
    }
}

} // verus!
