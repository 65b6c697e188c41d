use vstd::prelude::*;

use crate::chain::{Log, LogFilter};
use crate::premint::PremintKind;
use crate::types::{ClaimView, InclusionClaim};
use crate::zora_v2::{zora_v2_claim_of_log, zora_v2_filter, zora_v2_log_maps, ClaimError};

verus! {

/// Seconds to wait before connecting again after a provider or subscription
/// failure.
pub const RECONNECT_BACKOFF_SECS: u64 = 5;

/// Why a checker cannot run.
#[derive(Clone, Copy, Debug, PartialEq, Eq, Structural)]
pub enum CheckerError {
    /// The premint kind is not watched on the checker's chain.
    NoFilter,
}

/// Watches one chain for premints being brought on chain.
#[derive(Clone, Debug)]
pub struct MintChecker {
    chain_id: u64,
    rpc_url: String,
}

/// The state of a running checker: the filter it subscribes with and the
/// block number of the last log it saw, kept across reconnects.
#[derive(Clone, Copy, Debug)]
pub struct CheckerState {
    pub chain_id: u64,
    pub kind: PremintKind,
    pub filter: LogFilter,
    pub highest_block: Option<u64>,
}

/// The filter to subscribe with: `base`, starting at `highest` where a block
/// has been seen.
pub open spec fn resume_filter(base: LogFilter, highest: Option<u64>) -> LogFilter {
    match highest {
        Some(b) => LogFilter { from_block: Some(b), ..base },
        None => base,
    }
}

/// The block to resume from after a log numbered `n` (`None`: unnumbered).
pub open spec fn next_highest(highest: Option<u64>, n: Option<u64>) -> Option<u64> {
    match n {
        Some(b) => Some(b),
        None => highest,
    }
}

impl MintChecker {
    /// The chain this checker watches.
    pub closed spec fn watched_chain(&self) -> u64 {
        self.chain_id
    }

    /// The RPC endpoint of the chain.
    pub closed spec fn url(&self) -> Seq<char> {
        self.rpc_url@
    }

    pub fn new(chain_id: u64, rpc_url: String) -> (r: MintChecker)
        ensures
            r.watched_chain() == chain_id,
            r.url() == rpc_url@,
    {
        MintChecker { chain_id, rpc_url }
    }

    pub fn chain_id(&self) -> (r: u64)
        ensures
            r == self.watched_chain(),
    {
        self.chain_id
    }

    /// The RPC endpoint, kept to reconnect after a disconnect.
    pub fn rpc_url(&self) -> (r: &String)
        ensures
            r@ == self.url(),
    {
        &self.rpc_url
    }

    /// Starts watching this chain for premints of `kind`; fails where the
    /// kind has no filter on this chain, which is the only fatal case.
    pub fn poll_for_new_mints(&self, kind: PremintKind) -> (r: Result<CheckerState, CheckerError>)
        ensures
            zora_v2_filter(
                self.watched_chain(),
                match r {
                    Ok(s) => Some(s.filter),
                    Err(_) => None,
                },
            ),
            r matches Ok(s) ==> s.chain_id == self.watched_chain() && s.kind == kind && s.highest_block is None,
            r matches Err(e) ==> e == CheckerError::NoFilter,
    {
        match kind.check_filter(self.chain_id) {
            Some(filter) => Ok(CheckerState { chain_id: self.chain_id, kind, filter, highest_block: None }),
            None => Err(CheckerError::NoFilter),
        }
    }
}

impl CheckerState {
    /// The filter for the next subscription: from the last block seen on,
    /// so that a reconnect leaves no gap.
    pub fn subscription_filter(&self) -> (r: LogFilter)
        ensures
            r == resume_filter(self.filter, self.highest_block),
    {
        match self.highest_block {
            Some(b) => LogFilter { from_block: Some(b), ..self.filter },
            None => self.filter,
        }
    }

    /// Handles one log of the subscription: returns the inclusion claim it
    /// makes, if any, and records its block number.
    pub fn on_log(&mut self, log: &Log) -> (r: Result<InclusionClaim, ClaimError>)
        ensures
            final(self).chain_id == old(self).chain_id,
            final(self).kind == old(self).kind,
            final(self).filter == old(self).filter,
            final(self).highest_block == next_highest(old(self).highest_block, log.block_number),
            r is Ok <==> zora_v2_log_maps(*log),
            r matches Ok(c) ==> zora_v2_claim_of_log(old(self).chain_id, *log, c),
    {
        let r = self.kind.map_claim(self.chain_id, log);
        if let Some(b) = log.block_number {
            self.highest_block = Some(b);
        }
        r
    }
}

/// After a subscription drop, the checker subscribes again from the block of
/// the last log it saw: never from an earlier block, and with no gap.
pub proof fn lemma_reconnect_resumes(s: CheckerState, n: Option<u64>, b: u64)
    requires
        n == Some(b),
    ensures
        resume_filter(s.filter, next_highest(s.highest_block, n)).from_block == Some(b),
        resume_filter(s.filter, next_highest(s.highest_block, n)).address == s.filter.address,
        resume_filter(s.filter, next_highest(s.highest_block, n)).event_signature
            == s.filter.event_signature,
{
}

/// Whether a subscription with filter `f` delivers `log`, as far as its
/// starting block goes: a log before `from_block` is not delivered.
pub open spec fn filter_admits(f: LogFilter, log: Log) -> bool {
    match f.from_block {
        Some(b) => log.block_number matches Some(n) && n >= b,
        None => true,
    }
}

/// After a drop, a subscription made with the resume filter delivers no log
/// from a block before the last one seen; a log of that block itself may
/// come again, and its claim is then absorbed (marking a claim seen twice
/// is marking it once).
pub proof fn lemma_no_claim_before_resume(
    s: CheckerState,
    n: Option<u64>,
    b: u64,
    log: Log,
    seen: Set<ClaimView>,
    c: ClaimView,
)
    requires
        n == Some(b),
        filter_admits(resume_filter(s.filter, next_highest(s.highest_block, n)), log),
    ensures
        log.block_number matches Some(m) && m >= b,
        seen.insert(c).insert(c) == seen.insert(c),
{
    assert(seen.insert(c).insert(c) =~= seen.insert(c));
}

} // verus!
