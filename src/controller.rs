use vstd::prelude::*;

use crate::chain::{inclusion_claim_correct, inclusion_correct, TransactionReceipt};
use crate::premint::PremintTypes;
use crate::rules::{
    all_rules_accept, evaluation, lemma_evaluation_accepts, Results, RuleName, RuleResult,
    RulesEngine,
};
use crate::store::{
    active_rows, has_key, index_of_key, keys_unique, store_accepts, stored_after, PremintStore,
};
use crate::types::{
    contains_peer, peer_is_trusted, ClaimView, InclusionClaim, InclusionMode, PeerInclusionClaim,
};

verus! {

/// A snapshot of the gossip network as the swarm sees it.
#[derive(Clone, Debug)]
pub struct NetworkState {
    pub local_peer_id: Vec<u8>,
    pub connected_peers: Vec<Vec<u8>>,
    pub gossip_topics: Vec<String>,
}

/// A command from the controller to the gossip swarm.
#[derive(Clone, Debug)]
pub enum SwarmCommand {
    ConnectToPeer { address: String },
    /// The swarm replies with its [`NetworkState`] on the caller's channel.
    ReturnNetworkState,
    AnnounceSelf,
    Broadcast { message: PremintTypes },
    /// The swarm replies with the node's identity on the caller's channel.
    ReturnNodeInfo,
    SendOnchainMintFound(InclusionClaim),
}

/// An event from the gossip swarm to the controller.
#[derive(Clone, Debug)]
pub enum P2PEvent {
    NetworkState(NetworkState),
    PremintReceived(PremintTypes),
    MintSeenOnchain(PeerInclusionClaim),
}

/// A read-only query of the store.
#[derive(Clone, Copy, Debug, PartialEq, Eq, Structural)]
pub enum DBQuery {
    /// The premints not yet seen on chain.
    ListAll,
}

/// A command to the controller from within the node.
#[derive(Clone, Debug)]
pub enum ControllerCommands {
    ConnectToPeer { address: String },
    ReturnNetworkState,
    AnnounceSelf,
    Broadcast { message: PremintTypes },
    ReturnNodeInfo,
    Query(DBQuery),
    ResolveOnchainMint(InclusionClaim),
}

/// Why a premint was not accepted.
#[derive(Clone, Debug)]
pub enum ControllerError {
    /// Some rule rejected the premint, or the store did because its version
    /// does not advance; the outcome of every rule is kept.
    ValidationRejected(Results),
}

/// What the controller hands back to the sender of a command.
#[derive(Debug)]
pub enum Reply {
    Broadcast(Result<(), ControllerError>),
    Listing(Vec<PremintTypes>),
}

/// What handling a command asks of the node: a command to send to the swarm
/// and a reply to send to the command's sender. Where both are present the
/// swarm command goes first, and a failure to send it replaces the reply.
pub struct CommandOutcome {
    pub swarm: Option<SwarmCommand>,
    pub reply: Option<Reply>,
}

/// What handling an event asks of the node.
#[derive(Clone, Debug)]
pub enum EventAction {
    Nothing,
    /// Fetch the receipt of `claim.tx_hash` on `claim.chain_id` and hand it
    /// to [`Controller::resolve_peer_claim`].
    VerifyClaim { premint: PremintTypes, claim: InclusionClaim },
}

/// The single writer of a node's state: it validates and stores premints,
/// marks claims seen on chain, and tells the swarm what to send.
pub struct Controller {
    store: PremintStore,
    rules: RulesEngine,
    trusted_peers: Vec<Vec<u8>>,
    inclusion_mode: InclusionMode,
}

impl Controller {
    pub closed spec fn rows(&self) -> Seq<PremintTypes> {
        self.store.rows()
    }

    pub closed spec fn seen(&self) -> Set<ClaimView> {
        self.store.seen()
    }

    pub closed spec fn rule_list(&self) -> Seq<RuleName> {
        self.rules.rules()
    }

    pub closed spec fn chains(&self) -> Seq<u64> {
        self.rules.chains()
    }

    pub closed spec fn trusted(&self) -> Seq<Vec<u8>> {
        self.trusted_peers@
    }

    pub closed spec fn mode(&self) -> InclusionMode {
        self.inclusion_mode
    }

    /// The controller's invariant: its store holds one row per key.
    pub open spec fn wf(&self) -> bool {
        keys_unique(self.rows())
    }

    /// What the rules decide on `p` in the current state, rule by rule.
    pub open spec fn evaluation_of(&self, p: PremintTypes) -> Seq<RuleResult> {
        evaluation(self.rule_list(), p, self.rows(), self.seen(), self.chains())
    }

    /// Whether the rules accept `p` in the current state.
    pub open spec fn rules_accept(&self, p: PremintTypes) -> bool {
        all_rules_accept(self.rule_list(), p, self.rows(), self.seen(), self.chains())
    }

    /// Whether the configuration (rules, chains, peers, mode) of `self` and
    /// `other` is the same.
    pub open spec fn same_config(&self, other: &Controller) -> bool {
        &&& self.rule_list() == other.rule_list()
        &&& self.chains() == other.chains()
        &&& self.trusted() == other.trusted()
        &&& self.mode() == other.mode()
    }

    pub fn new(
        trusted_peers: Vec<Vec<u8>>,
        inclusion_mode: InclusionMode,
        store: PremintStore,
        rules: RulesEngine,
    ) -> (r: Controller)
        requires
            store.wf(),
        ensures
            r.wf(),
            r.rows() == store.rows(),
            r.seen() == store.seen(),
            r.rule_list() == rules.rules(),
            r.chains() == rules.chains(),
            r.trusted() == trusted_peers@,
            r.mode() == inclusion_mode,
    {
        Controller { store, rules, trusted_peers, inclusion_mode }
    }

    /// The controller's store, for reading.
    pub fn store(&self) -> (r: &PremintStore)
        ensures
            r.rows() == self.rows(),
            r.seen() == self.seen(),
    {
        &self.store
    }

    /// Evaluates the rules on `p` and stores it where all accept.
    pub fn validate_and_insert(&mut self, p: PremintTypes) -> (r: Result<Results, ControllerError>)
        requires
            old(self).wf(),
        ensures
            final(self).wf(),
            final(self).same_config(old(self)),
            old(self).seen().subset_of(final(self).seen()),
            final(self).seen() == old(self).seen(),
            final(self).rows() == if old(self).rules_accept(p) {
                stored_after(old(self).rows(), p)
            } else {
                old(self).rows()
            },
            r is Ok <==> old(self).rules_accept(p) && store_accepts(old(self).rows(), p),
            r matches Ok(res) ==> res.outcomes@ == old(self).evaluation_of(p),
            r matches Err(ControllerError::ValidationRejected(res)) ==> res.outcomes@ == old(
                self).evaluation_of(p),
    {
        let evaluation = self.rules.evaluate(&p, &self.store);
        proof {
            lemma_evaluation_accepts(self.rule_list(), p, self.rows(), self.seen(), self.chains());
        }
        if evaluation.is_accept() {
            match self.store.store(p) {
                Ok(()) => Ok(evaluation),
                Err(_) => Err(ControllerError::ValidationRejected(evaluation)),
            }
        } else {
            Err(ControllerError::ValidationRejected(evaluation))
        }
    }

    /// Handles a command from within the node.
    pub fn handle_command(&mut self, command: ControllerCommands) -> (r: CommandOutcome)
        requires
            old(self).wf(),
        ensures
            final(self).wf(),
            final(self).same_config(old(self)),
            old(self).seen().subset_of(final(self).seen()),
            match command {
                ControllerCommands::ConnectToPeer { address } => final(self).rows() == old(self).rows() && final(self).seen() == old(self).seen() && r.swarm == Some(
                    SwarmCommand::ConnectToPeer { address },
                ) && r.reply is None,
                ControllerCommands::ReturnNetworkState => final(self).rows() == old(self).rows()
                    && final(self).seen() == old(self).seen() && r.swarm == Some(
                    SwarmCommand::ReturnNetworkState,
                ) && r.reply is None,
                ControllerCommands::AnnounceSelf => final(self).rows() == old(self).rows() && final(self).seen() == old(self).seen() && r.swarm == Some(SwarmCommand::AnnounceSelf)
                    && r.reply is None,
                ControllerCommands::ReturnNodeInfo => final(self).rows() == old(self).rows()
                    && final(self).seen() == old(self).seen() && r.swarm == Some(
                    SwarmCommand::ReturnNodeInfo,
                ) && r.reply is None,
                ControllerCommands::Broadcast { message } => {
                    &&& final(self).seen() == old(self).seen()
                    &&& final(self).rows() == if old(self).rules_accept(message) {
                        stored_after(old(self).rows(), message)
                    } else {
                        old(self).rows()
                    }
                    &&& if old(self).rules_accept(message) && store_accepts(
                        old(self).rows(),
                        message,
                    ) {
                        &&& r.swarm == Some(SwarmCommand::Broadcast { message })
                        &&& r.reply == Some(Reply::Broadcast(Ok(())))
                    } else {
                        &&& r.swarm is None
                        &&& r.reply matches Some(
                            Reply::Broadcast(Err(ControllerError::ValidationRejected(res))),
                        ) && res.outcomes@ == old(self).evaluation_of(message)
                    }
                },
                ControllerCommands::Query(DBQuery::ListAll) => {
                    &&& final(self).rows() == old(self).rows()
                    &&& final(self).seen() == old(self).seen()
                    &&& r.swarm is None
                    &&& r.reply matches Some(Reply::Listing(v)) && v@ == active_rows(
                        old(self).rows(),
                        old(self).seen(),
                    )
                },
                ControllerCommands::ResolveOnchainMint(claim) => {
                    &&& final(self).rows() == old(self).rows()
                    &&& final(self).seen() == old(self).seen().insert(claim@)
                    &&& r.reply is None
                    &&& if old(self).mode() == InclusionMode::Check {
                        r.swarm matches Some(SwarmCommand::SendOnchainMintFound(c)) && c@ == claim@
                    } else {
                        r.swarm is None
                    }
                },
            },
    {
        match command {
            ControllerCommands::ConnectToPeer { address } => CommandOutcome {
                swarm: Some(SwarmCommand::ConnectToPeer { address }),
                reply: None,
            },
            ControllerCommands::ReturnNetworkState => CommandOutcome {
                swarm: Some(SwarmCommand::ReturnNetworkState),
                reply: None,
            },
            ControllerCommands::AnnounceSelf => CommandOutcome {
                swarm: Some(SwarmCommand::AnnounceSelf),
                reply: None,
            },
            ControllerCommands::ReturnNodeInfo => CommandOutcome {
                swarm: Some(SwarmCommand::ReturnNodeInfo),
                reply: None,
            },
            ControllerCommands::Broadcast { message } => {
                let copy = message.duplicate();
                match self.validate_and_insert(copy) {
                    Ok(_) => CommandOutcome {
                        swarm: Some(SwarmCommand::Broadcast { message }),
                        reply: Some(Reply::Broadcast(Ok(()))),
                    },
                    Err(e) => CommandOutcome { swarm: None, reply: Some(Reply::Broadcast(Err(e))) },
                }
            },
            ControllerCommands::Query(DBQuery::ListAll) => CommandOutcome {
                swarm: None,
                reply: Some(Reply::Listing(self.store.list_all())),
            },
            ControllerCommands::ResolveOnchainMint(claim) => {
                let copy = claim.duplicate();
                self.store.mark_seen_on_chain(copy);
                let swarm = match self.inclusion_mode {
                    InclusionMode::Check => Some(SwarmCommand::SendOnchainMintFound(claim)),
                    _ => None,
                };
                CommandOutcome { swarm, reply: None }
            },
        }
    }

    /// Handles an event from the gossip swarm. A premint received is
    /// validated and stored where accepted, and never re-broadcast. A peer's
    /// inclusion claim is, in `Trust` mode, marked seen only where the peer
    /// is trusted; in the other modes it changes nothing yet, and where the
    /// premint it names is stored the claim is handed back to be verified
    /// against the chain.
    pub fn handle_event(&mut self, event: P2PEvent) -> (r: EventAction)
        requires
            old(self).wf(),
        ensures
            final(self).wf(),
            final(self).same_config(old(self)),
            old(self).seen().subset_of(final(self).seen()),
            match event {
                P2PEvent::NetworkState(_) => final(self).rows() == old(self).rows() && final(self).seen() == old(self).seen() && r is Nothing,
                P2PEvent::PremintReceived(p) => {
                    &&& final(self).seen() == old(self).seen()
                    &&& final(self).rows() == if old(self).rules_accept(p) {
                        stored_after(old(self).rows(), p)
                    } else {
                        old(self).rows()
                    }
                    &&& r is Nothing
                },
                P2PEvent::MintSeenOnchain(pc) => {
                    &&& final(self).rows() == old(self).rows()
                    &&& final(self).seen() == if old(self).mode() == InclusionMode::Trust
                        && peer_is_trusted(old(self).trusted(), pc.from_peer_id@) {
                        old(self).seen().insert(pc.claim@)
                    } else {
                        old(self).seen()
                    }
                    &&& if old(self).mode() != InclusionMode::Trust && has_key(
                        old(self).rows(),
                        (pc.claim.kind@, pc.claim.premint_id@),
                    ) {
                        r == EventAction::VerifyClaim {
                            premint: old(self).rows()[index_of_key(
                                old(self).rows(),
                                (pc.claim.kind@, pc.claim.premint_id@),
                            )],
                            claim: pc.claim,
                        }
                    } else {
                        r is Nothing
                    }
                },
            },
    {
        match event {
            P2PEvent::NetworkState(_) => EventAction::Nothing,
            P2PEvent::PremintReceived(p) => {
                let _ = self.validate_and_insert(p);
                EventAction::Nothing
            },
            P2PEvent::MintSeenOnchain(pc) => self.handle_event_onchain_claim(pc),
        }
    }

    /// Handles an inclusion claim received from a peer; see
    /// [`Controller::handle_event`].
    pub fn handle_event_onchain_claim(&mut self, peer_claim: PeerInclusionClaim) -> (r: EventAction)
        requires
            old(self).wf(),
        ensures
            final(self).wf(),
            final(self).same_config(old(self)),
            old(self).seen().subset_of(final(self).seen()),
            final(self).rows() == old(self).rows(),
            final(self).seen() == if old(self).mode() == InclusionMode::Trust && peer_is_trusted(
                old(self).trusted(),
                peer_claim.from_peer_id@,
            ) {
                old(self).seen().insert(peer_claim.claim@)
            } else {
                old(self).seen()
            },
            if old(self).mode() != InclusionMode::Trust && has_key(
                old(self).rows(),
                (peer_claim.claim.kind@, peer_claim.claim.premint_id@),
            ) {
                r == EventAction::VerifyClaim {
                    premint: old(self).rows()[index_of_key(
                        old(self).rows(),
                        (peer_claim.claim.kind@, peer_claim.claim.premint_id@),
                    )],
                    claim: peer_claim.claim,
                }
            } else {
                r is Nothing
            },
    {
        match self.inclusion_mode {
            InclusionMode::Trust => {
                if contains_peer(&self.trusted_peers, &peer_claim.from_peer_id) {
                    self.store.mark_seen_on_chain(peer_claim.claim);
                }
                EventAction::Nothing
            },
            _ => {
                let claim = peer_claim.claim;
                match self.store.get_for_id_and_kind(&claim.premint_id, &claim.kind) {
                    Some(premint) => EventAction::VerifyClaim { premint, claim },
                    None => EventAction::Nothing,
                }
            },
        }
    }

    /// Marks a peer's claim for `premint` seen on chain only where the
    /// receipt fetched for it (`None`: not found) proves it.
    pub fn resolve_peer_claim(
        &mut self,
        premint: &PremintTypes,
        claim: InclusionClaim,
        receipt: &Option<TransactionReceipt>,
    ) -> (r: bool)
        requires
            old(self).wf(),
        ensures
            final(self).wf(),
            final(self).same_config(old(self)),
            old(self).seen().subset_of(final(self).seen()),
            r == inclusion_correct(*premint, claim, *receipt),
            final(self).rows() == old(self).rows(),
            final(self).seen() == if r {
                old(self).seen().insert(claim@)
            } else {
                old(self).seen()
            },
    {
        let correct = inclusion_claim_correct(premint, &claim, receipt);
        if correct {
            self.store.mark_seen_on_chain(claim);
        }
        correct
    }
}

} // verus!
