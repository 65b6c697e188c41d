use mintpool::chain::{Log, TransactionReceipt};
use mintpool::checker::{CheckerError, MintChecker, RECONNECT_BACKOFF_SECS};
use mintpool::controller::{
    CommandOutcome, Controller, ControllerCommands, ControllerError, DBQuery, EventAction,
    NetworkState, P2PEvent, Reply, SwarmCommand,
};
use mintpool::premint::{PremintKind, PremintTypes};
use mintpool::rules::{Outcome, RejectReason, RuleName, RulesEngine};
use mintpool::store::{PremintStore, StoreError};
use mintpool::types::{Address, InclusionClaim, InclusionMode, PeerInclusionClaim, B256};
use mintpool::zora_v2::{preminted_v2_topic, premint_factory, ZoraPremintV2};

fn addr(last: u8) -> Address {
    let mut bytes = [0u8; 20];
    bytes[0] = 0xcd;
    bytes[19] = last;
    Address { bytes }
}

fn premint(uid: u32, version: u32) -> PremintTypes {
    let mut p = ZoraPremintV2::default();
    p.chain_id = 7777777;
    p.collection_address = addr(1);
    p.premint.uid = uid;
    p.premint.version = version;
    PremintTypes::ZoraV2(p)
}

fn version_of(p: &PremintTypes) -> u64 {
    p.version()
}

fn controller(mode: InclusionMode, trusted: Vec<Vec<u8>>) -> Controller {
    let mut rules = RulesEngine::new(vec![7777777, 8453]);
    rules.add_default_rules();
    Controller::new(trusted, mode, PremintStore::new(), rules)
}

fn claim_of(p: &PremintTypes, tx: B256, index: u64) -> InclusionClaim {
    InclusionClaim {
        premint_id: p.id(),
        chain_id: p.chain_id(),
        tx_hash: tx,
        log_index: index,
        kind: p.kind_name(),
    }
}

fn word_with_tail(tail: &[u8]) -> [u8; 32] {
    let mut w = [0u8; 32];
    w[32 - tail.len()..].copy_from_slice(tail);
    w
}

fn mint_log(collection: Address, uid: u32, tx: B256, index: u64, block: Option<u64>) -> Log {
    let mut data = Vec::new();
    data.extend_from_slice(&word_with_tail(&uid.to_be_bytes()));
    data.extend_from_slice(&word_with_tail(&[0x11; 20]));
    data.extend_from_slice(&word_with_tail(&[1]));
    Log {
        address: premint_factory(),
        topics: vec![
            preminted_v2_topic(),
            B256 { bytes: word_with_tail(&collection.bytes) },
            B256 { bytes: word_with_tail(&[7]) },
            B256 { bytes: word_with_tail(&[0]) },
        ],
        data,
        block_number: block,
        transaction_hash: Some(tx),
        log_index: Some(index),
    }
}

fn broadcast(c: &mut Controller, p: PremintTypes) -> CommandOutcome {
    c.handle_command(ControllerCommands::Broadcast { message: p })
}

fn list_all(c: &mut Controller) -> Vec<PremintTypes> {
    match c.handle_command(ControllerCommands::Query(DBQuery::ListAll)).reply {
        Some(Reply::Listing(v)) => v,
        _ => panic!("no listing"),
    }
}

#[test]
fn broadcast_happy_path() {
    let mut c = controller(InclusionMode::Check, vec![]);
    let out = broadcast(&mut c, premint(1, 1));
    assert!(matches!(out.swarm, Some(SwarmCommand::Broadcast { .. })));
    assert!(matches!(out.reply, Some(Reply::Broadcast(Ok(())))));
    assert_eq!(c.store().list_all().len(), 1);
    let evaluation = c.validate_and_insert(premint(2, 1)).unwrap();
    assert!(evaluation.is_accept());
    assert_eq!(evaluation.outcomes.len(), 3);
}

#[test]
fn duplicate_with_lower_version_is_rejected() {
    let mut c = controller(InclusionMode::Check, vec![]);
    broadcast(&mut c, premint(1, 3));
    let out = broadcast(&mut c, premint(1, 2));
    assert!(out.swarm.is_none());
    match out.reply {
        Some(Reply::Broadcast(Err(ControllerError::ValidationRejected(res)))) => {
            assert!(!res.is_accept());
            assert_eq!(res.outcomes[0].rule, RuleName::VersionAdvances);
            assert_eq!(res.outcomes[0].outcome, Outcome::Reject(RejectReason::VersionNotAdvanced));
            assert_eq!(res.outcomes[1].outcome, Outcome::Accept);
        }
        _ => panic!("expected a rejection"),
    }
    let rows = c.store().list_all();
    assert_eq!(rows.len(), 1);
    assert_eq!(version_of(&rows[0]), 3);
}

#[test]
fn gossip_premint_is_stored_without_rebroadcast() {
    let mut c = controller(InclusionMode::Check, vec![]);
    let action = c.handle_event(P2PEvent::PremintReceived(premint(4, 1)));
    assert!(matches!(action, EventAction::Nothing));
    let rows = c.store().list_all();
    assert_eq!(rows.len(), 1);
    assert_eq!(rows[0].id(), premint(4, 1).id());
}

#[test]
fn unsupported_chain_is_rejected() {
    let mut c = controller(InclusionMode::Check, vec![]);
    let mut p = ZoraPremintV2::default();
    p.chain_id = 1;
    let r = c.validate_and_insert(PremintTypes::ZoraV2(p));
    match r {
        Err(ControllerError::ValidationRejected(res)) => {
            assert_eq!(res.outcomes[1].rule, RuleName::SupportedChain);
            assert_eq!(res.outcomes[1].outcome, Outcome::Reject(RejectReason::UnsupportedChain));
        }
        _ => panic!("expected a rejection"),
    }
}

#[test]
fn store_conflict_is_reported_as_validation_rejected() {
    let mut rules = RulesEngine::new(vec![7777777]);
    rules.add_rule(RuleName::SupportedChain);
    let mut c = Controller::new(vec![], InclusionMode::Check, PremintStore::new(), rules);
    assert!(c.validate_and_insert(premint(1, 2)).is_ok());
    match c.validate_and_insert(premint(1, 1)) {
        Err(ControllerError::ValidationRejected(res)) => {
            assert_eq!(res.outcomes.len(), 1);
            assert_eq!(res.outcomes[0].rule, RuleName::SupportedChain);
            assert_eq!(res.outcomes[0].outcome, Outcome::Accept);
        }
        _ => panic!("expected a rejection"),
    }
    let out = broadcast(&mut c, premint(1, 2));
    assert!(out.swarm.is_none());
    assert!(matches!(out.reply, Some(Reply::Broadcast(Err(ControllerError::ValidationRejected(_))))));
    assert_eq!(version_of(&list_all(&mut c)[0]), 2);
}

#[test]
fn already_seen_premint_is_rejected() {
    let mut c = controller(InclusionMode::Check, vec![]);
    let p = premint(3, 1);
    c.handle_command(ControllerCommands::ResolveOnchainMint(claim_of(&p, B256 { bytes: [2u8; 32] }, 0)));
    match c.validate_and_insert(p) {
        Err(ControllerError::ValidationRejected(res)) => {
            assert_eq!(res.outcomes[2].rule, RuleName::NotSeenOnChain);
            assert_eq!(res.outcomes[2].outcome, Outcome::Reject(RejectReason::AlreadySeenOnChain));
        }
        _ => panic!("expected a rejection"),
    }
}

#[test]
fn check_mode_inclusion_from_checker() {
    let mut c = controller(InclusionMode::Check, vec![]);
    let p = premint(5, 1);
    broadcast(&mut c, p.clone());
    let checker = MintChecker::new(7777777, "wss://rpc".to_string());
    let mut state = checker.poll_for_new_mints(PremintKind::ZoraV2).unwrap();
    let tx = B256 { bytes: [3u8; 32] };
    let claim = state.on_log(&mint_log(addr(1), 5, tx, 0, Some(10))).unwrap();
    assert_eq!(claim.premint_id, p.id());
    let out = c.handle_command(ControllerCommands::ResolveOnchainMint(claim.clone()));
    match out.swarm {
        Some(SwarmCommand::SendOnchainMintFound(sent)) => assert_eq!(sent.premint_id, claim.premint_id),
        _ => panic!("expected an announcement"),
    }
    assert!(out.reply.is_none());
    assert!(c.store().is_seen(&p.kind_name(), &p.id()));
    assert!(list_all(&mut c).is_empty());
}

#[test]
fn resolve_in_verify_mode_does_not_announce() {
    let mut c = controller(InclusionMode::Verify, vec![]);
    let p = premint(5, 1);
    broadcast(&mut c, p.clone());
    let out = c.handle_command(ControllerCommands::ResolveOnchainMint(claim_of(&p, B256 { bytes: [3u8; 32] }, 0)));
    assert!(out.swarm.is_none());
    assert!(list_all(&mut c).is_empty());
}

#[test]
fn verify_mode_bad_peer_claim_changes_nothing() {
    let mut c = controller(InclusionMode::Verify, vec![]);
    let p = premint(6, 1);
    broadcast(&mut c, p.clone());
    let real_tx = B256 { bytes: [1u8; 32] };
    let claimed_tx = B256 { bytes: [2u8; 32] };
    let claim = claim_of(&p, claimed_tx, 0);
    let action = c.handle_event(P2PEvent::MintSeenOnchain(PeerInclusionClaim {
        from_peer_id: vec![1, 2, 3],
        claim,
    }));
    let (premint, claim) = match action {
        EventAction::VerifyClaim { premint, claim } => (premint, claim),
        EventAction::Nothing => panic!("expected a verification request"),
    };
    let receipt = TransactionReceipt {
        transaction_hash: real_tx,
        logs: vec![mint_log(addr(1), 6, real_tx, 0, Some(3))],
    };
    assert!(!c.resolve_peer_claim(&premint, claim, &Some(receipt)));
    assert_eq!(list_all(&mut c).len(), 1);
}

#[test]
fn verify_mode_good_peer_claim_marks_seen() {
    let mut c = controller(InclusionMode::Verify, vec![]);
    let p = premint(6, 1);
    broadcast(&mut c, p.clone());
    let tx = B256 { bytes: [1u8; 32] };
    let action = c.handle_event(P2PEvent::MintSeenOnchain(PeerInclusionClaim {
        from_peer_id: vec![1],
        claim: claim_of(&p, tx, 0),
    }));
    let (premint, claim) = match action {
        EventAction::VerifyClaim { premint, claim } => (premint, claim),
        EventAction::Nothing => panic!("expected a verification request"),
    };
    let receipt = TransactionReceipt { transaction_hash: tx, logs: vec![mint_log(addr(1), 6, tx, 0, Some(3))] };
    assert!(c.resolve_peer_claim(&premint, claim.clone(), &None) == false);
    assert_eq!(list_all(&mut c).len(), 1);
    assert!(c.resolve_peer_claim(&premint, claim, &Some(receipt)));
    assert!(list_all(&mut c).is_empty());
}

#[test]
fn peer_claim_for_unknown_premint_is_ignored() {
    let mut c = controller(InclusionMode::Check, vec![]);
    let p = premint(8, 1);
    let action = c.handle_event(P2PEvent::MintSeenOnchain(PeerInclusionClaim {
        from_peer_id: vec![1],
        claim: claim_of(&p, B256 { bytes: [1u8; 32] }, 0),
    }));
    assert!(matches!(action, EventAction::Nothing));
}

#[test]
fn trust_mode_untrusted_peer_changes_nothing() {
    let mut c = controller(InclusionMode::Trust, vec![]);
    let p = premint(7, 1);
    broadcast(&mut c, p.clone());
    let action = c.handle_event(P2PEvent::MintSeenOnchain(PeerInclusionClaim {
        from_peer_id: vec![9, 9],
        claim: claim_of(&p, B256 { bytes: [1u8; 32] }, 0),
    }));
    assert!(matches!(action, EventAction::Nothing));
    assert_eq!(list_all(&mut c).len(), 1);
    assert!(!c.store().is_seen(&p.kind_name(), &p.id()));
}

#[test]
fn trust_mode_trusted_peer_marks_seen() {
    let mut c = controller(InclusionMode::Trust, vec![vec![4, 4], vec![9, 9]]);
    let p = premint(7, 1);
    broadcast(&mut c, p.clone());
    c.handle_event(P2PEvent::MintSeenOnchain(PeerInclusionClaim {
        from_peer_id: vec![9, 9],
        claim: claim_of(&p, B256 { bytes: [1u8; 32] }, 0),
    }));
    assert!(list_all(&mut c).is_empty());
}

#[test]
fn network_state_event_changes_nothing() {
    let mut c = controller(InclusionMode::Check, vec![]);
    let ns = NetworkState { local_peer_id: vec![1], connected_peers: vec![], gossip_topics: vec![] };
    assert!(matches!(c.handle_event(P2PEvent::NetworkState(ns)), EventAction::Nothing));
    assert!(list_all(&mut c).is_empty());
}

#[test]
fn forwarded_commands() {
    let mut c = controller(InclusionMode::Check, vec![]);
    let out = c.handle_command(ControllerCommands::ConnectToPeer { address: "/ip4/1.1.1.1".to_string() });
    match out.swarm {
        Some(SwarmCommand::ConnectToPeer { address }) => assert_eq!(address, "/ip4/1.1.1.1"),
        _ => panic!("expected a forward"),
    }
    assert!(matches!(c.handle_command(ControllerCommands::AnnounceSelf).swarm, Some(SwarmCommand::AnnounceSelf)));
    assert!(matches!(c.handle_command(ControllerCommands::ReturnNodeInfo).swarm, Some(SwarmCommand::ReturnNodeInfo)));
    assert!(matches!(c.handle_command(ControllerCommands::ReturnNetworkState).swarm, Some(SwarmCommand::ReturnNetworkState)));
}

#[test]
fn store_twice_keeps_one_row() {
    let mut s = PremintStore::new();
    assert!(s.store(premint(1, 1)).is_ok());
    assert_eq!(s.store(premint(1, 1)), Err(StoreError::VersionNotAdvanced));
    assert_eq!(s.list_all().len(), 1);
}

#[test]
fn store_newer_replaces_older_rejected() {
    let mut s = PremintStore::new();
    s.store(premint(1, 1)).unwrap();
    s.store(premint(2, 1)).unwrap();
    assert!(s.store(premint(1, 4)).is_ok());
    let rows = s.list_all();
    assert_eq!(rows.len(), 2);
    assert_eq!(version_of(&rows[0]), 4);
    assert!(s.store(premint(1, 4)).is_err());
    assert!(s.store(premint(1, 3)).is_err());
    assert_eq!(version_of(&s.list_all()[0]), 4);
    let got = s.get_for_id_and_kind(&premint(2, 0).id(), &premint(2, 0).kind_name()).unwrap();
    assert_eq!(version_of(&got), 1);
    assert!(s.get_for_id_and_kind(&premint(3, 0).id(), &premint(3, 0).kind_name()).is_none());
}

#[test]
fn mark_seen_is_monotone_and_idempotent() {
    let mut s = PremintStore::new();
    s.store(premint(1, 1)).unwrap();
    s.store(premint(2, 1)).unwrap();
    let c = claim_of(&premint(1, 1), B256 { bytes: [1u8; 32] }, 0);
    s.mark_seen_on_chain(c.clone());
    s.mark_seen_on_chain(c);
    let rows = s.list_all();
    assert_eq!(rows.len(), 1);
    assert_eq!(rows[0].id(), premint(2, 1).id());
    s.store(premint(1, 9)).unwrap();
    assert_eq!(s.list_all().len(), 1);
    let p1 = premint(1, 9);
    assert!(s.get_for_id_and_kind(&p1.id(), &p1.kind_name()).is_some());
}

#[test]
fn checker_resumes_from_last_block() {
    let checker = MintChecker::new(8453, "wss://base".to_string());
    assert_eq!(checker.chain_id(), 8453);
    assert_eq!(checker.rpc_url(), "wss://base");
    let mut state = checker.poll_for_new_mints(PremintKind::ZoraV2).unwrap();
    assert_eq!(state.subscription_filter().from_block, None);
    let tx = B256 { bytes: [3u8; 32] };
    state.on_log(&mint_log(addr(1), 1, tx, 0, Some(120))).unwrap();
    assert_eq!(state.subscription_filter().from_block, Some(120));
    let mut broken = mint_log(addr(1), 1, tx, 1, Some(125));
    broken.data.clear();
    assert!(state.on_log(&broken).is_err());
    assert_eq!(state.subscription_filter().from_block, Some(125));
    state.on_log(&mint_log(addr(1), 2, tx, 2, None)).unwrap();
    let f = state.subscription_filter();
    assert_eq!(f.from_block, Some(125));
    assert_eq!(f.address, premint_factory());
    assert_eq!(RECONNECT_BACKOFF_SECS, 5);
}

#[test]
fn checker_fails_on_unsupported_chain() {
    let checker = MintChecker::new(1, "wss://mainnet".to_string());
    assert_eq!(checker.poll_for_new_mints(PremintKind::ZoraV2).unwrap_err(), CheckerError::NoFilter);
}

#[test]
fn redelivered_claim_is_absorbed() {
    let mut c = controller(InclusionMode::Check, vec![]);
    let p = premint(5, 1);
    broadcast(&mut c, p.clone());
    broadcast(&mut c, premint(6, 1));
    let claim = claim_of(&p, B256 { bytes: [3u8; 32] }, 0);
    c.handle_command(ControllerCommands::ResolveOnchainMint(claim.clone()));
    let after_first = list_all(&mut c);
    c.handle_command(ControllerCommands::ResolveOnchainMint(claim));
    let after_second = list_all(&mut c);
    assert_eq!(after_first.len(), 1);
    assert_eq!(after_second.len(), 1);
    assert_eq!(after_first[0].id(), after_second[0].id());
}

#[test]
fn broadcasts_apply_in_receive_order() {
    let mut a = controller(InclusionMode::Check, vec![]);
    broadcast(&mut a, premint(1, 1));
    broadcast(&mut a, premint(1, 2));
    assert_eq!(version_of(&list_all(&mut a)[0]), 2);
    let mut b = controller(InclusionMode::Check, vec![]);
    broadcast(&mut b, premint(1, 2));
    let late = broadcast(&mut b, premint(1, 1));
    assert!(late.swarm.is_none());
    assert_eq!(version_of(&list_all(&mut b)[0]), 2);
}
