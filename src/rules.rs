use vstd::prelude::*;

use crate::premint::{premint_chain, premint_key, PremintTypes};
use crate::store::{key_seen, store_accepts, PremintStore};
use crate::types::ClaimView;

verus! {

/// A rule that a premint must pass to be stored.
#[derive(Clone, Copy, Debug, PartialEq, Eq, Structural)]
pub enum RuleName {
    /// A stored premint of the same kind and id has a lower version, or
    /// there is none.
    VersionAdvances,
    /// The premint's chain is one of the supported chains.
    SupportedChain,
    /// No claim seen on chain is about the premint.
    NotSeenOnChain,
}

/// Why a rule rejected a premint.
#[derive(Clone, Copy, Debug, PartialEq, Eq, Structural)]
pub enum RejectReason {
    /// A stored premint of the same kind and id has an equal or greater
    /// version.
    VersionNotAdvanced,
    /// The premint's chain is not supported.
    UnsupportedChain,
    /// A claim seen on chain is about the premint.
    AlreadySeenOnChain,
}

/// What a rule decided.
#[derive(Clone, Copy, Debug, PartialEq, Eq, Structural)]
pub enum Outcome {
    Accept,
    Reject(RejectReason),
}

/// One rule's outcome.
#[derive(Clone, Copy, Debug, PartialEq, Eq)]
pub struct RuleResult {
    pub rule: RuleName,
    pub outcome: Outcome,
}

/// The outcome of every rule, in the engine's order.
#[derive(Clone, Debug)]
pub struct Results {
    pub outcomes: Vec<RuleResult>,
}

/// Whether `rule` accepts `p` against stored `rows`, claims `seen` and the
/// supported `chains`.
pub open spec fn rule_accepts(
    rule: RuleName,
    p: PremintTypes,
    rows: Seq<PremintTypes>,
    seen: Set<ClaimView>,
    chains: Seq<u64>,
) -> bool {
    match rule {
        RuleName::VersionAdvances => store_accepts(rows, p),
        RuleName::SupportedChain => chains.contains(premint_chain(p)),
        RuleName::NotSeenOnChain => !key_seen(seen, premint_key(p)),
    }
}

/// The reason that `rule` gives when it rejects.
pub open spec fn reject_reason(rule: RuleName) -> RejectReason {
    match rule {
        RuleName::VersionAdvances => RejectReason::VersionNotAdvanced,
        RuleName::SupportedChain => RejectReason::UnsupportedChain,
        RuleName::NotSeenOnChain => RejectReason::AlreadySeenOnChain,
    }
}

/// What `rule` decides on `p`.
pub open spec fn rule_outcome(
    rule: RuleName,
    p: PremintTypes,
    rows: Seq<PremintTypes>,
    seen: Set<ClaimView>,
    chains: Seq<u64>,
) -> Outcome {
    if rule_accepts(rule, p, rows, seen, chains) {
        Outcome::Accept
    } else {
        Outcome::Reject(reject_reason(rule))
    }
}

/// The evaluation of `p`: each rule of `rules` with its outcome, in order.
pub open spec fn evaluation(
    rules: Seq<RuleName>,
    p: PremintTypes,
    rows: Seq<PremintTypes>,
    seen: Set<ClaimView>,
    chains: Seq<u64>,
) -> Seq<RuleResult> {
    Seq::new(
        rules.len(),
        |i: int| RuleResult { rule: rules[i], outcome: rule_outcome(rules[i], p, rows, seen, chains) },
    )
}

/// Whether every rule of `rules` accepts `p`.
pub open spec fn all_rules_accept(
    rules: Seq<RuleName>,
    p: PremintTypes,
    rows: Seq<PremintTypes>,
    seen: Set<ClaimView>,
    chains: Seq<u64>,
) -> bool {
    forall|i: int| 0 <= i < rules.len() ==> rule_accepts(#[trigger] rules[i], p, rows, seen, chains)
}

/// Whether every outcome of `outcomes` is an acceptance.
pub open spec fn every_accept(outcomes: Seq<RuleResult>) -> bool {
    forall|i: int| 0 <= i < outcomes.len() ==> (#[trigger] outcomes[i]).outcome == Outcome::Accept
}

impl Results {
    /// Whether every rule accepted.
    pub fn is_accept(&self) -> (r: bool)
        ensures
            r == every_accept(self.outcomes@),
    {
        let mut i: usize = 0;
        while i < self.outcomes.len()
            invariant
                0 <= i <= self.outcomes@.len(),
                forall|j: int| 0 <= j < i ==> self.outcomes@[j].outcome == Outcome::Accept,
            decreases self.outcomes@.len() - i,
        {
            match self.outcomes[i].outcome {
                Outcome::Accept => {},
                Outcome::Reject(_) => {
                    return false;
                },
            }
            i = i + 1;
        }
        true
    }
}

/// A collection of rules, all of which are evaluated on every premint.
pub struct RulesEngine {
    rules: Vec<RuleName>,
    supported_chains: Vec<u64>,
}

fn contains_chain(chains: &Vec<u64>, c: u64) -> (r: bool)
    ensures
        r == chains@.contains(c),
{
    let mut i: usize = 0;
    while i < chains.len()
        invariant
            0 <= i <= chains@.len(),
            forall|j: int| 0 <= j < i ==> chains@[j] != c,
        decreases chains@.len() - i,
    {
        if chains[i] == c {
            assert(chains@[i as int] == c);
            return true;
        }
        i = i + 1;
    }
    false
}

impl RulesEngine {
    /// The rules, in evaluation order.
    pub closed spec fn rules(&self) -> Seq<RuleName> {
        self.rules@
    }

    /// The chains that premints may be meant for.
    pub closed spec fn chains(&self) -> Seq<u64> {
        self.supported_chains@
    }

    /// An engine with no rules, for premints of the given chains.
    pub fn new(supported_chains: Vec<u64>) -> (r: RulesEngine)
        ensures
            r.rules() == Seq::<RuleName>::empty(),
            r.chains() == supported_chains@,
    {
        RulesEngine { rules: Vec::new(), supported_chains }
    }

    /// Appends `rule` to the rules.
    pub fn add_rule(&mut self, rule: RuleName)
        ensures
            final(self).rules() == old(self).rules().push(rule),
            final(self).chains() == old(self).chains(),
    {
        self.rules.push(rule);
    }

    /// Appends the default rules: version, chain, and seen on chain.
    pub fn add_default_rules(&mut self)
        ensures
            final(self).rules() == old(self).rules() + seq![
                RuleName::VersionAdvances,
                RuleName::SupportedChain,
                RuleName::NotSeenOnChain,
            ],
            final(self).chains() == old(self).chains(),
    {
        self.add_rule(RuleName::VersionAdvances);
        self.add_rule(RuleName::SupportedChain);
        self.add_rule(RuleName::NotSeenOnChain);
        assert(self.rules() =~= old(self).rules() + seq![
            RuleName::VersionAdvances,
            RuleName::SupportedChain,
            RuleName::NotSeenOnChain,
        ]);
    }

    fn evaluate_rule(&self, rule: RuleName, p: &PremintTypes, store: &PremintStore) -> (r: Outcome)
        requires
            store.wf(),
        ensures
            r == rule_outcome(rule, *p, store.rows(), store.seen(), self.chains()),
    {
        let ok = match rule {
            RuleName::VersionAdvances => store.accepts(p),
            RuleName::SupportedChain => contains_chain(&self.supported_chains, p.chain_id()),
            RuleName::NotSeenOnChain => {
                let kind = p.kind_name();
                let id = p.id();
                !store.is_seen(&kind, &id)
            },
        };
        if ok {
            Outcome::Accept
        } else {
            match rule {
                RuleName::VersionAdvances => Outcome::Reject(RejectReason::VersionNotAdvanced),
                RuleName::SupportedChain => Outcome::Reject(RejectReason::UnsupportedChain),
                RuleName::NotSeenOnChain => Outcome::Reject(RejectReason::AlreadySeenOnChain),
            }
        }
    }

    /// Evaluates every rule on `p` against `store`, without stopping at the
    /// first rejection.
    pub fn evaluate(&self, p: &PremintTypes, store: &PremintStore) -> (r: Results)
        requires
            store.wf(),
        ensures
            r.outcomes@ == evaluation(self.rules(), *p, store.rows(), store.seen(), self.chains()),
    {
        let ghost expected = evaluation(self.rules(), *p, store.rows(), store.seen(), self.chains());
        let mut outcomes: Vec<RuleResult> = Vec::new();
        let mut i: usize = 0;
        while i < self.rules.len()
            invariant
                store.wf(),
                0 <= i <= self.rules@.len(),
                expected == evaluation(self.rules(), *p, store.rows(), store.seen(), self.chains()),
                outcomes@ == expected.subrange(0, i as int),
            decreases self.rules@.len() - i,
        {
            let rule = self.rules[i];
            let outcome = self.evaluate_rule(rule, p, store);
            outcomes.push(RuleResult { rule, outcome });
            assert(outcomes@ =~= expected.subrange(0, i as int + 1));
            i = i + 1;
        }
        assert(outcomes@ =~= expected);
        Results { outcomes }
    }
}

/// An evaluation accepts exactly when every rule accepts.
pub proof fn lemma_evaluation_accepts(
    rules: Seq<RuleName>,
    p: PremintTypes,
    rows: Seq<PremintTypes>,
    seen: Set<ClaimView>,
    chains: Seq<u64>,
)
    ensures
        every_accept(evaluation(rules, p, rows, seen, chains)) == all_rules_accept(
            rules,
            p,
            rows,
            seen,
            chains,
        ),
{
    let e = evaluation(rules, p, rows, seen, chains);
    if every_accept(e) {
        assert forall|j: int| 0 <= j < rules.len() implies rule_accepts(
            #[trigger] rules[j],
            p,
            rows,
            seen,
            chains,
        ) by {
            assert(e[j].outcome == Outcome::Accept);
        }
    }
    if all_rules_accept(rules, p, rows, seen, chains) {
        assert forall|j: int| 0 <= j < e.len() implies (#[trigger] e[j]).outcome
            == Outcome::Accept by {
            assert(rule_accepts(rules[j], p, rows, seen, chains));
        }
    }
}

} // verus!
