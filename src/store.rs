use vstd::prelude::*;

use crate::premint::{premint_key, premint_version, PremintTypes};
use crate::types::{ClaimView, InclusionClaim};

verus! {

/// Whether some row of `rows` has key `k`.
pub open spec fn has_key(rows: Seq<PremintTypes>, k: (Seq<char>, Seq<char>)) -> bool {
    exists|i: int| 0 <= i < rows.len() && premint_key(rows[i]) == k
}

/// The position of the row with key `k` (meaningful where `has_key`).
pub open spec fn index_of_key(rows: Seq<PremintTypes>, k: (Seq<char>, Seq<char>)) -> int {
    choose|i: int| 0 <= i < rows.len() && premint_key(rows[i]) == k
}

/// No two rows share a key.
pub open spec fn keys_unique(rows: Seq<PremintTypes>) -> bool {
    forall|i: int, j: int|
        0 <= i < rows.len() && 0 <= j < rows.len() && premint_key(rows[i]) == premint_key(rows[j])
            ==> i == j
}

/// Whether storing `p` into `rows` is accepted: `p` is new, or its version
/// is strictly greater than the stored one's.
pub open spec fn store_accepts(rows: Seq<PremintTypes>, p: PremintTypes) -> bool {
    !has_key(rows, premint_key(p)) || premint_version(p) > premint_version(
        rows[index_of_key(rows, premint_key(p))],
    )
}

/// The rows after storing `p`: appended where new, replacing the stored
/// row where accepted, unchanged where rejected.
pub open spec fn stored_after(rows: Seq<PremintTypes>, p: PremintTypes) -> Seq<PremintTypes> {
    if !has_key(rows, premint_key(p)) {
        rows.push(p)
    } else if store_accepts(rows, p) {
        rows.update(index_of_key(rows, premint_key(p)), p)
    } else {
        rows
    }
}

/// Whether some claim of `seen` is about the premint with key `k`.
pub open spec fn key_seen(seen: Set<ClaimView>, k: (Seq<char>, Seq<char>)) -> bool {
    exists|c: ClaimView| seen.contains(c) && c.kind == k.0 && c.premint_id == k.1
}

/// The rows whose premint has not been seen on chain, in order.
pub open spec fn active_rows(rows: Seq<PremintTypes>, seen: Set<ClaimView>) -> Seq<PremintTypes>
    decreases rows.len(),
{
    if rows.len() == 0 {
        Seq::empty()
    } else {
        let rest = active_rows(rows.drop_last(), seen);
        if key_seen(seen, premint_key(rows.last())) {
            rest
        } else {
            rest.push(rows.last())
        }
    }
}

/// Why a premint was not stored.
#[derive(Clone, Copy, Debug, PartialEq, Eq, Structural)]
pub enum StoreError {
    /// A premint of the same kind and id with an equal or greater version is
    /// already stored.
    VersionNotAdvanced,
}

/// The premints a node holds, keyed by kind and id, and the inclusion claims
/// it has seen on chain.
pub struct PremintStore {
    rows: Vec<PremintTypes>,
    seen: Vec<InclusionClaim>,
}

impl PremintStore {
    /// The stored premints, in order of first storage.
    pub closed spec fn rows(&self) -> Seq<PremintTypes> {
        self.rows@
    }

    /// The claims marked as seen on chain.
    pub closed spec fn seen(&self) -> Set<ClaimView> {
        Set::new(|v: ClaimView| exists|j: int| 0 <= j < self.seen@.len() && self.seen@[j]@ == v)
    }

    /// The store's invariant: one row per key.
    pub open spec fn wf(&self) -> bool {
        keys_unique(self.rows())
    }

    /// An empty store.
    pub fn new() -> (r: PremintStore)
        ensures
            r.wf(),
            r.rows() == Seq::<PremintTypes>::empty(),
            r.seen() == Set::<ClaimView>::empty(),
    {
        let r = PremintStore { rows: Vec::new(), seen: Vec::new() };
        assert(r.seen() =~= Set::<ClaimView>::empty());
        r
    }

    /// The position of the row with the kind and id given, if any.
    fn find(&self, kind: &String, id: &String) -> (r: Option<usize>)
        requires
            self.wf(),
        ensures
            r is Some <==> has_key(self.rows(), (kind@, id@)),
            r matches Some(i) ==> i < self.rows().len() && i == index_of_key(
                self.rows(),
                (kind@, id@),
            ),
    {
        let mut i: usize = 0;
        while i < self.rows.len()
            invariant
                self.wf(),
                0 <= i <= self.rows@.len(),
                forall|j: int| 0 <= j < i ==> premint_key(self.rows@[j]) != (kind@, id@),
            decreases self.rows@.len() - i,
        {
            let k = self.rows[i].kind_name();
            let d = self.rows[i].id();
            if k == *kind && d == *id {
                proof {
                    let c = index_of_key(self.rows(), (kind@, id@));
                    assert(premint_key(self.rows@[i as int]) == (kind@, id@));
                    assert(0 <= c < self.rows@.len() && premint_key(self.rows@[c]) == (kind@, id@));
                    assert(premint_key(self.rows@[c]) == premint_key(self.rows@[i as int]));
                    assert(c == i);
                }
                return Some(i);
            }
            i = i + 1;
        }
        None
    }

    /// Whether storing `p` would be accepted.
    pub fn accepts(&self, p: &PremintTypes) -> (r: bool)
        requires
            self.wf(),
        ensures
            r == store_accepts(self.rows(), *p),
    {
        let kind = p.kind_name();
        let id = p.id();
        match self.find(&kind, &id) {
            None => true,
            Some(i) => p.version() > self.rows[i].version(),
        }
    }

    /// Stores `p`. A premint with a new kind and id is appended; one whose
    /// kind and id are stored replaces that row only where its version is
    /// strictly greater, and is rejected otherwise with nothing changed.
    pub fn store(&mut self, p: PremintTypes) -> (r: Result<(), StoreError>)
        requires
            old(self).wf(),
        ensures
            final(self).wf(),
            final(self).rows() == stored_after(old(self).rows(), p),
            final(self).seen() == old(self).seen(),
            r is Ok <==> store_accepts(old(self).rows(), p),
            r matches Err(e) ==> e == StoreError::VersionNotAdvanced,
    {
        let kind = p.kind_name();
        let id = p.id();
        match self.find(&kind, &id) {
            None => {
                proof {
                    lemma_push_keeps_unique(self.rows(), p);
                }
                self.rows.push(p);
                Ok(())
            },
            Some(i) => {
                if p.version() > self.rows[i].version() {
                    proof {
                        lemma_update_keeps_unique(self.rows(), i as int, p);
                    }
                    self.rows.set(i, p);
                    Ok(())
                } else {
                    Err(StoreError::VersionNotAdvanced)
                }
            },
        }
    }

    /// Whether some claim marked seen is about the premint with `kind`
    /// and `id`.
    pub fn is_seen(&self, kind: &String, id: &String) -> (r: bool)
        ensures
            r == key_seen(self.seen(), (kind@, id@)),
    {
        let mut j: usize = 0;
        while j < self.seen.len()
            invariant
                0 <= j <= self.seen@.len(),
                forall|k: int|
                    0 <= k < j ==> !(self.seen@[k].kind@ == kind@ && self.seen@[k].premint_id@
                        == id@),
            decreases self.seen@.len() - j,
        {
            if self.seen[j].kind == *kind && self.seen[j].premint_id == *id {
                assert(self.seen().contains(self.seen@[j as int]@));
                return true;
            }
            j = j + 1;
        }
        proof {
            if key_seen(self.seen(), (kind@, id@)) {
                let c = choose|c: ClaimView|
                    self.seen().contains(c) && c.kind == kind@ && c.premint_id == id@;
                let k = choose|k: int| 0 <= k < self.seen@.len() && self.seen@[k]@ == c;
                assert(self.seen@[k].kind@ == kind@);
            }
        }
        false
    }

    /// Marks `claim` as seen on chain. Marking a claim again changes nothing.
    pub fn mark_seen_on_chain(&mut self, claim: InclusionClaim)
        requires
            old(self).wf(),
        ensures
            final(self).wf(),
            final(self).rows() == old(self).rows(),
            final(self).seen() == old(self).seen().insert(claim@),
    {
        let mut j: usize = 0;
        while j < self.seen.len()
            invariant
                0 <= j <= self.seen@.len(),
                self.wf(),
                self == old(self),
                forall|k: int| 0 <= k < j ==> self.seen@[k]@ != claim@,
            decreases self.seen@.len() - j,
        {
            if self.seen[j].same_as(&claim) {
                assert(self.seen() =~= self.seen().insert(claim@));
                return ;
            }
            j = j + 1;
        }
        let ghost before = self.seen();
        self.seen.push(claim);
        proof {
            assert forall|v: ClaimView| self.seen().contains(v) <==> before.insert(claim@).contains(
                v,
            ) by {
                if before.contains(v) {
                    let k = choose|k: int| 0 <= k < old(self).seen@.len() && old(self).seen@[k]@ == v;
                    assert(self.seen@[k] == old(self).seen@[k]);
                }
                if self.seen().contains(v) && v != claim@ {
                    let k = choose|k: int| 0 <= k < self.seen@.len() && self.seen@[k]@ == v;
                    assert(k < old(self).seen@.len());
                    assert(old(self).seen@[k] == self.seen@[k]);
                }
                if v == claim@ {
                    assert(self.seen@[self.seen@.len() - 1]@ == claim@);
                }
            }
            assert(self.seen() =~= before.insert(claim@));
        }
    }

    /// The stored premints that have not been seen on chain, in order.
    pub fn list_all(&self) -> (r: Vec<PremintTypes>)
        ensures
            r@ == active_rows(self.rows(), self.seen()),
    {
        let mut out: Vec<PremintTypes> = Vec::new();
        let mut i: usize = 0;
        while i < self.rows.len()
            invariant
                0 <= i <= self.rows@.len(),
                out@ == active_rows(self.rows@.subrange(0, i as int), self.seen()),
            decreases self.rows@.len() - i,
        {
            let kind = self.rows[i].kind_name();
            let id = self.rows[i].id();
            let seen = self.is_seen(&kind, &id);
            proof {
                let s = self.rows@.subrange(0, i as int + 1);
                assert(s.drop_last() =~= self.rows@.subrange(0, i as int));
                assert(s.last() == self.rows@[i as int]);
            }
            if !seen {
                out.push(self.rows[i].duplicate());
            }
            i = i + 1;
        }
        assert(self.rows@.subrange(0, self.rows@.len() as int) =~= self.rows@);
        out
    }

    /// The stored premint with `id` and `kind`, if any.
    pub fn get_for_id_and_kind(&self, id: &String, kind: &String) -> (r: Option<PremintTypes>)
        requires
            self.wf(),
        ensures
            r is Some <==> has_key(self.rows(), (kind@, id@)),
            r matches Some(p) ==> p == self.rows()[index_of_key(self.rows(), (kind@, id@))],
    {
        match self.find(kind, id) {
            Some(i) => Some(self.rows[i].duplicate()),
            None => None,
        }
    }
}

proof fn lemma_push_keeps_unique(rows: Seq<PremintTypes>, p: PremintTypes)
    requires
        keys_unique(rows),
        !has_key(rows, premint_key(p)),
    ensures
        keys_unique(rows.push(p)),
{
    let s = rows.push(p);
    assert forall|i: int, j: int|
        0 <= i < s.len() && 0 <= j < s.len() && premint_key(s[i]) == premint_key(s[j]) implies i
        == j by {
        if i < rows.len() && j == rows.len() {
            assert(premint_key(rows[i]) == premint_key(p));
        }
        if j < rows.len() && i == rows.len() {
            assert(premint_key(rows[j]) == premint_key(p));
        }
    }
}

proof fn lemma_update_keeps_unique(rows: Seq<PremintTypes>, i: int, p: PremintTypes)
    requires
        keys_unique(rows),
        0 <= i < rows.len(),
        premint_key(rows[i]) == premint_key(p),
    ensures
        keys_unique(rows.update(i, p)),
{
    let s = rows.update(i, p);
    assert forall|a: int, b: int|
        0 <= a < s.len() && 0 <= b < s.len() && premint_key(s[a]) == premint_key(s[b]) implies a
        == b by {
        assert(premint_key(s[a]) == premint_key(rows[a]));
        assert(premint_key(s[b]) == premint_key(rows[b]));
    }
}

/// In rows with unique keys, the row found for a key is the one that has it.
pub proof fn lemma_index_of_key(rows: Seq<PremintTypes>, i: int)
    requires
        keys_unique(rows),
        0 <= i < rows.len(),
    ensures
        has_key(rows, premint_key(rows[i])),
        index_of_key(rows, premint_key(rows[i])) == i,
{
    let k = premint_key(rows[i]);
    assert(0 <= i < rows.len() && premint_key(rows[i]) == k);
    let c = index_of_key(rows, k);
    assert(premint_key(rows[c]) == premint_key(rows[i]));
}

/// Storing a premint twice leaves exactly one row with its kind and id, the
/// same rows as storing it once; the second store is rejected.
pub proof fn lemma_store_twice(rows: Seq<PremintTypes>, p: PremintTypes)
    requires
        keys_unique(rows),
    ensures
        keys_unique(stored_after(rows, p)),
        !store_accepts(stored_after(rows, p), p),
        stored_after(stored_after(rows, p), p) == stored_after(rows, p),
        store_accepts(rows, p) ==> stored_after(rows, p)[index_of_key(
            stored_after(rows, p),
            premint_key(p),
        )] == p,
        exists|j: int|
            0 <= j < stored_after(rows, p).len() && premint_key(stored_after(rows, p)[j])
                == premint_key(p) && forall|i: int|
                0 <= i < stored_after(rows, p).len() && premint_key(stored_after(rows, p)[i])
                    == premint_key(p) ==> i == j,
{
    let k = premint_key(p);
    let s1 = stored_after(rows, p);
    let j = if has_key(rows, k) {
        index_of_key(rows, k)
    } else {
        rows.len() as int
    };
    if !has_key(rows, k) {
        lemma_push_keeps_unique(rows, p);
    } else if store_accepts(rows, p) {
        lemma_update_keeps_unique(rows, j, p);
    }
    assert(premint_key(s1[j]) == k);
    lemma_index_of_key(s1, j);
    assert(premint_version(s1[j]) >= premint_version(p));
    assert(store_accepts(rows, p) ==> s1[j] == p);
}

/// After `p` has been stored, storing `q` with the same kind and id replaces
/// `p` where `q`'s version is greater, and is rejected with nothing changed
/// otherwise.
pub proof fn lemma_store_newer_replaces(rows: Seq<PremintTypes>, p: PremintTypes, q: PremintTypes)
    requires
        keys_unique(rows),
        store_accepts(rows, p),
        premint_key(q) == premint_key(p),
    ensures
        premint_version(q) > premint_version(p) ==> store_accepts(stored_after(rows, p), q)
            && stored_after(stored_after(rows, p), q) == stored_after(rows, p).update(
            index_of_key(stored_after(rows, p), premint_key(p)),
            q,
        ),
        premint_version(q) <= premint_version(p) ==> !store_accepts(stored_after(rows, p), q)
            && stored_after(stored_after(rows, p), q) == stored_after(rows, p),
{
    let k = premint_key(p);
    let s1 = stored_after(rows, p);
    let j = if has_key(rows, k) {
        index_of_key(rows, k)
    } else {
        rows.len() as int
    };
    if !has_key(rows, k) {
        lemma_push_keeps_unique(rows, p);
    } else {
        lemma_update_keeps_unique(rows, j, p);
    }
    assert(s1[j] == p);
    lemma_index_of_key(s1, j);
}

/// The active rows are rows whose premint no claim of `seen` is about.
pub proof fn lemma_active_rows_unseen(rows: Seq<PremintTypes>, seen: Set<ClaimView>)
    ensures
        forall|i: int|
            0 <= i < active_rows(rows, seen).len() ==> !key_seen(
                seen,
                premint_key(#[trigger] active_rows(rows, seen)[i]),
            ),
    decreases rows.len(),
{
    if rows.len() > 0 {
        lemma_active_rows_unseen(rows.drop_last(), seen);
        let rest = active_rows(rows.drop_last(), seen);
        let a = active_rows(rows, seen);
        assert forall|i: int| 0 <= i < a.len() implies !key_seen(seen, premint_key(#[trigger] a[i])) by {
            if i < rest.len() {
                assert(a[i] == rest[i]);
            }
        }
    }
}

/// Once claim `c` is marked seen, no listing of active rows holds a premint
/// of `c`'s kind and id, whatever is stored or marked afterwards; marking
/// `c` again changes nothing.
pub proof fn lemma_seen_is_monotone(
    rows: Seq<PremintTypes>,
    seen: Set<ClaimView>,
    c: ClaimView,
    later: Set<ClaimView>,
)
    requires
        seen.insert(c).subset_of(later),
    ensures
        seen.insert(c).insert(c) == seen.insert(c),
        forall|i: int|
            0 <= i < active_rows(rows, later).len() ==> premint_key(
                #[trigger] active_rows(rows, later)[i],
            ) != (c.kind, c.premint_id),
{
    assert(seen.insert(c).insert(c) =~= seen.insert(c));
    lemma_active_rows_unseen(rows, later);
    assert(later.contains(c));
}

/// Through any run of steps that each keep the seen claims (each set a
/// subset of the next), a claim seen at the start is still seen at the end,
/// and the final listing holds no premint of its kind and id.
pub proof fn lemma_seen_persists(
    rows: Seq<PremintTypes>,
    states: Seq<Set<ClaimView>>,
    c: ClaimView,
)
    requires
        states.len() > 0,
        states[0].contains(c),
        forall|i: int| 0 <= i < states.len() - 1 ==> (#[trigger] states[i]).subset_of(states[i + 1]),
    ensures
        states.last().contains(c),
        forall|i: int|
            0 <= i < active_rows(rows, states.last()).len() ==> premint_key(
                #[trigger] active_rows(rows, states.last())[i],
            ) != (c.kind, c.premint_id),
    decreases states.len(),
{
    if states.len() > 1 {
        let prefix = states.drop_last();
        assert forall|i: int| 0 <= i < prefix.len() - 1 implies (#[trigger] prefix[i]).subset_of(
            prefix[i + 1],
        ) by {
            assert(prefix[i] == states[i] && prefix[i + 1] == states[i + 1]);
        }
        lemma_seen_persists(rows, prefix, c);
        assert(states[states.len() - 2].subset_of(states[states.len() - 1]));
    }
    lemma_active_rows_unseen(rows, states.last());
}

} // verus!
