//! Claims: the record that one agent owns one bead's worktree, and the table
//! that holds the active ones.

use crate::text::same;
use vstd::prelude::*;

verus! {

/// Milliseconds in one minute.
pub const MILLIS_PER_MINUTE: i64 = 60000;

/// The record that an agent owns a bead and works on it in a worktree.
#[derive(Debug, PartialEq, Eq)]
pub struct Claim {
    /// The bead that is claimed; at most one claim exists for a bead.
    pub bead_id: String,
    /// The agent that holds the claim.
    pub agent_id: String,
    /// Where the bead's worktree lives.
    pub worktree_path: String,
    /// The branch that the worktree is on.
    pub branch_name: String,
    /// The commit that the branch started from.
    pub start_commit: String,
    /// When the claim was made, in epoch milliseconds.
    pub claimed_at: i64,
}

/// What a [`Claim`] holds, as mathematical values.
pub struct ClaimView {
    pub bead_id: Seq<char>,
    pub agent_id: Seq<char>,
    pub worktree_path: Seq<char>,
    pub branch_name: Seq<char>,
    pub start_commit: Seq<char>,
    pub claimed_at: int,
}

impl View for Claim {
    type V = ClaimView;

    open spec fn view(&self) -> ClaimView {
        ClaimView {
            bead_id: self.bead_id@,
            agent_id: self.agent_id@,
            worktree_path: self.worktree_path@,
            branch_name: self.branch_name@,
            start_commit: self.start_commit@,
            claimed_at: self.claimed_at as int,
        }
    }
}

impl DeepView for Claim {
    type V = ClaimView;

    open spec fn deep_view(&self) -> ClaimView {
        self@
    }
}

impl Clone for Claim {
    fn clone(&self) -> (r: Self)
        ensures
            r == *self,
    {
        Claim {
            bead_id: self.bead_id.clone(),
            agent_id: self.agent_id.clone(),
            worktree_path: self.worktree_path.clone(),
            branch_name: self.branch_name.clone(),
            start_commit: self.start_commit.clone(),
            claimed_at: self.claimed_at,
        }
    }
}

/// Whole minutes contained in `millis` milliseconds, rounded toward zero.
pub open spec fn whole_minutes(millis: int) -> int {
    if millis >= 0 {
        millis / 60000
    } else {
        -((-millis) / 60000)
    }
}

/// The age in whole minutes, at `now`, of something that happened at
/// `then`; negative where `then` lies after `now`.
pub open spec fn age_minutes(then: int, now: int) -> int {
    whole_minutes(now - then)
}

/// Minutes that lie between two instants given in epoch milliseconds.
pub fn minutes_between(then: i64, now: i64) -> (minutes: i64)
    ensures
        minutes == age_minutes(then as int, now as int),
{
    let delta: i128 = now as i128 - then as i128;
    let m: i128 = delta / 60000;
    m as i64
}

/// A claim made at `claimed_at` is stale at `now` when it is older than
/// `minutes` minutes: strictly before the cutoff `now - minutes * 60000`.
pub open spec fn is_stale(claimed_at: int, now: int, minutes: int) -> bool {
    claimed_at < now - minutes * 60000
}

/// The claims among `claims` that were made strictly before `cutoff`, in the
/// order in which they stand.
pub open spec fn older_than(claims: Seq<ClaimView>, cutoff: int) -> Seq<ClaimView> {
    claims.filter(|c: ClaimView| c.claimed_at < cutoff)
}

/// The claims among `claims` that are stale at `now` for a threshold of
/// `minutes` minutes.
pub open spec fn stale_claims(claims: Seq<ClaimView>, now: int, minutes: int) -> Seq<ClaimView> {
    older_than(claims, now - minutes * 60000)
}

/// Whether some claim among `claims` is for `bead_id`.
pub open spec fn has_claim(claims: Seq<ClaimView>, bead_id: Seq<char>) -> bool {
    exists|i: int| 0 <= i < claims.len() && #[trigger] claims[i].bead_id == bead_id
}

/// The claim for `bead_id` among `claims`, if there is one.
pub open spec fn claim_on(claims: Seq<ClaimView>, bead_id: Seq<char>) -> Option<ClaimView> {
    if has_claim(claims, bead_id) {
        Some(claims[choose|i: int| 0 <= i < claims.len() && #[trigger] claims[i].bead_id == bead_id])
    } else {
        None
    }
}

/// `claims` without the claims for `bead_id`.
pub open spec fn without(claims: Seq<ClaimView>, bead_id: Seq<char>) -> Seq<ClaimView> {
    claims.filter(|c: ClaimView| c.bead_id != bead_id)
}

/// No two claims among `claims` are for the same bead.
pub open spec fn unique_beads(claims: Seq<ClaimView>) -> bool {
    forall|i: int, j: int|
        0 <= i < claims.len() && 0 <= j < claims.len() && i != j ==> #[trigger] claims[i].bead_id
            != #[trigger] claims[j].bead_id
}

/// Whether `now - minutes * 60000` lies strictly after `claimed_at`, computed
/// without overflow for every input.
pub fn stale_at(claimed_at: i64, now: i64, minutes: i64) -> (r: bool)
    ensures
        r == is_stale(claimed_at as int, now as int, minutes as int),
{
    let cutoff: i128 = now as i128 - (minutes as i128) * 60000;
    (claimed_at as i128) < cutoff
}

/// The stale claims of a list: those made strictly before
/// `now - minutes * 60000`, in the order of the list.
pub fn select_stale(claims: &Vec<Claim>, now: i64, minutes: i64) -> (out: Vec<Claim>)
    ensures
        out.deep_view() == stale_claims(claims.deep_view(), now as int, minutes as int),
{
    let ghost all = claims.deep_view();
    let ghost cutoff = now - minutes * 60000;
    let mut out: Vec<Claim> = Vec::new();
    let mut i: usize = 0;
    proof {
        reveal(Seq::filter);
        assert(all.take(0) =~= Seq::<ClaimView>::empty());
        assert(out.deep_view() =~= older_than(all.take(0), cutoff));
    }
    while i < claims.len()
        invariant
            i <= claims.len(),
            all == claims.deep_view(),
            cutoff == now - minutes * 60000,
            out.deep_view() == older_than(all.take(i as int), cutoff),
        decreases claims.len() - i,
    {
        let ghost before = out.deep_view();
        proof {
            reveal(Seq::filter);
            assert(all.take(i + 1).drop_last() =~= all.take(i as int));
            assert(all.take(i + 1).last() == claims[i as int]@);
        }
        if stale_at(claims[i].claimed_at, now, minutes) {
            out.push(claims[i].clone());
            assert(out.deep_view() =~= before.push(claims[i as int]@));
        }
        i += 1;
    }
    assert(all.take(claims.len() as int) =~= all);
    out
}

/// The table of active claims, in the order in which they were made. No two
/// of its claims are for the same bead.
pub struct ClaimStore {
    rows: Vec<Claim>,
}

/// Why the table could not do what was asked.
#[derive(Debug, PartialEq, Eq)]
pub enum StoreError {
    /// The bead already has a claim; the text names the agent that holds
    /// it, where that is known.
    Conflict(String),
    /// The database failed; the text is its message.
    Database(String),
}

/// What a [`StoreError`] holds, as mathematical values.
pub enum StoreErrorView {
    Conflict(Seq<char>),
    Database(Seq<char>),
}

impl View for StoreError {
    type V = StoreErrorView;

    open spec fn view(&self) -> StoreErrorView {
        match self {
            StoreError::Conflict(m) => StoreErrorView::Conflict(m@),
            StoreError::Database(m) => StoreErrorView::Database(m@),
        }
    }
}

impl DeepView for StoreError {
    type V = StoreErrorView;

    open spec fn deep_view(&self) -> StoreErrorView {
        self@
    }
}

impl View for ClaimStore {
    type V = Seq<ClaimView>;

    closed spec fn view(&self) -> Seq<ClaimView> {
        self.rows.deep_view()
    }
}

impl ClaimStore {
    #[verifier::type_invariant]
    spec fn well_formed(&self) -> bool {
        unique_beads(self.rows.deep_view())
    }

    /// An empty table.
    pub fn new() -> (store: ClaimStore)
        ensures
            store@ == Seq::<ClaimView>::empty(),
    {
        let rows: Vec<Claim> = Vec::new();
        assert(rows.deep_view() =~= Seq::<ClaimView>::empty());
        ClaimStore { rows }
    }

    /// How many claims are active.
    pub fn len(&self) -> (n: usize)
        ensures
            n == self@.len(),
    {
        self.rows.len()
    }

    fn position(&self, bead_id: &str) -> (at: Option<usize>)
        ensures
            match at {
                Some(i) => i < self@.len() && self@[i as int].bead_id == bead_id@ && claim_on(
                    self@,
                    bead_id@,
                ) == Some(self@[i as int]),
                None => !has_claim(self@, bead_id@) && claim_on(self@, bead_id@).is_none(),
            },
    {
        proof {
            use_type_invariant(self);
        }
        let mut i: usize = 0;
        while i < self.rows.len()
            invariant
                i <= self.rows.len(),
                unique_beads(self.rows.deep_view()),
                forall|j: int| 0 <= j < i ==> (#[trigger] self.rows.deep_view()[j]).bead_id != bead_id@,
            decreases self.rows.len() - i,
        {
            if same(self.rows[i].bead_id.as_str(), bead_id) {
                proof {
                    let rows = self.rows.deep_view();
                    assert(rows[i as int].bead_id == bead_id@);
                    let j = choose|j: int| 0 <= j < rows.len() && #[trigger] rows[j].bead_id == bead_id@;
                    if j != i {
                        assert(rows[j].bead_id != rows[i as int].bead_id);
                    }
                }
                return Some(i);
            }
            i += 1;
        }
        None
    }

    /// Whether `bead_id` has a claim.
    pub fn contains(&self, bead_id: &str) -> (r: bool)
        ensures
            r == has_claim(self@, bead_id@),
    {
        self.position(bead_id).is_some()
    }

    /// The claim on `bead_id`, if it has one.
    pub fn find(&self, bead_id: &str) -> (r: Option<Claim>)
        ensures
            r.deep_view() == claim_on(self@, bead_id@),
            match r {
                Some(c) => has_claim(self@, bead_id@) && self@.contains(c@) && c.bead_id@
                    == bead_id@,
                None => !has_claim(self@, bead_id@),
            },
    {
        match self.position(bead_id) {
            Some(i) => {
                let c = self.rows[i].clone();
                assert(self@[i as int] == c@);
                Some(c)
            },
            None => None,
        }
    }

    /// Records `claim`, unless its bead already has a claim: then the table
    /// stays as it is and the error names the owner. This is the one place
    /// where a bead changes from unclaimed to claimed.
    pub fn insert(&mut self, claim: Claim) -> (r: Result<(), StoreError>)
        ensures
            match r {
                Ok(()) => !has_claim(old(self)@, claim.bead_id@) && final(self)@ == old(self)@.push(
                    claim@,
                ),
                Err(StoreError::Conflict(owner)) => has_claim(old(self)@, claim.bead_id@)
                    && final(self)@ == old(self)@ && (claim_on(old(self)@, claim.bead_id@) matches Some(
                    owned,
                ) && owned.agent_id == owner@) && exists|i: int|
                    0 <= i < old(self)@.len() && (#[trigger] old(self)@[i]).bead_id
                        == claim.bead_id@ && old(self)@[i].agent_id == owner@,
                Err(StoreError::Database(_)) => false,
            },
    {
        proof {
            use_type_invariant(&*self);
        }
        match self.position(claim.bead_id.as_str()) {
            Some(i) => {
                let owner = self.rows[i].agent_id.clone();
                assert(self@[i as int].agent_id == owner@);
                Err(StoreError::Conflict(owner))
            },
            None => {
                let ghost before = self.rows.deep_view();
                let ghost added = claim@;
                let mut rows: Vec<Claim> = Vec::new();
                std::mem::swap(&mut rows, &mut self.rows);
                rows.push(claim);
                proof {
                    assert(rows.deep_view() =~= before.push(added));
                    assert forall|i: int, j: int|
                        0 <= i < before.len() + 1 && 0 <= j < before.len() + 1 && i
                            != j implies #[trigger] before.push(added)[i].bead_id
                        != #[trigger] before.push(added)[j].bead_id by {
                        if i < before.len() {
                            assert(before[i].bead_id == before[i].bead_id);
                        }
                        if j < before.len() {
                            assert(before[j].bead_id == before[j].bead_id);
                        }
                    }
                }
                self.rows = rows;
                Ok(())
            },
        }
    }

    /// Removes the claim on `bead_id`. Removing a claim that does not exist
    /// changes nothing and is no error.
    pub fn delete(&mut self, bead_id: &str)
        ensures
            final(self)@ == without(old(self)@, bead_id@),
            !has_claim(final(self)@, bead_id@),
            !has_claim(old(self)@, bead_id@) ==> final(self)@ == old(self)@,
    {
        proof {
            use_type_invariant(&*self);
        }
        let ghost before = self.rows.deep_view();
        match self.position(bead_id) {
            Some(i) => {
                let mut rows: Vec<Claim> = Vec::new();
                std::mem::swap(&mut rows, &mut self.rows);
                rows.remove(i);
                proof {
                    assert(rows.deep_view() =~= before.remove(i as int));
                    lemma_without_one(before, i as int);
                    assert forall|a: int, b: int|
                        0 <= a < before.len() - 1 && 0 <= b < before.len() - 1 && a
                            != b implies #[trigger] before.remove(i as int)[a].bead_id
                        != #[trigger] before.remove(i as int)[b].bead_id by {
                        let a2 = if a < i { a } else { a + 1 };
                        let b2 = if b < i { b } else { b + 1 };
                        assert(before.remove(i as int)[a] == before[a2]);
                        assert(before.remove(i as int)[b] == before[b2]);
                    }
                    assert(!has_claim(before.remove(i as int), bead_id@)) by {
                        assert forall|k: int| 0 <= k < before.len() - 1 implies (
                        #[trigger] before.remove(i as int)[k]).bead_id != bead_id@ by {
                            let k2 = if k < i { k } else { k + 1 };
                            assert(before.remove(i as int)[k] == before[k2]);
                            assert(before[k2].bead_id != before[i as int].bead_id);
                        }
                    }
                }
                self.rows = rows;
            },
            None => {
                proof {
                    lemma_without_none(before, bead_id@);
                }
            },
        }
    }

    /// Every active claim, oldest entry first.
    pub fn list_all(&self) -> (out: Vec<Claim>)
        ensures
            out.deep_view() == self@,
            unique_beads(out.deep_view()),
    {
        proof {
            use_type_invariant(self);
        }
        let mut out: Vec<Claim> = Vec::new();
        let mut i: usize = 0;
        while i < self.rows.len()
            invariant
                i <= self.rows.len(),
                out.deep_view() == self.rows.deep_view().take(i as int),
            decreases self.rows.len() - i,
        {
            let ghost before = out.deep_view();
            out.push(self.rows[i].clone());
            assert(out.deep_view() =~= before.push(self.rows[i as int]@));
            assert(out.deep_view() =~= self.rows.deep_view().take(i + 1));
            i += 1;
        }
        assert(self.rows.deep_view().take(self.rows.len() as int) =~= self.rows.deep_view());
        out
    }

    /// The claims made strictly before `cutoff` (epoch milliseconds), in the
    /// order of the table.
    pub fn list_older_than(&self, cutoff: i64) -> (out: Vec<Claim>)
        ensures
            out.deep_view() == older_than(self@, cutoff as int),
    {
        let out = select_stale(&self.rows, cutoff, 0);
        out
    }
}

/// Removing the only claim on a bead is the same as filtering the bead out.
pub proof fn lemma_without_one(claims: Seq<ClaimView>, i: int)
    requires
        0 <= i < claims.len(),
        unique_beads(claims),
    ensures
        without(claims, claims[i].bead_id) == claims.remove(i),
    decreases claims.len(),
{
    reveal(Seq::filter);
    let id = claims[i].bead_id;
    let n = claims.len() - 1;
    if i == n {
        assert(claims.remove(i) =~= claims.drop_last());
        assert(unique_beads(claims.drop_last())) by {
            assert forall|a: int, b: int|
                0 <= a < n && 0 <= b < n && a != b implies #[trigger] claims.drop_last()[a].bead_id
                != #[trigger] claims.drop_last()[b].bead_id by {
                assert(claims.drop_last()[a] == claims[a]);
                assert(claims.drop_last()[b] == claims[b]);
            }
        }
        assert(!has_claim(claims.drop_last(), id)) by {
            assert forall|k: int| 0 <= k < n implies (#[trigger] claims.drop_last()[k]).bead_id
                != id by {
                assert(claims.drop_last()[k] == claims[k]);
                assert(claims[k].bead_id != claims[i].bead_id);
            }
        }
        lemma_without_none(claims.drop_last(), id);
    } else {
        assert(claims.last().bead_id != id) by {
            assert(claims[n].bead_id != claims[i].bead_id);
        }
        assert(unique_beads(claims.drop_last())) by {
            assert forall|a: int, b: int|
                0 <= a < n && 0 <= b < n && a != b implies #[trigger] claims.drop_last()[a].bead_id
                != #[trigger] claims.drop_last()[b].bead_id by {
                assert(claims.drop_last()[a] == claims[a]);
                assert(claims.drop_last()[b] == claims[b]);
            }
        }
        assert(claims.drop_last()[i] == claims[i]);
        lemma_without_one(claims.drop_last(), i);
        assert(claims.remove(i) =~= claims.drop_last().remove(i).push(claims.last()));
    }
}

/// Filtering out a bead that has no claim changes nothing.
pub proof fn lemma_without_none(claims: Seq<ClaimView>, bead_id: Seq<char>)
    requires
        !has_claim(claims, bead_id),
    ensures
        without(claims, bead_id) == claims,
    decreases claims.len(),
{
    reveal(Seq::filter);
    if claims.len() > 0 {
        let n = claims.len() - 1;
        assert(claims[n].bead_id != bead_id);
        assert(!has_claim(claims.drop_last(), bead_id)) by {
            assert forall|k: int| 0 <= k < n implies (#[trigger] claims.drop_last()[k]).bead_id
                != bead_id by {
                assert(claims.drop_last()[k] == claims[k]);
            }
        }
        lemma_without_none(claims.drop_last(), bead_id);
        assert(claims.drop_last().push(claims.last()) =~= claims);
    }
}

/// Filtering a bead out right after its claim was added gives back what was
/// there before, where the bead had no claim.
pub proof fn lemma_without_added(claims: Seq<ClaimView>, claim: ClaimView)
    requires
        !has_claim(claims, claim.bead_id),
    ensures
        without(claims.push(claim), claim.bead_id) == claims,
        !has_claim(without(claims.push(claim), claim.bead_id), claim.bead_id),
{
    reveal(Seq::filter);
    assert(claims.push(claim).drop_last() =~= claims);
    lemma_without_none(claims, claim.bead_id);
}

/// Once a bead is filtered out, it has no claim.
pub proof fn lemma_without_clears(claims: Seq<ClaimView>, bead_id: Seq<char>)
    ensures
        !has_claim(without(claims, bead_id), bead_id),
{
    let rest = without(claims, bead_id);
    let keep = |c: ClaimView| c.bead_id != bead_id;
    assert forall|i: int| 0 <= i < rest.len() implies (#[trigger] rest[i]).bead_id != bead_id by {
        claims.lemma_filter_pred(keep, i);
    }
}

/// A claim is among the stale ones exactly if it is among the claims and
/// was made strictly before `now - minutes * 60000`.
pub proof fn lemma_stale_claims(claims: Seq<ClaimView>, now: int, minutes: int, claim: ClaimView)
    ensures
        stale_claims(claims, now, minutes).contains(claim) <==> claims.contains(claim) && is_stale(
            claim.claimed_at,
            now,
            minutes,
        ),
{
    let cutoff = now - minutes * 60000;
    let old = |c: ClaimView| c.claimed_at < cutoff;
    let picked = claims.filter(old);
    if picked.contains(claim) {
        let i = choose|i: int| 0 <= i < picked.len() && picked[i] == claim;
        claims.lemma_filter_pred(old, i);
        claims.lemma_filter_contains_rev(old, claim);
    }
    if claims.contains(claim) && is_stale(claim.claimed_at, now, minutes) {
        let i = choose|i: int| 0 <= i < claims.len() && claims[i] == claim;
        claims.lemma_filter_contains(old, i);
    }
}

} // verus!
