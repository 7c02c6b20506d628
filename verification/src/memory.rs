//! A workspace held in memory: a claim table, worktrees, a tracker and a
//! merge that behave as [`crate::model`] says. It serves to try the
//! lifecycle operations without a repository and without databases.

use crate::beads::{by_priority, comes_first, lemma_comes_first, works_first, BeadInfo, BeadInfoView};
use crate::claims::{claim_on, without, ClaimStore, ClaimView, StoreError};
use crate::model::{answers, World};
use crate::protocol::{Action, ActionView, Reply, ReplyView};
use crate::text::same;
use crate::worktree::{branch_name, branch_of, join_path, path_in, WorktreeInfo, WorktreeInfoView};
use vstd::prelude::*;

verus! {

/// The set of the texts of a list.
pub open spec fn set_of(texts: Seq<Seq<char>>) -> Set<Seq<char>> {
    Set::new(|b: Seq<char>| texts.contains(b))
}

/// Whether no two beads of a list have the same identifier.
pub open spec fn unique_ids(beads: Seq<BeadInfoView>) -> bool {
    forall|i: int, j: int|
        0 <= i < beads.len() && 0 <= j < beads.len() && i != j ==> (#[trigger] beads[i]).id != (
        #[trigger] beads[j]).id
}

/// Whether a list of beads holds a bead with the identifier `id`.
pub open spec fn knows(beads: Seq<BeadInfoView>, id: Seq<char>) -> bool {
    exists|i: int| 0 <= i < beads.len() && (#[trigger] beads[i]).id == id
}

/// The position of the bead with the identifier `id` in a list that holds
/// one.
pub open spec fn position_of(beads: Seq<BeadInfoView>, id: Seq<char>) -> int {
    choose|i: int| 0 <= i < beads.len() && (#[trigger] beads[i]).id == id
}

/// The status of each bead of a list, by the bead's identifier.
pub open spec fn statuses_of(beads: Seq<BeadInfoView>) -> Map<Seq<char>, Seq<char>> {
    Map::new(|id: Seq<char>| knows(beads, id), |id: Seq<char>| beads[position_of(beads, id)].status)
}

/// The beads of a list whose status is `open`, in the order of the list.
pub open spec fn open_beads(beads: Seq<BeadInfoView>) -> Seq<BeadInfoView> {
    beads.filter(|b: BeadInfoView| b.status == "open"@)
}

/// How many beads at the head of a list, one after the other, are to be
/// worked on no later than `bead`: where `bead` is put into the list.
pub open spec fn slot(beads: Seq<BeadInfoView>, bead: BeadInfoView) -> int
    decreases beads.len(),
{
    if beads.len() > 0 && comes_first(beads[0], bead) {
        1 + slot(beads.drop_first(), bead)
    } else {
        0
    }
}

/// A list of beads with `bead` put behind the beads at its head that are to
/// be worked on no later.
pub open spec fn placed(beads: Seq<BeadInfoView>, bead: BeadInfoView) -> Seq<BeadInfoView> {
    beads.insert(slot(beads, bead), bead)
}

/// The commit that every worktree in memory is said to start from.
pub open spec fn first_commit() -> Seq<char> {
    "0000000000000000000000000000000000000000"@
}

/// All that a workspace in memory holds.
pub struct Contents {
    /// The rows of the claim table, oldest entry first.
    pub claims: Seq<ClaimView>,
    /// The beads that have a worktree and a branch.
    pub worktrees: Set<Seq<char>>,
    /// The beads that the tracker knows, in the order in which they are to
    /// be worked on.
    pub beads: Seq<BeadInfoView>,
    /// The branch that is being merged, while a merge is in progress.
    pub merging: Option<Seq<char>>,
    /// Whether paths are still unmerged.
    pub unresolved: bool,
    /// The beads whose merge stops on conflicts.
    pub conflicting: Set<Seq<char>>,
    /// The directory below which the worktrees lie.
    pub worktrees_dir: Seq<char>,
}

/// The world that the lifecycle operations see of what a workspace in
/// memory holds.
pub open spec fn world_of(c: Contents) -> World {
    World {
        claims: c.claims,
        worktrees: c.worktrees,
        statuses: statuses_of(c.beads),
        merging: c.merging,
        unresolved: c.unresolved,
    }
}

/// What a workspace in memory that holds `c` answers to `action`.
///
/// A request fails only where what it names is not there: a bead that the
/// tracker does not know, a worktree that does not exist. A claim or a
/// worktree that is already there is a conflict, and so are a merge of a
/// bead that was made to conflict and the completion of a merge with
/// unmerged paths.
pub open spec fn reply_of(c: Contents, action: ActionView) -> ReplyView {
    match action {
        ActionView::FindClaim { bead_id } => ReplyView::Claim(claim_on(c.claims, bead_id)),
        ActionView::InsertClaim { claim } => match claim_on(c.claims, claim.bead_id) {
            Some(owned) => ReplyView::Conflict(owned.agent_id),
            None => ReplyView::Done,
        },
        ActionView::DeleteClaim { bead_id } => ReplyView::Done,
        ActionView::ListClaims => ReplyView::Claims(c.claims),
        ActionView::GetBead { bead_id } => if knows(c.beads, bead_id) {
            ReplyView::Bead(c.beads[position_of(c.beads, bead_id)])
        } else {
            ReplyView::Failed("Bead not found: "@ + bead_id)
        },
        ActionView::IsBeadReady { bead_id } => ReplyView::Flag(
            knows(c.beads, bead_id) && c.beads[position_of(c.beads, bead_id)].status == "open"@,
        ),
        ActionView::GetReadyBeads => ReplyView::Beads(open_beads(c.beads)),
        ActionView::UpdateBeadStatus { bead_id, status } => if knows(c.beads, bead_id) {
            ReplyView::Done
        } else {
            ReplyView::Failed("Bead not found: "@ + bead_id)
        },
        ActionView::CreateWorktree { bead_id } => if c.worktrees.contains(bead_id) {
            ReplyView::Conflict("Worktree already exists: "@ + bead_id)
        } else {
            ReplyView::Worktree(
                WorktreeInfoView {
                    bead_id,
                    path: path_in(c.worktrees_dir, bead_id),
                    branch: branch_of(bead_id),
                    head_commit: first_commit(),
                },
            )
        },
        ActionView::RemoveWorktree { bead_id, force } => if c.worktrees.contains(bead_id) {
            ReplyView::Done
        } else {
            ReplyView::Failed("Worktree not found: "@ + bead_id)
        },
        ActionView::MergeWorktree { bead_id, target } => if c.conflicting.contains(bead_id) {
            ReplyView::Conflict("CONFLICT (content)"@)
        } else {
            ReplyView::Done
        },
        ActionView::IsInMergeConflict => ReplyView::Flag(c.merging is Some),
        ActionView::GetMergeBranch => ReplyView::Branch(c.merging),
        ActionView::HasUnresolvedConflicts => ReplyView::Flag(c.unresolved),
        ActionView::AbortMerge => ReplyView::Done,
        ActionView::CompleteMerge => if c.unresolved {
            ReplyView::Conflict("unresolved conflicts remain"@)
        } else {
            ReplyView::Done
        },
    }
}

/// What a workspace in memory that held `c` holds once it has carried out
/// `action`. Questions, and requests that are turned down, change nothing.
pub open spec fn contents_after(c: Contents, action: ActionView) -> Contents {
    match action {
        ActionView::InsertClaim { claim } => if claim_on(c.claims, claim.bead_id) is None {
            Contents { claims: c.claims.push(claim), ..c }
        } else {
            c
        },
        ActionView::DeleteClaim { bead_id } => Contents { claims: without(c.claims, bead_id), ..c },
        ActionView::UpdateBeadStatus { bead_id, status } => if knows(c.beads, bead_id) {
            Contents {
                beads: c.beads.update(
                    position_of(c.beads, bead_id),
                    BeadInfoView { status, ..c.beads[position_of(c.beads, bead_id)] },
                ),
                ..c
            }
        } else {
            c
        },
        ActionView::CreateWorktree { bead_id } => Contents {
            worktrees: c.worktrees.insert(bead_id),
            ..c
        },
        ActionView::RemoveWorktree { bead_id, force } => Contents {
            worktrees: c.worktrees.remove(bead_id),
            ..c
        },
        ActionView::MergeWorktree { bead_id, target } => if c.conflicting.contains(bead_id) {
            Contents { merging: Some(branch_of(bead_id)), unresolved: true, ..c }
        } else {
            c
        },
        ActionView::AbortMerge => Contents { merging: None, unresolved: false, ..c },
        ActionView::CompleteMerge => if c.unresolved {
            c
        } else {
            Contents { merging: None, ..c }
        },
        _ => c,
    }
}

/// A workspace in memory.
pub struct Workspace {
    worktrees_dir: String,
    store: ClaimStore,
    worktrees: Vec<String>,
    beads: Vec<BeadInfo>,
    merging: Option<String>,
    unresolved: bool,
    conflicting: Vec<String>,
}

impl View for Workspace {
    type V = World;

    open spec fn view(&self) -> World {
        world_of(self.contents())
    }
}

fn holds(texts: &Vec<String>, text: &str) -> (r: bool)
    ensures
        r == texts.deep_view().contains(text@),
{
    let mut i: usize = 0;
    while i < texts.len()
        invariant
            i <= texts.len(),
            forall|j: int| 0 <= j < i ==> (#[trigger] texts.deep_view()[j]) != text@,
        decreases texts.len() - i,
    {
        if same(texts[i].as_str(), text) {
            assert(texts.deep_view()[i as int] == text@);
            return true;
        }
        i += 1;
    }
    false
}

fn without_text(texts: &Vec<String>, text: &str) -> (out: Vec<String>)
    ensures
        set_of(out.deep_view()) == set_of(texts.deep_view()).remove(text@),
{
    let ghost all = texts.deep_view();
    let mut out: Vec<String> = Vec::new();
    let mut i: usize = 0;
    while i < texts.len()
        invariant
            i <= texts.len(),
            all == texts.deep_view(),
            forall|x: Seq<char>| #[trigger]
                out.deep_view().contains(x) <==> x != text@ && all.take(i as int).contains(x),
        decreases texts.len() - i,
    {
        let ghost before = out.deep_view();
        let ghost here = all[i as int];
        assert(here == texts[i as int]@);
        assert(all.take(i + 1) =~= all.take(i as int).push(here));
        if !same(texts[i].as_str(), text) {
            out.push(texts[i].clone());
            assert(out.deep_view() =~= before.push(here));
            assert forall|x: Seq<char>| #[trigger]
                out.deep_view().contains(x) <==> x != text@ && all.take(i + 1).contains(x) by {
                lemma_push_contains(before, here, x);
                lemma_push_contains(all.take(i as int), here, x);
            }
        } else {
            assert forall|x: Seq<char>| #[trigger]
                out.deep_view().contains(x) <==> x != text@ && all.take(i + 1).contains(x) by {
                lemma_push_contains(all.take(i as int), here, x);
            }
        }
        i += 1;
    }
    assert(all.take(texts.len() as int) =~= all);
    assert(set_of(out.deep_view()) =~= set_of(all).remove(text@));
    out
}

/// A list with one more text holds what it held before, and that text.
proof fn lemma_push_contains(texts: Seq<Seq<char>>, added: Seq<char>, x: Seq<char>)
    ensures
        texts.push(added).contains(x) <==> texts.contains(x) || x == added,
{
    let more = texts.push(added);
    if more.contains(x) {
        let i = choose|i: int| 0 <= i < more.len() && more[i] == x;
        if i < texts.len() {
            assert(texts[i] == x);
        }
    }
    if texts.contains(x) {
        let i = choose|i: int| 0 <= i < texts.len() && texts[i] == x;
        assert(more[i] == x);
    }
    if x == added {
        assert(more[texts.len() as int] == x);
    }
}

impl Workspace {
    #[verifier::type_invariant]
    spec fn well_formed(&self) -> bool {
        unique_ids(self.beads.deep_view()) && by_priority(self.beads.deep_view())
    }

    /// All that the workspace holds.
    pub closed spec fn contents(&self) -> Contents {
        Contents {
            claims: self.store@,
            worktrees: set_of(self.worktrees.deep_view()),
            beads: self.beads.deep_view(),
            merging: self.merging.deep_view(),
            unresolved: self.unresolved,
            conflicting: set_of(self.conflicting.deep_view()),
            worktrees_dir: self.worktrees_dir@,
        }
    }

    /// A workspace without claims, worktrees and beads, whose worktrees
    /// will lie below `worktrees_dir`.
    pub fn new(worktrees_dir: &str) -> (w: Workspace)
        ensures
            w.contents() == (Contents {
                claims: Seq::empty(),
                worktrees: Set::empty(),
                beads: Seq::empty(),
                merging: None,
                unresolved: false,
                conflicting: Set::empty(),
                worktrees_dir: worktrees_dir@,
            }),
            w@ == (World {
                claims: Seq::empty(),
                worktrees: Set::empty(),
                statuses: Map::empty(),
                merging: None,
                unresolved: false,
            }),
    {
        let worktrees: Vec<String> = Vec::new();
        let beads: Vec<BeadInfo> = Vec::new();
        let conflicting: Vec<String> = Vec::new();
        assert(set_of(worktrees.deep_view()) =~= Set::<Seq<char>>::empty());
        assert(set_of(conflicting.deep_view()) =~= Set::<Seq<char>>::empty());
        assert(beads.deep_view() =~= Seq::<BeadInfoView>::empty());
        assert(statuses_of(beads.deep_view()) =~= Map::<Seq<char>, Seq<char>>::empty());
        Workspace {
            worktrees_dir: worktrees_dir.to_string(),
            store: ClaimStore::new(),
            worktrees,
            beads,
            merging: None,
            unresolved: false,
            conflicting,
        }
    }

    fn bead_at(&self, bead_id: &str) -> (at: Option<usize>)
        ensures
            match at {
                Some(i) => i < self.beads.len() && self.beads[i as int].id@ == bead_id@ && knows(
                    self.beads.deep_view(),
                    bead_id@,
                ),
                None => !knows(self.beads.deep_view(), bead_id@),
            },
    {
        let mut i: usize = 0;
        while i < self.beads.len()
            invariant
                i <= self.beads.len(),
                forall|j: int| 0 <= j < i ==> (#[trigger] self.beads.deep_view()[j]).id != bead_id@,
            decreases self.beads.len() - i,
        {
            if same(self.beads[i].id.as_str(), bead_id) {
                assert(self.beads.deep_view()[i as int].id == bead_id@);
                return Some(i);
            }
            i += 1;
        }
        None
    }

    /// Lets the tracker know of `bead`, unless it knows a bead of that
    /// name: then nothing changes, and the answer is no.
    pub fn add_bead(&mut self, bead: BeadInfo) -> (added: bool)
        ensures
            added == !knows(old(self).contents().beads, bead.id@),
            added ==> final(self).contents() == (Contents {
                beads: placed(old(self).contents().beads, bead@),
                ..old(self).contents()
            }),
            !added ==> final(self).contents() == old(self).contents(),
            added == !old(self)@.statuses.contains_key(bead.id@),
            added ==> final(self)@ == (World {
                statuses: old(self)@.statuses.insert(bead.id@, bead.status@),
                ..old(self)@
            }),
            !added ==> final(self)@ == old(self)@,
    {
        proof {
            use_type_invariant(&*self);
        }
        match self.bead_at(bead.id.as_str()) {
            Some(_) => false,
            None => {
                let ghost before = self.beads.deep_view();
                let ghost added = bead@;
                let mut beads: Vec<BeadInfo> = Vec::new();
                std::mem::swap(&mut beads, &mut self.beads);
                let mut at: usize = 0;
                assert(before.skip(0) =~= before);
                while at < beads.len() && works_first(&beads[at], &bead)
                    invariant
                        at <= beads.len(),
                        before == beads.deep_view(),
                        added == bead@,
                        forall|j: int| 0 <= j < at ==> comes_first(#[trigger] before[j], added),
                        slot(before, added) == at + slot(before.skip(at as int), added),
                    decreases beads.len() - at,
                {
                    proof {
                        assert(before.skip(at as int)[0] == before[at as int]);
                        assert(before.skip(at as int).drop_first() =~= before.skip(at + 1));
                    }
                    at += 1;
                }
                proof {
                    if at < beads.len() {
                        assert(before.skip(at as int)[0] == before[at as int]);
                    }
                    assert(slot(before, added) == at);
                }
                beads.insert(at, bead);
                proof {
                    let after = beads.deep_view();
                    assert(after =~= before.insert(at as int, added));
                    assert(after == placed(before, added));
                    assert forall|i: int, j: int|
                        0 <= i < after.len() && 0 <= j < after.len() && i != j implies (
                    #[trigger] after[i]).id != (#[trigger] after[j]).id by {
                        let a = if i < at { i } else { i - 1 };
                        let b = if j < at { j } else { j - 1 };
                        if i != at {
                            assert(after[i] == before[a]);
                            assert(before[a].id == before[a].id);
                        }
                        if j != at {
                            assert(after[j] == before[b]);
                            assert(before[b].id == before[b].id);
                        }
                    }
                    assert forall|i: int, j: int| 0 <= i < j < after.len() implies comes_first(
                        after[i],
                        after[j],
                    ) by {
                        let a = if i < at { i } else { i - 1 };
                        let b = if j < at { j } else { j - 1 };
                        if j == at {
                            assert(after[i] == before[a]);
                        } else if i == at {
                            assert(after[j] == before[b]);
                            lemma_comes_first(before[at as int], added, before[b]);
                            lemma_comes_first(added, before[at as int], before[b]);
                            if b > at {
                                assert(comes_first(before[at as int], before[b]));
                            }
                        } else {
                            assert(after[i] == before[a] && after[j] == before[b]);
                        }
                    }
                    lemma_statuses_inserted(before, at as int, added);
                }
                self.beads = beads;
                true
            },
        }
    }

    /// Makes the merge of the bead `bead_id` stop on conflicts from now on.
    pub fn set_conflicting(&mut self, bead_id: &str)
        ensures
            final(self).contents() == (Contents {
                conflicting: old(self).contents().conflicting.insert(bead_id@),
                ..old(self).contents()
            }),
            final(self)@ == old(self)@,
    {
        proof {
            use_type_invariant(&*self);
        }
        let ghost before = self.conflicting.deep_view();
        let mut conflicting: Vec<String> = Vec::new();
        std::mem::swap(&mut conflicting, &mut self.conflicting);
        conflicting.push(bead_id.to_string());
        proof {
            assert(conflicting.deep_view() =~= before.push(bead_id@));
            assert forall|x: Seq<char>|
                set_of(before.push(bead_id@)).contains(x) <==> set_of(before).insert(
                    bead_id@,
                ).contains(x) by {
                lemma_push_contains(before, bead_id@, x);
            }
            assert(set_of(before.push(bead_id@)) =~= set_of(before).insert(bead_id@));
        }
        self.conflicting = conflicting;
    }

    /// Marks every conflict of the merge in progress as resolved and
    /// staged.
    pub fn resolve_conflicts(&mut self)
        ensures
            final(self).contents() == (Contents { unresolved: false, ..old(self).contents() }),
            final(self)@ == (World { unresolved: false, ..old(self)@ }),
    {
        proof {
            use_type_invariant(&*self);
        }
        self.unresolved = false;
    }

    /// Whether the bead `bead_id` has a worktree.
    pub fn has_worktree(&self, bead_id: &str) -> (r: bool)
        ensures
            r == self@.worktrees.contains(bead_id@),
    {
        holds(&self.worktrees, bead_id)
    }

    /// Whether the bead `bead_id` has a claim.
    pub fn has_claim(&self, bead_id: &str) -> (r: bool)
        ensures
            r == crate::claims::has_claim(self@.claims, bead_id@),
    {
        self.store.contains(bead_id)
    }

    /// The status that the tracker holds for the bead `bead_id`.
    pub fn status_of(&self, bead_id: &str) -> (status: Option<String>)
        ensures
            match status {
                Some(s) => self@.statuses.contains_key(bead_id@) && self@.statuses[bead_id@]
                    == s@,
                None => !self@.statuses.contains_key(bead_id@),
            },
    {
        proof {
            use_type_invariant(self);
        }
        match self.bead_at(bead_id) {
            Some(i) => {
                proof {
                    lemma_position(self.beads.deep_view(), i as int);
                }
                Some(self.beads[i].status.clone())
            },
            None => None,
        }
    }

    /// Whether a merge is in progress.
    pub fn is_merging(&self) -> (r: bool)
        ensures
            r == (self@.merging is Some),
    {
        self.merging.is_some()
    }

    /// The beads whose status is `open`, in the order in which they are to
    /// be worked on.
    fn ready(&self) -> (out: Vec<BeadInfo>)
        ensures
            out.deep_view() == open_beads(self.contents().beads),
            by_priority(out.deep_view()),
            forall|i: int|
                0 <= i < out.deep_view().len() ==> self@.statuses.contains_key(
                    (#[trigger] out.deep_view()[i]).id,
                ) && self@.statuses[out.deep_view()[i].id] == "open"@,
    {
        proof {
            use_type_invariant(self);
        }
        let ghost all = self.beads.deep_view();
        let ghost mut from: Seq<int> = Seq::empty();
        let mut out: Vec<BeadInfo> = Vec::new();
        let mut i: usize = 0;
        proof {
            reveal(Seq::filter);
            assert(all.take(0) =~= Seq::<BeadInfoView>::empty());
            assert(out.deep_view() =~= open_beads(all.take(0)));
        }
        while i < self.beads.len()
            invariant
                i <= self.beads.len(),
                all == self.beads.deep_view(),
                unique_ids(all),
                by_priority(all),
                out.deep_view() == open_beads(all.take(i as int)),
                from.len() == out.deep_view().len(),
                forall|j: int|
                    0 <= j < from.len() ==> 0 <= #[trigger] from[j] < i && out.deep_view()[j]
                        == all[from[j]],
                forall|a: int, b: int| 0 <= a < b < from.len() ==> from[a] < from[b],
                forall|j: int|
                    0 <= j < out.deep_view().len() ==> knows(
                        all,
                        (#[trigger] out.deep_view()[j]).id,
                    ) && statuses_of(all)[out.deep_view()[j].id] == "open"@,
            decreases self.beads.len() - i,
        {
            proof {
                reveal(Seq::filter);
                assert(all.take(i + 1).drop_last() =~= all.take(i as int));
                assert(all.take(i + 1).last() == all[i as int]);
                assert(all[i as int].status == self.beads[i as int].status@);
            }
            if same(self.beads[i].status.as_str(), "open") {
                let ghost before = out.deep_view();
                out.push(self.beads[i].clone());
                proof {
                    assert(out.deep_view() =~= before.push(all[i as int]));
                    from = from.push(i as int);
                    lemma_position(all, i as int);
                }
            }
            i += 1;
        }
        proof {
            assert(all.take(self.beads.len() as int) =~= all);
            let listed = out.deep_view();
            assert forall|a: int, b: int| 0 <= a < b < listed.len() implies comes_first(
                listed[a],
                listed[b],
            ) by {
                assert(listed[a] == all[from[a]] && listed[b] == all[from[b]]);
            }
        }
        out
    }

    /// Carries out `action` and reports what came of it: the reply and the
    /// new contents are those that [`reply_of`] and [`contents_after`] give
    /// for the contents before, and they are a way in which the model lets
    /// the outside world answer.
    pub fn perform(&mut self, action: &Action) -> (reply: Reply)
        ensures
            reply@ == reply_of(old(self).contents(), action@),
            final(self).contents() == contents_after(old(self).contents(), action@),
            answers(old(self)@, action@, reply@, final(self)@),
    {
        proof {
            use_type_invariant(&*self);
        }
        let ghost held = self.contents();
        match action {
            Action::FindClaim { bead_id } => {
                let found = self.store.find(bead_id.as_str());
                Reply::Claim(found)
            },
            Action::InsertClaim { claim } => {
                let mut store = ClaimStore::new();
                std::mem::swap(&mut store, &mut self.store);
                let result = store.insert(claim.clone());
                self.store = store;
                match result {
                    Ok(()) => Reply::Done,
                    Err(StoreError::Conflict(owner)) => Reply::Conflict(owner),
                    Err(StoreError::Database(m)) => Reply::Failed(m),
                }
            },
            Action::DeleteClaim { bead_id } => {
                let mut store = ClaimStore::new();
                std::mem::swap(&mut store, &mut self.store);
                store.delete(bead_id.as_str());
                self.store = store;
                Reply::Done
            },
            Action::ListClaims => Reply::Claims(self.store.list_all()),
            Action::GetBead { bead_id } => match self.bead_at(bead_id.as_str()) {
                Some(i) => {
                    proof {
                        lemma_position(self.beads.deep_view(), i as int);
                    }
                    Reply::Bead(self.beads[i].clone())
                },
                None => Reply::Failed(String::from_str("Bead not found: ").concat(bead_id.as_str())),
            },
            Action::IsBeadReady { bead_id } => match self.bead_at(bead_id.as_str()) {
                Some(i) => {
                    proof {
                        lemma_position(self.beads.deep_view(), i as int);
                    }
                    Reply::Flag(same(self.beads[i].status.as_str(), "open"))
                },
                None => Reply::Flag(false),
            },
            Action::GetReadyBeads => Reply::Beads(self.ready()),
            Action::UpdateBeadStatus { bead_id, status } => match self.bead_at(bead_id.as_str()) {
                Some(i) => {
                    let ghost before = self.beads.deep_view();
                    assert(by_priority(before));
                    let mut beads: Vec<BeadInfo> = Vec::new();
                    std::mem::swap(&mut beads, &mut self.beads);
                    let old_bead = &beads[i];
                    let updated = BeadInfo {
                        id: old_bead.id.clone(),
                        title: old_bead.title.clone(),
                        description: old_bead.description.clone(),
                        priority: old_bead.priority.clone(),
                        status: status.clone(),
                    };
                    beads.set(i, updated);
                    proof {
                        let after = beads.deep_view();
                        assert(after =~= before.update(
                            i as int,
                            BeadInfoView { status: status@, ..before[i as int] },
                        ));
                        lemma_statuses_updated(before, i as int, status@);
                        assert forall|a: int, b: int| 0 <= a < b < after.len() implies comes_first(
                            after[a],
                            after[b],
                        ) by {
                            assert(comes_first(before[a], before[b]));
                            assert(after[a].id == before[a].id && after[a].priority
                                == before[a].priority);
                            assert(after[b].id == before[b].id && after[b].priority
                                == before[b].priority);
                        }
                    }
                    self.beads = beads;
                    Reply::Done
                },
                None => Reply::Failed(String::from_str("Bead not found: ").concat(bead_id.as_str())),
            },
            Action::CreateWorktree { bead_id } => {
                if holds(&self.worktrees, bead_id.as_str()) {
                    assert(held.worktrees.insert(bead_id@) =~= held.worktrees);
                    Reply::Conflict(
                        String::from_str("Worktree already exists: ").concat(bead_id.as_str()),
                    )
                } else {
                    let ghost before = self.worktrees.deep_view();
                    let mut worktrees: Vec<String> = Vec::new();
                    std::mem::swap(&mut worktrees, &mut self.worktrees);
                    worktrees.push(bead_id.clone());
                    proof {
                        assert(worktrees.deep_view() =~= before.push(bead_id@));
                        assert forall|x: Seq<char>|
                            set_of(before.push(bead_id@)).contains(x) <==> set_of(before).insert(
                                bead_id@,
                            ).contains(x) by {
                            lemma_push_contains(before, bead_id@, x);
                        }
                        assert(set_of(before.push(bead_id@)) =~= set_of(before).insert(bead_id@));
                    }
                    self.worktrees = worktrees;
                    Reply::Worktree(
                        WorktreeInfo {
                            bead_id: bead_id.clone(),
                            path: join_path(self.worktrees_dir.as_str(), bead_id.as_str()),
                            branch: branch_name(bead_id.as_str()),
                            head_commit: String::from_str(
                                "0000000000000000000000000000000000000000",
                            ),
                        },
                    )
                }
            },
            Action::RemoveWorktree { bead_id, force } => {
                if holds(&self.worktrees, bead_id.as_str()) {
                    let kept = without_text(&self.worktrees, bead_id.as_str());
                    self.worktrees = kept;
                    Reply::Done
                } else {
                    assert(held.worktrees.remove(bead_id@) =~= held.worktrees);
                    Reply::Failed(
                        String::from_str("Worktree not found: ").concat(bead_id.as_str()),
                    )
                }
            },
            Action::MergeWorktree { bead_id, target } => {
                if holds(&self.conflicting, bead_id.as_str()) {
                    self.merging = Some(branch_name(bead_id.as_str()));
                    self.unresolved = true;
                    Reply::Conflict(String::from_str("CONFLICT (content)"))
                } else {
                    Reply::Done
                }
            },
            Action::IsInMergeConflict => Reply::Flag(self.merging.is_some()),
            Action::GetMergeBranch => Reply::Branch(self.merging.clone()),
            Action::HasUnresolvedConflicts => Reply::Flag(self.unresolved),
            Action::AbortMerge => {
                self.merging = None;
                self.unresolved = false;
                Reply::Done
            },
            Action::CompleteMerge => {
                if self.unresolved {
                    Reply::Conflict(String::from_str("unresolved conflicts remain"))
                } else {
                    self.merging = None;
                    Reply::Done
                }
            },
        }
    }
}

/// In a list of beads with different identifiers, the position of the
/// identifier of the bead at `i` is `i`.
proof fn lemma_position(beads: Seq<BeadInfoView>, i: int)
    requires
        unique_ids(beads),
        0 <= i < beads.len(),
    ensures
        knows(beads, beads[i].id),
        position_of(beads, beads[i].id) == i,
        statuses_of(beads).contains_key(beads[i].id),
        statuses_of(beads)[beads[i].id] == beads[i].status,
{
    assert(beads[i].id == beads[i].id);
    let p = position_of(beads, beads[i].id);
    if p != i {
        assert(beads[p].id != beads[i].id);
    }
}

/// The statuses of a list of beads with one more bead, of an identifier
/// that the list did not know, at the position `at`.
proof fn lemma_statuses_inserted(beads: Seq<BeadInfoView>, at: int, added: BeadInfoView)
    requires
        unique_ids(beads),
        unique_ids(beads.insert(at, added)),
        0 <= at <= beads.len(),
        !knows(beads, added.id),
    ensures
        statuses_of(beads.insert(at, added)) == statuses_of(beads).insert(added.id, added.status),
{
    let more = beads.insert(at, added);
    assert forall|id: Seq<char>| knows(more, id) <==> knows(beads, id) || id == added.id by {
        if knows(more, id) {
            let i = choose|i: int| 0 <= i < more.len() && (#[trigger] more[i]).id == id;
            if i < at {
                assert(beads[i].id == id);
            } else if i > at {
                assert(beads[i - 1].id == id);
            }
        }
        if knows(beads, id) {
            let i = choose|i: int| 0 <= i < beads.len() && (#[trigger] beads[i]).id == id;
            if i < at {
                assert(more[i].id == id);
            } else {
                assert(more[i + 1].id == id);
            }
        }
        if id == added.id {
            assert(more[at].id == id);
        }
    }
    assert forall|id: Seq<char>| knows(more, id) implies #[trigger] statuses_of(more)[id]
        == statuses_of(beads).insert(added.id, added.status)[id] by {
        let p = position_of(more, id);
        lemma_position(more, p);
        if id != added.id {
            let q = if p < at { p } else { p - 1 };
            assert(more[p] == beads[q]);
            lemma_position(beads, q);
        } else {
            lemma_position(more, at);
        }
    }
    assert(statuses_of(more) =~= statuses_of(beads).insert(added.id, added.status));
}

/// The statuses of a list of beads in which the bead at `i` has been given
/// the status `status`.
proof fn lemma_statuses_updated(beads: Seq<BeadInfoView>, i: int, status: Seq<char>)
    requires
        unique_ids(beads),
        0 <= i < beads.len(),
    ensures
        unique_ids(beads.update(i, BeadInfoView { status, ..beads[i] })),
        statuses_of(beads.update(i, BeadInfoView { status, ..beads[i] })) == statuses_of(
            beads,
        ).insert(beads[i].id, status),
{
    let after = beads.update(i, BeadInfoView { status, ..beads[i] });
    assert forall|a: int, b: int|
        0 <= a < after.len() && 0 <= b < after.len() && a != b implies (#[trigger] after[a]).id != (
    #[trigger] after[b]).id by {
        assert(after[a].id == beads[a].id && after[b].id == beads[b].id);
    }
    assert forall|id: Seq<char>| knows(after, id) <==> knows(beads, id) by {
        if knows(after, id) {
            let k = choose|k: int| 0 <= k < after.len() && (#[trigger] after[k]).id == id;
            assert(beads[k].id == id);
        }
        if knows(beads, id) {
            let k = choose|k: int| 0 <= k < beads.len() && (#[trigger] beads[k]).id == id;
            assert(after[k].id == id);
        }
    }
    lemma_position(beads, i);
    assert forall|id: Seq<char>| knows(after, id) implies #[trigger] statuses_of(after)[id]
        == statuses_of(beads).insert(beads[i].id, status)[id] by {
        let p = position_of(after, id);
        lemma_position(after, p);
        assert(after[p].id == beads[p].id);
        lemma_position(beads, p);
    }
    assert(statuses_of(after) =~= statuses_of(beads).insert(beads[i].id, status));
}

} // verus!
