//! What the lifecycle operations achieve, proved of every run in the world
//! of [`crate::model`].

use crate::beads::{by_priority, comes_first, BeadInfoView};
use crate::claims::{
    has_claim, is_stale, lemma_stale_claims, lemma_without_added, lemma_without_clears,
    stale_claims, unique_beads, without, ClaimView,
};
use crate::db::claims::{claim_of, row_of};
use crate::model::{answered, answers, ends, run, World};
use crate::protocol::{error_of, ActionView, ErrorKind, ReplyView, StepView};
use crate::tools::abort::{abort_plan, AbortOutputView};
use crate::tools::claim::{claim_plan, ClaimOutputView};
use crate::tools::next::{next_acquire_plan, next_plan, next_scan_plan, NextOutputView};
use crate::tools::release::{release_plan, ReleaseOutputView};
use crate::tools::resolve::{resolve_plan, resolve_refused, ResolveOutputView};
use crate::tools::stale::{beads_of, stale_plan, StaleOutputView};
use crate::tools::{acquire_plan, claim_for, in_progress};
use crate::worktree::{branch_of, path_in};
use vstd::prelude::*;

verus! {

/// A release as `done` whose merge stops on conflicts is refused as
/// `MergeConflict` and leaves the claim in place: the claim table, the
/// worktrees and the tracker are as before, and the bead's branch is the
/// merge in progress, so that asking version control whether a merge is in
/// progress is answered with yes.
pub proof fn law_conflict_keeps_claim(
    bead_id: Seq<char>,
    worlds: Seq<World>,
    replies: Seq<ReplyView>,
    result: StepView<ReleaseOutputView>,
)
    requires
        ends(|r: Seq<ReplyView>| release_plan(bead_id, "done"@, r), worlds, replies, result),
        replies.len() >= 2,
        replies[1] is Conflict,
    ensures
        replies.len() == 2,
        has_claim(worlds.last().claims, bead_id),
        worlds.last().claims == worlds[0].claims,
        worlds.last().worktrees == worlds[0].worktrees,
        worlds.last().statuses == worlds[0].statuses,
        worlds.last().merging == Some(branch_of(bead_id)),
        forall|reply: ReplyView, after: World|
            answers(worlds.last(), ActionView::IsInMergeConflict, reply, after) && !(reply
                is Failed) ==> reply == ReplyView::Flag(true),
        result matches StepView::Finish(Ok(out)) && !out.success && !out.merged && out.error
            == Some(error_of(ErrorKind::MergeConflict, bead_id)),
{
    let plan = |r: Seq<ReplyView>| release_plan(bead_id, "done"@, r);
    assert(answered(plan, worlds, replies, 0));
    assert(answered(plan, worlds, replies, 1));
    assert(replies.take(0).len() == 0);
    assert(replies.take(1)[0] == replies[0]);
    if replies.len() > 2 {
        assert(answered(plan, worlds, replies, 2));
        assert(replies.take(2)[0] == replies[0]);
        assert(replies.take(2).skip(1)[0] == replies[1]);
    }
    assert(replies.skip(1)[0] == replies[1]);
}

/// While a bead is claimed no second claim on it goes through: a claim on a
/// bead that has one changes nothing, and as soon as the claim table answers
/// it is refused as `AlreadyClaimed`, with the agent that owns the bead.
pub proof fn law_claimed_bead_is_refused(
    bead_id: Seq<char>,
    agent_id: Seq<char>,
    force: bool,
    now: int,
    worlds: Seq<World>,
    replies: Seq<ReplyView>,
    result: StepView<ClaimOutputView>,
)
    requires
        ends(
            |r: Seq<ReplyView>| claim_plan(bead_id, agent_id, force, now, r),
            worlds,
            replies,
            result,
        ),
        has_claim(worlds[0].claims, bead_id),
    ensures
        replies.len() == 1,
        worlds.last() == worlds[0],
        match result {
            StepView::Finish(Ok(out)) => !out.success && out.worktree_path is None && (
            out.error matches Some(e) && e.kind == ErrorKind::AlreadyClaimed && exists|
                c: ClaimView,
            |
                worlds[0].claims.contains(c) && c.bead_id == bead_id && c.agent_id == e.detail),
            StepView::Finish(Err(e)) => e.kind == ErrorKind::StoreFailure && replies[0] is Failed,
            StepView::Ask(_) => false,
        },
{
    let plan = |r: Seq<ReplyView>| claim_plan(bead_id, agent_id, force, now, r);
    assert(replies.take(0).len() == 0);
    if replies.len() == 0 {
        assert(replies =~= replies.take(0));
    } else {
        assert(answered(plan, worlds, replies, 0));
        assert(replies.take(1)[0] == replies[0]);
        if replies.len() > 1 {
            assert(answered(plan, worlds, replies, 1));
        }
    }
}

/// What the prefixes of a list of replies hold, and what is left of them
/// once replies at their front are skipped.
proof fn lemma_prefixes(replies: Seq<ReplyView>)
    ensures
        replies.take(replies.len() as int) == replies,
        forall|i: int, j: int|
            0 <= j < i <= replies.len() ==> #[trigger] replies.take(i)[j] == replies[j],
        forall|i: int, s: int, j: int|
            0 <= s && 0 <= j && s + j < i <= replies.len() ==> (#[trigger] replies.take(i).skip(
                s,
            )[j]) == replies[s + j],
        forall|i: int, s: int|
            0 <= s <= i <= replies.len() ==> (#[trigger] replies.take(i).skip(s)).len() == i - s,
        forall|i: int, a: int, b: int|
            0 <= a && 0 <= b && a + b <= i <= replies.len() ==> (#[trigger] replies.take(i).skip(
                a,
            ).skip(b)) == replies.take(i).skip(a + b),
        forall|a: int, b: int|
            0 <= a && 0 <= b && a + b <= replies.len() ==> (#[trigger] replies.skip(a).skip(b))
                == replies.skip(a + b),
        replies.skip(0) == replies,
        forall|i: int|
            0 <= i <= replies.len() ==> (#[trigger] replies.take(i).skip(0)) == replies.take(i),
{
    assert(replies.take(replies.len() as int) =~= replies);
    assert(replies.skip(0) =~= replies);
    assert forall|i: int, a: int, b: int|
        0 <= a && 0 <= b && a + b <= i <= replies.len() implies (#[trigger] replies.take(i).skip(
        a,
    ).skip(b)) == replies.take(i).skip(a + b) by {
        assert(replies.take(i).skip(a).skip(b) =~= replies.take(i).skip(a + b));
    }
    assert forall|a: int, b: int|
        0 <= a && 0 <= b && a + b <= replies.len() implies (#[trigger] replies.skip(a).skip(b))
        == replies.skip(a + b) by {
        assert(replies.skip(a).skip(b) =~= replies.skip(a + b));
    }
    assert forall|i: int| 0 <= i <= replies.len() implies (#[trigger] replies.take(i).skip(0))
        == replies.take(i) by {
        assert(replies.take(i).skip(0) =~= replies.take(i));
    }
}

/// A claim that goes through takes hold everywhere: the bead had no claim
/// and no worktree before; afterwards the claim table holds the one claim of
/// the agent on the bead, the worktree and branch exist, and the tracker
/// says `in_progress`.
pub proof fn law_claim_takes_hold(
    bead_id: Seq<char>,
    agent_id: Seq<char>,
    force: bool,
    now: int,
    worlds: Seq<World>,
    replies: Seq<ReplyView>,
    result: StepView<ClaimOutputView>,
)
    requires
        ends(
            |r: Seq<ReplyView>| claim_plan(bead_id, agent_id, force, now, r),
            worlds,
            replies,
            result,
        ),
        result matches StepView::Finish(Ok(out)) && out.success,
    ensures
        !has_claim(worlds[0].claims, bead_id),
        !worlds[0].worktrees.contains(bead_id),
        worlds.last().worktrees == worlds[0].worktrees.insert(bead_id),
        worlds.last().statuses == worlds[0].statuses.insert(bead_id, in_progress()),
        worlds.last().merging == worlds[0].merging,
        exists|claim: ClaimView|
            worlds.last().claims == worlds[0].claims.push(claim) && claim.bead_id == bead_id
                && claim.agent_id == agent_id && claim.claimed_at == now && claim.branch_name
                == branch_of(bead_id),
        result matches StepView::Finish(Ok(out)) && out.branch == Some(branch_of(bead_id)),
{
    let plan = |r: Seq<ReplyView>| claim_plan(bead_id, agent_id, force, now, r);
    let n = replies.len() as int;
    lemma_prefixes(replies);
    let p: int = if force { 2 } else { 3 };
    assert(n >= p + 3 && replies[p] is Worktree);
    assert(answered(plan, worlds, replies, 0));
    assert(answered(plan, worlds, replies, 1));
    assert(answered(plan, worlds, replies, 2));
    assert(answered(plan, worlds, replies, 3));
    assert(answered(plan, worlds, replies, 4));
    if !force {
        assert(answered(plan, worlds, replies, 5));
    }
    if n > p + 3 {
        assert(answered(plan, worlds, replies, p + 3));
    }
    let made = replies[p]->Worktree_0;
    let claim = claim_for(bead_id, agent_id, made, now);
    assert(worlds.last().claims == worlds[0].claims.push(claim));
}

/// Where the claim table turns the insertion of a claim down, or fails to
/// insert it, the worktree that was created for it is removed again; once
/// that has been done, the world is as it was before the claim. The claim
/// ends with an error, never with a grant.
pub proof fn law_claim_undoes_worktree(
    bead_id: Seq<char>,
    agent_id: Seq<char>,
    force: bool,
    now: int,
    worlds: Seq<World>,
    replies: Seq<ReplyView>,
    result: StepView<ClaimOutputView>,
    at: int,
)
    requires
        ends(
            |r: Seq<ReplyView>| claim_plan(bead_id, agent_id, force, now, r),
            worlds,
            replies,
            result,
        ),
        0 <= at < replies.len(),
        claim_plan(bead_id, agent_id, force, now, replies.take(at)) matches StepView::Ask(
            ActionView::InsertClaim { claim },
        ),
        replies[at] is Failed || replies[at] is Conflict,
        at + 1 < replies.len() ==> replies[at + 1] is Done,
    ensures
        worlds.last() == worlds[0],
        !worlds.last().worktrees.contains(bead_id),
        result matches StepView::Finish(Err(e)) && (e.kind == ErrorKind::StoreFailure || e.kind
            == ErrorKind::AlreadyClaimed),
        replies[at] is Failed ==> replies.len() == at + 2,
        replies[at] is Conflict ==> replies.len() == at + 3,
{
    let plan = |r: Seq<ReplyView>| claim_plan(bead_id, agent_id, force, now, r);
    let n = replies.len() as int;
    lemma_prefixes(replies);
    let p: int = if force { 2 } else { 3 };
    assert(answered(plan, worlds, replies, 0));
    assert(at >= 1);
    assert(answered(plan, worlds, replies, 1));
    assert(at >= 2);
    assert(answered(plan, worlds, replies, 2));
    assert(at >= 3);
    if !force {
        assert(answered(plan, worlds, replies, 3));
    }
    assert(at == p + 1);
    assert(answered(plan, worlds, replies, at));
    assert(n > at + 1);
    assert(answered(plan, worlds, replies, at + 1));
    if n > at + 2 {
        assert(answered(plan, worlds, replies, at + 2));
    }
    if n > at + 3 {
        assert(answered(plan, worlds, replies, at + 3));
    }
    assert(worlds.last().worktrees =~= worlds[0].worktrees);
}

/// A claim is all or nothing. Where the tracker fails to take the status
/// `in_progress` after the worktree was created and the claim inserted, the
/// claim is deleted and the worktree removed again; once both have been
/// done, the world is as it was before the claim: no claim row, no worktree,
/// no branch. The claim ends with the tracker's failure.
pub proof fn law_claim_rolls_back(
    bead_id: Seq<char>,
    agent_id: Seq<char>,
    force: bool,
    now: int,
    worlds: Seq<World>,
    replies: Seq<ReplyView>,
    result: StepView<ClaimOutputView>,
    at: int,
)
    requires
        ends(
            |r: Seq<ReplyView>| claim_plan(bead_id, agent_id, force, now, r),
            worlds,
            replies,
            result,
        ),
        0 <= at < replies.len(),
        claim_plan(bead_id, agent_id, force, now, replies.take(at)) == StepView::<
            ClaimOutputView,
        >::Ask(ActionView::UpdateBeadStatus { bead_id, status: in_progress() }),
        replies[at] is Failed,
        at + 2 < replies.len() ==> replies[at + 1] is Done && replies[at + 2] is Done,
    ensures
        replies.len() == at + 3,
        worlds.last() == worlds[0],
        !has_claim(worlds.last().claims, bead_id),
        !worlds.last().worktrees.contains(bead_id),
        result matches StepView::Finish(Err(e)) && e.kind == ErrorKind::TrackerFailure,
{
    let plan = |r: Seq<ReplyView>| claim_plan(bead_id, agent_id, force, now, r);
    let n = replies.len() as int;
    lemma_prefixes(replies);
    let p: int = if force { 2 } else { 3 };
    assert(answered(plan, worlds, replies, 0));
    assert(at >= 1);
    assert(answered(plan, worlds, replies, 1));
    assert(at >= 2);
    assert(answered(plan, worlds, replies, 2));
    assert(at >= 3);
    assert(answered(plan, worlds, replies, 3));
    assert(at >= 4);
    assert(at == p + 2);
    assert(answered(plan, worlds, replies, at));
    assert(n > at + 1);
    assert(answered(plan, worlds, replies, at + 1));
    assert(n > at + 2);
    assert(answered(plan, worlds, replies, at + 2));
    if n > at + 3 {
        assert(answered(plan, worlds, replies, at + 3));
    }
    if !force {
        assert(answered(plan, worlds, replies, 4));
    }
    let made = replies[p]->Worktree_0;
    let claim = claim_for(bead_id, agent_id, made, now);
    lemma_without_added(worlds[0].claims, claim);
    assert(worlds.last().worktrees =~= worlds[0].worktrees);
}

/// An abort never touches the claim table, the worktrees or the tracker.
/// It ends the merge in progress only where the bead has a claim and the
/// merge is the bead's own; an abort that is refused, or that fails, changes
/// nothing at all.
pub proof fn law_abort_touches_only_the_merge(
    bead_id: Seq<char>,
    worlds: Seq<World>,
    replies: Seq<ReplyView>,
    result: StepView<AbortOutputView>,
)
    requires
        ends(|r: Seq<ReplyView>| abort_plan(bead_id, r), worlds, replies, result),
    ensures
        worlds.last().claims == worlds[0].claims,
        worlds.last().worktrees == worlds[0].worktrees,
        worlds.last().statuses == worlds[0].statuses,
        match result {
            StepView::Finish(Ok(out)) => if out.success {
                &&& has_claim(worlds[0].claims, bead_id)
                &&& worlds[0].merging == Some(branch_of(bead_id))
                &&& worlds.last().merging is None
                &&& !worlds.last().unresolved
            } else {
                worlds.last() == worlds[0]
            },
            StepView::Finish(Err(_)) => worlds.last() == worlds[0],
            StepView::Ask(_) => false,
        },
{
    let plan = |r: Seq<ReplyView>| abort_plan(bead_id, r);
    let n = replies.len() as int;
    lemma_prefixes(replies);
    if n > 0 {
        assert(answered(plan, worlds, replies, 0));
    }
    if n > 1 {
        assert(answered(plan, worlds, replies, 1));
    }
    if n > 2 {
        assert(answered(plan, worlds, replies, 2));
    }
    if n > 3 {
        assert(answered(plan, worlds, replies, 3));
    }
    if n > 4 {
        assert(answered(plan, worlds, replies, 4));
    }
}

/// After a release has left the bead's merge in conflict, an abort restores
/// the state before the merge: unless the claim table or version control
/// fails, it goes through; then no merge is in progress, so that asking
/// version control whether one is gets the answer no. The worktree is
/// untouched and the claim still exists.
pub proof fn law_abort_restores(
    bead_id: Seq<char>,
    worlds: Seq<World>,
    replies: Seq<ReplyView>,
    result: StepView<AbortOutputView>,
)
    requires
        ends(|r: Seq<ReplyView>| abort_plan(bead_id, r), worlds, replies, result),
        has_claim(worlds[0].claims, bead_id),
        worlds[0].merging == Some(branch_of(bead_id)),
    ensures
        has_claim(worlds.last().claims, bead_id),
        worlds.last().claims == worlds[0].claims,
        worlds.last().worktrees == worlds[0].worktrees,
        match result {
            StepView::Finish(Ok(out)) => out.success && out.error is None && worlds.last().merging
                is None && forall|reply: ReplyView, after: World|
                answers(worlds.last(), ActionView::IsInMergeConflict, reply, after) && !(reply
                    is Failed) ==> reply == ReplyView::Flag(false),
            StepView::Finish(Err(e)) => (e.kind == ErrorKind::StoreFailure || e.kind
                == ErrorKind::VcsFailure) && worlds.last() == worlds[0] && exists|i: int|
                0 <= i < replies.len() && replies[i] is Failed,
            StepView::Ask(_) => false,
        },
{
    let plan = |r: Seq<ReplyView>| abort_plan(bead_id, r);
    let n = replies.len() as int;
    lemma_prefixes(replies);
    if n > 0 {
        assert(answered(plan, worlds, replies, 0));
    }
    if n > 1 {
        assert(answered(plan, worlds, replies, 1));
    }
    if n > 2 {
        assert(answered(plan, worlds, replies, 2));
    }
    if n > 3 {
        assert(answered(plan, worlds, replies, 3));
    }
    if n > 4 {
        assert(answered(plan, worlds, replies, 4));
    }
}

/// A resolve needs clean staging. While paths are unmerged a resolve changes
/// nothing: the claim is not deleted, the worktree is not removed, and the
/// merge stays in progress. Where the bead has a claim, the merge is its
/// own, and every question is answered, the resolve is refused as
/// `UnresolvedConflicts`.
pub proof fn law_resolve_needs_clean_staging(
    bead_id: Seq<char>,
    worlds: Seq<World>,
    replies: Seq<ReplyView>,
    result: StepView<ResolveOutputView>,
)
    requires
        ends(|r: Seq<ReplyView>| resolve_plan(bead_id, r), worlds, replies, result),
        worlds[0].unresolved,
    ensures
        worlds.last() == worlds[0],
        result matches StepView::Finish(Ok(out)) ==> !out.success && !out.merged,
        has_claim(worlds[0].claims, bead_id) && worlds[0].merging == Some(branch_of(bead_id)) && (
        forall|i: int| 0 <= i < replies.len() ==> !(#[trigger] replies[i] is Failed)) ==> result
            == resolve_refused(bead_id, ErrorKind::UnresolvedConflicts, bead_id),
{
    let plan = |r: Seq<ReplyView>| resolve_plan(bead_id, r);
    let n = replies.len() as int;
    lemma_prefixes(replies);
    if n > 0 {
        assert(answered(plan, worlds, replies, 0));
    }
    if n > 1 {
        assert(answered(plan, worlds, replies, 1));
    }
    if n > 2 {
        assert(answered(plan, worlds, replies, 2));
    }
    if n > 3 {
        assert(answered(plan, worlds, replies, 3));
    }
    if n > 4 {
        assert(answered(plan, worlds, replies, 4));
    }
    if n > 5 {
        assert(answered(plan, worlds, replies, 5));
    }
}

/// A release that goes through lets the bead go: its claim is deleted and
/// no other claim is touched. As `done` or `failed` the worktree and branch
/// are gone; as `blocked` they stay. The tracker says `closed` after `done`,
/// `blocked` after `blocked`, and `open` after `failed`.
pub proof fn law_release_lets_go(
    bead_id: Seq<char>,
    status: Seq<char>,
    worlds: Seq<World>,
    replies: Seq<ReplyView>,
    result: StepView<ReleaseOutputView>,
)
    requires
        ends(|r: Seq<ReplyView>| release_plan(bead_id, status, r), worlds, replies, result),
        result matches StepView::Finish(Ok(out)) && out.success,
    ensures
        has_claim(worlds[0].claims, bead_id),
        !has_claim(worlds.last().claims, bead_id),
        worlds.last().claims == without(worlds[0].claims, bead_id),
        status == "done"@ || status == "blocked"@ || status == "failed"@,
        status == "blocked"@ ==> worlds.last().worktrees == worlds[0].worktrees
            && worlds.last().statuses == worlds[0].statuses.insert(bead_id, "blocked"@),
        status == "done"@ ==> worlds.last().worktrees == worlds[0].worktrees.remove(bead_id)
            && worlds.last().statuses == worlds[0].statuses.insert(bead_id, "closed"@),
        status == "failed"@ ==> worlds.last().worktrees == worlds[0].worktrees.remove(bead_id)
            && worlds.last().statuses == worlds[0].statuses.insert(bead_id, "open"@),
        result matches StepView::Finish(Ok(out)) && out.merged == (status == "done"@),
{
    let plan = |r: Seq<ReplyView>| release_plan(bead_id, status, r);
    let n = replies.len() as int;
    lemma_prefixes(replies);
    lemma_without_clears(worlds[0].claims, bead_id);
    lemma_statuses_differ();
    if n > 0 {
        assert(answered(plan, worlds, replies, 0));
    }
    if n > 1 {
        assert(answered(plan, worlds, replies, 1));
    }
    if n > 2 {
        assert(answered(plan, worlds, replies, 2));
    }
    if n > 3 {
        assert(answered(plan, worlds, replies, 3));
    }
    if n > 4 {
        assert(answered(plan, worlds, replies, 4));
    }
    if n > 5 {
        assert(answered(plan, worlds, replies, 5));
    }
}

/// A claim outlives every failure of its release: where a release ends
/// with an error, whatever failed, the claim on the bead is still in the
/// claim table, so that the release can be tried again or the claim
/// reclaimed as stale.
pub proof fn law_failed_release_keeps_claim(
    bead_id: Seq<char>,
    status: Seq<char>,
    worlds: Seq<World>,
    replies: Seq<ReplyView>,
    result: StepView<ReleaseOutputView>,
)
    requires
        ends(|r: Seq<ReplyView>| release_plan(bead_id, status, r), worlds, replies, result),
        result matches StepView::Finish(Err(_)),
        has_claim(worlds[0].claims, bead_id),
    ensures
        has_claim(worlds.last().claims, bead_id),
        worlds.last().claims == worlds[0].claims,
{
    let plan = |r: Seq<ReplyView>| release_plan(bead_id, status, r);
    let n = replies.len() as int;
    lemma_prefixes(replies);
    if n > 0 {
        assert(answered(plan, worlds, replies, 0));
    }
    if n > 1 {
        assert(answered(plan, worlds, replies, 1));
    }
    if n > 2 {
        assert(answered(plan, worlds, replies, 2));
    }
    if n > 3 {
        assert(answered(plan, worlds, replies, 3));
    }
    if n > 4 {
        assert(answered(plan, worlds, replies, 4));
    }
    if n > 5 {
        assert(answered(plan, worlds, replies, 5));
    }
}

/// A resolve that goes through completes the merge and lets the bead go:
/// paths were no longer unmerged; afterwards no merge is in progress, the
/// claim is deleted and no other claim is touched, the worktree is gone,
/// and the tracker says `closed`. A resolve that is refused changes
/// nothing, and a resolve that ends with an error leaves the claim in the
/// claim table.
pub proof fn law_resolve_lets_go(
    bead_id: Seq<char>,
    worlds: Seq<World>,
    replies: Seq<ReplyView>,
    result: StepView<ResolveOutputView>,
)
    requires
        ends(|r: Seq<ReplyView>| resolve_plan(bead_id, r), worlds, replies, result),
    ensures
        match result {
            StepView::Finish(Ok(out)) => if out.success {
                &&& out.merged
                &&& has_claim(worlds[0].claims, bead_id)
                &&& worlds[0].merging == Some(branch_of(bead_id))
                &&& !worlds[0].unresolved
                &&& worlds.last().merging is None
                &&& worlds.last().claims == without(worlds[0].claims, bead_id)
                &&& !has_claim(worlds.last().claims, bead_id)
                &&& worlds.last().worktrees == worlds[0].worktrees.remove(bead_id)
                &&& worlds.last().statuses == worlds[0].statuses.insert(bead_id, "closed"@)
            } else {
                worlds.last() == worlds[0]
            },
            StepView::Finish(Err(_)) => worlds.last().claims == worlds[0].claims,
            StepView::Ask(_) => false,
        },
{
    let plan = |r: Seq<ReplyView>| resolve_plan(bead_id, r);
    let n = replies.len() as int;
    lemma_prefixes(replies);
    lemma_without_clears(worlds[0].claims, bead_id);
    if n > 0 {
        assert(answered(plan, worlds, replies, 0));
    }
    if n > 1 {
        assert(answered(plan, worlds, replies, 1));
    }
    if n > 2 {
        assert(answered(plan, worlds, replies, 2));
    }
    if n > 3 {
        assert(answered(plan, worlds, replies, 3));
    }
    if n > 4 {
        assert(answered(plan, worlds, replies, 4));
    }
    if n > 5 {
        assert(answered(plan, worlds, replies, 5));
    }
    if n > 6 {
        assert(answered(plan, worlds, replies, 6));
    }
    if n > 7 {
        assert(answered(plan, worlds, replies, 7));
    }
    if n > 8 {
        assert(answered(plan, worlds, replies, 8));
    }
}

/// A release that is refused, for want of a claim, for an unknown status or
/// because the merge failed without a conflict, changes nothing.
pub proof fn law_refused_release_changes_nothing(
    bead_id: Seq<char>,
    status: Seq<char>,
    worlds: Seq<World>,
    replies: Seq<ReplyView>,
    result: StepView<ReleaseOutputView>,
)
    requires
        ends(|r: Seq<ReplyView>| release_plan(bead_id, status, r), worlds, replies, result),
        result matches StepView::Finish(Ok(out)) && !out.success && (out.error matches Some(e)
            && e.kind != ErrorKind::MergeConflict),
    ensures
        worlds.last() == worlds[0],
        !has_claim(worlds[0].claims, bead_id) ==> (result matches StepView::Finish(Ok(out))
            && out.error == Some(error_of(ErrorKind::NotFound, bead_id))),
{
    let plan = |r: Seq<ReplyView>| release_plan(bead_id, status, r);
    let n = replies.len() as int;
    lemma_prefixes(replies);
    if n > 0 {
        assert(answered(plan, worlds, replies, 0));
    }
    if n > 1 {
        assert(answered(plan, worlds, replies, 1));
    }
    if n > 2 {
        assert(answered(plan, worlds, replies, 2));
    }
}

/// The three statuses of a release are three different texts.
proof fn lemma_statuses_differ()
    ensures
        "done"@ != "blocked"@,
        "done"@ != "failed"@,
        "blocked"@ != "failed"@,
{
    reveal_strlit("done");
    reveal_strlit("blocked");
    reveal_strlit("failed");
    assert("done"@.len() == 4);
    assert("blocked"@.len() == 7);
    assert("failed"@.len() == 6);
}

/// Staleness has a sharp boundary at `now - minutes * 60000`: a claim made
/// one millisecond before it is stale, a claim made at it or one
/// millisecond after it is not; and the stale claims of a list are exactly
/// its claims made before the boundary.
pub proof fn law_stale_boundary(claims: Seq<ClaimView>, claim: ClaimView, now: int, minutes: int)
    ensures
        is_stale(now - minutes * 60000 - 1, now, minutes),
        !is_stale(now - minutes * 60000, now, minutes),
        !is_stale(now - minutes * 60000 + 1, now, minutes),
        claim.claimed_at == now - minutes * 60000 - 1 && claims.contains(claim) ==> stale_claims(
            claims,
            now,
            minutes,
        ).contains(claim),
        claim.claimed_at == now - minutes * 60000 + 1 ==> !stale_claims(
            claims,
            now,
            minutes,
        ).contains(claim),
        stale_claims(claims, now, minutes).contains(claim) <==> claims.contains(claim) && is_stale(
            claim.claimed_at,
            now,
            minutes,
        ),
{
    lemma_stale_claims(claims, now, minutes, claim);
}

/// No two claims are ever for one bead: whatever an operation asks for,
/// and however it is answered, a claim table without two claims for one
/// bead stays so. A bead is inserted only where it has no claim, and that
/// alone keeps two agents from owning one bead.
pub proof fn law_claims_stay_unique<V>(
    plan: spec_fn(Seq<ReplyView>) -> StepView<V>,
    worlds: Seq<World>,
    replies: Seq<ReplyView>,
    at: int,
)
    requires
        run(plan, worlds, replies),
        unique_beads(worlds[0].claims),
        0 <= at <= replies.len(),
    ensures
        unique_beads(worlds[at].claims),
    decreases at,
{
    if at > 0 {
        law_claims_stay_unique(plan, worlds, replies, at - 1);
        assert(answered(plan, worlds, replies, at - 1));
        let before = worlds[at - 1].claims;
        let after = worlds[at].claims;
        match plan(replies.take(at - 1)) {
            StepView::Ask(ActionView::InsertClaim { claim }) => {
                if replies[at - 1] is Done {
                    assert forall|i: int, j: int|
                        0 <= i < after.len() && 0 <= j < after.len() && i != j implies (
                    #[trigger] after[i]).bead_id != (#[trigger] after[j]).bead_id by {
                        if i < before.len() {
                            assert(before[i].bead_id == before[i].bead_id);
                        }
                        if j < before.len() {
                            assert(before[j].bead_id == before[j].bead_id);
                        }
                    }
                }
            },
            StepView::Ask(ActionView::DeleteClaim { bead_id }) => {
                if replies[at - 1] is Done {
                    lemma_without_keeps_unique(before, bead_id);
                }
            },
            _ => {},
        }
    }
}

/// Filtering a bead out of claims that never share a bead leaves claims
/// that never share a bead.
proof fn lemma_without_keeps_unique(claims: Seq<ClaimView>, bead_id: Seq<char>)
    requires
        unique_beads(claims),
    ensures
        unique_beads(without(claims, bead_id)),
        forall|c: ClaimView| without(claims, bead_id).contains(c) ==> claims.contains(c),
    decreases claims.len(),
{
    reveal(Seq::filter);
    if claims.len() > 0 {
        let front = claims.drop_last();
        assert forall|i: int, j: int|
            0 <= i < front.len() && 0 <= j < front.len() && i != j implies (
        #[trigger] front[i]).bead_id != (#[trigger] front[j]).bead_id by {
            assert(front[i] == claims[i] && front[j] == claims[j]);
        }
        lemma_without_keeps_unique(front, bead_id);
        let rest = without(front, bead_id);
        let all = without(claims, bead_id);
        assert forall|c: ClaimView| all.contains(c) implies claims.contains(c) by {
            let i = choose|i: int| 0 <= i < all.len() && all[i] == c;
            if i < rest.len() {
                assert(rest.contains(c));
                assert(front.contains(c));
                let j = choose|j: int| 0 <= j < front.len() && front[j] == c;
                assert(claims[j] == c);
            } else {
                assert(claims[claims.len() - 1] == c);
            }
        }
        if claims.last().bead_id != bead_id {
            assert forall|i: int, j: int|
                0 <= i < all.len() && 0 <= j < all.len() && i != j implies (
            #[trigger] all[i]).bead_id != (#[trigger] all[j]).bead_id by {
                if i < rest.len() && j < rest.len() {
                    assert(rest[i].bead_id != rest[j].bead_id);
                } else if i < rest.len() {
                    assert(all[i] == rest[i] && all[j] == claims.last());
                    assert(rest.contains(rest[i]));
                    assert(front.contains(rest[i]));
                    let k = choose|k: int| 0 <= k < front.len() && front[k] == rest[i];
                    assert(front[k] == claims[k]);
                    assert(claims[k].bead_id != claims[claims.len() - 1].bead_id);
                } else {
                    assert(all[j] == rest[j] && all[i] == claims.last());
                    assert(rest.contains(rest[j]));
                    assert(front.contains(rest[j]));
                    let k = choose|k: int| 0 <= k < front.len() && front[k] == rest[j];
                    assert(front[k] == claims[k]);
                    assert(claims[k].bead_id != claims[claims.len() - 1].bead_id);
                }
            }
        }
    }
}

/// Once the beads before position `k` of the ready beads are known to be
/// claimed, a request for the next bead goes on with the bead at `k`.
proof fn lemma_next_scan(
    agent_id: Seq<char>,
    now: int,
    ready: Seq<BeadInfoView>,
    replies: Seq<ReplyView>,
    k: int,
)
    requires
        0 <= k,
        replies.len() >= 1 + k,
        replies[0] == ReplyView::Beads(ready),
        k <= ready.len(),
        forall|j: int| 1 <= j < 1 + k ==> (#[trigger] replies[j]) is Claim && replies[j]->Claim_0
            is Some,
    ensures
        next_plan(agent_id, now, replies) == next_scan_plan(
            agent_id,
            now,
            ready,
            k as nat,
            replies.skip(1 + k),
        ),
    decreases k,
{
    if k > 0 {
        lemma_next_scan(agent_id, now, ready, replies, k - 1);
        let rest = replies.skip(k);
        assert(rest[0] == replies[k]);
        assert(rest.skip(1) =~= replies.skip(1 + k));
    }
}

/// While a request for the next bead looks through the ready beads, the
/// world stays as it is.
proof fn lemma_next_looks_only(
    agent_id: Seq<char>,
    now: int,
    ready: Seq<BeadInfoView>,
    worlds: Seq<World>,
    replies: Seq<ReplyView>,
    k: int,
)
    requires
        0 <= k,
        run(|r: Seq<ReplyView>| next_plan(agent_id, now, r), worlds, replies),
        replies.len() >= 1 + k,
        replies[0] == ReplyView::Beads(ready),
        k <= ready.len(),
        forall|j: int| 1 <= j < 1 + k ==> (#[trigger] replies[j]) is Claim && replies[j]->Claim_0
            is Some,
    ensures
        worlds[1 + k] == worlds[0],
    decreases k,
{
    let plan = |r: Seq<ReplyView>| next_plan(agent_id, now, r);
    lemma_prefixes(replies);
    if k == 0 {
        assert(answered(plan, worlds, replies, 0));
    } else {
        lemma_next_looks_only(agent_id, now, ready, worlds, replies, k - 1);
        let head = replies.take(k);
        assert(head[0] == replies[0]);
        assert(forall|j: int| 1 <= j < k ==> head[j] == replies[j]);
        lemma_next_scan(agent_id, now, ready, head, k - 1);
        assert(head.skip(k).len() == 0);
        assert(answered(plan, worlds, replies, k));
    }
}

/// What acquiring a bead does to the world, run on its own: where it goes
/// through, the claim, the worktree and the status are there; where the
/// tracker fails and the undoing is carried out, the world is as before.
proof fn lemma_acquire_run(
    bead_id: Seq<char>,
    agent_id: Seq<char>,
    now: int,
    worlds: Seq<World>,
    replies: Seq<ReplyView>,
)
    requires
        run(|r: Seq<ReplyView>| acquire_plan(bead_id, agent_id, now, r), worlds, replies),
    ensures
        replies.len() <= 5,
        acquire_plan(bead_id, agent_id, now, replies) matches StepView::Finish(Ok(made)) ==> {
            &&& replies.len() == 3
            &&& made.branch == branch_of(bead_id)
            &&& !has_claim(worlds[0].claims, bead_id)
            &&& !worlds[0].worktrees.contains(bead_id)
            &&& worlds[3] == World {
                claims: worlds[0].claims.push(claim_for(bead_id, agent_id, made, now)),
                worktrees: worlds[0].worktrees.insert(bead_id),
                statuses: worlds[0].statuses.insert(bead_id, in_progress()),
                ..worlds[0]
            }
        },
        acquire_plan(bead_id, agent_id, now, replies) is Finish && replies.len() >= 3
            && replies[2] is Failed && replies[1] is Done && (replies.len() >= 5 ==> replies[3]
            is Done && replies[4] is Done) ==> {
            &&& replies.len() == 5
            &&& worlds[5] == worlds[0]
            &&& acquire_plan(bead_id, agent_id, now, replies) matches StepView::Finish(Err(e))
            &&& e.kind == ErrorKind::TrackerFailure
        },
{
    let plan = |r: Seq<ReplyView>| acquire_plan(bead_id, agent_id, now, r);
    let n = replies.len() as int;
    lemma_prefixes(replies);
    if n > 0 {
        assert(answered(plan, worlds, replies, 0));
    }
    if n > 1 {
        assert(answered(plan, worlds, replies, 1));
    }
    if n > 2 {
        assert(answered(plan, worlds, replies, 2));
    }
    if n > 3 {
        assert(answered(plan, worlds, replies, 3));
    }
    if n > 4 {
        assert(answered(plan, worlds, replies, 4));
    }
    if n > 5 {
        assert(answered(plan, worlds, replies, 5));
    }
    if n >= 5 && replies[0] is Worktree && replies[1] is Done && replies[2] is Failed
        && replies[3] is Done && replies[4] is Done {
        let made = replies[0]->Worktree_0;
        lemma_without_added(worlds[0].claims, claim_for(bead_id, agent_id, made, now));
        assert(worlds[5].worktrees =~= worlds[0].worktrees);
    }
}

/// Whether a request for the next bead has found its bead: it has gone
/// through, or it asks the tracker to take a status.
pub open spec fn has_found(step: StepView<NextOutputView>) -> bool {
    ||| (step matches StepView::Finish(Ok(out)) && out.success)
    ||| (step matches StepView::Ask(ActionView::UpdateBeadStatus { bead_id, status }))
}

/// In a request for the next bead that has found its bead, the lookups that
/// find a claim come first and then stop: the number of them from position
/// `from` on.
proof fn lemma_next_claimed_prefix(
    agent_id: Seq<char>,
    now: int,
    ready: Seq<BeadInfoView>,
    replies: Seq<ReplyView>,
    from: int,
) -> (k: int)
    requires
        0 <= from,
        replies.len() >= 1 + from,
        replies[0] == ReplyView::Beads(ready),
        from <= ready.len(),
        forall|j: int| 1 <= j < 1 + from ==> (#[trigger] replies[j]) is Claim
            && replies[j]->Claim_0 is Some,
        has_found(next_plan(agent_id, now, replies)),
    ensures
        from <= k < ready.len(),
        replies.len() > 1 + k,
        forall|j: int| 1 <= j < 1 + k ==> (#[trigger] replies[j]) is Claim && replies[j]->Claim_0
            is Some,
        replies[1 + k] == ReplyView::Claim(None),
    decreases ready.len() - from,
{
    lemma_next_scan(agent_id, now, ready, replies, from);
    let rest = replies.skip(1 + from);
    if from < ready.len() && rest.len() > 0 {
        assert(rest[0] == replies[1 + from]);
        if replies[1 + from] is Claim && replies[1 + from]->Claim_0 is Some {
            lemma_next_claimed_prefix(agent_id, now, ready, replies, from + 1)
        } else {
            from
        }
    } else {
        from
    }
}

/// A request for the next bead that has looked through `k` claimed beads
/// and found the next one unclaimed goes on as the acquiring of that bead:
/// the world is still as it was, the bead has no claim, and what follows is a
/// run of the acquiring.
proof fn lemma_next_acquires(
    agent_id: Seq<char>,
    now: int,
    ready: Seq<BeadInfoView>,
    worlds: Seq<World>,
    replies: Seq<ReplyView>,
    k: int,
)
    requires
        run(|r: Seq<ReplyView>| next_plan(agent_id, now, r), worlds, replies),
        0 <= k < ready.len(),
        replies.len() >= 2 + k,
        replies[0] == ReplyView::Beads(ready),
        forall|j: int| 1 <= j < 1 + k ==> (#[trigger] replies[j]) is Claim && replies[j]->Claim_0
            is Some,
        replies[1 + k] == ReplyView::Claim(None),
    ensures
        worlds[2 + k] == worlds[0],
        !has_claim(worlds[0].claims, ready[k].id),
        run(
            |r: Seq<ReplyView>| acquire_plan(ready[k].id, agent_id, now, r),
            worlds.skip(2 + k),
            replies.skip(2 + k),
        ),
        forall|i: int|
            2 + k <= i <= replies.len() ==> #[trigger] next_plan(agent_id, now, replies.take(i))
                == next_acquire_plan(
                ready[k],
                agent_id,
                now,
                replies.skip(2 + k).take(i - (2 + k)),
            ),
{
    let plan = |r: Seq<ReplyView>| next_plan(agent_id, now, r);
    let inner = |r: Seq<ReplyView>| acquire_plan(ready[k].id, agent_id, now, r);
    let p = 2 + k;
    let n = replies.len() as int;
    let bead = ready[k];
    lemma_next_looks_only(agent_id, now, ready, worlds, replies, k);
    assert forall|i: int| 1 + k <= i <= n implies #[trigger] next_plan(
        agent_id,
        now,
        replies.take(i),
    ) == (if i == 1 + k {
        StepView::<NextOutputView>::Ask(ActionView::FindClaim { bead_id: bead.id })
    } else {
        next_acquire_plan(bead, agent_id, now, replies.skip(p).take(i - p))
    }) by {
        let t = replies.take(i);
        assert(t[0] == replies[0]);
        assert(forall|j: int| 1 <= j < 1 + k ==> t[j] == replies[j]);
        lemma_next_scan(agent_id, now, ready, t, k);
        if i > 1 + k {
            assert(t.skip(1 + k)[0] == replies[1 + k]);
            assert(t.skip(1 + k).skip(1) =~= replies.skip(p).take(i - p));
        } else {
            assert(t.skip(1 + k).len() == 0);
        }
    }
    assert(answered(plan, worlds, replies, 1 + k));
    let ws = worlds.skip(p);
    let rs = replies.skip(p);
    assert forall|i: int| 0 <= i < rs.len() implies #[trigger] answered(inner, ws, rs, i) by {
        assert(answered(plan, worlds, replies, p + i));
        assert(ws[i] == worlds[p + i] && ws[i + 1] == worlds[p + i + 1] && rs[i] == replies[p
            + i]);
    }
}

/// A request for the next bead never hands out a bead that is claimed.
/// Where it goes through, the bead that it names had no claim and no
/// worktree before; afterwards the claim table holds the agent's claim on
/// it besides the claims that were there, the worktree exists, and the
/// tracker says `in_progress`.
pub proof fn law_next_hands_out_unclaimed(
    agent_id: Seq<char>,
    now: int,
    worlds: Seq<World>,
    replies: Seq<ReplyView>,
    result: StepView<NextOutputView>,
)
    requires
        ends(|r: Seq<ReplyView>| next_plan(agent_id, now, r), worlds, replies, result),
        result matches StepView::Finish(Ok(out)) && out.success,
    ensures
        result matches StepView::Finish(Ok(out)) && (out.bead_id matches Some(bead_id)
            && !has_claim(worlds[0].claims, bead_id) && !worlds[0].worktrees.contains(bead_id)
            && worlds.last().worktrees == worlds[0].worktrees.insert(bead_id)
            && worlds.last().statuses == worlds[0].statuses.insert(bead_id, in_progress())
            && exists|claim: ClaimView|
            worlds.last().claims == worlds[0].claims.push(claim) && claim.bead_id == bead_id
                && claim.agent_id == agent_id && claim.claimed_at == now),
{
    let n = replies.len() as int;
    assert(n >= 1 && replies[0] is Beads);
    let ready = replies[0]->Beads_0;
    let k = lemma_next_claimed_prefix(agent_id, now, ready, replies, 0);
    lemma_next_acquires(agent_id, now, ready, worlds, replies, k);
    let p = 2 + k;
    let bead = ready[k];
    let ws = worlds.skip(p);
    let rs = replies.skip(p);
    lemma_acquire_run(bead.id, agent_id, now, ws, rs);
    assert(replies.take(n) =~= replies);
    assert(rs.take(n - p) =~= rs);
    assert(next_plan(agent_id, now, replies.take(n)) == next_acquire_plan(
        bead,
        agent_id,
        now,
        rs,
    ));
    let made = acquire_plan(bead.id, agent_id, now, rs)->Finish_0->Ok_0;
    let claim = claim_for(bead.id, agent_id, made, now);
    assert(ws[0] == worlds[p] && ws[3] == worlds[p + 3]);
    assert(worlds.last().claims == worlds[0].claims.push(claim));
}

/// A request for the next bead hands out the bead that is to be worked on
/// first: among the ready beads that have no claim, none comes before the
/// bead that is handed out, by priority and then by identifier.
pub proof fn law_next_prefers_priority(
    agent_id: Seq<char>,
    now: int,
    worlds: Seq<World>,
    replies: Seq<ReplyView>,
    result: StepView<NextOutputView>,
    other: int,
)
    requires
        ends(|r: Seq<ReplyView>| next_plan(agent_id, now, r), worlds, replies, result),
        result matches StepView::Finish(Ok(out)) && out.success,
        replies.len() >= 1,
        replies[0] matches ReplyView::Beads(ready) && 0 <= other < ready.len() && !has_claim(
            worlds[0].claims,
            ready[other].id,
        ),
    ensures
        result matches StepView::Finish(Ok(out)) && (out.bead_id matches Some(bead_id)
            && exists|k: int|
            0 <= k <= other && (#[trigger] replies[0]->Beads_0[k]).id == bead_id && (k < other
                ==> comes_first(replies[0]->Beads_0[k], replies[0]->Beads_0[other]))),
{
    let plan = |r: Seq<ReplyView>| next_plan(agent_id, now, r);
    let n = replies.len() as int;
    let ready = replies[0]->Beads_0;
    assert(replies.take(0).len() == 0);
    assert(answered(plan, worlds, replies, 0));
    assert(by_priority(ready));
    let k = lemma_next_claimed_prefix(agent_id, now, ready, replies, 0);
    lemma_next_acquires(agent_id, now, ready, worlds, replies, k);
    // Every bead before the one handed out was found claimed.
    if other < k {
        lemma_next_looks_only(agent_id, now, ready, worlds, replies, other);
        let head = replies.take(1 + other);
        assert(head[0] == replies[0]);
        assert(forall|j: int| 1 <= j < 1 + other ==> head[j] == replies[j]);
        lemma_next_scan(agent_id, now, ready, head, other);
        assert(head.skip(1 + other).len() == 0);
        assert(answered(plan, worlds, replies, 1 + other));
        let found = replies[1 + other]->Claim_0->0;
        assert(worlds[0].claims.contains(found));
        let i = choose|i: int| 0 <= i < worlds[0].claims.len() && worlds[0].claims[i] == found;
        assert(worlds[0].claims[i].bead_id == ready[other].id);
        assert(false);
    }
    let p = 2 + k;
    let rs = replies.skip(p);
    lemma_acquire_run(ready[k].id, agent_id, now, worlds.skip(p), rs);
    assert(replies.take(n) =~= replies);
    assert(rs.take(n - p) =~= rs);
    assert(next_plan(agent_id, now, replies.take(n)) == next_acquire_plan(
        ready[k],
        agent_id,
        now,
        rs,
    ));
    assert(ready[k].id == result->Finish_0->Ok_0.bead_id->0);
    assert(k < other ==> comes_first(ready[k], ready[other]));
}

/// A request for the next bead is all or nothing, as a claim is. Where the
/// tracker fails to take the status `in_progress` after the worktree was
/// created and the claim inserted, the claim is deleted and the worktree
/// removed again; once both have been done, the world is as it was before
/// the request. The request ends with the tracker's failure.
pub proof fn law_next_rolls_back(
    agent_id: Seq<char>,
    now: int,
    worlds: Seq<World>,
    replies: Seq<ReplyView>,
    result: StepView<NextOutputView>,
    at: int,
)
    requires
        ends(|r: Seq<ReplyView>| next_plan(agent_id, now, r), worlds, replies, result),
        0 <= at < replies.len(),
        next_plan(agent_id, now, replies.take(at)) matches StepView::Ask(
            ActionView::UpdateBeadStatus { bead_id, status },
        ),
        replies[at] is Failed,
        at + 2 < replies.len() ==> replies[at + 1] is Done && replies[at + 2] is Done,
    ensures
        replies.len() == at + 3,
        worlds.last() == worlds[0],
        result matches StepView::Finish(Err(e)) && e.kind == ErrorKind::TrackerFailure,
{
    let n = replies.len() as int;
    let head = replies.take(at);
    assert(at >= 1);
    assert(head[0] == replies[0]);
    assert(replies[0] is Beads);
    let ready = replies[0]->Beads_0;
    let k = lemma_next_claimed_prefix(agent_id, now, ready, head, 0);
    assert(forall|j: int| 1 <= j <= 1 + k ==> head[j] == replies[j]);
    lemma_next_acquires(agent_id, now, ready, worlds, replies, k);
    let p = 2 + k;
    let bead = ready[k];
    let ws = worlds.skip(p);
    let rs = replies.skip(p);
    lemma_acquire_run(bead.id, agent_id, now, ws, rs);
    assert(at >= p);
    let asked = rs.take(at - p);
    assert(next_plan(agent_id, now, replies.take(at)) == next_acquire_plan(
        bead,
        agent_id,
        now,
        asked,
    ));
    assert(asked.len() == at - p);
    assert(forall|j: int| 0 <= j < at - p ==> asked[j] == rs[j]);
    assert(asked.skip(1).len() == at - p - 1);
    assert(at - p >= 2 ==> asked.skip(1)[0] == asked[1]);
    assert(at - p >= 2 ==> asked.skip(1).skip(1).len() == at - p - 2);
    assert(at == p + 2);
    assert(rs[0] == replies[p] && rs[1] == replies[p + 1] && rs[2] == replies[at]);
    assert(replies.take(n) =~= replies);
    assert(rs.take(n - p) =~= rs);
    assert(next_plan(agent_id, now, replies.take(n)) == next_acquire_plan(
        bead,
        agent_id,
        now,
        rs,
    ));
    assert(n - p >= 5 ==> rs[3] == replies[at + 1] && rs[4] == replies[at + 2]);
    assert(ws[0] == worlds[p]);
    assert(n == p + 5 ==> ws[5] == worlds[p + 5]);
}

/// The world once the first `k` of the claims `stale` have been reclaimed:
/// for each of them the worktree is gone, the tracker says `open`, and the
/// claim is deleted.
pub open spec fn reclaimed(world: World, stale: Seq<ClaimView>, k: int) -> World
    decreases k,
{
    if k <= 0 || k > stale.len() {
        world
    } else {
        let before = reclaimed(world, stale, k - 1);
        let bead_id = stale[k - 1].bead_id;
        World {
            claims: without(before.claims, bead_id),
            worktrees: before.worktrees.remove(bead_id),
            statuses: before.statuses.insert(bead_id, "open"@),
            ..before
        }
    }
}

/// What is left after claims were reclaimed: no claim and no worktree of a
/// bead that was reclaimed, and no claim that was not there before.
proof fn lemma_reclaimed(world: World, stale: Seq<ClaimView>, k: int)
    requires
        0 <= k <= stale.len(),
    ensures
        forall|c: ClaimView| #[trigger]
            reclaimed(world, stale, k).claims.contains(c) ==> world.claims.contains(c) && forall|
                j: int,
            |
                0 <= j < k ==> c.bead_id != (#[trigger] stale[j]).bead_id,
        forall|c: ClaimView|
            world.claims.contains(c) && (forall|j: int|
                0 <= j < k ==> c.bead_id != (#[trigger] stale[j]).bead_id) ==> #[trigger] reclaimed(
                world,
                stale,
                k,
            ).claims.contains(c),
        forall|j: int|
            0 <= j < k ==> !reclaimed(world, stale, k).worktrees.contains(
                (#[trigger] stale[j]).bead_id,
            ),
        forall|j: int|
            0 <= j < k ==> reclaimed(world, stale, k).statuses.contains_key(
                (#[trigger] stale[j]).bead_id,
            ) && reclaimed(world, stale, k).statuses[stale[j].bead_id] == "open"@,
        reclaimed(world, stale, k).merging == world.merging,
    decreases k,
{
    if k > 0 {
        lemma_reclaimed(world, stale, k - 1);
        let before = reclaimed(world, stale, k - 1);
        let after = reclaimed(world, stale, k);
        let bead_id = stale[k - 1].bead_id;
        let keep = |c: ClaimView| c.bead_id != bead_id;
        assert(after.claims == before.claims.filter(keep));
        assert forall|c: ClaimView| #[trigger] after.claims.contains(c) implies world.claims.contains(
            c,
        ) && forall|j: int| 0 <= j < k ==> c.bead_id != (#[trigger] stale[j]).bead_id by {
            let i = choose|i: int| 0 <= i < after.claims.len() && after.claims[i] == c;
            before.claims.lemma_filter_pred(keep, i);
            before.claims.lemma_filter_contains_rev(keep, c);
            assert(before.claims.contains(c));
        }
        assert forall|c: ClaimView|
            world.claims.contains(c) && (forall|j: int|
                0 <= j < k ==> c.bead_id != (#[trigger] stale[j]).bead_id) implies #[trigger] after.claims.contains(
            c,
        ) by {
            assert(forall|j: int| 0 <= j < k - 1 ==> c.bead_id != (#[trigger] stale[j]).bead_id);
            assert(before.claims.contains(c));
            let i = choose|i: int| 0 <= i < before.claims.len() && before.claims[i] == c;
            assert(c.bead_id != stale[k - 1].bead_id);
            before.claims.lemma_filter_contains(keep, i);
        }
    }
}

/// What a cleanup asks for once `j` requests have been answered: the
/// request with the number `j % 3` for the stale claim with the number
/// `j / 3`.
pub open spec fn reap_request(stale: Seq<ClaimView>, j: int) -> ActionView {
    let bead_id = stale[j / 3].bead_id;
    if j % 3 == 0 {
        ActionView::RemoveWorktree { bead_id, force: true }
    } else if j % 3 == 1 {
        ActionView::UpdateBeadStatus { bead_id, status: "open"@ }
    } else {
        ActionView::DeleteClaim { bead_id }
    }
}

/// A cleanup that has listed the claims asks for the requests of the stale
/// claims, one after the other, and ends after the last.
proof fn lemma_cleanup_asks(minutes: int, now: int, claims: Seq<ClaimView>, replies: Seq<ReplyView>)
    requires
        replies.len() >= 1,
        replies[0] == ReplyView::Claims(claims),
    ensures
        ({
            let stale = stale_claims(claims, now, minutes);
            let j = replies.len() - 1;
            if j < 3 * stale.len() {
                stale_plan(minutes, true, now, replies) == StepView::<StaleOutputView>::Ask(
                    reap_request(stale, j),
                )
            } else {
                stale_plan(minutes, true, now, replies) is Finish
            }
        }),
{
    assert(replies.skip(1).len() == replies.len() - 1);
}

/// While stale claims are reclaimed, the world after the requests for the
/// first `k` of them is the world with these `k` reclaimed, where every
/// request is carried out.
proof fn lemma_reap_run(
    minutes: int,
    now: int,
    worlds: Seq<World>,
    replies: Seq<ReplyView>,
    k: int,
)
    requires
        run(|r: Seq<ReplyView>| stale_plan(minutes, true, now, r), worlds, replies),
        replies.len() >= 1,
        replies[0] == ReplyView::Claims(worlds[0].claims),
        worlds[1] == worlds[0],
        0 <= k <= stale_claims(worlds[0].claims, now, minutes).len(),
        replies.len() >= 1 + 3 * k,
        forall|i: int| 1 <= i < replies.len() ==> (#[trigger] replies[i]) is Done,
    ensures
        worlds[1 + 3 * k] == reclaimed(
            worlds[0],
            stale_claims(worlds[0].claims, now, minutes),
            k,
        ),
    decreases k,
{
    let plan = |r: Seq<ReplyView>| stale_plan(minutes, true, now, r);
    let stale = stale_claims(worlds[0].claims, now, minutes);
    if k > 0 {
        lemma_reap_run(minutes, now, worlds, replies, k - 1);
        let at = 1 + 3 * (k - 1);
        let before = reclaimed(worlds[0], stale, k - 1);
        let bead_id = stale[k - 1].bead_id;
        assert(worlds[at] == before);
        lemma_reap_step(minutes, now, worlds, replies, at);
        lemma_reap_step(minutes, now, worlds, replies, at + 1);
        lemma_reap_step(minutes, now, worlds, replies, at + 2);
        assert(reap_request(stale, at - 1) == ActionView::RemoveWorktree { bead_id, force: true });
        assert(reap_request(stale, at) == ActionView::UpdateBeadStatus {
            bead_id,
            status: "open"@,
        });
        assert(reap_request(stale, at + 1) == ActionView::DeleteClaim { bead_id });
        assert(worlds[at + 1] == World {
            worktrees: before.worktrees.remove(bead_id),
            ..before
        });
        assert(worlds[at + 2] == World {
            statuses: before.statuses.insert(bead_id, "open"@),
            ..worlds[at + 1]
        });
        assert(worlds[at + 3] == World {
            claims: without(before.claims, bead_id),
            ..worlds[at + 2]
        });
    }
}

/// The request of a cleanup at position `at`, and that its reply answers
/// it.
proof fn lemma_reap_step(
    minutes: int,
    now: int,
    worlds: Seq<World>,
    replies: Seq<ReplyView>,
    at: int,
)
    requires
        run(|r: Seq<ReplyView>| stale_plan(minutes, true, now, r), worlds, replies),
        1 <= at < replies.len(),
        replies[0] == ReplyView::Claims(worlds[0].claims),
    ensures
        at - 1 < 3 * stale_claims(worlds[0].claims, now, minutes).len(),
        answers(
            worlds[at],
            reap_request(stale_claims(worlds[0].claims, now, minutes), at - 1),
            replies[at],
            worlds[at + 1],
        ),
{
    let plan = |r: Seq<ReplyView>| stale_plan(minutes, true, now, r);
    let head = replies.take(at);
    assert(head[0] == replies[0]);
    assert(head.len() == at);
    lemma_cleanup_asks(minutes, now, worlds[0].claims, head);
    assert(answered(plan, worlds, replies, at));
}

/// A cleanup reclaims every stale claim. Where every request is carried
/// out, the cleanup ends after three requests for each stale claim; then
/// no stale claim is left, no claim that is not stale is gone, and each
/// bead that was reclaimed has no worktree and is `open` in the tracker.
/// The beads that the cleanup reports are the beads of the stale claims.
pub proof fn law_cleanup_reclaims(
    minutes: int,
    now: int,
    worlds: Seq<World>,
    replies: Seq<ReplyView>,
    result: StepView<StaleOutputView>,
)
    requires
        ends(|r: Seq<ReplyView>| stale_plan(minutes, true, now, r), worlds, replies, result),
        replies.len() >= 1 && replies[0] is Claims,
        forall|i: int| 1 <= i < replies.len() ==> (#[trigger] replies[i]) is Done,
    ensures
        replies.len() == 1 + 3 * stale_claims(worlds[0].claims, now, minutes).len(),
        result matches StepView::Finish(Ok(out)) && out.cleaned_up == beads_of(
            stale_claims(worlds[0].claims, now, minutes),
        ),
        forall|c: ClaimView| #[trigger]
            worlds.last().claims.contains(c) ==> worlds[0].claims.contains(c) && !is_stale(
                c.claimed_at,
                now,
                minutes,
            ),
        forall|c: ClaimView|
            stale_claims(worlds[0].claims, now, minutes).contains(c)
                ==> !worlds.last().worktrees.contains(c.bead_id)
                && worlds.last().statuses.contains_key(c.bead_id)
                && worlds.last().statuses[c.bead_id] == "open"@ && !has_claim(
                worlds.last().claims,
                c.bead_id,
            ),
        forall|c: ClaimView|
            worlds[0].claims.contains(c) && !has_claim(
                stale_claims(worlds[0].claims, now, minutes),
                c.bead_id,
            ) ==> #[trigger] worlds.last().claims.contains(c),
{
    let plan = |r: Seq<ReplyView>| stale_plan(minutes, true, now, r);
    let n = replies.len() as int;
    assert(replies.take(0).len() == 0);
    assert(answered(plan, worlds, replies, 0));
    let stale = stale_claims(worlds[0].claims, now, minutes);
    let m = stale.len() as int;
    assert(replies.take(n) =~= replies);
    lemma_cleanup_asks(minutes, now, worlds[0].claims, replies);
    assert(n - 1 >= 3 * m);
    if n > 1 + 3 * m {
        lemma_reap_step(minutes, now, worlds, replies, 1 + 3 * m);
    }
    assert(n == 1 + 3 * m);
    lemma_reap_run(minutes, now, worlds, replies, m);
    lemma_reclaimed(worlds[0], stale, m);
    let last = worlds.last();
    assert(last == reclaimed(worlds[0], stale, m));
    assert forall|c: ClaimView| #[trigger] last.claims.contains(c) implies worlds[0].claims.contains(
        c,
    ) && !is_stale(c.claimed_at, now, minutes) by {
        if is_stale(c.claimed_at, now, minutes) {
            lemma_stale_claims(worlds[0].claims, now, minutes, c);
            let j = choose|j: int| 0 <= j < stale.len() && stale[j] == c;
            assert(c.bead_id != stale[j].bead_id);
        }
    }
    assert forall|c: ClaimView| stale.contains(c) implies !last.worktrees.contains(c.bead_id)
        && last.statuses.contains_key(c.bead_id) && last.statuses[c.bead_id] == "open"@
        && !has_claim(last.claims, c.bead_id) by {
        let j = choose|j: int| 0 <= j < stale.len() && stale[j] == c;
        assert(stale[j].bead_id == c.bead_id);
        if has_claim(last.claims, c.bead_id) {
            let i = choose|i: int|
                0 <= i < last.claims.len() && (#[trigger] last.claims[i]).bead_id == c.bead_id;
            assert(last.claims.contains(last.claims[i]));
            assert(last.claims[i].bead_id != stale[j].bead_id);
        }
    }
    assert forall|c: ClaimView|
        worlds[0].claims.contains(c) && !has_claim(stale, c.bead_id) implies #[trigger] last.claims.contains(
        c,
    ) by {
        assert(forall|j: int| 0 <= j < m ==> c.bead_id != (#[trigger] stale[j]).bead_id);
    }
}

/// Two beads never share a worktree or a branch: below one directory,
/// the worktrees of different beads lie at different paths, and their
/// branches have different names.
pub proof fn law_beads_work_apart(worktrees_dir: Seq<char>, a: Seq<char>, b: Seq<char>)
    requires
        a != b,
    ensures
        path_in(worktrees_dir, a) != path_in(worktrees_dir, b),
        branch_of(a) != branch_of(b),
{
    let lead = worktrees_dir + "/"@;
    if path_in(worktrees_dir, a) == path_in(worktrees_dir, b) {
        assert(path_in(worktrees_dir, a).skip(lead.len() as int) =~= a);
        assert(path_in(worktrees_dir, b).skip(lead.len() as int) =~= b);
    }
    if branch_of(a) == branch_of(b) {
        assert(branch_of(a).skip("bacchus/"@.len() as int) =~= a);
        assert(branch_of(b).skip("bacchus/"@.len() as int) =~= b);
    }
}

/// A claim is read back from the claim table as it was written: the row
/// that holds a claim holds that claim and no other.
pub proof fn law_claim_survives_its_row(claim: ClaimView)
    ensures
        claim_of(row_of(claim)) == Some(claim),
{
}

} // verus!
