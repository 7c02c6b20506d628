//! A model of the outside world, for stating what the lifecycle operations
//! achieve: the claim table, the worktrees, the tracker's statuses and the
//! merge in progress, and what each request may do to them.
//!
//! The model says how the claim table, the tracker and version control are
//! taken to behave. The laws of this crate hold of every run in which they
//! behave so.

use crate::beads::by_priority;
use crate::claims::{has_claim, without, ClaimView};
use crate::protocol::{ActionView, ReplyView, StepView};
use crate::worktree::branch_of;
use vstd::prelude::*;

verus! {

/// The state that the lifecycle operations act on.
pub struct World {
    /// The rows of the claim table.
    pub claims: Seq<ClaimView>,
    /// The beads that have a worktree and a branch.
    pub worktrees: Set<Seq<char>>,
    /// The status that the tracker holds for each bead.
    pub statuses: Map<Seq<char>, Seq<char>>,
    /// The branch that is being merged, while a merge is in progress.
    pub merging: Option<Seq<char>>,
    /// Whether paths are still unmerged.
    pub unresolved: bool,
}

/// Whether `reply`, with the world going from `before` to `after`, is a way
/// in which the outside world may answer `action`.
///
/// Every request may fail and then changes nothing. Questions change
/// nothing. A claim is inserted only for a bead that has none: this is what
/// keeps two agents from owning one bead. The tracker lists the ready beads
/// by priority and then by identifier. A worktree is created only where
/// none is. A merge that stops on conflicts leaves the bead's branch as the
/// merge in progress, with unmerged paths; aborting or completing the merge
/// ends it, and it is completed only once no path is unmerged.
pub open spec fn answers(before: World, action: ActionView, reply: ReplyView, after: World) -> bool {
    match action {
        ActionView::FindClaim { bead_id } => after == before && match reply {
            ReplyView::Failed(_) => true,
            ReplyView::Claim(Some(c)) => before.claims.contains(c) && c.bead_id == bead_id,
            ReplyView::Claim(None) => !has_claim(before.claims, bead_id),
            _ => false,
        },
        ActionView::InsertClaim { claim } => match reply {
            ReplyView::Done => !has_claim(before.claims, claim.bead_id) && after == (World {
                claims: before.claims.push(claim),
                ..before
            }),
            ReplyView::Conflict(_) => has_claim(before.claims, claim.bead_id) && after == before,
            ReplyView::Failed(_) => after == before,
            _ => false,
        },
        ActionView::DeleteClaim { bead_id } => match reply {
            ReplyView::Done => after == (World {
                claims: without(before.claims, bead_id),
                ..before
            }),
            ReplyView::Failed(_) => after == before,
            _ => false,
        },
        ActionView::ListClaims => after == before && match reply {
            ReplyView::Failed(_) => true,
            ReplyView::Claims(all) => all == before.claims,
            _ => false,
        },
        ActionView::GetBead { bead_id } => after == before && match reply {
            ReplyView::Failed(_) => true,
            ReplyView::Bead(bead) => bead.id == bead_id && before.statuses.contains_key(bead_id)
                && bead.status == before.statuses[bead_id],
            _ => false,
        },
        ActionView::IsBeadReady { bead_id } => after == before && match reply {
            ReplyView::Failed(_) => true,
            ReplyView::Flag(ready) => ready ==> before.statuses.contains_key(bead_id)
                && before.statuses[bead_id] == "open"@,
            _ => false,
        },
        ActionView::GetReadyBeads => after == before && match reply {
            ReplyView::Failed(_) => true,
            ReplyView::Beads(ready) => by_priority(ready) && forall|i: int|
                0 <= i < ready.len() ==> before.statuses.contains_key((#[trigger] ready[i]).id)
                    && before.statuses[ready[i].id] == "open"@,
            _ => false,
        },
        ActionView::UpdateBeadStatus { bead_id, status } => match reply {
            ReplyView::Done => after == (World {
                statuses: before.statuses.insert(bead_id, status),
                ..before
            }),
            ReplyView::Failed(_) => after == before,
            _ => false,
        },
        ActionView::CreateWorktree { bead_id } => match reply {
            ReplyView::Worktree(made) => !before.worktrees.contains(bead_id) && made.bead_id
                == bead_id && made.branch == branch_of(bead_id) && after == (World {
                worktrees: before.worktrees.insert(bead_id),
                ..before
            }),
            ReplyView::Conflict(_) => before.worktrees.contains(bead_id) && after == before,
            ReplyView::Failed(_) => after == before,
            _ => false,
        },
        ActionView::RemoveWorktree { bead_id, force } => match reply {
            ReplyView::Done => after == (World {
                worktrees: before.worktrees.remove(bead_id),
                ..before
            }),
            ReplyView::Failed(_) => after == before,
            _ => false,
        },
        ActionView::MergeWorktree { bead_id, target } => match reply {
            ReplyView::Done => after == before,
            ReplyView::Conflict(_) => after == (World {
                merging: Some(branch_of(bead_id)),
                unresolved: true,
                ..before
            }),
            ReplyView::Failed(_) => after == before,
            _ => false,
        },
        ActionView::IsInMergeConflict => after == before && match reply {
            ReplyView::Failed(_) => true,
            ReplyView::Flag(merging) => merging == (before.merging is Some),
            _ => false,
        },
        ActionView::GetMergeBranch => after == before && match reply {
            ReplyView::Failed(_) => true,
            ReplyView::Branch(branch) => branch == before.merging,
            _ => false,
        },
        ActionView::HasUnresolvedConflicts => after == before && match reply {
            ReplyView::Failed(_) => true,
            ReplyView::Flag(unresolved) => unresolved == before.unresolved,
            _ => false,
        },
        ActionView::AbortMerge => match reply {
            ReplyView::Done => after == (World { merging: None, unresolved: false, ..before }),
            ReplyView::Failed(_) => after == before,
            _ => false,
        },
        ActionView::CompleteMerge => match reply {
            ReplyView::Done => !before.unresolved && after == (World {
                merging: None,
                unresolved: false,
                ..before
            }),
            ReplyView::Conflict(_) => before.unresolved && after == before,
            ReplyView::Failed(_) => after == before,
            _ => false,
        },
    }
}

/// Whether the reply at `i` answers what `plan` asks after the replies before
/// it, and takes the world from `worlds[i]` to `worlds[i + 1]`.
pub open spec fn answered<V>(
    plan: spec_fn(Seq<ReplyView>) -> StepView<V>,
    worlds: Seq<World>,
    replies: Seq<ReplyView>,
    i: int,
) -> bool {
    match plan(replies.take(i)) {
        StepView::Ask(action) => answers(worlds[i], action, replies[i], worlds[i + 1]),
        StepView::Finish(_) => false,
    }
}

/// Whether `replies` and `worlds` are a run of `plan` that nothing else
/// interferes with: the plan starts in `worlds[0]`, each reply answers the
/// request that the plan made after the replies before it, and each world
/// follows from the one before by that request alone.
pub open spec fn run<V>(
    plan: spec_fn(Seq<ReplyView>) -> StepView<V>,
    worlds: Seq<World>,
    replies: Seq<ReplyView>,
) -> bool {
    &&& worlds.len() == replies.len() + 1
    &&& forall|i: int| 0 <= i < replies.len() ==> #[trigger] answered(plan, worlds, replies, i)
}

/// Whether `replies` and `worlds` are a run of `plan` that has come to its
/// end with `result`.
pub open spec fn ends<V>(
    plan: spec_fn(Seq<ReplyView>) -> StepView<V>,
    worlds: Seq<World>,
    replies: Seq<ReplyView>,
    result: StepView<V>,
) -> bool {
    &&& run(plan, worlds, replies)
    &&& result is Finish
    &&& plan(replies) == result
}

} // verus!
