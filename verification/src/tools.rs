//! The lifecycle operations, one module each, and the steps they share.

pub mod abort;
pub mod claim;
pub mod context;
pub mod coordination;
pub mod list;
pub mod next;
pub mod release;
pub mod resolve;
pub mod session;
pub mod stale;
pub mod status;
pub mod symbols;

pub use abort::abort_merge;
pub use claim::claim_task;
pub use context::{generate_context, generate_global_context, generate_task_context};
pub use list::list_claims;
pub use next::next_task;
pub use release::release_bead;
pub use resolve::resolve_merge;
pub use stale::find_stale;

use crate::claims::{Claim, ClaimView};
use crate::protocol::{
    fail, failed, misfit, unexpected, Action, ActionView, ErrorKind, Reply, ReplyView, Step,
    StepView,
};
use crate::text::same;
use crate::worktree::{branch_name, branch_of, WorktreeInfo, WorktreeInfoView};
use vstd::prelude::*;

verus! {

/// The status that the tracker is given for a bead that is being worked on.
pub open spec fn in_progress() -> Seq<char> {
    "in_progress"@
}

/// The claim that `agent_id` gets on `bead_id` at `now`, for work in
/// `worktree`.
pub open spec fn claim_for(
    bead_id: Seq<char>,
    agent_id: Seq<char>,
    worktree: WorktreeInfoView,
    now: int,
) -> ClaimView {
    ClaimView {
        bead_id,
        agent_id,
        worktree_path: worktree.path,
        branch_name: worktree.branch,
        start_commit: worktree.head_commit,
        claimed_at: now,
    }
}

/// How a bead becomes claimed: its worktree is created, then the claim is
/// inserted, then the tracker is told `in_progress`. What fails undoes what
/// was done before it, the later step first, and ends with an error:
/// - the worktree cannot be created: nothing to undo;
/// - the insertion is turned down: the worktree is removed with force; where
///   the bead then turns out to be claimed, the error names the owner;
/// - the tracker fails: the claim is deleted, then the worktree is removed
///   with force.
/// What the undoing steps answer is not looked at. A worktree that is
/// already there, as one is after a release as `blocked`, is never taken
/// over: the bead cannot be acquired until that worktree is removed.
pub open spec fn acquire_plan(
    bead_id: Seq<char>,
    agent_id: Seq<char>,
    now: int,
    replies: Seq<ReplyView>,
) -> StepView<WorktreeInfoView> {
    if replies.len() == 0 {
        StepView::Ask(ActionView::CreateWorktree { bead_id })
    } else {
        match replies[0] {
            ReplyView::Worktree(worktree) => acquire_insert_plan(
                bead_id,
                agent_id,
                now,
                worktree,
                replies.skip(1),
            ),
            ReplyView::Conflict(m) => fail(ErrorKind::AlreadyExists, m),
            ReplyView::Failed(m) => fail(ErrorKind::VcsFailure, "Failed to create worktree: "@ + m),
            _ => misfit(),
        }
    }
}

/// [`acquire_plan`] from the insertion of the claim on.
pub open spec fn acquire_insert_plan(
    bead_id: Seq<char>,
    agent_id: Seq<char>,
    now: int,
    worktree: WorktreeInfoView,
    replies: Seq<ReplyView>,
) -> StepView<WorktreeInfoView> {
    if replies.len() == 0 {
        StepView::Ask(
            ActionView::InsertClaim { claim: claim_for(bead_id, agent_id, worktree, now) },
        )
    } else {
        match replies[0] {
            ReplyView::Done => acquire_status_plan(bead_id, worktree, replies.skip(1)),
            ReplyView::Conflict(m) => {
                if replies.len() == 1 {
                    StepView::Ask(ActionView::RemoveWorktree { bead_id, force: true })
                } else if replies.len() == 2 {
                    StepView::Ask(ActionView::FindClaim { bead_id })
                } else {
                    match replies[2] {
                        ReplyView::Claim(Some(c)) => fail(ErrorKind::AlreadyClaimed, c.agent_id),
                        _ => fail(ErrorKind::StoreFailure, m),
                    }
                }
            },
            ReplyView::Failed(m) => {
                if replies.len() == 1 {
                    StepView::Ask(ActionView::RemoveWorktree { bead_id, force: true })
                } else {
                    fail(ErrorKind::StoreFailure, m)
                }
            },
            _ => misfit(),
        }
    }
}

/// [`acquire_plan`] from the tracker update on.
pub open spec fn acquire_status_plan(
    bead_id: Seq<char>,
    worktree: WorktreeInfoView,
    replies: Seq<ReplyView>,
) -> StepView<WorktreeInfoView> {
    if replies.len() == 0 {
        StepView::Ask(ActionView::UpdateBeadStatus { bead_id, status: in_progress() })
    } else {
        match replies[0] {
            ReplyView::Done => StepView::Finish(Ok(worktree)),
            ReplyView::Failed(m) => {
                if replies.len() == 1 {
                    StepView::Ask(ActionView::DeleteClaim { bead_id })
                } else if replies.len() == 2 {
                    StepView::Ask(ActionView::RemoveWorktree { bead_id, force: true })
                } else {
                    fail(ErrorKind::TrackerFailure, "Failed to update bead status: "@ + m)
                }
            },
            _ => misfit(),
        }
    }
}

/// Follows [`acquire_plan`] over the replies from position `from` on.
pub(crate) fn acquire(bead_id: &str, agent_id: &str, now: i64, replies: &Vec<Reply>, from: usize) -> (step:
    Step<WorktreeInfo>)
    requires
        from <= replies.len(),
    ensures
        step@ == acquire_plan(
            bead_id@,
            agent_id@,
            now as int,
            replies.deep_view().skip(from as int),
        ),
{
    let ghost rest = replies.deep_view().skip(from as int);
    let n = replies.len() - from;
    if n == 0 {
        return Step::Ask(Action::CreateWorktree { bead_id: bead_id.to_string() });
    }
    assert(rest[0] == replies[from as int]@);
    let worktree = match &replies[from] {
        Reply::Worktree(w) => w.clone(),
        Reply::Conflict(m) => {
            return failed(ErrorKind::AlreadyExists, m.as_str());
        },
        Reply::Failed(m) => {
            let mut detail = String::from_str("Failed to create worktree: ");
            detail.append(m.as_str());
            return failed(ErrorKind::VcsFailure, detail.as_str());
        },
        _ => {
            return unexpected();
        },
    };
    let ghost rest1 = rest.skip(1);
    if n == 1 {
        let claim = Claim {
            bead_id: bead_id.to_string(),
            agent_id: agent_id.to_string(),
            worktree_path: worktree.path.clone(),
            branch_name: worktree.branch.clone(),
            start_commit: worktree.head_commit.clone(),
            claimed_at: now,
        };
        return Step::Ask(Action::InsertClaim { claim });
    }
    assert(rest1[0] == replies[from + 1]@);
    match &replies[from + 1] {
        Reply::Done => {},
        Reply::Conflict(m) => {
            if n == 2 {
                return Step::Ask(
                    Action::RemoveWorktree { bead_id: bead_id.to_string(), force: true },
                );
            }
            if n == 3 {
                return Step::Ask(Action::FindClaim { bead_id: bead_id.to_string() });
            }
            assert(rest1[2] == replies[from + 3]@);
            return match &replies[from + 3] {
                Reply::Claim(Some(c)) => failed(ErrorKind::AlreadyClaimed, c.agent_id.as_str()),
                _ => failed(ErrorKind::StoreFailure, m.as_str()),
            };
        },
        Reply::Failed(m) => {
            if n == 2 {
                return Step::Ask(
                    Action::RemoveWorktree { bead_id: bead_id.to_string(), force: true },
                );
            }
            return failed(ErrorKind::StoreFailure, m.as_str());
        },
        _ => {
            return unexpected();
        },
    }
    let ghost rest2 = rest1.skip(1);
    if n == 2 {
        return Step::Ask(
            Action::UpdateBeadStatus {
                bead_id: bead_id.to_string(),
                status: "in_progress".to_string(),
            },
        );
    }
    assert(rest2[0] == replies[from + 2]@);
    match &replies[from + 2] {
        Reply::Done => Step::Finish(Ok(worktree)),
        Reply::Failed(m) => {
            if n == 3 {
                return Step::Ask(Action::DeleteClaim { bead_id: bead_id.to_string() });
            }
            if n == 4 {
                return Step::Ask(
                    Action::RemoveWorktree { bead_id: bead_id.to_string(), force: true },
                );
            }
            let mut detail = String::from_str("Failed to update bead status: ");
            detail.append(m.as_str());
            failed(ErrorKind::TrackerFailure, detail.as_str())
        },
        _ => unexpected(),
    }
}

/// What has to hold before a merge in progress is touched for `bead_id`:
/// the bead has a claim, a merge is in progress, and the branch that is
/// being merged is the bead's own. Anything else ends with an error:
/// `NotFound`, `NotMerging`, or `WrongMergeTarget` with the branch that is
/// being merged (empty where it cannot be named).
pub open spec fn merge_guard_plan(bead_id: Seq<char>, replies: Seq<ReplyView>) -> StepView<()> {
    if replies.len() == 0 {
        StepView::Ask(ActionView::FindClaim { bead_id })
    } else {
        match replies[0] {
            ReplyView::Failed(m) => fail(ErrorKind::StoreFailure, m),
            ReplyView::Claim(None) => fail(ErrorKind::NotFound, bead_id),
            ReplyView::Claim(Some(_)) => {
                if replies.len() == 1 {
                    StepView::Ask(ActionView::IsInMergeConflict)
                } else {
                    match replies[1] {
                        ReplyView::Failed(m) => fail(ErrorKind::VcsFailure, m),
                        ReplyView::Flag(merging) => {
                            if !merging {
                                fail(ErrorKind::NotMerging, ""@)
                            } else if replies.len() == 2 {
                                StepView::Ask(ActionView::GetMergeBranch)
                            } else {
                                match replies[2] {
                                    ReplyView::Failed(m) => fail(ErrorKind::VcsFailure, m),
                                    ReplyView::Branch(Some(branch)) => {
                                        if branch == branch_of(bead_id) {
                                            StepView::Finish(Ok(()))
                                        } else {
                                            fail(ErrorKind::WrongMergeTarget, branch)
                                        }
                                    },
                                    ReplyView::Branch(None) => fail(
                                        ErrorKind::WrongMergeTarget,
                                        ""@,
                                    ),
                                    _ => misfit(),
                                }
                            }
                        },
                        _ => misfit(),
                    }
                }
            },
            _ => misfit(),
        }
    }
}

/// Follows [`merge_guard_plan`] over `replies`. Where the guard holds, the
/// first three replies are its own.
pub(crate) fn merge_guard(bead_id: &str, replies: &Vec<Reply>) -> (step: Step<()>)
    ensures
        step@ == merge_guard_plan(bead_id@, replies.deep_view()),
        step@ is Finish && step@->Finish_0 is Ok ==> replies.len() >= 3,
{
    let ghost all = replies.deep_view();
    if replies.len() == 0 {
        return Step::Ask(Action::FindClaim { bead_id: bead_id.to_string() });
    }
    assert(all[0] == replies[0]@);
    match &replies[0] {
        Reply::Failed(m) => {
            return failed(ErrorKind::StoreFailure, m.as_str());
        },
        Reply::Claim(None) => {
            return failed(ErrorKind::NotFound, bead_id);
        },
        Reply::Claim(Some(_)) => {},
        _ => {
            return unexpected();
        },
    }
    if replies.len() == 1 {
        return Step::Ask(Action::IsInMergeConflict);
    }
    assert(all[1] == replies[1]@);
    match &replies[1] {
        Reply::Failed(m) => {
            return failed(ErrorKind::VcsFailure, m.as_str());
        },
        Reply::Flag(merging) => {
            if !*merging {
                return failed(ErrorKind::NotMerging, "");
            }
        },
        _ => {
            return unexpected();
        },
    }
    if replies.len() == 2 {
        return Step::Ask(Action::GetMergeBranch);
    }
    assert(all[2] == replies[2]@);
    match &replies[2] {
        Reply::Failed(m) => failed(ErrorKind::VcsFailure, m.as_str()),
        Reply::Branch(Some(branch)) => {
            let expected = branch_name(bead_id);
            if same(branch.as_str(), expected.as_str()) {
                Step::Finish(Ok(()))
            } else {
                failed(ErrorKind::WrongMergeTarget, branch.as_str())
            }
        },
        Reply::Branch(None) => failed(ErrorKind::WrongMergeTarget, ""),
        _ => unexpected(),
    }
}

/// What ends a claim once its work is settled: with `removal`, the
/// worktree and branch are removed first (`Some(true)` discards unmerged
/// work); then the tracker is given `status`; last, the claim is deleted. A
/// step that fails ends the sequence with its error, so the claim outlives
/// every failure before its deletion.
pub open spec fn retire_plan(
    bead_id: Seq<char>,
    removal: Option<bool>,
    status: Seq<char>,
    replies: Seq<ReplyView>,
) -> StepView<()> {
    match removal {
        Some(force) => {
            if replies.len() == 0 {
                StepView::Ask(ActionView::RemoveWorktree { bead_id, force })
            } else {
                match replies[0] {
                    ReplyView::Done => retire_status_plan(bead_id, status, replies.skip(1)),
                    ReplyView::Failed(m) => fail(ErrorKind::VcsFailure, m),
                    _ => misfit(),
                }
            }
        },
        None => retire_status_plan(bead_id, status, replies),
    }
}

/// The end of [`retire_plan`]: the tracker update, then the deletion.
pub open spec fn retire_status_plan(
    bead_id: Seq<char>,
    status: Seq<char>,
    replies: Seq<ReplyView>,
) -> StepView<()> {
    if replies.len() == 0 {
        StepView::Ask(ActionView::UpdateBeadStatus { bead_id, status })
    } else {
        match replies[0] {
            ReplyView::Done => {
                if replies.len() == 1 {
                    StepView::Ask(ActionView::DeleteClaim { bead_id })
                } else {
                    match replies[1] {
                        ReplyView::Done => StepView::Finish(Ok(())),
                        ReplyView::Failed(m) => fail(ErrorKind::StoreFailure, m),
                        _ => misfit(),
                    }
                }
            },
            ReplyView::Failed(m) => fail(ErrorKind::TrackerFailure, m),
            _ => misfit(),
        }
    }
}

/// Follows [`retire_plan`] over the replies from position `from` on.
pub(crate) fn retire(
    bead_id: &str,
    removal: Option<bool>,
    status: &str,
    replies: &Vec<Reply>,
    from: usize,
) -> (step: Step<()>)
    requires
        from <= replies.len(),
    ensures
        step@ == retire_plan(bead_id@, removal, status@, replies.deep_view().skip(from as int)),
{
    let ghost rest = replies.deep_view().skip(from as int);
    let mut at = from;
    match removal {
        Some(force) => {
            if at >= replies.len() {
                return Step::Ask(Action::RemoveWorktree { bead_id: bead_id.to_string(), force });
            }
            assert(rest[0] == replies[at as int]@);
            match &replies[at] {
                Reply::Done => {},
                Reply::Failed(m) => {
                    return failed(ErrorKind::VcsFailure, m.as_str());
                },
                _ => {
                    return unexpected();
                },
            }
            at = at + 1;
            assert(rest.skip(1) =~= replies.deep_view().skip(at as int));
        },
        None => {},
    }
    let ghost tail = replies.deep_view().skip(at as int);
    if at >= replies.len() {
        return Step::Ask(
            Action::UpdateBeadStatus { bead_id: bead_id.to_string(), status: status.to_string() },
        );
    }
    assert(tail[0] == replies[at as int]@);
    match &replies[at] {
        Reply::Done => {},
        Reply::Failed(m) => {
            return failed(ErrorKind::TrackerFailure, m.as_str());
        },
        _ => {
            return unexpected();
        },
    }
    if at + 1 >= replies.len() {
        return Step::Ask(Action::DeleteClaim { bead_id: bead_id.to_string() });
    }
    assert(tail[1] == replies[at + 1]@);
    match &replies[at + 1] {
        Reply::Done => Step::Finish(Ok(())),
        Reply::Failed(m) => failed(ErrorKind::StoreFailure, m.as_str()),
        _ => unexpected(),
    }
}

} // verus!
