//! Completing a merge whose conflicts were resolved by hand.

use crate::protocol::{
    error_of, fail, failed, misfit, unexpected, Action, ActionView, ErrorKind, LifecycleError,
    LifecycleErrorView, Reply, ReplyView, Step, StepView,
};
use crate::tools::{merge_guard, merge_guard_plan, retire, retire_plan};
use crate::worktree::branch_of;
use vstd::prelude::*;

verus! {

/// What a resolve reports.
#[derive(Debug, PartialEq, Eq)]
pub struct ResolveOutput {
    pub success: bool,
    pub bead_id: String,
    pub merged: bool,
    pub message: String,
    /// Why the resolve was refused, where it was.
    pub error: Option<LifecycleError>,
}

/// What a [`ResolveOutput`] holds, as mathematical values.
pub struct ResolveOutputView {
    pub success: bool,
    pub bead_id: Seq<char>,
    pub merged: bool,
    pub message: Seq<char>,
    pub error: Option<LifecycleErrorView>,
}

impl View for ResolveOutput {
    type V = ResolveOutputView;

    open spec fn view(&self) -> ResolveOutputView {
        ResolveOutputView {
            success: self.success,
            bead_id: self.bead_id@,
            merged: self.merged,
            message: self.message@,
            error: self.error.deep_view(),
        }
    }
}

/// What the caller is told when a resolve is refused for `kind`.
pub open spec fn resolve_refusal_message(
    bead_id: Seq<char>,
    kind: ErrorKind,
    detail: Seq<char>,
) -> Seq<char> {
    if kind == ErrorKind::NotFound {
        "No claim found for "@ + bead_id
    } else if kind == ErrorKind::NotMerging {
        "Not in a merge state. Use 'bacchus release --status done' instead."@
    } else if kind == ErrorKind::UnresolvedConflicts {
        "Unresolved conflicts remain. Fix all conflicts and stage changes with 'git add'."@
    } else {
        "Current merge is for '"@ + detail + "', not '"@ + branch_of(bead_id)
            + "'. Resolve the correct bead."@
    }
}

/// The report of a resolve that was refused.
pub open spec fn resolve_refused(bead_id: Seq<char>, kind: ErrorKind, detail: Seq<char>) -> StepView<
    ResolveOutputView,
> {
    StepView::Finish(
        Ok(
            ResolveOutputView {
                success: false,
                bead_id,
                merged: false,
                message: resolve_refusal_message(bead_id, kind, detail),
                error: Some(error_of(kind, detail)),
            },
        ),
    )
}

/// The report of a resolve that went through.
pub open spec fn resolve_granted(bead_id: Seq<char>) -> StepView<ResolveOutputView> {
    StepView::Finish(
        Ok(
            ResolveOutputView {
                success: true,
                bead_id,
                merged: true,
                message: "Merge completed for "@ + bead_id + ". Worktree removed, bead closed."@,
                error: None,
            },
        ),
    )
}

/// What a resolve of the merge for `bead_id` does next, given the replies
/// so far.
///
/// The guard of [`merge_guard_plan`] must hold. Then version control is
/// asked whether paths are still unmerged: if so, the resolve is refused as
/// `UnresolvedConflicts` and nothing is changed. Else the merge is completed,
/// the worktree is removed without force, the tracker is told `closed`, and
/// the claim is deleted.
pub open spec fn resolve_plan(bead_id: Seq<char>, replies: Seq<ReplyView>) -> StepView<
    ResolveOutputView,
> {
    match merge_guard_plan(bead_id, replies) {
        StepView::Ask(a) => StepView::Ask(a),
        StepView::Finish(Err(e)) => {
            if e.kind == ErrorKind::NotFound || e.kind == ErrorKind::NotMerging || e.kind
                == ErrorKind::WrongMergeTarget {
                resolve_refused(bead_id, e.kind, e.detail)
            } else {
                StepView::Finish(Err(e))
            }
        },
        StepView::Finish(Ok(_)) => resolve_merge_plan(bead_id, replies.skip(3)),
    }
}

/// [`resolve_plan`] once the guard holds.
pub open spec fn resolve_merge_plan(bead_id: Seq<char>, replies: Seq<ReplyView>) -> StepView<
    ResolveOutputView,
> {
    if replies.len() == 0 {
        StepView::Ask(ActionView::HasUnresolvedConflicts)
    } else {
        match replies[0] {
            ReplyView::Failed(m) => fail(ErrorKind::VcsFailure, m),
            ReplyView::Flag(unresolved) => {
                if unresolved {
                    resolve_refused(bead_id, ErrorKind::UnresolvedConflicts, bead_id)
                } else if replies.len() == 1 {
                    StepView::Ask(ActionView::CompleteMerge)
                } else {
                    match replies[1] {
                        ReplyView::Done => match retire_plan(
                            bead_id,
                            Some(false),
                            "closed"@,
                            replies.skip(2),
                        ) {
                            StepView::Ask(a) => StepView::Ask(a),
                            StepView::Finish(Ok(_)) => resolve_granted(bead_id),
                            StepView::Finish(Err(e)) => StepView::Finish(Err(e)),
                        },
                        ReplyView::Conflict(_) => resolve_refused(
                            bead_id,
                            ErrorKind::UnresolvedConflicts,
                            bead_id,
                        ),
                        ReplyView::Failed(m) => fail(ErrorKind::VcsFailure, m),
                        _ => misfit(),
                    }
                }
            },
            _ => misfit(),
        }
    }
}

fn refused(bead_id: &str, e: LifecycleError) -> (step: Step<ResolveOutput>)
    requires
        e.kind == ErrorKind::NotFound || e.kind == ErrorKind::NotMerging || e.kind
            == ErrorKind::WrongMergeTarget || e.kind == ErrorKind::UnresolvedConflicts,
    ensures
        step@ == resolve_refused(bead_id@, e.kind, e.detail@),
{
    let mut message = String::new();
    match e.kind {
        ErrorKind::NotFound => {
            message.append("No claim found for ");
            message.append(bead_id);
        },
        ErrorKind::NotMerging => {
            message.append("Not in a merge state. Use 'bacchus release --status done' instead.");
        },
        ErrorKind::UnresolvedConflicts => {
            message.append(
                "Unresolved conflicts remain. Fix all conflicts and stage changes with 'git add'.",
            );
        },
        _ => {
            message.append("Current merge is for '");
            message.append(e.detail.as_str());
            message.append("', not '");
            message.append("bacchus/");
            message.append(bead_id);
            message.append("'. Resolve the correct bead.");
        },
    }
    assert(message@ =~= resolve_refusal_message(bead_id@, e.kind, e.detail@));
    Step::Finish(
        Ok(
            ResolveOutput {
                success: false,
                bead_id: bead_id.to_string(),
                merged: false,
                message,
                error: Some(e),
            },
        ),
    )
}

/// Completes the merge in progress for `bead_id` and retires its claim:
/// returns the next request, or the report once the resolve has ended.
/// `replies` holds the replies to the requests made so far, in order.
pub fn resolve_merge(bead_id: &str, replies: &Vec<Reply>) -> (step: Step<ResolveOutput>)
    ensures
        step@ == resolve_plan(bead_id@, replies.deep_view()),
{
    let ghost all = replies.deep_view();
    match merge_guard(bead_id, replies) {
        Step::Ask(a) => {
            return Step::Ask(a);
        },
        Step::Finish(Err(e)) => {
            return match e.kind {
                ErrorKind::NotFound => refused(bead_id, e),
                ErrorKind::NotMerging => refused(bead_id, e),
                ErrorKind::WrongMergeTarget => refused(bead_id, e),
                _ => Step::Finish(Err(e)),
            };
        },
        Step::Finish(Ok(_)) => {},
    }
    let ghost rest = all.skip(3);
    if replies.len() == 3 {
        return Step::Ask(Action::HasUnresolvedConflicts);
    }
    assert(rest[0] == replies[3]@);
    match &replies[3] {
        Reply::Failed(m) => {
            return failed(ErrorKind::VcsFailure, m.as_str());
        },
        Reply::Flag(unresolved) => {
            if *unresolved {
                return refused(
                    bead_id,
                    LifecycleError::new(ErrorKind::UnresolvedConflicts, bead_id),
                );
            }
        },
        _ => {
            return unexpected();
        },
    }
    if replies.len() == 4 {
        return Step::Ask(Action::CompleteMerge);
    }
    assert(rest[1] == replies[4]@);
    match &replies[4] {
        Reply::Done => {},
        Reply::Conflict(_) => {
            return refused(bead_id, LifecycleError::new(ErrorKind::UnresolvedConflicts, bead_id));
        },
        Reply::Failed(m) => {
            return failed(ErrorKind::VcsFailure, m.as_str());
        },
        _ => {
            return unexpected();
        },
    }
    assert(rest.skip(2) =~= all.skip(5));
    match retire(bead_id, Some(false), "closed", replies, 5) {
        Step::Ask(a) => Step::Ask(a),
        Step::Finish(Ok(_)) => {
            let mut message = String::from_str("Merge completed for ");
            message.append(bead_id);
            message.append(". Worktree removed, bead closed.");
            Step::Finish(
                Ok(
                    ResolveOutput {
                        success: true,
                        bead_id: bead_id.to_string(),
                        merged: true,
                        message,
                        error: None,
                    },
                ),
            )
        },
        Step::Finish(Err(e)) => Step::Finish(Err(e)),
    }
}

} // verus!
