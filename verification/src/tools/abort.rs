//! Aborting the merge that a release left in conflict.

use crate::protocol::{
    error_of, fail, failed, misfit, unexpected, Action, ActionView, ErrorKind, LifecycleError,
    LifecycleErrorView, Reply, ReplyView, Step, StepView,
};
use crate::tools::{merge_guard, merge_guard_plan};
use crate::worktree::branch_of;
use vstd::prelude::*;

verus! {

/// What an abort reports.
#[derive(Debug, PartialEq, Eq)]
pub struct AbortOutput {
    pub success: bool,
    pub bead_id: String,
    pub message: String,
    /// Why the abort was refused, where it was.
    pub error: Option<LifecycleError>,
}

/// What an [`AbortOutput`] holds, as mathematical values.
pub struct AbortOutputView {
    pub success: bool,
    pub bead_id: Seq<char>,
    pub message: Seq<char>,
    pub error: Option<LifecycleErrorView>,
}

impl View for AbortOutput {
    type V = AbortOutputView;

    open spec fn view(&self) -> AbortOutputView {
        AbortOutputView {
            success: self.success,
            bead_id: self.bead_id@,
            message: self.message@,
            error: self.error.deep_view(),
        }
    }
}

/// What the caller is told when an abort is refused for `kind`.
pub open spec fn abort_refusal_message(
    bead_id: Seq<char>,
    kind: ErrorKind,
    detail: Seq<char>,
) -> Seq<char> {
    if kind == ErrorKind::NotFound {
        "No claim found for "@ + bead_id
    } else if kind == ErrorKind::NotMerging {
        "Not in a merge conflict state. Nothing to abort."@
    } else {
        "Current merge conflict is for '"@ + detail + "', not '"@ + branch_of(bead_id)
            + "'. Abort the correct bead."@
    }
}

/// What the caller is told when the merge was aborted.
pub open spec fn abort_message(bead_id: Seq<char>) -> Seq<char> {
    "Aborted merge for "@ + bead_id + ". Worktree preserved at .bacchus/worktrees/"@ + bead_id
        + ". Continue working or release with --status failed."@
}

/// The report of an abort that was refused.
pub open spec fn abort_refused(bead_id: Seq<char>, kind: ErrorKind, detail: Seq<char>) -> StepView<
    AbortOutputView,
> {
    StepView::Finish(
        Ok(
            AbortOutputView {
                success: false,
                bead_id,
                message: abort_refusal_message(bead_id, kind, detail),
                error: Some(error_of(kind, detail)),
            },
        ),
    )
}

/// What an abort of the merge for `bead_id` does next, given the replies so
/// far.
///
/// The guard of [`merge_guard_plan`] must hold: without a claim, without a
/// merge in progress, or with another bead's merge in progress, the abort is
/// refused and nothing is asked of version control. Then the merge is
/// aborted. The claim and the worktree are never touched.
pub open spec fn abort_plan(bead_id: Seq<char>, replies: Seq<ReplyView>) -> StepView<
    AbortOutputView,
> {
    match merge_guard_plan(bead_id, replies) {
        StepView::Ask(a) => StepView::Ask(a),
        StepView::Finish(Err(e)) => {
            if e.kind == ErrorKind::NotFound || e.kind == ErrorKind::NotMerging || e.kind
                == ErrorKind::WrongMergeTarget {
                abort_refused(bead_id, e.kind, e.detail)
            } else {
                StepView::Finish(Err(e))
            }
        },
        StepView::Finish(Ok(_)) => {
            if replies.len() <= 3 {
                StepView::Ask(ActionView::AbortMerge)
            } else {
                match replies[3] {
                    ReplyView::Done => StepView::Finish(
                        Ok(
                            AbortOutputView {
                                success: true,
                                bead_id,
                                message: abort_message(bead_id),
                                error: None,
                            },
                        ),
                    ),
                    ReplyView::Failed(m) => fail(ErrorKind::VcsFailure, m),
                    _ => misfit(),
                }
            }
        },
    }
}

/// Aborts the merge in progress for `bead_id`: returns the next request, or
/// the report once the abort has ended. `replies` holds the replies to the
/// requests made so far, in order.
pub fn abort_merge(bead_id: &str, replies: &Vec<Reply>) -> (step: Step<AbortOutput>)
    ensures
        step@ == abort_plan(bead_id@, replies.deep_view()),
{
    let ghost all = replies.deep_view();
    match merge_guard(bead_id, replies) {
        Step::Ask(a) => Step::Ask(a),
        Step::Finish(Err(e)) => {
            let mut message = String::new();
            match e.kind {
                ErrorKind::NotFound => {
                    message.append("No claim found for ");
                    message.append(bead_id);
                },
                ErrorKind::NotMerging => {
                    message.append("Not in a merge conflict state. Nothing to abort.");
                },
                ErrorKind::WrongMergeTarget => {
                    message.append("Current merge conflict is for '");
                    message.append(e.detail.as_str());
                    message.append("', not '");
                    message.append("bacchus/");
                    message.append(bead_id);
                    message.append("'. Abort the correct bead.");
                },
                _ => {
                    return Step::Finish(Err(e));
                },
            }
            assert(message@ =~= abort_refusal_message(bead_id@, e.kind, e.detail@));
            Step::Finish(
                Ok(
                    AbortOutput {
                        success: false,
                        bead_id: bead_id.to_string(),
                        message,
                        error: Some(e),
                    },
                ),
            )
        },
        Step::Finish(Ok(_)) => {
            if replies.len() <= 3 {
                return Step::Ask(Action::AbortMerge);
            }
            assert(all[3] == replies[3]@);
            match &replies[3] {
                Reply::Done => {
                    let mut message = String::from_str("Aborted merge for ");
                    message.append(bead_id);
                    message.append(". Worktree preserved at .bacchus/worktrees/");
                    message.append(bead_id);
                    message.append(". Continue working or release with --status failed.");
                    Step::Finish(
                        Ok(
                            AbortOutput {
                                success: true,
                                bead_id: bead_id.to_string(),
                                message,
                                error: None,
                            },
                        ),
                    )
                },
                Reply::Failed(m) => failed(ErrorKind::VcsFailure, m.as_str()),
                _ => unexpected(),
            }
        },
    }
}

} // verus!
