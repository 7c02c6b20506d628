//! Releasing a claimed bead: merged, set aside as blocked, or thrown away.

use crate::protocol::{
    fail, failed, misfit, unexpected, Action, ActionView, ErrorKind, LifecycleError,
    LifecycleErrorView, Reply, ReplyView, Step, StepView, error_of,
};
use crate::text::same;
use crate::tools::{retire, retire_plan};
use vstd::prelude::*;

verus! {

/// What a release reports.
#[derive(Debug, PartialEq, Eq)]
pub struct ReleaseOutput {
    pub success: bool,
    pub bead_id: String,
    pub status: String,
    pub merged: bool,
    pub message: String,
    /// Why the release was refused, where it was.
    pub error: Option<LifecycleError>,
}

/// What a [`ReleaseOutput`] holds, as mathematical values.
pub struct ReleaseOutputView {
    pub success: bool,
    pub bead_id: Seq<char>,
    pub status: Seq<char>,
    pub merged: bool,
    pub message: Seq<char>,
    pub error: Option<LifecycleErrorView>,
}

impl View for ReleaseOutput {
    type V = ReleaseOutputView;

    open spec fn view(&self) -> ReleaseOutputView {
        ReleaseOutputView {
            success: self.success,
            bead_id: self.bead_id@,
            status: self.status@,
            merged: self.merged,
            message: self.message@,
            error: self.error.deep_view(),
        }
    }
}

/// The branch that finished work is merged into.
pub open spec fn merge_target() -> Seq<char> {
    "main"@
}

/// What the caller is told when the merge stopped on conflicts.
pub open spec fn conflict_message(bead_id: Seq<char>) -> Seq<char> {
    "Merge conflict detected. Options:\n1. Resolve conflicts manually, then: bacchus resolve "@
        + bead_id + "\n2. Abort merge, keep working: bacchus abort "@ + bead_id
        + "\n3. Discard all work: bacchus release "@ + bead_id + " --status failed"@
}

/// The report of a release that was refused.
pub open spec fn release_refused(
    bead_id: Seq<char>,
    status: Seq<char>,
    kind: ErrorKind,
    detail: Seq<char>,
    message: Seq<char>,
) -> StepView<ReleaseOutputView> {
    StepView::Finish(
        Ok(
            ReleaseOutputView {
                success: false,
                bead_id,
                status,
                merged: false,
                message,
                error: Some(error_of(kind, detail)),
            },
        ),
    )
}

/// The report of a release that went through.
pub open spec fn release_granted(
    bead_id: Seq<char>,
    status: Seq<char>,
    merged: bool,
) -> StepView<ReleaseOutputView> {
    StepView::Finish(
        Ok(
            ReleaseOutputView {
                success: true,
                bead_id,
                status,
                merged,
                message: "Released "@ + bead_id + " with status "@ + status,
                error: None,
            },
        ),
    )
}

/// The end of a release: the claim is retired, and the release reports it.
pub open spec fn release_retire_plan(
    bead_id: Seq<char>,
    status: Seq<char>,
    removal: Option<bool>,
    tracker_status: Seq<char>,
    merged: bool,
    replies: Seq<ReplyView>,
) -> StepView<ReleaseOutputView> {
    match retire_plan(bead_id, removal, tracker_status, replies) {
        StepView::Ask(a) => StepView::Ask(a),
        StepView::Finish(Ok(_)) => release_granted(bead_id, status, merged),
        StepView::Finish(Err(e)) => StepView::Finish(Err(e)),
    }
}

/// What a release of `bead_id` with `status` does next, given the replies
/// so far.
///
/// The bead must have a claim. Then, by `status`:
/// - `done`: the bead's branch is merged into `main`. Where the merge stops
///   on conflicts or fails, the release is refused and the claim stays, so
///   that the merge can be resolved or aborted. After a clean merge the
///   worktree is removed without force, the tracker is told `closed`, and the
///   claim is deleted.
/// - `blocked`: the worktree stays; the tracker is told `blocked`, and the
///   claim is deleted.
/// - `failed`: the worktree is removed with force, the tracker is told
///   `open`, and the claim is deleted.
/// - anything else is refused.
pub open spec fn release_plan(
    bead_id: Seq<char>,
    status: Seq<char>,
    replies: Seq<ReplyView>,
) -> StepView<ReleaseOutputView> {
    if replies.len() == 0 {
        StepView::Ask(ActionView::FindClaim { bead_id })
    } else {
        match replies[0] {
            ReplyView::Failed(m) => fail(ErrorKind::StoreFailure, m),
            ReplyView::Claim(None) => release_refused(
                bead_id,
                status,
                ErrorKind::NotFound,
                bead_id,
                "No claim found for "@ + bead_id,
            ),
            ReplyView::Claim(Some(_)) => {
                if status == "done"@ {
                    release_done_plan(bead_id, status, replies.skip(1))
                } else if status == "blocked"@ {
                    release_retire_plan(bead_id, status, None, "blocked"@, false, replies.skip(1))
                } else if status == "failed"@ {
                    release_retire_plan(
                        bead_id,
                        status,
                        Some(true),
                        "open"@,
                        false,
                        replies.skip(1),
                    )
                } else {
                    release_refused(
                        bead_id,
                        status,
                        ErrorKind::InvalidStatus,
                        status,
                        "Invalid status: "@ + status + ". Use done, blocked, or failed"@,
                    )
                }
            },
            _ => misfit(),
        }
    }
}

/// A release with status `done`, from the merge on.
pub open spec fn release_done_plan(
    bead_id: Seq<char>,
    status: Seq<char>,
    replies: Seq<ReplyView>,
) -> StepView<ReleaseOutputView> {
    if replies.len() == 0 {
        StepView::Ask(ActionView::MergeWorktree { bead_id, target: merge_target() })
    } else {
        match replies[0] {
            ReplyView::Done => release_retire_plan(
                bead_id,
                status,
                Some(false),
                "closed"@,
                true,
                replies.skip(1),
            ),
            ReplyView::Conflict(_) => release_refused(
                bead_id,
                status,
                ErrorKind::MergeConflict,
                bead_id,
                conflict_message(bead_id),
            ),
            ReplyView::Failed(m) => release_refused(
                bead_id,
                status,
                ErrorKind::VcsFailure,
                m,
                "Failed to merge: "@ + m,
            ),
            _ => misfit(),
        }
    }
}

fn refused(bead_id: &str, status: &str, kind: ErrorKind, detail: &str, message: String) -> (step:
    Step<ReleaseOutput>)
    ensures
        step@ == release_refused(bead_id@, status@, kind, detail@, message@),
{
    Step::Finish(
        Ok(
            ReleaseOutput {
                success: false,
                bead_id: bead_id.to_string(),
                status: status.to_string(),
                merged: false,
                message,
                error: Some(LifecycleError::new(kind, detail)),
            },
        ),
    )
}

fn finish(
    bead_id: &str,
    status: &str,
    removal: Option<bool>,
    tracker_status: &str,
    merged: bool,
    replies: &Vec<Reply>,
    from: usize,
) -> (step: Step<ReleaseOutput>)
    requires
        from <= replies.len(),
    ensures
        step@ == release_retire_plan(
            bead_id@,
            status@,
            removal,
            tracker_status@,
            merged,
            replies.deep_view().skip(from as int),
        ),
{
    match retire(bead_id, removal, tracker_status, replies, from) {
        Step::Ask(a) => Step::Ask(a),
        Step::Finish(Ok(_)) => {
            let mut message = String::from_str("Released ");
            message.append(bead_id);
            message.append(" with status ");
            message.append(status);
            Step::Finish(
                Ok(
                    ReleaseOutput {
                        success: true,
                        bead_id: bead_id.to_string(),
                        status: status.to_string(),
                        merged,
                        message,
                        error: None,
                    },
                ),
            )
        },
        Step::Finish(Err(e)) => Step::Finish(Err(e)),
    }
}

/// Releases the claim on `bead_id` with `status` (`done`, `blocked` or
/// `failed`): returns the next request, or the report once the release has
/// ended. `replies` holds the replies to the requests made so far, in
/// order.
pub fn release_bead(bead_id: &str, status: &str, replies: &Vec<Reply>) -> (step: Step<
    ReleaseOutput,
>)
    ensures
        step@ == release_plan(bead_id@, status@, replies.deep_view()),
{
    let ghost all = replies.deep_view();
    if replies.len() == 0 {
        return Step::Ask(Action::FindClaim { bead_id: bead_id.to_string() });
    }
    assert(all[0] == replies[0]@);
    match &replies[0] {
        Reply::Failed(m) => {
            return failed(ErrorKind::StoreFailure, m.as_str());
        },
        Reply::Claim(None) => {
            let mut message = String::from_str("No claim found for ");
            message.append(bead_id);
            return refused(bead_id, status, ErrorKind::NotFound, bead_id, message);
        },
        Reply::Claim(Some(_)) => {},
        _ => {
            return unexpected();
        },
    }
    if same(status, "done") {
        let ghost rest = all.skip(1);
        if replies.len() == 1 {
            return Step::Ask(
                Action::MergeWorktree {
                    bead_id: bead_id.to_string(),
                    target: "main".to_string(),
                },
            );
        }
        assert(rest[0] == replies[1]@);
        match &replies[1] {
            Reply::Done => {
                assert(rest.skip(1) =~= all.skip(2));
                finish(bead_id, status, Some(false), "closed", true, replies, 2)
            },
            Reply::Conflict(_) => {
                let mut message = String::from_str(
                    "Merge conflict detected. Options:\n1. Resolve conflicts manually, then: bacchus resolve ",
                );
                message.append(bead_id);
                message.append("\n2. Abort merge, keep working: bacchus abort ");
                message.append(bead_id);
                message.append("\n3. Discard all work: bacchus release ");
                message.append(bead_id);
                message.append(" --status failed");
                refused(bead_id, status, ErrorKind::MergeConflict, bead_id, message)
            },
            Reply::Failed(m) => {
                let mut message = String::from_str("Failed to merge: ");
                message.append(m.as_str());
                refused(bead_id, status, ErrorKind::VcsFailure, m.as_str(), message)
            },
            _ => unexpected(),
        }
    } else if same(status, "blocked") {
        finish(bead_id, status, None, "blocked", false, replies, 1)
    } else if same(status, "failed") {
        finish(bead_id, status, Some(true), "open", false, replies, 1)
    } else {
        let mut message = String::from_str("Invalid status: ");
        message.append(status);
        message.append(". Use done, blocked, or failed");
        refused(bead_id, status, ErrorKind::InvalidStatus, status, message)
    }
}

} // verus!
