//! Claiming a bead by its identifier.

use crate::beads::BeadInfoView;
use crate::protocol::{
    error_of, fail, failed, misfit, unexpected, Action, ActionView, ErrorKind, LifecycleError,
    LifecycleErrorView, Reply, ReplyView, Step, StepView,
};
use crate::text::same;
use crate::tools::{acquire, acquire_plan};
use crate::worktree::WorktreeInfoView;
use vstd::prelude::*;

verus! {

/// What a claim reports.
#[derive(Debug, PartialEq, Eq)]
pub struct ClaimOutput {
    pub success: bool,
    pub bead_id: String,
    pub title: Option<String>,
    pub description: Option<String>,
    pub worktree_path: Option<String>,
    pub branch: Option<String>,
    pub message: String,
    /// Why the claim was refused, where it was.
    pub error: Option<LifecycleError>,
}

/// What a [`ClaimOutput`] holds, as mathematical values.
pub struct ClaimOutputView {
    pub success: bool,
    pub bead_id: Seq<char>,
    pub title: Option<Seq<char>>,
    pub description: Option<Seq<char>>,
    pub worktree_path: Option<Seq<char>>,
    pub branch: Option<Seq<char>>,
    pub message: Seq<char>,
    pub error: Option<LifecycleErrorView>,
}

impl View for ClaimOutput {
    type V = ClaimOutputView;

    open spec fn view(&self) -> ClaimOutputView {
        ClaimOutputView {
            success: self.success,
            bead_id: self.bead_id@,
            title: self.title.deep_view(),
            description: self.description.deep_view(),
            worktree_path: self.worktree_path.deep_view(),
            branch: self.branch.deep_view(),
            message: self.message@,
            error: self.error.deep_view(),
        }
    }
}

/// The report of a claim that was refused.
pub open spec fn claim_refused(
    bead_id: Seq<char>,
    title: Option<Seq<char>>,
    description: Option<Seq<char>>,
    kind: ErrorKind,
    detail: Seq<char>,
    message: Seq<char>,
) -> StepView<ClaimOutputView> {
    StepView::Finish(
        Ok(
            ClaimOutputView {
                success: false,
                bead_id,
                title,
                description,
                worktree_path: None,
                branch: None,
                message,
                error: Some(error_of(kind, detail)),
            },
        ),
    )
}

/// The report of a claim that was granted, for work in `worktree`.
pub open spec fn claim_granted(bead: BeadInfoView, bead_id: Seq<char>, worktree: WorktreeInfoView) -> StepView<
    ClaimOutputView,
> {
    StepView::Finish(
        Ok(
            ClaimOutputView {
                success: true,
                bead_id,
                title: Some(bead.title),
                description: bead.description,
                worktree_path: Some(worktree.path),
                branch: Some(worktree.branch),
                message: "Claimed "@ + bead_id + " - work in "@ + worktree.path,
                error: None,
            },
        ),
    )
}

/// What the caller is told of a bead that is not ready.
pub open spec fn not_ready_message(bead_id: Seq<char>, status: Seq<char>) -> Seq<char> {
    "Bead "@ + bead_id + " is not ready (status: "@ + status
        + ", may be blocked by dependencies). Use --force to override."@
}

/// What a claim of `bead_id` by `agent_id` at `now` does next, given the
/// replies so far.
///
/// First the claim table is asked: a bead that has a claim is refused as
/// `AlreadyClaimed`, with its owner, whatever else holds of it. Then the
/// tracker is asked for the bead: a closed bead is refused; without `force`,
/// so is a bead that is not ready. Then the bead is acquired as
/// [`acquire_plan`] says.
pub open spec fn claim_plan(
    bead_id: Seq<char>,
    agent_id: Seq<char>,
    force: bool,
    now: int,
    replies: Seq<ReplyView>,
) -> StepView<ClaimOutputView> {
    if replies.len() == 0 {
        StepView::Ask(ActionView::FindClaim { bead_id })
    } else {
        match replies[0] {
            ReplyView::Failed(m) => fail(ErrorKind::StoreFailure, m),
            ReplyView::Claim(Some(c)) => claim_refused(
                bead_id,
                None,
                None,
                ErrorKind::AlreadyClaimed,
                c.agent_id,
                "Bead "@ + bead_id + " is already claimed"@,
            ),
            ReplyView::Claim(None) => claim_bead_plan(bead_id, agent_id, force, now, replies.skip(1)),
            _ => misfit(),
        }
    }
}

/// [`claim_plan`] from the look at the tracker on.
pub open spec fn claim_bead_plan(
    bead_id: Seq<char>,
    agent_id: Seq<char>,
    force: bool,
    now: int,
    replies: Seq<ReplyView>,
) -> StepView<ClaimOutputView> {
    if replies.len() == 0 {
        StepView::Ask(ActionView::GetBead { bead_id })
    } else {
        match replies[0] {
            ReplyView::Failed(m) => fail(ErrorKind::TrackerFailure, "Failed to get bead: "@ + m),
            ReplyView::Bead(bead) => {
                if bead.status == "closed"@ {
                    claim_refused(
                        bead_id,
                        Some(bead.title),
                        bead.description,
                        ErrorKind::NotClaimable,
                        bead.status,
                        "Bead "@ + bead_id + " is already closed"@,
                    )
                } else if force {
                    claim_acquire_plan(bead, bead_id, agent_id, now, replies.skip(1))
                } else {
                    claim_ready_plan(bead, bead_id, agent_id, now, replies.skip(1))
                }
            },
            _ => misfit(),
        }
    }
}

/// [`claim_plan`] from the readiness check on.
pub open spec fn claim_ready_plan(
    bead: BeadInfoView,
    bead_id: Seq<char>,
    agent_id: Seq<char>,
    now: int,
    replies: Seq<ReplyView>,
) -> StepView<ClaimOutputView> {
    if replies.len() == 0 {
        StepView::Ask(ActionView::IsBeadReady { bead_id })
    } else {
        match replies[0] {
            ReplyView::Failed(m) => fail(
                ErrorKind::TrackerFailure,
                "Failed to check bead readiness: "@ + m,
            ),
            ReplyView::Flag(ready) => {
                if ready {
                    claim_acquire_plan(bead, bead_id, agent_id, now, replies.skip(1))
                } else {
                    claim_refused(
                        bead_id,
                        Some(bead.title),
                        bead.description,
                        ErrorKind::NotClaimable,
                        bead.status,
                        not_ready_message(bead_id, bead.status),
                    )
                }
            },
            _ => misfit(),
        }
    }
}

/// The end of [`claim_plan`]: the bead is acquired, and the claim reports it.
pub open spec fn claim_acquire_plan(
    bead: BeadInfoView,
    bead_id: Seq<char>,
    agent_id: Seq<char>,
    now: int,
    replies: Seq<ReplyView>,
) -> StepView<ClaimOutputView> {
    match acquire_plan(bead_id, agent_id, now, replies) {
        StepView::Ask(a) => StepView::Ask(a),
        StepView::Finish(Ok(worktree)) => claim_granted(bead, bead_id, worktree),
        StepView::Finish(Err(e)) => StepView::Finish(Err(e)),
    }
}

fn refused(
    bead_id: &str,
    title: Option<String>,
    description: Option<String>,
    kind: ErrorKind,
    detail: &str,
    message: String,
) -> (step: Step<ClaimOutput>)
    ensures
        step@ == claim_refused(
            bead_id@,
            title.deep_view(),
            description.deep_view(),
            kind,
            detail@,
            message@,
        ),
{
    Step::Finish(
        Ok(
            ClaimOutput {
                success: false,
                bead_id: bead_id.to_string(),
                title,
                description,
                worktree_path: None,
                branch: None,
                message,
                error: Some(LifecycleError::new(kind, detail)),
            },
        ),
    )
}

/// Claims `bead_id` for `agent_id` at `now` (epoch milliseconds): returns
/// the next request, or the report once the claim has ended. With `force`
/// the bead need not be ready. `replies` holds the replies to the requests
/// made so far, in order.
pub fn claim_task(bead_id: &str, agent_id: &str, force: bool, now: i64, replies: &Vec<Reply>) -> (step:
    Step<ClaimOutput>)
    ensures
        step@ == claim_plan(bead_id@, agent_id@, force, now as int, replies.deep_view()),
{
    let ghost all = replies.deep_view();
    if replies.len() == 0 {
        return Step::Ask(Action::FindClaim { bead_id: bead_id.to_string() });
    }
    assert(all[0] == replies[0]@);
    match &replies[0] {
        Reply::Failed(m) => {
            return failed(ErrorKind::StoreFailure, m.as_str());
        },
        Reply::Claim(Some(c)) => {
            let mut message = String::from_str("Bead ");
            message.append(bead_id);
            message.append(" is already claimed");
            return refused(
                bead_id,
                None,
                None,
                ErrorKind::AlreadyClaimed,
                c.agent_id.as_str(),
                message,
            );
        },
        Reply::Claim(None) => {},
        _ => {
            return unexpected();
        },
    }
    let ghost rest1 = all.skip(1);
    if replies.len() == 1 {
        return Step::Ask(Action::GetBead { bead_id: bead_id.to_string() });
    }
    assert(rest1[0] == replies[1]@);
    let bead = match &replies[1] {
        Reply::Failed(m) => {
            let mut detail = String::from_str("Failed to get bead: ");
            detail.append(m.as_str());
            return failed(ErrorKind::TrackerFailure, detail.as_str());
        },
        Reply::Bead(b) => b,
        _ => {
            return unexpected();
        },
    };
    if same(bead.status.as_str(), "closed") {
        let mut message = String::from_str("Bead ");
        message.append(bead_id);
        message.append(" is already closed");
        return refused(
            bead_id,
            Some(bead.title.clone()),
            bead.description.clone(),
            ErrorKind::NotClaimable,
            bead.status.as_str(),
            message,
        );
    }
    let mut from: usize = 2;
    let ghost rest2 = rest1.skip(1);
    assert(rest2 =~= all.skip(2));
    if !force {
        if replies.len() == 2 {
            return Step::Ask(Action::IsBeadReady { bead_id: bead_id.to_string() });
        }
        assert(rest2[0] == replies[2]@);
        match &replies[2] {
            Reply::Failed(m) => {
                let mut detail = String::from_str("Failed to check bead readiness: ");
                detail.append(m.as_str());
                return failed(ErrorKind::TrackerFailure, detail.as_str());
            },
            Reply::Flag(ready) => {
                if !*ready {
                    let mut message = String::from_str("Bead ");
                    message.append(bead_id);
                    message.append(" is not ready (status: ");
                    message.append(bead.status.as_str());
                    message.append(", may be blocked by dependencies). Use --force to override.");
                    return refused(
                        bead_id,
                        Some(bead.title.clone()),
                        bead.description.clone(),
                        ErrorKind::NotClaimable,
                        bead.status.as_str(),
                        message,
                    );
                }
            },
            _ => {
                return unexpected();
            },
        }
        from = 3;
        assert(rest2.skip(1) =~= all.skip(3));
    }
    match acquire(bead_id, agent_id, now, replies, from) {
        Step::Ask(a) => Step::Ask(a),
        Step::Finish(Ok(worktree)) => {
            let mut message = String::from_str("Claimed ");
            message.append(bead_id);
            message.append(" - work in ");
            message.append(worktree.path.as_str());
            Step::Finish(
                Ok(
                    ClaimOutput {
                        success: true,
                        bead_id: bead_id.to_string(),
                        title: Some(bead.title.clone()),
                        description: bead.description.clone(),
                        worktree_path: Some(worktree.path),
                        branch: Some(worktree.branch),
                        message,
                        error: None,
                    },
                ),
            )
        },
        Step::Finish(Err(e)) => Step::Finish(Err(e)),
    }
}

} // verus!
