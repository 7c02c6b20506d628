//! Claiming the first bead that is ready and unclaimed.

use crate::beads::{BeadInfo, BeadInfoView};
use crate::protocol::{
    error_of, fail, failed, misfit, unexpected, Action, ActionView, ErrorKind, LifecycleError,
    LifecycleErrorView, Reply, ReplyView, Step, StepView,
};
use crate::tools::{acquire, acquire_plan};
use crate::worktree::WorktreeInfoView;
use vstd::prelude::*;

verus! {

/// What a request for the next bead reports.
#[derive(Debug, PartialEq, Eq)]
pub struct NextOutput {
    pub success: bool,
    pub bead_id: Option<String>,
    pub title: Option<String>,
    pub description: Option<String>,
    pub worktree_path: Option<String>,
    pub branch: Option<String>,
    pub message: String,
    /// Why no bead was handed out, where none was.
    pub error: Option<LifecycleError>,
}

/// What a [`NextOutput`] holds, as mathematical values.
pub struct NextOutputView {
    pub success: bool,
    pub bead_id: Option<Seq<char>>,
    pub title: Option<Seq<char>>,
    pub description: Option<Seq<char>>,
    pub worktree_path: Option<Seq<char>>,
    pub branch: Option<Seq<char>>,
    pub message: Seq<char>,
    pub error: Option<LifecycleErrorView>,
}

impl View for NextOutput {
    type V = NextOutputView;

    open spec fn view(&self) -> NextOutputView {
        NextOutputView {
            success: self.success,
            bead_id: self.bead_id.deep_view(),
            title: self.title.deep_view(),
            description: self.description.deep_view(),
            worktree_path: self.worktree_path.deep_view(),
            branch: self.branch.deep_view(),
            message: self.message@,
            error: self.error.deep_view(),
        }
    }
}

/// The report that no bead is ready and unclaimed.
pub open spec fn no_ready_work() -> StepView<NextOutputView> {
    StepView::Finish(
        Ok(
            NextOutputView {
                success: false,
                bead_id: None,
                title: None,
                description: None,
                worktree_path: None,
                branch: None,
                message: "No ready beads available"@,
                error: Some(error_of(ErrorKind::NoReadyWork, ""@)),
            },
        ),
    )
}

/// The report that `bead` was handed out, for work in `worktree`.
pub open spec fn next_granted(bead: BeadInfoView, worktree: WorktreeInfoView) -> StepView<
    NextOutputView,
> {
    StepView::Finish(
        Ok(
            NextOutputView {
                success: true,
                bead_id: Some(bead.id),
                title: Some(bead.title),
                description: bead.description,
                worktree_path: Some(worktree.path),
                branch: Some(worktree.branch),
                message: "Claimed "@ + bead.id + " - work in "@ + worktree.path,
                error: None,
            },
        ),
    )
}

/// What a request of `agent_id` for the next bead at `now` does next, given
/// the replies so far.
///
/// The tracker is asked for the ready beads, which it lists by priority and
/// then by identifier. They are taken in that order: the first that has no
/// claim is acquired as [`acquire_plan`] says. Where there is none, the
/// report is `NoReadyWork`.
pub open spec fn next_plan(agent_id: Seq<char>, now: int, replies: Seq<ReplyView>) -> StepView<
    NextOutputView,
> {
    if replies.len() == 0 {
        StepView::Ask(ActionView::GetReadyBeads)
    } else {
        match replies[0] {
            ReplyView::Failed(m) => fail(
                ErrorKind::TrackerFailure,
                "Failed to get ready beads: "@ + m,
            ),
            ReplyView::Beads(ready) => next_scan_plan(agent_id, now, ready, 0, replies.skip(1)),
            _ => misfit(),
        }
    }
}

/// [`next_plan`] once the beads before position `k` of `ready` are known to
/// be claimed.
pub open spec fn next_scan_plan(
    agent_id: Seq<char>,
    now: int,
    ready: Seq<BeadInfoView>,
    k: nat,
    replies: Seq<ReplyView>,
) -> StepView<NextOutputView>
    decreases ready.len() - k,
{
    if k >= ready.len() {
        no_ready_work()
    } else if replies.len() == 0 {
        StepView::Ask(ActionView::FindClaim { bead_id: ready[k as int].id })
    } else {
        match replies[0] {
            ReplyView::Failed(m) => fail(ErrorKind::StoreFailure, m),
            ReplyView::Claim(Some(_)) => next_scan_plan(
                agent_id,
                now,
                ready,
                k + 1,
                replies.skip(1),
            ),
            ReplyView::Claim(None) => next_acquire_plan(
                ready[k as int],
                agent_id,
                now,
                replies.skip(1),
            ),
            _ => misfit(),
        }
    }
}

/// The end of [`next_plan`]: `bead` is acquired, and the request reports it.
pub open spec fn next_acquire_plan(
    bead: BeadInfoView,
    agent_id: Seq<char>,
    now: int,
    replies: Seq<ReplyView>,
) -> StepView<NextOutputView> {
    match acquire_plan(bead.id, agent_id, now, replies) {
        StepView::Ask(a) => StepView::Ask(a),
        StepView::Finish(Ok(worktree)) => next_granted(bead, worktree),
        StepView::Finish(Err(e)) => StepView::Finish(Err(e)),
    }
}

fn grant(bead: &BeadInfo, agent_id: &str, now: i64, replies: &Vec<Reply>, from: usize) -> (step:
    Step<NextOutput>)
    requires
        from <= replies.len(),
    ensures
        step@ == next_acquire_plan(
            bead@,
            agent_id@,
            now as int,
            replies.deep_view().skip(from as int),
        ),
{
    match acquire(bead.id.as_str(), agent_id, now, replies, from) {
        Step::Ask(a) => Step::Ask(a),
        Step::Finish(Ok(worktree)) => {
            let mut message = String::from_str("Claimed ");
            message.append(bead.id.as_str());
            message.append(" - work in ");
            message.append(worktree.path.as_str());
            Step::Finish(
                Ok(
                    NextOutput {
                        success: true,
                        bead_id: Some(bead.id.clone()),
                        title: Some(bead.title.clone()),
                        description: bead.description.clone(),
                        worktree_path: Some(worktree.path),
                        branch: Some(worktree.branch),
                        message,
                        error: None,
                    },
                ),
            )
        },
        Step::Finish(Err(e)) => Step::Finish(Err(e)),
    }
}

/// Claims the first ready and unclaimed bead for `agent_id` at `now` (epoch
/// milliseconds): returns the next request, or the report once the request
/// has ended. `replies` holds the replies to the requests made so far, in
/// order.
pub fn next_task(agent_id: &str, now: i64, replies: &Vec<Reply>) -> (step: Step<NextOutput>)
    ensures
        step@ == next_plan(agent_id@, now as int, replies.deep_view()),
{
    let ghost all = replies.deep_view();
    if replies.len() == 0 {
        return Step::Ask(Action::GetReadyBeads);
    }
    assert(all[0] == replies[0]@);
    let ready = match &replies[0] {
        Reply::Failed(m) => {
            let mut detail = String::from_str("Failed to get ready beads: ");
            detail.append(m.as_str());
            return failed(ErrorKind::TrackerFailure, detail.as_str());
        },
        Reply::Beads(ready) => ready,
        _ => {
            return unexpected();
        },
    };
    let ghost goal = next_plan(agent_id@, now as int, all);
    let mut k: usize = 0;
    while k < ready.len()
        invariant
            k <= ready.len(),
            k + 1 <= replies.len(),
            all == replies.deep_view(),
            goal == next_plan(agent_id@, now as int, all),
            goal == next_scan_plan(
                agent_id@,
                now as int,
                ready.deep_view(),
                k as nat,
                all.skip(k + 1),
            ),
        decreases ready.len() - k,
    {
        let ghost rest = all.skip(k + 1);
        assert(ready.deep_view()[k as int] == ready[k as int]@);
        if k + 1 >= replies.len() {
            return Step::Ask(Action::FindClaim { bead_id: ready[k].id.clone() });
        }
        assert(rest[0] == replies[k + 1]@);
        match &replies[k + 1] {
            Reply::Failed(m) => {
                return failed(ErrorKind::StoreFailure, m.as_str());
            },
            Reply::Claim(Some(_)) => {
                assert(rest.skip(1) =~= all.skip(k + 2));
            },
            Reply::Claim(None) => {
                assert(rest.skip(1) =~= all.skip(k + 2));
                return grant(&ready[k], agent_id, now, replies, k + 2);
            },
            _ => {
                return unexpected();
            },
        }
        k = k + 1;
    }
    Step::Finish(
        Ok(
            NextOutput {
                success: false,
                bead_id: None,
                title: None,
                description: None,
                worktree_path: None,
                branch: None,
                message: "No ready beads available".to_string(),
                error: Some(LifecycleError::new(ErrorKind::NoReadyWork, "")),
            },
        ),
    )
}

} // verus!
