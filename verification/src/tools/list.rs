//! Listing the active claims.

use crate::claims::{age_minutes, minutes_between, ClaimView};
use crate::protocol::{
    fail, failed, misfit, unexpected, Action, ActionView, ErrorKind, Reply, ReplyView, Step,
    StepView,
};
use vstd::prelude::*;

verus! {

/// An active claim as the list shows it.
#[derive(Debug, PartialEq, Eq)]
pub struct ClaimInfo {
    pub bead_id: String,
    pub agent_id: String,
    pub worktree_path: String,
    pub branch_name: String,
    pub age_minutes: i64,
}

/// What a [`ClaimInfo`] holds, as mathematical values.
pub struct ClaimInfoView {
    pub bead_id: Seq<char>,
    pub agent_id: Seq<char>,
    pub worktree_path: Seq<char>,
    pub branch_name: Seq<char>,
    pub age_minutes: int,
}

impl View for ClaimInfo {
    type V = ClaimInfoView;

    open spec fn view(&self) -> ClaimInfoView {
        ClaimInfoView {
            bead_id: self.bead_id@,
            agent_id: self.agent_id@,
            worktree_path: self.worktree_path@,
            branch_name: self.branch_name@,
            age_minutes: self.age_minutes as int,
        }
    }
}

impl DeepView for ClaimInfo {
    type V = ClaimInfoView;

    open spec fn deep_view(&self) -> ClaimInfoView {
        self@
    }
}

/// The list of active claims.
#[derive(Debug, PartialEq, Eq)]
pub struct ListOutput {
    pub claims: Vec<ClaimInfo>,
    pub total: usize,
}

/// What a [`ListOutput`] holds, as mathematical values.
pub struct ListOutputView {
    pub claims: Seq<ClaimInfoView>,
    pub total: int,
}

impl View for ListOutput {
    type V = ListOutputView;

    open spec fn view(&self) -> ListOutputView {
        ListOutputView { claims: self.claims.deep_view(), total: self.total as int }
    }
}

/// How the list shows `claim` at `now`.
pub open spec fn claim_info(claim: ClaimView, now: int) -> ClaimInfoView {
    ClaimInfoView {
        bead_id: claim.bead_id,
        agent_id: claim.agent_id,
        worktree_path: claim.worktree_path,
        branch_name: claim.branch_name,
        age_minutes: age_minutes(claim.claimed_at, now),
    }
}

/// What a listing of the claims at `now` does next, given the replies so
/// far: it asks the claim table for its claims and shows each with its age,
/// in the order in which the table gave them.
pub open spec fn list_plan(now: int, replies: Seq<ReplyView>) -> StepView<ListOutputView> {
    if replies.len() == 0 {
        StepView::Ask(ActionView::ListClaims)
    } else {
        match replies[0] {
            ReplyView::Failed(m) => fail(ErrorKind::StoreFailure, m),
            ReplyView::Claims(all) => StepView::Finish(
                Ok(
                    ListOutputView {
                        claims: Seq::new(all.len(), |i: int| claim_info(all[i], now)),
                        total: all.len() as int,
                    },
                ),
            ),
            _ => misfit(),
        }
    }
}

/// Lists the active claims with their age at `now` (epoch milliseconds):
/// returns the next request, or the list. `replies` holds the replies to
/// the requests made so far, in order.
pub fn list_claims(now: i64, replies: &Vec<Reply>) -> (step: Step<ListOutput>)
    ensures
        step@ == list_plan(now as int, replies.deep_view()),
{
    let ghost all = replies.deep_view();
    if replies.len() == 0 {
        return Step::Ask(Action::ListClaims);
    }
    assert(all[0] == replies[0]@);
    let claims = match &replies[0] {
        Reply::Failed(m) => {
            return failed(ErrorKind::StoreFailure, m.as_str());
        },
        Reply::Claims(claims) => claims,
        _ => {
            return unexpected();
        },
    };
    let mut out: Vec<ClaimInfo> = Vec::new();
    let mut i: usize = 0;
    while i < claims.len()
        invariant
            i <= claims.len(),
            out.len() == i,
            forall|j: int|
                0 <= j < i ==> (#[trigger] out[j])@ == claim_info(claims[j]@, now as int),
        decreases claims.len() - i,
    {
        let c = &claims[i];
        out.push(
            ClaimInfo {
                bead_id: c.bead_id.clone(),
                agent_id: c.agent_id.clone(),
                worktree_path: c.worktree_path.clone(),
                branch_name: c.branch_name.clone(),
                age_minutes: minutes_between(c.claimed_at, now),
            },
        );
        i += 1;
    }
    assert(out.deep_view() =~= Seq::new(
        claims.deep_view().len(),
        |i: int| claim_info(claims.deep_view()[i], now as int),
    ));
    Step::Finish(Ok(ListOutput { total: out.len(), claims: out }))
}

} // verus!
