//! Finding claims that were abandoned, and reclaiming their beads.

use crate::claims::{age_minutes, minutes_between, select_stale, stale_claims, Claim, ClaimView};
use crate::protocol::{
    fail, failed, misfit, unexpected, Action, ActionView, ErrorKind, Reply, ReplyView, Step,
    StepView,
};
use crate::text::{decimal_text, push_decimal};
use vstd::prelude::*;

verus! {

/// A claim that is older than the threshold.
#[derive(Debug, PartialEq, Eq)]
pub struct StaleClaim {
    pub bead_id: String,
    pub agent_id: String,
    pub worktree_path: String,
    pub claimed_at: i64,
    pub age_minutes: i64,
}

/// What a [`StaleClaim`] holds, as mathematical values.
pub struct StaleClaimView {
    pub bead_id: Seq<char>,
    pub agent_id: Seq<char>,
    pub worktree_path: Seq<char>,
    pub claimed_at: int,
    pub age_minutes: int,
}

impl View for StaleClaim {
    type V = StaleClaimView;

    open spec fn view(&self) -> StaleClaimView {
        StaleClaimView {
            bead_id: self.bead_id@,
            agent_id: self.agent_id@,
            worktree_path: self.worktree_path@,
            claimed_at: self.claimed_at as int,
            age_minutes: self.age_minutes as int,
        }
    }
}

impl DeepView for StaleClaim {
    type V = StaleClaimView;

    open spec fn deep_view(&self) -> StaleClaimView {
        self@
    }
}

/// What a search for stale claims reports.
#[derive(Debug, PartialEq, Eq)]
pub struct StaleOutput {
    pub stale_claims: Vec<StaleClaim>,
    pub cleaned_up: Vec<String>,
    pub message: String,
}

/// What a [`StaleOutput`] holds, as mathematical values.
pub struct StaleOutputView {
    pub stale_claims: Seq<StaleClaimView>,
    pub cleaned_up: Seq<Seq<char>>,
    pub message: Seq<char>,
}

impl View for StaleOutput {
    type V = StaleOutputView;

    open spec fn view(&self) -> StaleOutputView {
        StaleOutputView {
            stale_claims: self.stale_claims.deep_view(),
            cleaned_up: self.cleaned_up.deep_view(),
            message: self.message@,
        }
    }
}

/// The entry that reports `claim` as stale at `now`.
pub open spec fn stale_entry(claim: ClaimView, now: int) -> StaleClaimView {
    StaleClaimView {
        bead_id: claim.bead_id,
        agent_id: claim.agent_id,
        worktree_path: claim.worktree_path,
        claimed_at: claim.claimed_at,
        age_minutes: age_minutes(claim.claimed_at, now),
    }
}

/// The entries that report `claims` as stale at `now`, in their order.
pub open spec fn stale_entries(claims: Seq<ClaimView>, now: int) -> Seq<StaleClaimView> {
    Seq::new(claims.len(), |i: int| stale_entry(claims[i], now))
}

/// The beads of `claims`, in their order.
pub open spec fn beads_of(claims: Seq<ClaimView>) -> Seq<Seq<char>> {
    Seq::new(claims.len(), |i: int| claims[i].bead_id)
}

/// The report of a search that only looked.
pub open spec fn stale_found(stale: Seq<ClaimView>, now: int) -> StepView<StaleOutputView> {
    StepView::Finish(
        Ok(
            StaleOutputView {
                stale_claims: stale_entries(stale, now),
                cleaned_up: Seq::empty(),
                message: "Found "@ + decimal_text(stale.len() as int)
                    + " stale claims (use --cleanup to remove)"@,
            },
        ),
    )
}

/// The report of a search that reclaimed what it found.
pub open spec fn stale_reclaimed(stale: Seq<ClaimView>, now: int) -> StepView<StaleOutputView> {
    StepView::Finish(
        Ok(
            StaleOutputView {
                stale_claims: stale_entries(stale, now),
                cleaned_up: beads_of(stale),
                message: "Found "@ + decimal_text(stale.len() as int) + " stale claims, cleaned up "@
                    + decimal_text(stale.len() as int),
            },
        ),
    )
}

/// What a search for the claims older than `minutes` minutes at `now` does
/// next, given the replies so far.
///
/// The claim table is asked for its claims; the stale ones are those made
/// strictly before `now - minutes * 60000`. Without `cleanup` they are
/// reported and nothing else happens. With `cleanup` each of them, in turn,
/// is reclaimed as [`reap_plan`] says.
pub open spec fn stale_plan(minutes: int, cleanup: bool, now: int, replies: Seq<ReplyView>) -> StepView<
    StaleOutputView,
> {
    if replies.len() == 0 {
        StepView::Ask(ActionView::ListClaims)
    } else {
        match replies[0] {
            ReplyView::Failed(m) => fail(ErrorKind::StoreFailure, m),
            ReplyView::Claims(all) => {
                let stale = stale_claims(all, now, minutes);
                if cleanup {
                    reap_plan(stale, now, replies.skip(1))
                } else {
                    stale_found(stale, now)
                }
            },
            _ => misfit(),
        }
    }
}

/// How stale claims are reclaimed: for each claim, in order, the worktree
/// is removed with force, the tracker is told `open`, and the claim is
/// deleted: three requests for each claim. No reply ends the sequence: a
/// claim whose worktree is gone is reclaimed like any other, and one broken
/// claim does not keep the rest from being reclaimed.
pub open spec fn reap_plan(stale: Seq<ClaimView>, now: int, replies: Seq<ReplyView>) -> StepView<
    StaleOutputView,
> {
    let k = replies.len() / 3;
    let phase = replies.len() % 3;
    if k >= stale.len() {
        stale_reclaimed(stale, now)
    } else if phase == 0 {
        StepView::Ask(ActionView::RemoveWorktree { bead_id: stale[k as int].bead_id, force: true })
    } else if phase == 1 {
        StepView::Ask(
            ActionView::UpdateBeadStatus { bead_id: stale[k as int].bead_id, status: "open"@ },
        )
    } else {
        StepView::Ask(ActionView::DeleteClaim { bead_id: stale[k as int].bead_id })
    }
}

fn entries(stale: &Vec<Claim>, now: i64) -> (out: Vec<StaleClaim>)
    ensures
        out.deep_view() == stale_entries(stale.deep_view(), now as int),
{
    let mut out: Vec<StaleClaim> = Vec::new();
    let mut i: usize = 0;
    while i < stale.len()
        invariant
            i <= stale.len(),
            out.len() == i,
            forall|j: int|
                0 <= j < i ==> (#[trigger] out[j])@ == stale_entry(stale[j]@, now as int),
        decreases stale.len() - i,
    {
        let c = &stale[i];
        out.push(
            StaleClaim {
                bead_id: c.bead_id.clone(),
                agent_id: c.agent_id.clone(),
                worktree_path: c.worktree_path.clone(),
                claimed_at: c.claimed_at,
                age_minutes: minutes_between(c.claimed_at, now),
            },
        );
        i += 1;
    }
    assert(out.deep_view() =~= stale_entries(stale.deep_view(), now as int));
    out
}

fn beads(stale: &Vec<Claim>) -> (out: Vec<String>)
    ensures
        out.deep_view() == beads_of(stale.deep_view()),
{
    let mut out: Vec<String> = Vec::new();
    let mut i: usize = 0;
    while i < stale.len()
        invariant
            i <= stale.len(),
            out.len() == i,
            forall|j: int| 0 <= j < i ==> (#[trigger] out[j])@ == stale[j].bead_id@,
        decreases stale.len() - i,
    {
        out.push(stale[i].bead_id.clone());
        i += 1;
    }
    assert(out.deep_view() =~= beads_of(stale.deep_view()));
    out
}

/// Finds the claims older than `minutes` minutes at `now` (epoch
/// milliseconds) and, with `cleanup`, reclaims them: returns the next
/// request, or the report once the search has ended. `replies` holds the
/// replies to the requests made so far, in order.
pub fn find_stale(minutes: i64, cleanup: bool, now: i64, replies: &Vec<Reply>) -> (step: Step<
    StaleOutput,
>)
    ensures
        step@ == stale_plan(minutes as int, cleanup, now as int, replies.deep_view()),
{
    let ghost all = replies.deep_view();
    if replies.len() == 0 {
        return Step::Ask(Action::ListClaims);
    }
    assert(all[0] == replies[0]@);
    let claims = match &replies[0] {
        Reply::Failed(m) => {
            return failed(ErrorKind::StoreFailure, m.as_str());
        },
        Reply::Claims(claims) => claims,
        _ => {
            return unexpected();
        },
    };
    let stale = select_stale(claims, now, minutes);
    let ghost found = stale.deep_view();
    if !cleanup {
        let mut message = String::from_str("Found ");
        push_decimal(&mut message, stale.len() as i128);
        message.append(" stale claims (use --cleanup to remove)");
        let cleaned_up: Vec<String> = Vec::new();
        assert(cleaned_up.deep_view() =~= Seq::<Seq<char>>::empty());
        return Step::Finish(
            Ok(StaleOutput { stale_claims: entries(&stale, now), cleaned_up, message }),
        );
    }
    let answered = replies.len() - 1;
    assert(all.skip(1).len() == answered);
    let k = answered / 3;
    let phase = answered % 3;
    if k >= stale.len() {
        let mut message = String::from_str("Found ");
        push_decimal(&mut message, stale.len() as i128);
        message.append(" stale claims, cleaned up ");
        push_decimal(&mut message, stale.len() as i128);
        return Step::Finish(
            Ok(
                StaleOutput {
                    stale_claims: entries(&stale, now),
                    cleaned_up: beads(&stale),
                    message,
                },
            ),
        );
    }
    assert(found[k as int] == stale[k as int]@);
    let bead_id = stale[k].bead_id.clone();
    if phase == 0 {
        Step::Ask(Action::RemoveWorktree { bead_id, force: true })
    } else if phase == 1 {
        Step::Ask(Action::UpdateBeadStatus { bead_id, status: "open".to_string() })
    } else {
        Step::Ask(Action::DeleteClaim { bead_id })
    }
}

} // verus!
