//! The seam between the lifecycle rules and the outside world.
//!
//! A lifecycle operation never touches the repository, the claim table or
//! the tracker itself. It is a function from what the outside world has
//! answered so far to the next request, or to the operation's result. The
//! caller performs each [`Action`] and appends its [`Reply`].

use crate::beads::{BeadInfo, BeadInfoView, BeadsError};
use crate::claims::{Claim, ClaimView, StoreError, StoreErrorView};
use crate::worktree::{WorktreeError, WorktreeErrorView, WorktreeInfo, WorktreeInfoView};
use vstd::prelude::*;

verus! {

/// A request to the claim table, to the tracker or to version control.
#[derive(Debug, PartialEq, Eq)]
pub enum Action {
    /// Claim table: look up the claim on a bead. Answered by [`Reply::Claim`].
    FindClaim { bead_id: String },
    /// Claim table: record a claim. Answered by [`Reply::Done`], or by
    /// [`Reply::Conflict`] where the bead already has a row.
    InsertClaim { claim: Claim },
    /// Claim table: remove the claim on a bead, if there is one.
    DeleteClaim { bead_id: String },
    /// Claim table: list every claim. Answered by [`Reply::Claims`].
    ListClaims,
    /// Tracker: fetch a bead. Answered by [`Reply::Bead`].
    GetBead { bead_id: String },
    /// Tracker: is the bead open and unblocked? Answered by [`Reply::Flag`].
    IsBeadReady { bead_id: String },
    /// Tracker: the beads that are ready, by priority and then by
    /// identifier. Answered by [`Reply::Beads`].
    GetReadyBeads,
    /// Tracker: set the status of a bead.
    UpdateBeadStatus { bead_id: String, status: String },
    /// Version control: create the bead's branch and worktree. Answered by
    /// [`Reply::Worktree`], or by [`Reply::Conflict`] where the worktree is
    /// already there.
    CreateWorktree { bead_id: String },
    /// Version control: remove the bead's worktree and delete its branch.
    /// With `force`, uncommitted and unmerged work is discarded.
    RemoveWorktree { bead_id: String, force: bool },
    /// Version control: check out `target` and merge the bead's branch into
    /// it. Answered by [`Reply::Done`], by [`Reply::Conflict`] where the merge
    /// stopped on conflicts, or by [`Reply::Failed`].
    MergeWorktree { bead_id: String, target: String },
    /// Version control: is a merge in progress? Answered by [`Reply::Flag`].
    IsInMergeConflict,
    /// Version control: the branch that is being merged. Answered by
    /// [`Reply::Branch`].
    GetMergeBranch,
    /// Version control: is any path still unmerged? Answered by
    /// [`Reply::Flag`].
    HasUnresolvedConflicts,
    /// Version control: abandon the merge in progress.
    AbortMerge,
    /// Version control: stage everything and commit the merge in progress.
    CompleteMerge,
}

/// What an [`Action`] holds, as mathematical values.
pub enum ActionView {
    FindClaim { bead_id: Seq<char> },
    InsertClaim { claim: ClaimView },
    DeleteClaim { bead_id: Seq<char> },
    ListClaims,
    GetBead { bead_id: Seq<char> },
    IsBeadReady { bead_id: Seq<char> },
    GetReadyBeads,
    UpdateBeadStatus { bead_id: Seq<char>, status: Seq<char> },
    CreateWorktree { bead_id: Seq<char> },
    RemoveWorktree { bead_id: Seq<char>, force: bool },
    MergeWorktree { bead_id: Seq<char>, target: Seq<char> },
    IsInMergeConflict,
    GetMergeBranch,
    HasUnresolvedConflicts,
    AbortMerge,
    CompleteMerge,
}

impl View for Action {
    type V = ActionView;

    open spec fn view(&self) -> ActionView {
        match self {
            Action::FindClaim { bead_id } => ActionView::FindClaim { bead_id: bead_id@ },
            Action::InsertClaim { claim } => ActionView::InsertClaim { claim: claim@ },
            Action::DeleteClaim { bead_id } => ActionView::DeleteClaim { bead_id: bead_id@ },
            Action::ListClaims => ActionView::ListClaims,
            Action::GetBead { bead_id } => ActionView::GetBead { bead_id: bead_id@ },
            Action::IsBeadReady { bead_id } => ActionView::IsBeadReady { bead_id: bead_id@ },
            Action::GetReadyBeads => ActionView::GetReadyBeads,
            Action::UpdateBeadStatus { bead_id, status } => ActionView::UpdateBeadStatus {
                bead_id: bead_id@,
                status: status@,
            },
            Action::CreateWorktree { bead_id } => ActionView::CreateWorktree { bead_id: bead_id@ },
            Action::RemoveWorktree { bead_id, force } => ActionView::RemoveWorktree {
                bead_id: bead_id@,
                force: *force,
            },
            Action::MergeWorktree { bead_id, target } => ActionView::MergeWorktree {
                bead_id: bead_id@,
                target: target@,
            },
            Action::IsInMergeConflict => ActionView::IsInMergeConflict,
            Action::GetMergeBranch => ActionView::GetMergeBranch,
            Action::HasUnresolvedConflicts => ActionView::HasUnresolvedConflicts,
            Action::AbortMerge => ActionView::AbortMerge,
            Action::CompleteMerge => ActionView::CompleteMerge,
        }
    }
}

/// What the outside world answered to an [`Action`].
#[derive(Debug, PartialEq, Eq)]
pub enum Reply {
    /// The request was carried out.
    Done,
    /// The request failed; the text is the error's message.
    Failed(String),
    /// The request collided with what is already there: a row for the same
    /// bead, a worktree at the same path, or changes that do not merge.
    Conflict(String),
    /// The answer to a yes-or-no question.
    Flag(bool),
    /// The claim on a bead, if it has one.
    Claim(Option<Claim>),
    /// The claims of the table.
    Claims(Vec<Claim>),
    /// A bead of the tracker.
    Bead(BeadInfo),
    /// Beads of the tracker.
    Beads(Vec<BeadInfo>),
    /// The worktree that was created.
    Worktree(WorktreeInfo),
    /// The branch that is being merged, where it can be named.
    Branch(Option<String>),
}

/// What a [`Reply`] holds, as mathematical values.
pub enum ReplyView {
    Done,
    Failed(Seq<char>),
    Conflict(Seq<char>),
    Flag(bool),
    Claim(Option<ClaimView>),
    Claims(Seq<ClaimView>),
    Bead(BeadInfoView),
    Beads(Seq<BeadInfoView>),
    Worktree(WorktreeInfoView),
    Branch(Option<Seq<char>>),
}

impl View for Reply {
    type V = ReplyView;

    open spec fn view(&self) -> ReplyView {
        match self {
            Reply::Done => ReplyView::Done,
            Reply::Failed(m) => ReplyView::Failed(m@),
            Reply::Conflict(m) => ReplyView::Conflict(m@),
            Reply::Flag(b) => ReplyView::Flag(*b),
            Reply::Claim(c) => ReplyView::Claim(c.deep_view()),
            Reply::Claims(cs) => ReplyView::Claims(cs.deep_view()),
            Reply::Bead(b) => ReplyView::Bead(b@),
            Reply::Beads(bs) => ReplyView::Beads(bs.deep_view()),
            Reply::Worktree(w) => ReplyView::Worktree(w@),
            Reply::Branch(b) => ReplyView::Branch(b.deep_view()),
        }
    }
}

impl DeepView for Reply {
    type V = ReplyView;

    open spec fn deep_view(&self) -> ReplyView {
        self@
    }
}

/// The kinds of error that a lifecycle operation reports.
#[derive(Debug, Clone, Copy, PartialEq, Eq, Structural)]
pub enum ErrorKind {
    /// The bead already has a claim; the detail is the owner.
    AlreadyClaimed,
    /// The bead has no claim; the detail is the bead.
    NotFound,
    /// The bead's worktree or branch is already there; the detail is the
    /// message of version control.
    AlreadyExists,
    /// Version control failed; the detail is its message.
    VcsFailure,
    /// The merge stopped on conflicts; the detail is the bead.
    MergeConflict,
    /// Paths are still unmerged; the detail is the bead.
    UnresolvedConflicts,
    /// The merge in progress is not this bead's; the detail is the branch
    /// that is being merged, empty where it has no name.
    WrongMergeTarget,
    /// The tracker failed; the detail is its message.
    TrackerFailure,
    /// No bead is ready and unclaimed.
    NoReadyWork,
    /// The claim table failed; the detail is its message.
    StoreFailure,
    /// The bead cannot be claimed in its status; the detail is the status.
    NotClaimable,
    /// No merge is in progress.
    NotMerging,
    /// The status asked for is none that a release knows; the detail is the
    /// status.
    InvalidStatus,
    /// The outside world answered with a reply that does not fit the
    /// request.
    UnexpectedReply,
}

/// An error of a lifecycle operation: its kind and what it is about.
#[derive(Debug, PartialEq, Eq)]
pub struct LifecycleError {
    pub kind: ErrorKind,
    pub detail: String,
}

/// What a [`LifecycleError`] holds, as mathematical values.
pub struct LifecycleErrorView {
    pub kind: ErrorKind,
    pub detail: Seq<char>,
}

impl View for LifecycleError {
    type V = LifecycleErrorView;

    open spec fn view(&self) -> LifecycleErrorView {
        LifecycleErrorView { kind: self.kind, detail: self.detail@ }
    }
}

impl DeepView for LifecycleError {
    type V = LifecycleErrorView;

    open spec fn deep_view(&self) -> LifecycleErrorView {
        self@
    }
}

impl Clone for LifecycleError {
    fn clone(&self) -> (r: Self)
        ensures
            r == *self,
    {
        LifecycleError { kind: self.kind, detail: self.detail.clone() }
    }
}

/// The error of kind `kind` about `detail`.
pub open spec fn error_of(kind: ErrorKind, detail: Seq<char>) -> LifecycleErrorView {
    LifecycleErrorView { kind, detail }
}

impl LifecycleError {
    /// The error of kind `kind` about `detail`.
    pub fn new(kind: ErrorKind, detail: &str) -> (e: LifecycleError)
        ensures
            e@ == error_of(kind, detail@),
    {
        LifecycleError { kind, detail: detail.to_string() }
    }

    /// Whether the error is a refusal that the caller can act on (the bead is
    /// taken, nothing is ready, the merge is another bead's) and not a fault
    /// of the claim table, the tracker or version control.
    pub fn is_refusal(&self) -> (r: bool)
        ensures
            r == is_refusal_kind(self.kind),
    {
        match self.kind {
            ErrorKind::VcsFailure => false,
            ErrorKind::TrackerFailure => false,
            ErrorKind::StoreFailure => false,
            ErrorKind::UnexpectedReply => false,
            _ => true,
        }
    }
}

/// The kinds of error that refuse a request without anything having failed.
pub open spec fn is_refusal_kind(kind: ErrorKind) -> bool {
    kind != ErrorKind::VcsFailure && kind != ErrorKind::TrackerFailure && kind
        != ErrorKind::StoreFailure && kind != ErrorKind::UnexpectedReply
}

/// Where an operation stands: it asks for something, or it has finished.
#[derive(Debug, PartialEq, Eq)]
pub enum Step<T> {
    /// The operation needs this done and its reply appended.
    Ask(Action),
    /// The operation has finished with this result.
    Finish(Result<T, LifecycleError>),
}

/// What a [`Step`] holds, as mathematical values.
pub enum StepView<V> {
    Ask(ActionView),
    Finish(Result<V, LifecycleErrorView>),
}

impl<T: View> View for Step<T> {
    type V = StepView<T::V>;

    open spec fn view(&self) -> StepView<T::V> {
        match self {
            Step::Ask(a) => StepView::Ask(a@),
            Step::Finish(Ok(t)) => StepView::Finish(Ok(t@)),
            Step::Finish(Err(e)) => StepView::Finish(Err(e@)),
        }
    }
}

/// The step that fails with an error of kind `kind` about `detail`.
pub open spec fn fail<V>(kind: ErrorKind, detail: Seq<char>) -> StepView<V> {
    StepView::Finish(Err(error_of(kind, detail)))
}

/// The step that fails with an error of kind `kind` about `detail`.
pub fn failed<T: View>(kind: ErrorKind, detail: &str) -> (step: Step<T>)
    ensures
        step@ == fail::<T::V>(kind, detail@),
{
    Step::Finish(Err(LifecycleError::new(kind, detail)))
}

/// The step that stops because a reply does not fit its request.
pub open spec fn misfit<V>() -> StepView<V> {
    fail(ErrorKind::UnexpectedReply, ""@)
}

/// The step that stops because a reply does not fit its request.
pub fn unexpected<T: View>() -> (step: Step<T>)
    ensures
        step@ == misfit::<T::V>(),
{
    failed(ErrorKind::UnexpectedReply, "")
}

/// The reply that stands for an error of the claim table: a conflict for a
/// bead that has a claim, a failure for anything else.
pub open spec fn store_error_reply(error: StoreErrorView) -> ReplyView {
    match error {
        StoreErrorView::Conflict(m) => ReplyView::Conflict(m),
        StoreErrorView::Database(m) => ReplyView::Failed(m),
    }
}

/// The reply that stands for an error of version control: a conflict where
/// the worktree is already there, where the merge stopped on conflicts, and
/// where paths are still unmerged; a failure for anything else.
pub open spec fn worktree_error_reply(error: WorktreeErrorView) -> ReplyView {
    match error {
        WorktreeErrorView::AlreadyExists(_) => ReplyView::Conflict(
            crate::worktree::error_message(error),
        ),
        WorktreeErrorView::MergeConflict(m) => ReplyView::Conflict(m),
        WorktreeErrorView::UnresolvedConflicts => ReplyView::Conflict(
            crate::worktree::error_message(error),
        ),
        _ => ReplyView::Failed(crate::worktree::error_message(error)),
    }
}

fn store_failed(error: &StoreError) -> (reply: Reply)
    ensures
        reply@ == store_error_reply(error@),
{
    match error {
        StoreError::Conflict(m) => Reply::Conflict(m.clone()),
        StoreError::Database(m) => Reply::Failed(m.clone()),
    }
}

fn tracker_failed(error: &BeadsError) -> (reply: Reply)
    ensures
        reply@ == ReplyView::Failed(crate::beads::error_message(error@)),
{
    Reply::Failed(error.message())
}

fn worktree_failed(error: &WorktreeError) -> (reply: Reply)
    ensures
        reply@ == worktree_error_reply(error@),
{
    match error {
        WorktreeError::AlreadyExists(_) => Reply::Conflict(error.message()),
        WorktreeError::MergeConflict(m) => Reply::Conflict(m.clone()),
        WorktreeError::UnresolvedConflicts => Reply::Conflict(error.message()),
        _ => Reply::Failed(error.message()),
    }
}

impl Reply {
    /// The reply to [`Action::FindClaim`] that `found` stands for.
    pub fn claim(found: Result<Option<Claim>, StoreError>) -> (reply: Reply)
        ensures
            reply@ == match found {
                Ok(c) => ReplyView::Claim(c.deep_view()),
                Err(e) => store_error_reply(e@),
            },
    {
        match found {
            Ok(c) => Reply::Claim(c),
            Err(e) => store_failed(&e),
        }
    }

    /// The reply to [`Action::ListClaims`] that `listed` stands for.
    pub fn claims(listed: Result<Vec<Claim>, StoreError>) -> (reply: Reply)
        ensures
            reply@ == match listed {
                Ok(cs) => ReplyView::Claims(cs.deep_view()),
                Err(e) => store_error_reply(e@),
            },
    {
        match listed {
            Ok(cs) => Reply::Claims(cs),
            Err(e) => store_failed(&e),
        }
    }

    /// The reply to [`Action::InsertClaim`] or [`Action::DeleteClaim`] that
    /// `stored` stands for.
    pub fn stored(stored: Result<(), StoreError>) -> (reply: Reply)
        ensures
            reply@ == match stored {
                Ok(_) => ReplyView::Done,
                Err(e) => store_error_reply(e@),
            },
    {
        match stored {
            Ok(_) => Reply::Done,
            Err(e) => store_failed(&e),
        }
    }

    /// The reply to [`Action::GetBead`] that `fetched` stands for.
    pub fn bead(fetched: Result<BeadInfo, BeadsError>) -> (reply: Reply)
        ensures
            reply@ == match fetched {
                Ok(b) => ReplyView::Bead(b@),
                Err(e) => ReplyView::Failed(crate::beads::error_message(e@)),
            },
    {
        match fetched {
            Ok(b) => Reply::Bead(b),
            Err(e) => tracker_failed(&e),
        }
    }

    /// The reply to [`Action::GetReadyBeads`] that `fetched` stands for.
    pub fn beads(fetched: Result<Vec<BeadInfo>, BeadsError>) -> (reply: Reply)
        ensures
            reply@ == match fetched {
                Ok(bs) => ReplyView::Beads(bs.deep_view()),
                Err(e) => ReplyView::Failed(crate::beads::error_message(e@)),
            },
    {
        match fetched {
            Ok(bs) => Reply::Beads(bs),
            Err(e) => tracker_failed(&e),
        }
    }

    /// The reply to [`Action::IsBeadReady`] that `asked` stands for.
    pub fn ready(asked: Result<bool, BeadsError>) -> (reply: Reply)
        ensures
            reply@ == match asked {
                Ok(b) => ReplyView::Flag(b),
                Err(e) => ReplyView::Failed(crate::beads::error_message(e@)),
            },
    {
        match asked {
            Ok(b) => Reply::Flag(b),
            Err(e) => tracker_failed(&e),
        }
    }

    /// The reply to [`Action::UpdateBeadStatus`] that `updated` stands for.
    pub fn status(updated: Result<(), BeadsError>) -> (reply: Reply)
        ensures
            reply@ == match updated {
                Ok(_) => ReplyView::Done,
                Err(e) => ReplyView::Failed(crate::beads::error_message(e@)),
            },
    {
        match updated {
            Ok(_) => Reply::Done,
            Err(e) => tracker_failed(&e),
        }
    }

    /// The reply to [`Action::CreateWorktree`] that `created` stands for.
    pub fn worktree(created: Result<WorktreeInfo, WorktreeError>) -> (reply: Reply)
        ensures
            reply@ == match created {
                Ok(w) => ReplyView::Worktree(w@),
                Err(e) => worktree_error_reply(e@),
            },
    {
        match created {
            Ok(w) => Reply::Worktree(w),
            Err(e) => worktree_failed(&e),
        }
    }

    /// The reply that `done` stands for, to a request that changes the
    /// repository: [`Action::RemoveWorktree`], [`Action::MergeWorktree`],
    /// [`Action::AbortMerge`] or [`Action::CompleteMerge`].
    pub fn changed(done: Result<(), WorktreeError>) -> (reply: Reply)
        ensures
            reply@ == match done {
                Ok(_) => ReplyView::Done,
                Err(e) => worktree_error_reply(e@),
            },
    {
        match done {
            Ok(_) => Reply::Done,
            Err(e) => worktree_failed(&e),
        }
    }

    /// The reply that `asked` stands for, to a question about the
    /// repository: [`Action::IsInMergeConflict`] or
    /// [`Action::HasUnresolvedConflicts`].
    pub fn flag(asked: Result<bool, WorktreeError>) -> (reply: Reply)
        ensures
            reply@ == match asked {
                Ok(b) => ReplyView::Flag(b),
                Err(e) => worktree_error_reply(e@),
            },
    {
        match asked {
            Ok(b) => Reply::Flag(b),
            Err(e) => worktree_failed(&e),
        }
    }

    /// The reply to [`Action::GetMergeBranch`] that `asked` stands for.
    pub fn branch(asked: Result<Option<String>, WorktreeError>) -> (reply: Reply)
        ensures
            reply@ == match asked {
                Ok(b) => ReplyView::Branch(b.deep_view()),
                Err(e) => worktree_error_reply(e@),
            },
    {
        match asked {
            Ok(b) => Reply::Branch(b),
            Err(e) => worktree_failed(&e),
        }
    }
}

/// What the kind of an error is called.
pub open spec fn kind_name(kind: ErrorKind) -> Seq<char> {
    match kind {
        ErrorKind::AlreadyClaimed => "already claimed"@,
        ErrorKind::NotFound => "no claim found"@,
        ErrorKind::AlreadyExists => "worktree already exists"@,
        ErrorKind::VcsFailure => "version control failed"@,
        ErrorKind::MergeConflict => "merge conflict"@,
        ErrorKind::UnresolvedConflicts => "unresolved conflicts"@,
        ErrorKind::WrongMergeTarget => "merge in progress belongs to another bead"@,
        ErrorKind::TrackerFailure => "tracker failed"@,
        ErrorKind::NoReadyWork => "no ready work"@,
        ErrorKind::StoreFailure => "claim table failed"@,
        ErrorKind::NotClaimable => "bead cannot be claimed"@,
        ErrorKind::NotMerging => "no merge in progress"@,
        ErrorKind::InvalidStatus => "invalid status"@,
        ErrorKind::UnexpectedReply => "unexpected reply"@,
    }
}

/// The message of an error: what its kind is called, then a colon and the
/// detail, where there is one.
pub open spec fn error_text(error: LifecycleErrorView) -> Seq<char> {
    if error.detail.len() == 0 {
        kind_name(error.kind)
    } else {
        kind_name(error.kind) + ": "@ + error.detail
    }
}

impl LifecycleError {
    /// The message of the error.
    pub fn message(&self) -> (text: String)
        ensures
            text@ == error_text(self@),
    {
        let name = match self.kind {
            ErrorKind::AlreadyClaimed => "already claimed",
            ErrorKind::NotFound => "no claim found",
            ErrorKind::AlreadyExists => "worktree already exists",
            ErrorKind::VcsFailure => "version control failed",
            ErrorKind::MergeConflict => "merge conflict",
            ErrorKind::UnresolvedConflicts => "unresolved conflicts",
            ErrorKind::WrongMergeTarget => "merge in progress belongs to another bead",
            ErrorKind::TrackerFailure => "tracker failed",
            ErrorKind::NoReadyWork => "no ready work",
            ErrorKind::StoreFailure => "claim table failed",
            ErrorKind::NotClaimable => "bead cannot be claimed",
            ErrorKind::NotMerging => "no merge in progress",
            ErrorKind::InvalidStatus => "invalid status",
            ErrorKind::UnexpectedReply => "unexpected reply",
        };
        let mut text = String::from_str(name);
        if self.detail.as_str().unicode_len() > 0 {
            text.append(": ");
            text.append(self.detail.as_str());
        }
        text
    }
}

} // verus!
