use bacchus::beads::BeadInfo;
use bacchus::claims::{Claim, ClaimStore, StoreError};
use bacchus::protocol::{Action, ErrorKind, LifecycleError, Reply, Step};
use bacchus::tools::abort::abort_merge;
use bacchus::tools::claim::claim_task;
use bacchus::tools::list::list_claims;
use bacchus::tools::next::next_task;
use bacchus::tools::release::release_bead;
use bacchus::tools::resolve::resolve_merge;
use bacchus::tools::stale::find_stale;
use bacchus::worktree::WorktreeInfo;
use std::collections::{BTreeMap, BTreeSet};

/// A workspace held in memory: the claim table, the worktrees, the tracker
/// and the merge in progress, with switches that make requests fail.
struct Workspace {
    store: ClaimStore,
    worktrees: BTreeSet<String>,
    beads: BTreeMap<String, BeadInfo>,
    merging: Option<String>,
    unresolved: bool,
    conflicting: BTreeSet<String>,
    fail_status: BTreeSet<String>,
    fail_remove: BTreeSet<String>,
    fail_insert: bool,
    asked: Vec<String>,
}

fn bead(id: &str, priority: &str, status: &str) -> BeadInfo {
    BeadInfo {
        id: id.to_string(),
        title: format!("Title of {}", id),
        description: None,
        priority: priority.to_string(),
        status: status.to_string(),
    }
}

impl Workspace {
    fn new(beads: Vec<BeadInfo>) -> Workspace {
        Workspace {
            store: ClaimStore::new(),
            worktrees: BTreeSet::new(),
            beads: beads.into_iter().map(|b| (b.id.clone(), b)).collect(),
            merging: None,
            unresolved: false,
            conflicting: BTreeSet::new(),
            fail_status: BTreeSet::new(),
            fail_remove: BTreeSet::new(),
            fail_insert: false,
            asked: Vec::new(),
        }
    }

    fn status(&self, id: &str) -> String {
        self.beads[id].status.clone()
    }

    fn ready(&self) -> Vec<BeadInfo> {
        let mut ready: Vec<BeadInfo> = self
            .beads
            .values()
            .filter(|b| b.status == "open")
            .cloned()
            .collect();
        ready.sort_by(|a, b| (a.priority.clone(), a.id.clone()).cmp(&(b.priority.clone(), b.id.clone())));
        ready
    }

    fn perform(&mut self, action: &Action) -> Reply {
        self.asked.push(format!("{:?}", action));
        match action {
            Action::FindClaim { bead_id } => Reply::Claim(self.store.find(bead_id)),
            Action::InsertClaim { claim } => {
                if self.fail_insert {
                    return Reply::Failed("disk full".to_string());
                }
                match self.store.insert(claim.clone()) {
                    Ok(()) => Reply::Done,
                    Err(StoreError::Conflict(owner)) => Reply::Conflict(owner),
                    Err(StoreError::Database(m)) => Reply::Failed(m),
                }
            }
            Action::DeleteClaim { bead_id } => {
                self.store.delete(bead_id);
                Reply::Done
            }
            Action::ListClaims => Reply::Claims(self.store.list_all()),
            Action::GetBead { bead_id } => match self.beads.get(bead_id) {
                Some(b) => Reply::Bead(b.clone()),
                None => Reply::Failed(format!("Bead not found: {}", bead_id)),
            },
            Action::IsBeadReady { bead_id } => {
                Reply::Flag(self.beads.get(bead_id).map(|b| b.status == "open").unwrap_or(false))
            }
            Action::GetReadyBeads => Reply::Beads(self.ready()),
            Action::UpdateBeadStatus { bead_id, status } => {
                if self.fail_status.contains(status) {
                    return Reply::Failed("tracker is down".to_string());
                }
                match self.beads.get_mut(bead_id) {
                    Some(b) => {
                        b.status = status.clone();
                        Reply::Done
                    }
                    None => Reply::Failed(format!("Bead not found: {}", bead_id)),
                }
            }
            Action::CreateWorktree { bead_id } => {
                if self.worktrees.contains(bead_id) {
                    return Reply::Conflict(format!("Worktree already exists: {}", bead_id));
                }
                self.worktrees.insert(bead_id.clone());
                Reply::Worktree(WorktreeInfo {
                    bead_id: bead_id.clone(),
                    path: format!("/repo/.bacchus/worktrees/{}", bead_id),
                    branch: format!("bacchus/{}", bead_id),
                    head_commit: "0123abcd".to_string(),
                })
            }
            Action::RemoveWorktree { bead_id, .. } => {
                if self.fail_remove.contains(bead_id) || !self.worktrees.contains(bead_id) {
                    return Reply::Failed(format!("Worktree not found: {}", bead_id));
                }
                self.worktrees.remove(bead_id);
                Reply::Done
            }
            Action::MergeWorktree { bead_id, .. } => {
                if self.conflicting.contains(bead_id) {
                    self.merging = Some(format!("bacchus/{}", bead_id));
                    self.unresolved = true;
                    Reply::Conflict("CONFLICT (content)".to_string())
                } else {
                    Reply::Done
                }
            }
            Action::IsInMergeConflict => Reply::Flag(self.merging.is_some()),
            Action::GetMergeBranch => Reply::Branch(self.merging.clone()),
            Action::HasUnresolvedConflicts => Reply::Flag(self.unresolved),
            Action::AbortMerge => {
                self.merging = None;
                self.unresolved = false;
                Reply::Done
            }
            Action::CompleteMerge => {
                if self.unresolved {
                    return Reply::Conflict("unresolved".to_string());
                }
                self.merging = None;
                Reply::Done
            }
        }
    }

    fn run<T>(&mut self, plan: impl Fn(&Vec<Reply>) -> Step<T>) -> Result<T, LifecycleError> {
        let mut replies = Vec::new();
        loop {
            match plan(&replies) {
                Step::Ask(action) => {
                    let reply = self.perform(&action);
                    replies.push(reply);
                }
                Step::Finish(result) => return result,
            }
        }
    }
}

fn kind_of(error: &Option<LifecycleError>) -> Option<ErrorKind> {
    error.as_ref().map(|e| e.kind)
}

#[test]
fn claim_then_release_failed_restores_everything() {
    let mut w = Workspace::new(vec![bead("BEAD-1", "P1", "open")]);
    let out = w.run(|r| claim_task("BEAD-1", "agent-a", false, 1_000, r)).unwrap();
    assert!(out.success);
    assert_eq!(out.bead_id, "BEAD-1");
    assert_eq!(out.branch.as_deref(), Some("bacchus/BEAD-1"));
    assert_eq!(out.worktree_path.as_deref(), Some("/repo/.bacchus/worktrees/BEAD-1"));
    assert_eq!(out.title.as_deref(), Some("Title of BEAD-1"));
    assert_eq!(out.message, "Claimed BEAD-1 - work in /repo/.bacchus/worktrees/BEAD-1");
    assert_eq!(out.error, None);
    assert!(w.worktrees.contains("BEAD-1"));
    assert_eq!(w.status("BEAD-1"), "in_progress");
    let claim = w.store.find("BEAD-1").unwrap();
    assert_eq!(
        claim,
        Claim {
            bead_id: "BEAD-1".to_string(),
            agent_id: "agent-a".to_string(),
            worktree_path: "/repo/.bacchus/worktrees/BEAD-1".to_string(),
            branch_name: "bacchus/BEAD-1".to_string(),
            start_commit: "0123abcd".to_string(),
            claimed_at: 1_000,
        }
    );

    let out = w.run(|r| release_bead("BEAD-1", "failed", r)).unwrap();
    assert!(out.success);
    assert!(!out.merged);
    assert_eq!(out.status, "failed");
    assert_eq!(out.message, "Released BEAD-1 with status failed");
    assert!(!w.worktrees.contains("BEAD-1"));
    assert_eq!(w.status("BEAD-1"), "open");
    assert!(!w.store.contains("BEAD-1"));
    assert_eq!(w.store.len(), 0);
}

#[test]
fn claim_asks_in_order() {
    let mut w = Workspace::new(vec![bead("B", "P1", "open")]);
    w.run(|r| claim_task("B", "a", false, 7, r)).unwrap();
    assert_eq!(w.asked.len(), 6);
    assert!(w.asked[0].starts_with("FindClaim"));
    assert!(w.asked[1].starts_with("GetBead"));
    assert!(w.asked[2].starts_with("IsBeadReady"));
    assert!(w.asked[3].starts_with("CreateWorktree"));
    assert!(w.asked[4].starts_with("InsertClaim"));
    assert!(w.asked[5].starts_with("UpdateBeadStatus"));
}

#[test]
fn second_claim_is_refused_with_owner() {
    let mut w = Workspace::new(vec![bead("BEAD-2", "P1", "open")]);
    let first = w.run(|r| claim_task("BEAD-2", "agent-a", false, 10, r)).unwrap();
    assert!(first.success);
    let second = w.run(|r| claim_task("BEAD-2", "agent-b", true, 20, r)).unwrap();
    assert!(!second.success);
    assert_eq!(
        second.error,
        Some(LifecycleError { kind: ErrorKind::AlreadyClaimed, detail: "agent-a".to_string() })
    );
    assert_eq!(second.message, "Bead BEAD-2 is already claimed");
    assert_eq!(second.worktree_path, None);
    assert_eq!(w.store.len(), 1);
    assert_eq!(w.store.find("BEAD-2").unwrap().agent_id, "agent-a");
    assert_eq!(w.worktrees.len(), 1);
}

#[test]
fn concurrent_claims_have_one_winner() {
    // Both agents look the bead up before either has inserted its claim.
    let mut w = Workspace::new(vec![bead("BEAD-2", "P1", "open")]);
    let mut a: Vec<Reply> = Vec::new();
    let mut b: Vec<Reply> = Vec::new();
    let plan_a = |r: &Vec<Reply>| claim_task("BEAD-2", "agent-a", true, 10, r);
    let plan_b = |r: &Vec<Reply>| claim_task("BEAD-2", "agent-b", true, 11, r);
    for _ in 0..2 {
        if let Step::Ask(action) = plan_a(&a) {
            a.push(w.perform(&action));
        }
        if let Step::Ask(action) = plan_b(&b) {
            b.push(w.perform(&action));
        }
    }
    let mut result_a = None;
    let mut result_b = None;
    while result_a.is_none() || result_b.is_none() {
        if result_a.is_none() {
            match plan_a(&a) {
                Step::Ask(action) => a.push(w.perform(&action)),
                Step::Finish(r) => result_a = Some(r),
            }
        }
        if result_b.is_none() {
            match plan_b(&b) {
                Step::Ask(action) => b.push(w.perform(&action)),
                Step::Finish(r) => result_b = Some(r),
            }
        }
    }
    let won_a = matches!(&result_a, Some(Ok(out)) if out.success);
    let won_b = matches!(&result_b, Some(Ok(out)) if out.success);
    assert!(won_a);
    assert!(!won_b);
    assert_eq!(result_b.unwrap().unwrap_err().kind, ErrorKind::AlreadyExists);
    assert_eq!(w.worktrees.len(), 1);
    assert_eq!(w.store.len(), 1);
    assert_eq!(w.store.find("BEAD-2").unwrap().agent_id, "agent-a");

    // The loser tries again and learns who owns the bead.
    let again = w.run(|r| claim_task("BEAD-2", "agent-b", true, 12, r)).unwrap();
    assert!(!again.success);
    assert_eq!(
        again.error,
        Some(LifecycleError { kind: ErrorKind::AlreadyClaimed, detail: "agent-a".to_string() })
    );
}

#[test]
fn insert_conflict_names_owner_and_removes_worktree() {
    let mut w = Workspace::new(vec![bead("B", "P1", "open")]);
    // A row without a worktree: the lookup of agent-b comes before it.
    let replies = vec![
        Reply::Claim(None),
        Reply::Bead(bead("B", "P1", "open")),
    ];
    let step = claim_task("B", "agent-b", true, 5, &replies);
    assert_eq!(step, Step::Ask(Action::CreateWorktree { bead_id: "B".to_string() }));
    w.store
        .insert(Claim {
            bead_id: "B".to_string(),
            agent_id: "agent-a".to_string(),
            worktree_path: "/elsewhere".to_string(),
            branch_name: "bacchus/B".to_string(),
            start_commit: "c".to_string(),
            claimed_at: 1,
        })
        .unwrap();
    let mut replies = replies;
    let result = loop {
        match claim_task("B", "agent-b", true, 5, &replies) {
            Step::Ask(action) => replies.push(w.perform(&action)),
            Step::Finish(r) => break r,
        }
    };
    assert_eq!(
        result.unwrap_err(),
        LifecycleError { kind: ErrorKind::AlreadyClaimed, detail: "agent-a".to_string() }
    );
    assert!(!w.worktrees.contains("B"));
    assert_eq!(w.store.len(), 1);
}

#[test]
fn insert_failure_removes_worktree() {
    let mut w = Workspace::new(vec![bead("B", "P1", "open")]);
    w.fail_insert = true;
    let err = w.run(|r| claim_task("B", "a", false, 5, r)).unwrap_err();
    assert_eq!(err, LifecycleError { kind: ErrorKind::StoreFailure, detail: "disk full".to_string() });
    assert!(w.worktrees.is_empty());
    assert_eq!(w.store.len(), 0);
    assert_eq!(w.status("B"), "open");
}

#[test]
fn tracker_failure_rolls_claim_back() {
    let mut w = Workspace::new(vec![bead("BEAD-1", "P1", "open")]);
    w.fail_status.insert("in_progress".to_string());
    let err = w.run(|r| claim_task("BEAD-1", "agent-a", false, 1, r)).unwrap_err();
    assert_eq!(err.kind, ErrorKind::TrackerFailure);
    assert_eq!(err.detail, "Failed to update bead status: tracker is down");
    assert_eq!(w.store.len(), 0);
    assert!(w.worktrees.is_empty());
    assert_eq!(w.status("BEAD-1"), "open");
    let n = w.asked.len();
    assert!(w.asked[n - 2].starts_with("DeleteClaim"));
    assert!(w.asked[n - 1].starts_with("RemoveWorktree"));
    assert!(w.asked[n - 1].contains("force: true"));
}

#[test]
fn closed_bead_is_not_claimable() {
    let mut w = Workspace::new(vec![bead("B", "P1", "closed")]);
    let out = w.run(|r| claim_task("B", "a", true, 1, r)).unwrap();
    assert!(!out.success);
    assert_eq!(out.message, "Bead B is already closed");
    assert_eq!(
        out.error,
        Some(LifecycleError { kind: ErrorKind::NotClaimable, detail: "closed".to_string() })
    );
    assert!(w.worktrees.is_empty());
}

#[test]
fn unready_bead_needs_force() {
    let mut w = Workspace::new(vec![bead("B", "P1", "blocked")]);
    let out = w.run(|r| claim_task("B", "a", false, 1, r)).unwrap();
    assert!(!out.success);
    assert_eq!(
        out.message,
        "Bead B is not ready (status: blocked, may be blocked by dependencies). Use --force to override."
    );
    assert_eq!(kind_of(&out.error), Some(ErrorKind::NotClaimable));
    let out = w.run(|r| claim_task("B", "a", true, 1, r)).unwrap();
    assert!(out.success);
    assert_eq!(w.status("B"), "in_progress");
}

#[test]
fn missing_bead_fails_the_claim() {
    let mut w = Workspace::new(vec![]);
    let err = w.run(|r| claim_task("nope", "a", false, 1, r)).unwrap_err();
    assert_eq!(err.kind, ErrorKind::TrackerFailure);
    assert_eq!(err.detail, "Failed to get bead: Bead not found: nope");
}

#[test]
fn next_takes_highest_priority_unclaimed() {
    let mut w = Workspace::new(vec![
        bead("BEAD-3", "P2", "open"),
        bead("BEAD-1", "P0", "open"),
        bead("BEAD-2", "P0", "open"),
        bead("BEAD-4", "P1", "closed"),
    ]);
    let first = w.run(|r| next_task("agent-a", 1, r)).unwrap();
    assert!(first.success);
    assert_eq!(first.bead_id.as_deref(), Some("BEAD-1"));
    assert_eq!(first.branch.as_deref(), Some("bacchus/BEAD-1"));
    assert_eq!(first.message, "Claimed BEAD-1 - work in /repo/.bacchus/worktrees/BEAD-1");
    let second = w.run(|r| next_task("agent-b", 2, r)).unwrap();
    assert_eq!(second.bead_id.as_deref(), Some("BEAD-2"));
    let third = w.run(|r| next_task("agent-c", 3, r)).unwrap();
    assert_eq!(third.bead_id.as_deref(), Some("BEAD-3"));
    let fourth = w.run(|r| next_task("agent-d", 4, r)).unwrap();
    assert!(!fourth.success);
    assert_eq!(fourth.bead_id, None);
    assert_eq!(fourth.message, "No ready beads available");
    assert_eq!(kind_of(&fourth.error), Some(ErrorKind::NoReadyWork));
    assert_eq!(w.store.len(), 3);
}

#[test]
fn next_skips_a_ready_bead_that_is_claimed() {
    let mut w = Workspace::new(vec![bead("B1", "P0", "open"), bead("B2", "P1", "open")]);
    // B1 is claimed, but the tracker still lists it as open.
    w.store
        .insert(Claim {
            bead_id: "B1".to_string(),
            agent_id: "agent-a".to_string(),
            worktree_path: "/w".to_string(),
            branch_name: "bacchus/B1".to_string(),
            start_commit: "c".to_string(),
            claimed_at: 1,
        })
        .unwrap();
    let out = w.run(|r| next_task("agent-b", 2, r)).unwrap();
    assert!(out.success);
    assert_eq!(out.bead_id.as_deref(), Some("B2"));
    assert_eq!(w.store.find("B1").unwrap().agent_id, "agent-a");
    assert_eq!(w.store.find("B2").unwrap().agent_id, "agent-b");
}

#[test]
fn release_without_claim_is_refused() {
    let mut w = Workspace::new(vec![bead("B", "P1", "open")]);
    let out = w.run(|r| release_bead("nonexistent-bead", "done", r)).unwrap();
    assert!(!out.success);
    assert_eq!(out.message, "No claim found for nonexistent-bead");
    assert_eq!(
        out.error,
        Some(LifecycleError { kind: ErrorKind::NotFound, detail: "nonexistent-bead".to_string() })
    );
    assert_eq!(w.asked.len(), 1);
}

#[test]
fn release_with_invalid_status_is_refused() {
    let mut w = Workspace::new(vec![bead("B", "P1", "open")]);
    w.run(|r| claim_task("B", "a", false, 1, r)).unwrap();
    let out = w.run(|r| release_bead("B", "invalid", r)).unwrap();
    assert!(!out.success);
    assert_eq!(out.message, "Invalid status: invalid. Use done, blocked, or failed");
    assert_eq!(kind_of(&out.error), Some(ErrorKind::InvalidStatus));
    assert!(w.store.contains("B"));
    assert!(w.worktrees.contains("B"));
}

#[test]
fn release_done_merges_and_closes() {
    let mut w = Workspace::new(vec![bead("B", "P1", "open")]);
    w.run(|r| claim_task("B", "a", false, 1, r)).unwrap();
    let out = w.run(|r| release_bead("B", "done", r)).unwrap();
    assert!(out.success);
    assert!(out.merged);
    assert_eq!(out.message, "Released B with status done");
    assert!(!w.store.contains("B"));
    assert!(!w.worktrees.contains("B"));
    assert_eq!(w.status("B"), "closed");
    assert!(w.asked.iter().any(|a| a.starts_with("MergeWorktree") && a.contains("\"main\"")));
    assert!(w.asked.iter().any(|a| a.starts_with("RemoveWorktree") && a.contains("force: false")));
}

#[test]
fn release_blocked_keeps_worktree() {
    let mut w = Workspace::new(vec![bead("B", "P1", "open")]);
    w.run(|r| claim_task("B", "a", false, 1, r)).unwrap();
    let out = w.run(|r| release_bead("B", "blocked", r)).unwrap();
    assert!(out.success);
    assert!(!out.merged);
    assert!(!w.store.contains("B"));
    assert!(w.worktrees.contains("B"));
    assert_eq!(w.status("B"), "blocked");
}

#[test]
fn blocked_bead_keeps_its_worktree_until_it_is_removed() {
    let mut w = Workspace::new(vec![bead("B", "P1", "open")]);
    w.run(|r| claim_task("B", "a", false, 1, r)).unwrap();
    w.run(|r| release_bead("B", "blocked", r)).unwrap();
    // The worktree of the blocked bead is still there: a new claim collides with it.
    let err = w.run(|r| claim_task("B", "b", true, 2, r)).unwrap_err();
    assert_eq!(err.kind, ErrorKind::AlreadyExists);
    assert_eq!(err.detail, "Worktree already exists: B");
    assert!(!w.store.contains("B"));
    assert!(w.worktrees.contains("B"));
    assert_eq!(w.status("B"), "blocked");
    // Once the worktree is gone the bead can be claimed again.
    w.worktrees.remove("B");
    let out = w.run(|r| claim_task("B", "b", true, 3, r)).unwrap();
    assert!(out.success);
    assert_eq!(w.store.find("B").unwrap().agent_id, "b");
}

#[test]
fn release_keeps_claim_when_tracker_fails() {
    let mut w = Workspace::new(vec![bead("B", "P1", "open")]);
    w.run(|r| claim_task("B", "a", false, 1, r)).unwrap();
    w.fail_status.insert("open".to_string());
    let err = w.run(|r| release_bead("B", "failed", r)).unwrap_err();
    assert_eq!(err.kind, ErrorKind::TrackerFailure);
    assert!(w.store.contains("B"));
}

#[test]
fn conflict_keeps_claim_then_abort_restores() {
    let mut w = Workspace::new(vec![bead("B", "P1", "open")]);
    w.run(|r| claim_task("B", "a", false, 1, r)).unwrap();
    w.conflicting.insert("B".to_string());
    let out = w.run(|r| release_bead("B", "done", r)).unwrap();
    assert!(!out.success);
    assert!(!out.merged);
    assert_eq!(
        out.error,
        Some(LifecycleError { kind: ErrorKind::MergeConflict, detail: "B".to_string() })
    );
    assert_eq!(
        out.message,
        "Merge conflict detected. Options:\n1. Resolve conflicts manually, then: bacchus resolve B\n2. Abort merge, keep working: bacchus abort B\n3. Discard all work: bacchus release B --status failed"
    );
    assert!(w.store.contains("B"));
    assert!(w.merging.is_some());
    assert_eq!(w.status("B"), "in_progress");

    let out = w.run(|r| abort_merge("B", r)).unwrap();
    assert!(out.success);
    assert_eq!(
        out.message,
        "Aborted merge for B. Worktree preserved at .bacchus/worktrees/B. Continue working or release with --status failed."
    );
    assert!(w.merging.is_none());
    assert!(w.worktrees.contains("B"));
    assert!(w.store.contains("B"));
}

#[test]
fn abort_without_merge_is_refused() {
    let mut w = Workspace::new(vec![bead("test-bead", "P1", "open")]);
    let out = w.run(|r| abort_merge("test-bead", r)).unwrap();
    assert!(!out.success);
    assert_eq!(out.message, "No claim found for test-bead");
    w.run(|r| claim_task("test-bead", "a", false, 1, r)).unwrap();
    let out = w.run(|r| abort_merge("test-bead", r)).unwrap();
    assert!(!out.success);
    assert_eq!(out.message, "Not in a merge conflict state. Nothing to abort.");
    assert_eq!(kind_of(&out.error), Some(ErrorKind::NotMerging));
}

#[test]
fn abort_of_another_beads_merge_is_refused() {
    let mut w = Workspace::new(vec![bead("A", "P1", "open"), bead("B", "P1", "open")]);
    w.run(|r| claim_task("A", "a", false, 1, r)).unwrap();
    w.run(|r| claim_task("B", "b", false, 1, r)).unwrap();
    w.conflicting.insert("A".to_string());
    w.run(|r| release_bead("A", "done", r)).unwrap();
    let out = w.run(|r| abort_merge("B", r)).unwrap();
    assert!(!out.success);
    assert_eq!(
        out.error,
        Some(LifecycleError { kind: ErrorKind::WrongMergeTarget, detail: "bacchus/A".to_string() })
    );
    assert_eq!(
        out.message,
        "Current merge conflict is for 'bacchus/A', not 'bacchus/B'. Abort the correct bead."
    );
    assert_eq!(w.merging.as_deref(), Some("bacchus/A"));
    let out = w.run(|r| resolve_merge("B", r)).unwrap();
    assert!(!out.success);
    assert_eq!(
        out.message,
        "Current merge is for 'bacchus/A', not 'bacchus/B'. Resolve the correct bead."
    );
}

#[test]
fn resolve_needs_clean_staging() {
    let mut w = Workspace::new(vec![bead("B", "P1", "open")]);
    w.run(|r| claim_task("B", "a", false, 1, r)).unwrap();
    w.conflicting.insert("B".to_string());
    w.run(|r| release_bead("B", "done", r)).unwrap();
    let out = w.run(|r| resolve_merge("B", r)).unwrap();
    assert!(!out.success);
    assert!(!out.merged);
    assert_eq!(
        out.error,
        Some(LifecycleError { kind: ErrorKind::UnresolvedConflicts, detail: "B".to_string() })
    );
    assert_eq!(
        out.message,
        "Unresolved conflicts remain. Fix all conflicts and stage changes with 'git add'."
    );
    assert!(w.store.contains("B"));
    assert!(w.worktrees.contains("B"));
    assert!(w.merging.is_some());
    assert!(!w.asked.iter().any(|a| a.starts_with("CompleteMerge")));

    w.unresolved = false;
    let out = w.run(|r| resolve_merge("B", r)).unwrap();
    assert!(out.success);
    assert!(out.merged);
    assert_eq!(out.message, "Merge completed for B. Worktree removed, bead closed.");
    assert!(!w.store.contains("B"));
    assert!(!w.worktrees.contains("B"));
    assert!(w.merging.is_none());
    assert_eq!(w.status("B"), "closed");
}

#[test]
fn resolve_without_merge_is_refused() {
    let mut w = Workspace::new(vec![bead("B", "P1", "open")]);
    w.run(|r| claim_task("B", "a", false, 1, r)).unwrap();
    let out = w.run(|r| resolve_merge("B", r)).unwrap();
    assert!(!out.success);
    assert_eq!(out.message, "Not in a merge state. Use 'bacchus release --status done' instead.");
}

#[test]
fn stale_boundary_is_strict() {
    let now: i64 = 10_000_000;
    let minutes: i64 = 30;
    let cutoff = now - minutes * 60_000;
    let mut w = Workspace::new(vec![
        bead("old", "P1", "open"),
        bead("edge", "P1", "open"),
        bead("new", "P1", "open"),
    ]);
    w.run(|r| claim_task("old", "a", false, cutoff - 1, r)).unwrap();
    w.run(|r| claim_task("edge", "b", false, cutoff, r)).unwrap();
    w.run(|r| claim_task("new", "c", false, cutoff + 1, r)).unwrap();
    let out = w.run(|r| find_stale(minutes, false, now, r)).unwrap();
    assert_eq!(out.stale_claims.len(), 1);
    assert_eq!(out.stale_claims[0].bead_id, "old");
    assert_eq!(out.stale_claims[0].agent_id, "a");
    assert_eq!(out.stale_claims[0].claimed_at, cutoff - 1);
    assert_eq!(out.stale_claims[0].age_minutes, 30);
    assert!(out.cleaned_up.is_empty());
    assert_eq!(out.message, "Found 1 stale claims (use --cleanup to remove)");
    assert_eq!(w.store.len(), 3);
}

#[test]
fn stale_cleanup_reclaims_each_and_goes_on_after_failures() {
    let now: i64 = 100 * 60_000;
    let mut w = Workspace::new(vec![
        bead("a", "P1", "open"),
        bead("b", "P1", "open"),
        bead("c", "P1", "open"),
    ]);
    w.run(|r| claim_task("a", "x", false, 0, r)).unwrap();
    w.run(|r| claim_task("b", "y", false, 60_000, r)).unwrap();
    w.run(|r| claim_task("c", "z", false, now, r)).unwrap();
    w.fail_remove.insert("a".to_string());
    let out = w.run(|r| find_stale(15, true, now, r)).unwrap();
    assert_eq!(out.stale_claims.len(), 2);
    assert_eq!(out.stale_claims[0].age_minutes, 100);
    assert_eq!(out.stale_claims[1].age_minutes, 99);
    assert_eq!(out.cleaned_up, vec!["a".to_string(), "b".to_string()]);
    assert_eq!(out.message, "Found 2 stale claims, cleaned up 2");
    assert!(!w.store.contains("a"));
    assert!(!w.store.contains("b"));
    assert!(w.store.contains("c"));
    assert!(!w.worktrees.contains("b"));
    assert_eq!(w.status("a"), "open");
    assert_eq!(w.status("b"), "open");
    assert_eq!(w.status("c"), "in_progress");
}

#[test]
fn stale_on_empty_table() {
    let mut w = Workspace::new(vec![]);
    let out = w.run(|r| find_stale(15, true, 5, r)).unwrap();
    assert!(out.stale_claims.is_empty());
    assert!(out.cleaned_up.is_empty());
    assert_eq!(out.message, "Found 0 stale claims, cleaned up 0");
}

#[test]
fn list_shows_claims_with_age() {
    let mut w = Workspace::new(vec![bead("a", "P1", "open"), bead("b", "P1", "open")]);
    let empty = w.run(|r| list_claims(0, r)).unwrap();
    assert_eq!(empty.total, 0);
    assert!(empty.claims.is_empty());
    w.run(|r| claim_task("a", "x", false, 0, r)).unwrap();
    w.run(|r| claim_task("b", "y", false, 119_999, r)).unwrap();
    let out = w.run(|r| list_claims(180_000, r)).unwrap();
    assert_eq!(out.total, 2);
    assert_eq!(out.claims[0].bead_id, "a");
    assert_eq!(out.claims[0].age_minutes, 3);
    assert_eq!(out.claims[0].branch_name, "bacchus/a");
    assert_eq!(out.claims[1].bead_id, "b");
    assert_eq!(out.claims[1].age_minutes, 1);
}

#[test]
fn a_reply_that_does_not_fit_ends_the_operation() {
    let replies = vec![Reply::Flag(true)];
    let step = release_bead("B", "done", &replies);
    assert_eq!(
        step,
        Step::Finish(Err(LifecycleError {
            kind: ErrorKind::UnexpectedReply,
            detail: String::new()
        }))
    );
}

#[test]
fn store_failure_ends_the_operation() {
    let replies = vec![Reply::Failed("database is locked".to_string())];
    for kind in [
        claim_task("B", "a", false, 1, &replies).finish_err(),
        release_bead("B", "done", &replies).finish_err(),
    ] {
        assert_eq!(
            kind,
            Some(LifecycleError {
                kind: ErrorKind::StoreFailure,
                detail: "database is locked".to_string()
            })
        );
    }
}

trait FinishErr {
    fn finish_err(self) -> Option<LifecycleError>;
}

impl<T> FinishErr for Step<T> {
    fn finish_err(self) -> Option<LifecycleError> {
        match self {
            Step::Finish(Err(e)) => Some(e),
            _ => None,
        }
    }
}

fn claimed() -> Reply {
    Reply::Claim(Some(Claim {
        bead_id: "B".to_string(),
        agent_id: "a".to_string(),
        worktree_path: "/w/B".to_string(),
        branch_name: "bacchus/B".to_string(),
        start_commit: "c".to_string(),
        claimed_at: 1,
    }))
}

#[test]
fn version_control_failures_are_told_apart_from_conflicts() {
    // A merge that fails without a conflict refuses the release and keeps the claim.
    let replies = vec![claimed(), Reply::Failed("fatal: refusing to merge".to_string())];
    match release_bead("B", "done", &replies) {
        Step::Finish(Ok(out)) => {
            assert!(!out.success);
            assert!(!out.merged);
            assert_eq!(out.message, "Failed to merge: fatal: refusing to merge");
            assert_eq!(
                out.error,
                Some(LifecycleError {
                    kind: ErrorKind::VcsFailure,
                    detail: "fatal: refusing to merge".to_string()
                })
            );
        }
        other => panic!("unexpected: {:?}", other),
    }
    // After a clean merge, a worktree that cannot be removed ends the release.
    let replies = vec![claimed(), Reply::Done, Reply::Failed("worktree is dirty".to_string())];
    assert_eq!(
        release_bead("B", "done", &replies),
        Step::Finish(Err(LifecycleError {
            kind: ErrorKind::VcsFailure,
            detail: "worktree is dirty".to_string()
        }))
    );
    // A worktree that cannot be created ends the claim before anything is recorded.
    let replies = vec![
        Reply::Claim(None),
        Reply::Bead(bead("B", "P1", "open")),
        Reply::Failed("Git command failed: no HEAD".to_string()),
    ];
    assert_eq!(
        claim_task("B", "a", true, 1, &replies),
        Step::Finish(Err(LifecycleError {
            kind: ErrorKind::VcsFailure,
            detail: "Failed to create worktree: Git command failed: no HEAD".to_string()
        }))
    );
    // Questions about the merge that fail end an abort and a resolve.
    let replies = vec![claimed(), Reply::Failed("io".to_string())];
    assert_eq!(
        abort_merge("B", &replies),
        Step::Finish(Err(LifecycleError { kind: ErrorKind::VcsFailure, detail: "io".to_string() }))
    );
    let replies = vec![
        claimed(),
        Reply::Flag(true),
        Reply::Branch(Some("bacchus/B".to_string())),
        Reply::Flag(false),
        Reply::Failed("commit failed".to_string()),
    ];
    assert_eq!(
        resolve_merge("B", &replies),
        Step::Finish(Err(LifecycleError {
            kind: ErrorKind::VcsFailure,
            detail: "commit failed".to_string()
        }))
    );
    // A merge whose branch cannot be named is no merge of this bead.
    let replies = vec![claimed(), Reply::Flag(true), Reply::Branch(None)];
    match abort_merge("B", &replies) {
        Step::Finish(Ok(out)) => {
            assert!(!out.success);
            assert_eq!(
                out.error,
                Some(LifecycleError { kind: ErrorKind::WrongMergeTarget, detail: String::new() })
            );
            assert_eq!(
                out.message,
                "Current merge conflict is for '', not 'bacchus/B'. Abort the correct bead."
            );
        }
        other => panic!("unexpected: {:?}", other),
    }
}

#[test]
fn operations_ask_one_request_at_a_time() {
    assert_eq!(
        release_bead("B", "done", &Vec::new()),
        Step::Ask(Action::FindClaim { bead_id: "B".to_string() })
    );
    assert_eq!(
        release_bead("B", "done", &vec![claimed()]),
        Step::Ask(Action::MergeWorktree { bead_id: "B".to_string(), target: "main".to_string() })
    );
    assert_eq!(
        release_bead("B", "done", &vec![claimed(), Reply::Done]),
        Step::Ask(Action::RemoveWorktree { bead_id: "B".to_string(), force: false })
    );
    assert_eq!(
        release_bead("B", "done", &vec![claimed(), Reply::Done, Reply::Done]),
        Step::Ask(Action::UpdateBeadStatus {
            bead_id: "B".to_string(),
            status: "closed".to_string()
        })
    );
    assert_eq!(
        release_bead("B", "done", &vec![claimed(), Reply::Done, Reply::Done, Reply::Done]),
        Step::Ask(Action::DeleteClaim { bead_id: "B".to_string() })
    );
    assert_eq!(
        release_bead("B", "failed", &vec![claimed()]),
        Step::Ask(Action::RemoveWorktree { bead_id: "B".to_string(), force: true })
    );
    assert_eq!(
        release_bead("B", "blocked", &vec![claimed()]),
        Step::Ask(Action::UpdateBeadStatus {
            bead_id: "B".to_string(),
            status: "blocked".to_string()
        })
    );
    assert_eq!(next_task("a", 0, &Vec::new()), Step::Ask(Action::GetReadyBeads));
    assert_eq!(find_stale(1, true, 0, &Vec::new()), Step::Ask(Action::ListClaims));
    assert_eq!(list_claims(0, &Vec::new()), Step::Ask(Action::ListClaims));
    assert_eq!(
        resolve_merge("B", &vec![claimed(), Reply::Flag(true)]),
        Step::Ask(Action::GetMergeBranch)
    );
    assert_eq!(
        resolve_merge(
            "B",
            &vec![claimed(), Reply::Flag(true), Reply::Branch(Some("bacchus/B".to_string()))]
        ),
        Step::Ask(Action::HasUnresolvedConflicts)
    );
    assert_eq!(
        claim_task("B", "a", false, 9, &vec![
            Reply::Claim(None),
            Reply::Bead(bead("B", "P1", "open")),
            Reply::Flag(true),
            Reply::Worktree(WorktreeInfo {
                bead_id: "B".to_string(),
                path: "/w/B".to_string(),
                branch: "bacchus/B".to_string(),
                head_commit: "abc".to_string(),
            }),
        ]),
        Step::Ask(Action::InsertClaim {
            claim: Claim {
                bead_id: "B".to_string(),
                agent_id: "a".to_string(),
                worktree_path: "/w/B".to_string(),
                branch_name: "bacchus/B".to_string(),
                start_commit: "abc".to_string(),
                claimed_at: 9,
            }
        })
    );
}
