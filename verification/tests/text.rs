use bacchus::beads::{BeadInfo, BeadsError};
use bacchus::claims::{Claim, StoreError};
use bacchus::protocol::{ErrorKind, LifecycleError, Reply};
use bacchus::text::{
    after, after_text, chars_of, compare_numbers, decimal, parse_number, parse_numbers, same,
    span, starts_with, strip_leading, strip_prefix, up_to,
};
use bacchus::worktree::{WorktreeError, WorktreeInfo};

#[test]
fn numbers_are_written_in_decimal() {
    assert_eq!(decimal(0), "0");
    assert_eq!(decimal(7), "7");
    assert_eq!(decimal(10), "10");
    assert_eq!(decimal(-120), "-120");
    assert_eq!(decimal(9_007_199_254_740_993), "9007199254740993");
    assert_eq!(decimal(i128::MAX), "170141183460469231731687303715884105727");
    assert_eq!(decimal(i128::MIN), "-170141183460469231731687303715884105728");
}

#[test]
fn texts_are_compared_and_cut() {
    assert!(same("", ""));
    assert!(same("añb", "añb"));
    assert!(!same("a", "b"));
    assert!(!same("a", "ab"));
    assert!(starts_with("remotes/origin/x", "remotes/origin/"));
    assert!(starts_with("x", ""));
    assert!(!starts_with("re", "remotes"));
    assert_eq!(strip_prefix("remotes/origin/x", "remotes/origin/"), "x");
    assert_eq!(strip_prefix("origin/x", "remotes/origin/"), "origin/x");
    assert_eq!(up_to("branch~2", '~'), "branch");
    assert_eq!(up_to("branch", '~'), "branch");
    assert_eq!(up_to("~", '~'), "");
    assert_eq!(after("a.b.c", '.'), "c");
    assert_eq!(after("abc", '.'), "abc");
    assert_eq!(after("abc.", '.'), "");
    assert_eq!(after_text("a::b::c", "::"), "c");
    assert_eq!(after_text("a::b::c", ""), "a::b::c");
    assert_eq!(after_text("a:b", "::"), "a:b");
    assert_eq!(strip_leading("vv1.2", 'v'), "1.2");
    assert_eq!(strip_leading("1.2v", 'v'), "1.2v");
    assert_eq!(strip_leading("vvv", 'v'), "");
    assert_eq!(chars_of("añ"), vec!['a', 'ñ']);
    assert_eq!(span("añb", 1, 3), "ñ");
    assert_eq!(span("añb", 0, 4), "añb");
    assert_eq!(span("añb", 1, 2), "");
    assert_eq!(span("añb", 2, 3), "");
    assert_eq!(span("añb", 3, 2), "");
    assert_eq!(span("añb", 0, 9), "");
}

#[test]
fn numbers_are_read_as_the_standard_library_reads_them() {
    let read = |s: &str| {
        let chars: Vec<char> = s.chars().collect();
        parse_number(&chars, 0, chars.len())
    };
    for s in ["0", "7", "007", "+5", "4294967295", "4294967296", "", "+", "-1", "1 ", " 1", "1a", "١", "99999999999999999999"] {
        assert_eq!(read(s), s.parse::<u32>().ok(), "{:?}", s);
    }
    let chars: Vec<char> = "1.22.333".chars().collect();
    assert_eq!(parse_number(&chars, 2, 4), Some(22));
    assert_eq!(parse_numbers(&chars, 0, '.'), Some(vec![1, 22, 333]));
    assert_eq!(parse_numbers(&chars, 2, '.'), Some(vec![22, 333]));
    assert_eq!(parse_numbers(&chars, 8, '.'), None);
    let odd: Vec<char> = "1..2".chars().collect();
    assert_eq!(parse_numbers(&odd, 0, '.'), None);
    let tail: Vec<char> = "1.".chars().collect();
    assert_eq!(parse_numbers(&tail, 0, '.'), None);
}

#[test]
fn lists_of_numbers_are_compared_from_the_front() {
    assert_eq!(compare_numbers(&vec![], &vec![]), 0);
    assert_eq!(compare_numbers(&vec![1], &vec![]), 1);
    assert_eq!(compare_numbers(&vec![], &vec![0]), -1);
    assert_eq!(compare_numbers(&vec![1, 2], &vec![1, 3]), -1);
    assert_eq!(compare_numbers(&vec![2], &vec![1, 9]), 1);
    assert_eq!(compare_numbers(&vec![1, 2], &vec![1, 2, 0]), -1);
    assert_eq!(compare_numbers(&vec![1, 2, 3], &vec![1, 2, 3]), 0);
    for (a, b) in [(vec![1u32, 2], vec![1u32, 10]), (vec![3], vec![3, 0]), (vec![], vec![])] {
        let sign = match a.cmp(&b) {
            std::cmp::Ordering::Less => -1,
            std::cmp::Ordering::Equal => 0,
            std::cmp::Ordering::Greater => 1,
        };
        assert_eq!(compare_numbers(&a, &b), sign);
    }
}

fn claim() -> Claim {
    Claim {
        bead_id: "b".to_string(),
        agent_id: "a".to_string(),
        worktree_path: "/w/b".to_string(),
        branch_name: "bacchus/b".to_string(),
        start_commit: "c".to_string(),
        claimed_at: 1,
    }
}

#[test]
fn results_become_replies() {
    assert_eq!(Reply::claim(Ok(None)), Reply::Claim(None));
    assert_eq!(Reply::claim(Ok(Some(claim()))), Reply::Claim(Some(claim())));
    assert_eq!(
        Reply::claim(Err(StoreError::Database("locked".to_string()))),
        Reply::Failed("locked".to_string())
    );
    assert_eq!(Reply::claims(Ok(vec![claim()])), Reply::Claims(vec![claim()]));
    assert_eq!(Reply::stored(Ok(())), Reply::Done);
    assert_eq!(
        Reply::stored(Err(StoreError::Conflict("UNIQUE constraint failed".to_string()))),
        Reply::Conflict("UNIQUE constraint failed".to_string())
    );
    let bead = BeadInfo {
        id: "b".to_string(),
        title: "t".to_string(),
        description: None,
        priority: "P1".to_string(),
        status: "open".to_string(),
    };
    assert_eq!(Reply::bead(Ok(bead.clone())), Reply::Bead(bead.clone()));
    assert_eq!(
        Reply::bead(Err(BeadsError::BeadNotFound("b".to_string()))),
        Reply::Failed("Bead not found: b".to_string())
    );
    assert_eq!(Reply::beads(Ok(vec![bead.clone()])), Reply::Beads(vec![bead]));
    assert_eq!(Reply::ready(Ok(true)), Reply::Flag(true));
    assert_eq!(
        Reply::status(Err(BeadsError::InvalidStatus("s".to_string()))),
        Reply::Failed("Invalid status: s".to_string())
    );
    assert_eq!(Reply::status(Ok(())), Reply::Done);
    let info = WorktreeInfo {
        bead_id: "b".to_string(),
        path: "/w/b".to_string(),
        branch: "bacchus/b".to_string(),
        head_commit: "c".to_string(),
    };
    assert_eq!(Reply::worktree(Ok(info.clone())), Reply::Worktree(info));
    assert_eq!(
        Reply::worktree(Err(WorktreeError::AlreadyExists("b".to_string()))),
        Reply::Conflict("Worktree already exists: b".to_string())
    );
    assert_eq!(
        Reply::worktree(Err(WorktreeError::GitError("x".to_string()))),
        Reply::Failed("Git command failed: x".to_string())
    );
    assert_eq!(Reply::changed(Ok(())), Reply::Done);
    assert_eq!(
        Reply::changed(Err(WorktreeError::MergeConflict("m".to_string()))),
        Reply::Conflict("m".to_string())
    );
    assert_eq!(
        Reply::changed(Err(WorktreeError::UnresolvedConflicts)),
        Reply::Conflict("Cannot complete merge: unresolved conflicts remain".to_string())
    );
    assert_eq!(
        Reply::changed(Err(WorktreeError::NotFound("b".to_string()))),
        Reply::Failed("Worktree not found: b".to_string())
    );
    assert_eq!(Reply::flag(Ok(false)), Reply::Flag(false));
    assert_eq!(
        Reply::flag(Err(WorktreeError::IoError("e".to_string()))),
        Reply::Failed("IO error: e".to_string())
    );
    assert_eq!(Reply::branch(Ok(Some("x".to_string()))), Reply::Branch(Some("x".to_string())));
    assert_eq!(Reply::branch(Ok(None)), Reply::Branch(None));
}

#[test]
fn errors_say_what_they_are_about() {
    let e = LifecycleError::new(ErrorKind::AlreadyClaimed, "agent-a");
    assert_eq!(e.kind, ErrorKind::AlreadyClaimed);
    assert_eq!(e.detail, "agent-a");
    assert_eq!(e.message(), "already claimed: agent-a");
    assert!(e.is_refusal());
    assert_eq!(e.clone(), e);
    assert_eq!(LifecycleError::new(ErrorKind::NoReadyWork, "").message(), "no ready work");
    for kind in [
        ErrorKind::VcsFailure,
        ErrorKind::TrackerFailure,
        ErrorKind::StoreFailure,
        ErrorKind::UnexpectedReply,
    ] {
        assert!(!LifecycleError::new(kind, "x").is_refusal());
    }
    for kind in [
        ErrorKind::NotFound,
        ErrorKind::AlreadyExists,
        ErrorKind::MergeConflict,
        ErrorKind::UnresolvedConflicts,
        ErrorKind::WrongMergeTarget,
        ErrorKind::NoReadyWork,
        ErrorKind::NotClaimable,
        ErrorKind::NotMerging,
        ErrorKind::InvalidStatus,
    ] {
        assert!(LifecycleError::new(kind, "x").is_refusal());
    }
}
