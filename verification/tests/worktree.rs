use bacchus::worktree::{
    abort_merge, branch_name, clean_branch_name, complete_merge, create_worktree, delete_branch,
    get_head_commit, get_merge_branch, get_worktrees_dir, has_unresolved_conflicts,
    is_in_merge_conflict, join_path, lists_unmerged, merge_worktree, remove_worktree, Command,
    Outcome, Progress, WorktreeError, WorktreeInfo,
};

fn ok(stdout: &str) -> Outcome {
    Outcome::Exited { success: true, stdout: stdout.to_string(), stderr: String::new() }
}

fn failed(stderr: &str) -> Outcome {
    Outcome::Exited { success: false, stdout: String::new(), stderr: stderr.to_string() }
}

fn git(dir: &str, args: &[&str]) -> Command {
    Command::Git { dir: dir.to_string(), args: args.iter().map(|a| a.to_string()).collect() }
}

/// Feeds `script` to `operation`, one outcome for each command, and returns
/// the commands that were run with the result.
fn run<T>(
    operation: impl Fn(&Vec<Outcome>) -> Progress<T>,
    script: Vec<Outcome>,
) -> (Vec<Command>, Result<T, WorktreeError>) {
    let mut commands = Vec::new();
    let mut outcomes = Vec::new();
    let mut script = script.into_iter();
    loop {
        match operation(&outcomes) {
            Progress::Run(command) => {
                commands.push(command);
                outcomes.push(script.next().expect("the operation ran more commands than scripted"));
            }
            Progress::Return(result) => {
                assert!(script.next().is_none(), "the operation ended before the script did");
                return (commands, result);
            }
        }
    }
}

#[test]
fn test_create_worktree() {
    let repo_path = "/tmp/repo";
    let dir = get_worktrees_dir(repo_path, None);
    let (commands, info) = run(
        |o| create_worktree(repo_path, &dir, "test-bead", o),
        vec![
            Outcome::Created,
            Outcome::Exists(false),
            ok("Preparing worktree (new branch 'bacchus/test-bead')\n"),
            ok("4b825dc642cb6eb9a060e54bf8d69288fbee4904\n"),
        ],
    );
    let info = info.unwrap();

    assert_eq!(info.bead_id, "test-bead");
    assert_eq!(info.branch, "bacchus/test-bead");
    assert_eq!(info.path, "/tmp/repo/.bacchus/worktrees/test-bead");
    assert_eq!(info.head_commit, "4b825dc642cb6eb9a060e54bf8d69288fbee4904");
    assert_eq!(
        commands,
        vec![
            Command::CreateDirAll { path: "/tmp/repo/.bacchus/worktrees".to_string() },
            Command::PathExists { path: "/tmp/repo/.bacchus/worktrees/test-bead".to_string() },
            git(
                "/tmp/repo",
                &[
                    "worktree",
                    "add",
                    "/tmp/repo/.bacchus/worktrees/test-bead",
                    "-b",
                    "bacchus/test-bead"
                ]
            ),
            git("/tmp/repo/.bacchus/worktrees/test-bead", &["rev-parse", "HEAD"]),
        ]
    );
}

#[test]
fn test_get_head_commit() {
    let (commands, commit) = run(
        |o| get_head_commit("/tmp/repo", o),
        vec![ok("  4b825dc642cb6eb9a060e54bf8d69288fbee4904\n")],
    );
    let commit = commit.unwrap();
    assert_eq!(commit.len(), 40);
    assert_eq!(commands, vec![git("/tmp/repo", &["rev-parse", "HEAD"])]);
    let (_, failed_commit) = run(|o| get_head_commit("/x", o), vec![failed("not a git repo")]);
    assert_eq!(
        failed_commit,
        Err(WorktreeError::GitError("Failed to get HEAD commit: not a git repo".to_string()))
    );
}

#[test]
fn existing_worktree_is_refused_before_git_runs() {
    let (commands, result) = run(
        |o| create_worktree("/r", "/r/.bacchus/worktrees", "b", o),
        vec![Outcome::Created, Outcome::Exists(true)],
    );
    assert_eq!(result, Err(WorktreeError::AlreadyExists("b".to_string())));
    assert_eq!(commands.len(), 2);
    assert!(!commands.iter().any(|c| matches!(c, Command::Git { .. })));
}

#[test]
fn create_worktree_reports_what_failed() {
    let create = |script| run(|o| create_worktree("/r", "/w", "b", o), script).1;
    assert_eq!(
        create(vec![Outcome::IoError("read-only file system".to_string())]),
        Err(WorktreeError::IoError("read-only file system".to_string()))
    );
    assert_eq!(
        create(vec![Outcome::Created, Outcome::Exists(false), failed("fatal: bad ref")]),
        Err(WorktreeError::GitError("Failed to create worktree: fatal: bad ref".to_string()))
    );
    assert_eq!(
        create(vec![
            Outcome::Created,
            Outcome::Exists(false),
            Outcome::IoError("git: not found".to_string())
        ]),
        Err(WorktreeError::IoError("git: not found".to_string()))
    );
    assert_eq!(
        create(vec![Outcome::Created, Outcome::Exists(false), ok(""), failed("oops")]),
        Err(WorktreeError::GitError("Failed to get HEAD commit: oops".to_string()))
    );
    assert_eq!(
        create(vec![Outcome::Exists(true)]),
        Err(WorktreeError::IoError("unexpected outcome".to_string()))
    );
}

#[test]
fn remove_worktree_removes_then_deletes_branch() {
    let (commands, result) = run(
        |o| remove_worktree("/r", "/r/wt", "b", false, o),
        vec![Outcome::Exists(true), ok(""), ok("Deleted branch bacchus/b\n")],
    );
    assert_eq!(result, Ok(()));
    assert_eq!(
        commands,
        vec![
            Command::PathExists { path: "/r/wt/b".to_string() },
            git("/r", &["worktree", "remove", "/r/wt/b"]),
            git("/r", &["branch", "-d", "bacchus/b"]),
        ]
    );
    let (commands, result) = run(
        |o| remove_worktree("/r", "/r/wt", "b", true, o),
        vec![Outcome::Exists(true), ok(""), ok("")],
    );
    assert_eq!(result, Ok(()));
    assert_eq!(commands[1], git("/r", &["worktree", "remove", "/r/wt/b", "--force"]));
    assert_eq!(commands[2], git("/r", &["branch", "-D", "bacchus/b"]));
}

#[test]
fn remove_worktree_reports_what_failed() {
    let remove = |script| run(|o| remove_worktree("/r", "/w", "b", false, o), script).1;
    assert_eq!(
        remove(vec![Outcome::Exists(false)]),
        Err(WorktreeError::NotFound("b".to_string()))
    );
    assert_eq!(
        remove(vec![Outcome::Exists(true), failed("contains modified files")]),
        Err(WorktreeError::GitError(
            "Failed to remove worktree: contains modified files".to_string()
        ))
    );
    assert_eq!(
        remove(vec![Outcome::Exists(true), ok(""), failed("not fully merged")]),
        Err(WorktreeError::GitError(
            "Failed to delete branch bacchus/b: not fully merged".to_string()
        ))
    );
}

#[test]
fn delete_branch_picks_its_flag() {
    let (commands, result) = run(|o| delete_branch("/r", "topic", false, o), vec![ok("")]);
    assert_eq!(result, Ok(()));
    assert_eq!(commands, vec![git("/r", &["branch", "-d", "topic"])]);
    let (commands, _) = run(|o| delete_branch("/r", "topic", true, o), vec![ok("")]);
    assert_eq!(commands, vec![git("/r", &["branch", "-D", "topic"])]);
}

#[test]
fn merge_checks_out_then_merges() {
    let (commands, result) =
        run(|o| merge_worktree("/r", "b", "main", o), vec![ok(""), ok("Fast-forward\n")]);
    assert_eq!(result, Ok(()));
    assert_eq!(
        commands,
        vec![git("/r", &["checkout", "main"]), git("/r", &["merge", "bacchus/b"])]
    );
    let (_, result) = run(|o| merge_worktree("/r", "b", "main", o), vec![failed("no such branch")]);
    assert_eq!(
        result,
        Err(WorktreeError::GitError("Failed to checkout main: no such branch".to_string()))
    );
}

#[test]
fn merge_tells_a_conflict_from_a_failure() {
    let (commands, result) = run(
        |o| merge_worktree("/r", "b", "main", o),
        vec![ok(""), failed("CONFLICT (content)"), Outcome::Exists(true)],
    );
    assert_eq!(
        result,
        Err(WorktreeError::MergeConflict(
            "Failed to merge bacchus/b: CONFLICT (content)".to_string()
        ))
    );
    assert_eq!(commands[2], Command::PathExists { path: "/r/.git/MERGE_HEAD".to_string() });
    let (_, result) = run(
        |o| merge_worktree("/r", "b", "main", o),
        vec![ok(""), failed("not something we can merge"), Outcome::Exists(false)],
    );
    assert_eq!(
        result,
        Err(WorktreeError::GitError(
            "Failed to merge bacchus/b: not something we can merge".to_string()
        ))
    );
    let (_, result) = run(
        |o| merge_worktree("/r", "b", "main", o),
        vec![ok(""), failed("x"), Outcome::IoError("io".to_string())],
    );
    assert_eq!(result, Err(WorktreeError::GitError("Failed to merge bacchus/b: x".to_string())));
}

#[test]
fn merge_marker_says_whether_a_merge_is_in_progress() {
    let (commands, result) = run(|o| is_in_merge_conflict("/r", o), vec![Outcome::Exists(true)]);
    assert_eq!(result, Ok(true));
    assert_eq!(commands, vec![Command::PathExists { path: "/r/.git/MERGE_HEAD".to_string() }]);
    let (_, result) = run(|o| is_in_merge_conflict("/r", o), vec![Outcome::Exists(false)]);
    assert_eq!(result, Ok(false));
}

#[test]
fn merge_branch_is_named_and_cleaned() {
    let (commands, result) = run(
        |o| get_merge_branch("/r", o),
        vec![Outcome::Exists(true), ok("bacchus/BEAD-1\n")],
    );
    assert_eq!(result, Ok(Some("bacchus/BEAD-1".to_string())));
    assert_eq!(commands[1], git("/r", &["name-rev", "--name-only", "MERGE_HEAD"]));
    let (_, result) = run(
        |o| get_merge_branch("/r", o),
        vec![Outcome::Exists(true), ok(" remotes/origin/bacchus/B~2 \n")],
    );
    assert_eq!(result, Ok(Some("bacchus/B".to_string())));
    let (commands, result) = run(|o| get_merge_branch("/r", o), vec![Outcome::Exists(false)]);
    assert_eq!(result, Ok(None));
    assert_eq!(commands.len(), 1);
    let (_, result) =
        run(|o| get_merge_branch("/r", o), vec![Outcome::Exists(true), failed("bad")]);
    assert_eq!(result, Ok(None));
}

#[test]
fn branch_names_are_cleaned() {
    assert_eq!(clean_branch_name("remotes/origin/branch~1"), "branch");
    assert_eq!(clean_branch_name("bacchus/BEAD-1"), "bacchus/BEAD-1");
    assert_eq!(clean_branch_name("feature~3~1"), "feature");
    assert_eq!(clean_branch_name("remotes/origin/"), "");
    assert_eq!(clean_branch_name("~"), "");
    assert_eq!(clean_branch_name(""), "");
    assert_eq!(clean_branch_name("remotes/origin"), "remotes/origin");
    assert_eq!(clean_branch_name("x/remotes/origin/y"), "x/remotes/origin/y");
}

#[test]
fn abort_runs_merge_abort() {
    let (commands, result) = run(|o| abort_merge("/r", o), vec![ok("")]);
    assert_eq!(result, Ok(()));
    assert_eq!(commands, vec![git("/r", &["merge", "--abort"])]);
    let (_, result) = run(|o| abort_merge("/r", o), vec![failed("no merge to abort")]);
    assert_eq!(
        result,
        Err(WorktreeError::GitError("Failed to abort merge: no merge to abort".to_string()))
    );
}

#[test]
fn unmerged_paths_are_found_in_the_listing() {
    let (commands, result) = run(
        |o| has_unresolved_conflicts("/r", o),
        vec![ok("100644 abc 1\ttest.txt\n100644 def 2\ttest.txt\n")],
    );
    assert_eq!(result, Ok(true));
    assert_eq!(commands, vec![git("/r", &["ls-files", "-u"])]);
    let (_, result) = run(|o| has_unresolved_conflicts("/r", o), vec![ok(" \n\t\n")]);
    assert_eq!(result, Ok(false));
    let (_, result) = run(|o| has_unresolved_conflicts("/r", o), vec![ok("")]);
    assert_eq!(result, Ok(false));
    let (_, result) = run(|o| has_unresolved_conflicts("/r", o), vec![failed("bad index")]);
    assert_eq!(
        result,
        Err(WorktreeError::GitError("Failed to check conflicts: bad index".to_string()))
    );
    assert!(lists_unmerged("x"));
    assert!(!lists_unmerged(""));
}

#[test]
fn complete_merge_refuses_unmerged_paths() {
    let (commands, result) = run(|o| complete_merge("/r", o), vec![ok("100644 abc 1\tf\n")]);
    assert_eq!(result, Err(WorktreeError::UnresolvedConflicts));
    assert_eq!(commands.len(), 1);
    let (commands, result) = run(|o| complete_merge("/r", o), vec![ok(""), ok(""), ok("")]);
    assert_eq!(result, Ok(()));
    assert_eq!(
        commands,
        vec![
            git("/r", &["ls-files", "-u"]),
            git("/r", &["add", "-A"]),
            git("/r", &["commit", "--no-edit"]),
        ]
    );
    let (_, result) = run(|o| complete_merge("/r", o), vec![ok(""), failed("index locked")]);
    assert_eq!(
        result,
        Err(WorktreeError::GitError("Failed to stage changes: index locked".to_string()))
    );
    let (_, result) = run(|o| complete_merge("/r", o), vec![ok(""), ok(""), failed("nothing")]);
    assert_eq!(
        result,
        Err(WorktreeError::GitError("Failed to complete merge: nothing".to_string()))
    );
}

#[test]
fn worktrees_directory_honours_configuration() {
    assert_eq!(get_worktrees_dir("/ws", None), "/ws/.bacchus/worktrees");
    assert_eq!(get_worktrees_dir("/ws", Some("/elsewhere/wt")), "/elsewhere/wt");
    assert_eq!(get_worktrees_dir("/ws", Some("var/wt")), "/ws/var/wt");
    assert_eq!(get_worktrees_dir("/ws", Some("")), "/ws/");
    assert_eq!(join_path("a", "b"), "a/b");
    assert_eq!(branch_name("BEAD-1"), "bacchus/BEAD-1");
}

#[test]
fn worktree_errors_have_messages() {
    assert_eq!(
        WorktreeError::GitError("x".to_string()).message(),
        "Git command failed: x"
    );
    assert_eq!(
        WorktreeError::AlreadyExists("b".to_string()).message(),
        "Worktree already exists: b"
    );
    assert_eq!(WorktreeError::NotFound("b".to_string()).message(), "Worktree not found: b");
    assert_eq!(WorktreeError::IoError("e".to_string()).message(), "IO error: e");
    assert_eq!(WorktreeError::MergeConflict("m".to_string()).message(), "Merge conflict: m");
    assert_eq!(
        WorktreeError::UnresolvedConflicts.message(),
        "Cannot complete merge: unresolved conflicts remain"
    );
    let info = WorktreeInfo {
        bead_id: "b".to_string(),
        path: "p".to_string(),
        branch: "bacchus/b".to_string(),
        head_commit: "c".to_string(),
    };
    assert_eq!(info.clone(), info);
}
