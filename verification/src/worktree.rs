//! Git worktrees, one per bead, each on a branch of its own.
//!
//! The operations of this module do not run git. Each is a function from
//! the outcomes of the commands run so far to the next command, or to the
//! operation's result; the caller runs each [`Command`] and appends its
//! [`Outcome`].

use crate::text::{before_first, strip_prefix, trim_of, trimmed, up_to, without_prefix};
use vstd::prelude::*;

verus! {

/// A bead's worktree as version control reports it.
#[derive(Debug, PartialEq, Eq)]
pub struct WorktreeInfo {
    pub bead_id: String,
    pub path: String,
    pub branch: String,
    pub head_commit: String,
}

/// What a [`WorktreeInfo`] holds, as mathematical values.
pub struct WorktreeInfoView {
    pub bead_id: Seq<char>,
    pub path: Seq<char>,
    pub branch: Seq<char>,
    pub head_commit: Seq<char>,
}

impl View for WorktreeInfo {
    type V = WorktreeInfoView;

    open spec fn view(&self) -> WorktreeInfoView {
        WorktreeInfoView {
            bead_id: self.bead_id@,
            path: self.path@,
            branch: self.branch@,
            head_commit: self.head_commit@,
        }
    }
}

impl DeepView for WorktreeInfo {
    type V = WorktreeInfoView;

    open spec fn deep_view(&self) -> WorktreeInfoView {
        self@
    }
}

impl Clone for WorktreeInfo {
    fn clone(&self) -> (r: Self)
        ensures
            r == *self,
    {
        WorktreeInfo {
            bead_id: self.bead_id.clone(),
            path: self.path.clone(),
            branch: self.branch.clone(),
            head_commit: self.head_commit.clone(),
        }
    }
}

/// The branch of a bead's worktree: `bacchus/` and the bead's identifier.
pub open spec fn branch_of(bead_id: Seq<char>) -> Seq<char> {
    "bacchus/"@ + bead_id
}

/// The name of the branch that a bead's worktree is on.
pub fn branch_name(bead_id: &str) -> (branch: String)
    ensures
        branch@ == branch_of(bead_id@),
{
    let mut branch = String::from_str("bacchus/");
    branch.append(bead_id);
    branch
}

/// Why an operation on worktrees failed.
#[derive(Debug, PartialEq, Eq)]
pub enum WorktreeError {
    /// git ended with an error; the text says what was tried and what git
    /// wrote.
    GitError(String),
    /// The bead's worktree is already there.
    AlreadyExists(String),
    /// The bead has no worktree.
    NotFound(String),
    /// A command could not be run.
    IoError(String),
    /// The merge stopped on conflicts and is now in progress.
    MergeConflict(String),
    /// The merge cannot be completed while paths are unmerged.
    UnresolvedConflicts,
}

/// What a [`WorktreeError`] holds, as mathematical values.
pub enum WorktreeErrorView {
    GitError(Seq<char>),
    AlreadyExists(Seq<char>),
    NotFound(Seq<char>),
    IoError(Seq<char>),
    MergeConflict(Seq<char>),
    UnresolvedConflicts,
}

impl View for WorktreeError {
    type V = WorktreeErrorView;

    open spec fn view(&self) -> WorktreeErrorView {
        match self {
            WorktreeError::GitError(m) => WorktreeErrorView::GitError(m@),
            WorktreeError::AlreadyExists(m) => WorktreeErrorView::AlreadyExists(m@),
            WorktreeError::NotFound(m) => WorktreeErrorView::NotFound(m@),
            WorktreeError::IoError(m) => WorktreeErrorView::IoError(m@),
            WorktreeError::MergeConflict(m) => WorktreeErrorView::MergeConflict(m@),
            WorktreeError::UnresolvedConflicts => WorktreeErrorView::UnresolvedConflicts,
        }
    }
}

impl DeepView for WorktreeError {
    type V = WorktreeErrorView;

    open spec fn deep_view(&self) -> WorktreeErrorView {
        self@
    }
}

/// The message of an error.
pub open spec fn error_message(error: WorktreeErrorView) -> Seq<char> {
    match error {
        WorktreeErrorView::GitError(m) => "Git command failed: "@ + m,
        WorktreeErrorView::AlreadyExists(m) => "Worktree already exists: "@ + m,
        WorktreeErrorView::NotFound(m) => "Worktree not found: "@ + m,
        WorktreeErrorView::IoError(m) => "IO error: "@ + m,
        WorktreeErrorView::MergeConflict(m) => "Merge conflict: "@ + m,
        WorktreeErrorView::UnresolvedConflicts =>
            "Cannot complete merge: unresolved conflicts remain"@,
    }
}

impl WorktreeError {
    /// The message of the error.
    pub fn message(&self) -> (text: String)
        ensures
            text@ == error_message(self@),
    {
        match self {
            WorktreeError::GitError(m) => String::from_str("Git command failed: ").concat(
                m.as_str(),
            ),
            WorktreeError::AlreadyExists(m) => String::from_str(
                "Worktree already exists: ",
            ).concat(m.as_str()),
            WorktreeError::NotFound(m) => String::from_str("Worktree not found: ").concat(
                m.as_str(),
            ),
            WorktreeError::IoError(m) => String::from_str("IO error: ").concat(m.as_str()),
            WorktreeError::MergeConflict(m) => String::from_str("Merge conflict: ").concat(
                m.as_str(),
            ),
            WorktreeError::UnresolvedConflicts => String::from_str(
                "Cannot complete merge: unresolved conflicts remain",
            ),
        }
    }
}

/// Something to run or to look up on the machine that holds the repository.
#[derive(Debug, PartialEq, Eq)]
pub enum Command {
    /// Run `git` with `args` in the directory `dir`. Answered by
    /// [`Outcome::Exited`].
    Git { dir: String, args: Vec<String> },
    /// Is there anything at `path`? Answered by [`Outcome::Exists`].
    PathExists { path: String },
    /// Is there a directory at `path`? Answered by [`Outcome::Exists`].
    IsDir { path: String },
    /// Create the directory `path` and those above it. Answered by
    /// [`Outcome::Created`].
    CreateDirAll { path: String },
}

/// What a [`Command`] holds, as mathematical values.
pub enum CommandView {
    Git { dir: Seq<char>, args: Seq<Seq<char>> },
    PathExists { path: Seq<char> },
    IsDir { path: Seq<char> },
    CreateDirAll { path: Seq<char> },
}

impl View for Command {
    type V = CommandView;

    open spec fn view(&self) -> CommandView {
        match self {
            Command::Git { dir, args } => CommandView::Git { dir: dir@, args: args.deep_view() },
            Command::PathExists { path } => CommandView::PathExists { path: path@ },
            Command::IsDir { path } => CommandView::IsDir { path: path@ },
            Command::CreateDirAll { path } => CommandView::CreateDirAll { path: path@ },
        }
    }
}

/// What came of a [`Command`].
#[derive(Debug, PartialEq, Eq)]
pub enum Outcome {
    /// git ran and ended: with success or not, and with what it wrote to its
    /// output and to its error stream.
    Exited { success: bool, stdout: String, stderr: String },
    /// Whether there is anything at the path.
    Exists(bool),
    /// The directory is there.
    Created,
    /// The command could not be run; the text is the error's message.
    IoError(String),
}

/// What an [`Outcome`] holds, as mathematical values.
pub enum OutcomeView {
    Exited { success: bool, stdout: Seq<char>, stderr: Seq<char> },
    Exists(bool),
    Created,
    IoError(Seq<char>),
}

impl View for Outcome {
    type V = OutcomeView;

    open spec fn view(&self) -> OutcomeView {
        match self {
            Outcome::Exited { success, stdout, stderr } => OutcomeView::Exited {
                success: *success,
                stdout: stdout@,
                stderr: stderr@,
            },
            Outcome::Exists(b) => OutcomeView::Exists(*b),
            Outcome::Created => OutcomeView::Created,
            Outcome::IoError(m) => OutcomeView::IoError(m@),
        }
    }
}

impl DeepView for Outcome {
    type V = OutcomeView;

    open spec fn deep_view(&self) -> OutcomeView {
        self@
    }
}

/// Where an operation on worktrees stands: it needs a command run, or it
/// has its result.
#[derive(Debug, PartialEq, Eq)]
pub enum Progress<T> {
    /// The operation needs this command run and its outcome appended.
    Run(Command),
    /// The operation has ended with this result.
    Return(Result<T, WorktreeError>),
}

/// What a [`Progress`] holds, as mathematical values.
pub enum ProgressView<V> {
    Run(CommandView),
    Return(Result<V, WorktreeErrorView>),
}

impl<T: DeepView> DeepView for Progress<T> {
    type V = ProgressView<T::V>;

    open spec fn deep_view(&self) -> ProgressView<T::V> {
        match self {
            Progress::Run(c) => ProgressView::Run(c@),
            Progress::Return(Ok(t)) => ProgressView::Return(Ok(t.deep_view())),
            Progress::Return(Err(e)) => ProgressView::Return(Err(e@)),
        }
    }
}

/// The command that runs git with `args` in `dir`.
pub open spec fn git<V>(dir: Seq<char>, args: Seq<Seq<char>>) -> ProgressView<V> {
    ProgressView::Run(CommandView::Git { dir, args })
}

/// The end of an operation on an error.
pub open spec fn raise<V>(error: WorktreeErrorView) -> ProgressView<V> {
    ProgressView::Return(Err(error))
}

/// The text of the error for an outcome that does not fit its command.
pub open spec fn misfit_text() -> Seq<char> {
    "unexpected outcome"@
}

/// Why the git command with `outcome` counts as failed, if it does: it
/// could not be run, or it ended with an error, which is reported as `what`
/// followed by what git wrote to its error stream.
pub open spec fn git_failure(outcome: OutcomeView, what: Seq<char>) -> Option<WorktreeErrorView> {
    match outcome {
        OutcomeView::Exited { success, stdout, stderr } => if success {
            None
        } else {
            Some(WorktreeErrorView::GitError(what + stderr))
        },
        OutcomeView::IoError(m) => Some(WorktreeErrorView::IoError(m)),
        _ => Some(WorktreeErrorView::IoError(misfit_text())),
    }
}

/// What the git command with `outcome` wrote to its output.
pub open spec fn output_of(outcome: OutcomeView) -> Seq<char> {
    match outcome {
        OutcomeView::Exited { success, stdout, stderr } => stdout,
        _ => Seq::empty(),
    }
}

/// What `outcome` says of the path that was asked for, or the error that
/// stands for an outcome that says nothing of it.
pub open spec fn existence(outcome: OutcomeView) -> Result<bool, WorktreeErrorView> {
    match outcome {
        OutcomeView::Exists(b) => Ok(b),
        OutcomeView::IoError(m) => Err(WorktreeErrorView::IoError(m)),
        _ => Err(WorktreeErrorView::IoError(misfit_text())),
    }
}

fn check_git(outcome: &Outcome, what: &str) -> (r: Option<WorktreeError>)
    ensures
        r.deep_view() == git_failure(outcome@, what@),
{
    match outcome {
        Outcome::Exited { success, stdout, stderr } => {
            if *success {
                None
            } else {
                Some(WorktreeError::GitError(String::from_str(what).concat(stderr.as_str())))
            }
        },
        Outcome::IoError(m) => Some(WorktreeError::IoError(m.clone())),
        _ => Some(WorktreeError::IoError(String::from_str("unexpected outcome"))),
    }
}

fn check_exists(outcome: &Outcome) -> (r: Result<bool, WorktreeError>)
    ensures
        match r {
            Ok(b) => existence(outcome@) == Ok::<bool, WorktreeErrorView>(b),
            Err(e) => existence(outcome@) == Err::<bool, WorktreeErrorView>(e@),
        },
{
    match outcome {
        Outcome::Exists(b) => Ok(*b),
        Outcome::IoError(m) => Err(WorktreeError::IoError(m.clone())),
        _ => Err(WorktreeError::IoError(String::from_str("unexpected outcome"))),
    }
}

fn stdout_of(outcome: &Outcome) -> (r: String)
    ensures
        r@ == output_of(outcome@),
{
    match outcome {
        Outcome::Exited { success, stdout, stderr } => stdout.clone(),
        _ => String::new(),
    }
}

fn run_git<T: DeepView>(dir: &str, args: Vec<String>) -> (p: Progress<T>)
    ensures
        p.deep_view() == git::<T::V>(dir@, args.deep_view()),
{
    Progress::Run(Command::Git { dir: dir.to_string(), args })
}

fn args2(a: &str, b: &str) -> (v: Vec<String>)
    ensures
        v.deep_view() == seq![a@, b@],
{
    let mut v: Vec<String> = Vec::new();
    v.push(a.to_string());
    v.push(b.to_string());
    assert(v.deep_view() =~= seq![a@, b@]);
    v
}

fn args3(a: &str, b: &str, c: &str) -> (v: Vec<String>)
    ensures
        v.deep_view() == seq![a@, b@, c@],
{
    let mut v: Vec<String> = Vec::new();
    v.push(a.to_string());
    v.push(b.to_string());
    v.push(c.to_string());
    assert(v.deep_view() =~= seq![a@, b@, c@]);
    v
}

fn with_arg(args: Vec<String>, a: &str) -> (v: Vec<String>)
    ensures
        v.deep_view() == args.deep_view().push(a@),
{
    let mut v = args;
    v.push(a.to_string());
    assert(v.deep_view() =~= args.deep_view().push(a@));
    v
}

/// `name` below the directory `dir`: the two joined by a slash.
pub open spec fn path_in(dir: Seq<char>, name: Seq<char>) -> Seq<char> {
    dir + "/"@ + name
}

/// `name` below the directory `dir`.
pub fn join_path(dir: &str, name: &str) -> (path: String)
    ensures
        path@ == path_in(dir@, name@),
{
    let mut path = dir.to_string();
    path.append("/");
    path.append(name);
    path
}

/// Where the worktrees of a workspace live: below `.bacchus/worktrees` of
/// the workspace, unless another directory is configured; a configured
/// directory that does not start at the root is taken below the workspace.
pub open spec fn worktrees_dir_of(workspace_root: Seq<char>, configured: Option<Seq<char>>) -> Seq<
    char,
> {
    match configured {
        Some(dir) => if dir.len() > 0 && dir[0] == '/' {
            dir
        } else {
            path_in(workspace_root, dir)
        },
        None => path_in(workspace_root, ".bacchus/worktrees"@),
    }
}

/// The directory that holds the worktrees of the workspace at
/// `workspace_root`, given the directory that is configured, if any.
pub fn get_worktrees_dir(workspace_root: &str, configured: Option<&str>) -> (dir: String)
    ensures
        dir@ == worktrees_dir_of(workspace_root@, configured.deep_view()),
{
    match configured {
        Some(dir) => {
            if dir.unicode_len() > 0 && dir.get_char(0) == '/' {
                dir.to_string()
            } else {
                join_path(workspace_root, dir)
            }
        },
        None => join_path(workspace_root, ".bacchus/worktrees"),
    }
}

/// The file whose presence says that a merge is in progress.
pub open spec fn merge_marker(workspace_root: Seq<char>) -> Seq<char> {
    path_in(workspace_root, ".git/MERGE_HEAD"@)
}

/// What creating the worktree of `bead_id` does next, given the outcomes so
/// far.
///
/// The directory of the worktrees is created. If the worktree's path is
/// taken, the operation ends with `AlreadyExists` before git is run at all.
/// Else git adds the worktree on a new branch, and the worktree's head
/// commit is read.
pub open spec fn create_worktree_plan(
    workspace_root: Seq<char>,
    worktrees_dir: Seq<char>,
    bead_id: Seq<char>,
    outcomes: Seq<OutcomeView>,
) -> ProgressView<WorktreeInfoView> {
    let path = path_in(worktrees_dir, bead_id);
    let branch = branch_of(bead_id);
    if outcomes.len() == 0 {
        ProgressView::Run(CommandView::CreateDirAll { path: worktrees_dir })
    } else if !(outcomes[0] is Created) {
        match outcomes[0] {
            OutcomeView::IoError(m) => raise(WorktreeErrorView::IoError(m)),
            _ => raise(WorktreeErrorView::IoError(misfit_text())),
        }
    } else if outcomes.len() == 1 {
        ProgressView::Run(CommandView::PathExists { path })
    } else {
        match existence(outcomes[1]) {
            Err(e) => raise(e),
            Ok(true) => raise(WorktreeErrorView::AlreadyExists(bead_id)),
            Ok(false) => {
                if outcomes.len() == 2 {
                    git(workspace_root, seq!["worktree"@, "add"@, path, "-b"@, branch])
                } else {
                    match git_failure(outcomes[2], "Failed to create worktree: "@) {
                        Some(e) => raise(e),
                        None => {
                            if outcomes.len() == 3 {
                                git(path, seq!["rev-parse"@, "HEAD"@])
                            } else {
                                match git_failure(outcomes[3], "Failed to get HEAD commit: "@) {
                                    Some(e) => raise(e),
                                    None => ProgressView::Return(
                                        Ok(
                                            WorktreeInfoView {
                                                bead_id,
                                                path,
                                                branch,
                                                head_commit: trim_of(output_of(outcomes[3])),
                                            },
                                        ),
                                    ),
                                }
                            }
                        },
                    }
                }
            },
        }
    }
}

/// Creates the worktree of `bead_id` below `worktrees_dir`, on the branch
/// `bacchus/` followed by the bead's identifier: returns the next command,
/// or the result. `outcomes` holds the outcomes of the commands run so far,
/// in order.
pub fn create_worktree(
    workspace_root: &str,
    worktrees_dir: &str,
    bead_id: &str,
    outcomes: &Vec<Outcome>,
) -> (p: Progress<WorktreeInfo>)
    ensures
        p.deep_view() == create_worktree_plan(
            workspace_root@,
            worktrees_dir@,
            bead_id@,
            outcomes.deep_view(),
        ),
{
    let ghost all = outcomes.deep_view();
    let path = join_path(worktrees_dir, bead_id);
    let branch = branch_name(bead_id);
    if outcomes.len() == 0 {
        return Progress::Run(Command::CreateDirAll { path: worktrees_dir.to_string() });
    }
    assert(all[0] == outcomes[0]@);
    match &outcomes[0] {
        Outcome::Created => {},
        Outcome::IoError(m) => {
            return Progress::Return(Err(WorktreeError::IoError(m.clone())));
        },
        _ => {
            return Progress::Return(
                Err(WorktreeError::IoError(String::from_str("unexpected outcome"))),
            );
        },
    }
    if outcomes.len() == 1 {
        return Progress::Run(Command::PathExists { path });
    }
    assert(all[1] == outcomes[1]@);
    match check_exists(&outcomes[1]) {
        Err(e) => {
            return Progress::Return(Err(e));
        },
        Ok(true) => {
            return Progress::Return(Err(WorktreeError::AlreadyExists(bead_id.to_string())));
        },
        Ok(false) => {},
    }
    if outcomes.len() == 2 {
        let args = with_arg(
            with_arg(args3("worktree", "add", path.as_str()), "-b"),
            branch.as_str(),
        );
        assert(args.deep_view() =~= seq!["worktree"@, "add"@, path@, "-b"@, branch_of(bead_id@)]);
        return run_git(workspace_root, args);
    }
    assert(all[2] == outcomes[2]@);
    match check_git(&outcomes[2], "Failed to create worktree: ") {
        Some(e) => {
            return Progress::Return(Err(e));
        },
        None => {},
    }
    if outcomes.len() == 3 {
        return run_git(path.as_str(), args2("rev-parse", "HEAD"));
    }
    assert(all[3] == outcomes[3]@);
    match check_git(&outcomes[3], "Failed to get HEAD commit: ") {
        Some(e) => Progress::Return(Err(e)),
        None => {
            let head_commit = trimmed(stdout_of(&outcomes[3]).as_str());
            Progress::Return(
                Ok(WorktreeInfo { bead_id: bead_id.to_string(), path, branch, head_commit }),
            )
        },
    }
}

/// What deleting `branch` does next, given the outcomes so far: git deletes
/// the branch, with `-D` where `force` is set and with `-d` where it is not.
pub open spec fn delete_branch_plan(
    workspace_root: Seq<char>,
    branch: Seq<char>,
    force: bool,
    outcomes: Seq<OutcomeView>,
) -> ProgressView<()> {
    if outcomes.len() == 0 {
        git(
            workspace_root,
            seq![
                "branch"@,
                if force {
                    "-D"@
                } else {
                    "-d"@
                },
                branch,
            ],
        )
    } else {
        match git_failure(outcomes[0], "Failed to delete branch "@ + branch + ": "@) {
            Some(e) => raise(e),
            None => ProgressView::Return(Ok(())),
        }
    }
}

fn delete_branch_from(
    workspace_root: &str,
    branch: &str,
    force: bool,
    outcomes: &Vec<Outcome>,
    from: usize,
) -> (p: Progress<()>)
    requires
        from <= outcomes.len(),
    ensures
        p.deep_view() == delete_branch_plan(
            workspace_root@,
            branch@,
            force,
            outcomes.deep_view().skip(from as int),
        ),
{
    let ghost rest = outcomes.deep_view().skip(from as int);
    if outcomes.len() == from {
        let flag = if force {
            "-D"
        } else {
            "-d"
        };
        return run_git(workspace_root, args3("branch", flag, branch));
    }
    assert(rest[0] == outcomes[from as int]@);
    let what = String::from_str("Failed to delete branch ").concat(branch).concat(": ");
    match check_git(&outcomes[from], what.as_str()) {
        Some(e) => Progress::Return(Err(e)),
        None => Progress::Return(Ok(())),
    }
}

/// Deletes `branch`: returns the next command, or the result. With `force`
/// the branch is deleted even where it is not merged. `outcomes` holds the
/// outcomes of the commands run so far, in order.
pub fn delete_branch(workspace_root: &str, branch: &str, force: bool, outcomes: &Vec<Outcome>) -> (p:
    Progress<()>)
    ensures
        p.deep_view() == delete_branch_plan(
            workspace_root@,
            branch@,
            force,
            outcomes.deep_view(),
        ),
{
    assert(outcomes.deep_view().skip(0) =~= outcomes.deep_view());
    delete_branch_from(workspace_root, branch, force, outcomes, 0)
}

/// What removing the worktree of `bead_id` does next, given the outcomes so
/// far.
///
/// Where nothing is at the worktree's path, the operation ends with
/// `NotFound`. Else git removes the worktree, with `--force` where `force`
/// is set, and the bead's branch is deleted as [`delete_branch_plan`] says.
pub open spec fn remove_worktree_plan(
    workspace_root: Seq<char>,
    worktrees_dir: Seq<char>,
    bead_id: Seq<char>,
    force: bool,
    outcomes: Seq<OutcomeView>,
) -> ProgressView<()> {
    let path = path_in(worktrees_dir, bead_id);
    if outcomes.len() == 0 {
        ProgressView::Run(CommandView::PathExists { path })
    } else {
        match existence(outcomes[0]) {
            Err(e) => raise(e),
            Ok(false) => raise(WorktreeErrorView::NotFound(bead_id)),
            Ok(true) => {
                if outcomes.len() == 1 {
                    git(
                        workspace_root,
                        if force {
                            seq!["worktree"@, "remove"@, path, "--force"@]
                        } else {
                            seq!["worktree"@, "remove"@, path]
                        },
                    )
                } else {
                    match git_failure(outcomes[1], "Failed to remove worktree: "@) {
                        Some(e) => raise(e),
                        None => delete_branch_plan(
                            workspace_root,
                            branch_of(bead_id),
                            force,
                            outcomes.skip(2),
                        ),
                    }
                }
            },
        }
    }
}

/// Removes the worktree of `bead_id` and deletes its branch: returns the
/// next command, or the result. With `force`, changes that are not
/// committed and commits that are not merged are discarded. `outcomes`
/// holds the outcomes of the commands run so far, in order.
pub fn remove_worktree(
    workspace_root: &str,
    worktrees_dir: &str,
    bead_id: &str,
    force: bool,
    outcomes: &Vec<Outcome>,
) -> (p: Progress<()>)
    ensures
        p.deep_view() == remove_worktree_plan(
            workspace_root@,
            worktrees_dir@,
            bead_id@,
            force,
            outcomes.deep_view(),
        ),
{
    let ghost all = outcomes.deep_view();
    let path = join_path(worktrees_dir, bead_id);
    if outcomes.len() == 0 {
        return Progress::Run(Command::PathExists { path });
    }
    assert(all[0] == outcomes[0]@);
    match check_exists(&outcomes[0]) {
        Err(e) => {
            return Progress::Return(Err(e));
        },
        Ok(false) => {
            return Progress::Return(Err(WorktreeError::NotFound(bead_id.to_string())));
        },
        Ok(true) => {},
    }
    if outcomes.len() == 1 {
        let args = args3("worktree", "remove", path.as_str());
        if force {
            let args = with_arg(args, "--force");
            assert(args.deep_view() =~= seq!["worktree"@, "remove"@, path@, "--force"@]);
            return run_git(workspace_root, args);
        }
        return run_git(workspace_root, args);
    }
    assert(all[1] == outcomes[1]@);
    match check_git(&outcomes[1], "Failed to remove worktree: ") {
        Some(e) => Progress::Return(Err(e)),
        None => {
            let branch = branch_name(bead_id);
            delete_branch_from(workspace_root, branch.as_str(), force, outcomes, 2)
        },
    }
}

/// What merging the branch of `bead_id` into `target_branch` does next,
/// given the outcomes so far.
///
/// git checks out the target, then merges the bead's branch. Where the
/// merge ends with an error, the marker of a merge in progress tells a
/// conflict from a failure: with the marker present the operation ends with
/// `MergeConflict`, else with `GitError`.
pub open spec fn merge_worktree_plan(
    workspace_root: Seq<char>,
    bead_id: Seq<char>,
    target_branch: Seq<char>,
    outcomes: Seq<OutcomeView>,
) -> ProgressView<()> {
    let branch = branch_of(bead_id);
    if outcomes.len() == 0 {
        git(workspace_root, seq!["checkout"@, target_branch])
    } else {
        match git_failure(outcomes[0], "Failed to checkout "@ + target_branch + ": "@) {
            Some(e) => raise(e),
            None => {
                if outcomes.len() == 1 {
                    git(workspace_root, seq!["merge"@, branch])
                } else {
                    match git_failure(outcomes[1], "Failed to merge "@ + branch + ": "@) {
                        None => ProgressView::Return(Ok(())),
                        Some(WorktreeErrorView::GitError(m)) => {
                            if outcomes.len() == 2 {
                                ProgressView::Run(
                                    CommandView::PathExists { path: merge_marker(workspace_root) },
                                )
                            } else if existence(outcomes[2]) == Ok::<bool, WorktreeErrorView>(
                                true,
                            ) {
                                raise(WorktreeErrorView::MergeConflict(m))
                            } else {
                                raise(WorktreeErrorView::GitError(m))
                            }
                        },
                        Some(e) => raise(e),
                    }
                }
            },
        }
    }
}

/// Merges the branch of `bead_id` into `target_branch`: returns the next
/// command, or the result. `outcomes` holds the outcomes of the commands
/// run so far, in order.
pub fn merge_worktree(
    workspace_root: &str,
    bead_id: &str,
    target_branch: &str,
    outcomes: &Vec<Outcome>,
) -> (p: Progress<()>)
    ensures
        p.deep_view() == merge_worktree_plan(
            workspace_root@,
            bead_id@,
            target_branch@,
            outcomes.deep_view(),
        ),
{
    let ghost all = outcomes.deep_view();
    let branch = branch_name(bead_id);
    if outcomes.len() == 0 {
        return run_git(workspace_root, args2("checkout", target_branch));
    }
    assert(all[0] == outcomes[0]@);
    let what = String::from_str("Failed to checkout ").concat(target_branch).concat(": ");
    match check_git(&outcomes[0], what.as_str()) {
        Some(e) => {
            return Progress::Return(Err(e));
        },
        None => {},
    }
    if outcomes.len() == 1 {
        return run_git(workspace_root, args2("merge", branch.as_str()));
    }
    assert(all[1] == outcomes[1]@);
    let what = String::from_str("Failed to merge ").concat(branch.as_str()).concat(": ");
    match check_git(&outcomes[1], what.as_str()) {
        None => Progress::Return(Ok(())),
        Some(WorktreeError::GitError(m)) => {
            if outcomes.len() == 2 {
                return Progress::Run(
                    Command::PathExists { path: join_path(workspace_root, ".git/MERGE_HEAD") },
                );
            }
            assert(all[2] == outcomes[2]@);
            match check_exists(&outcomes[2]) {
                Ok(true) => Progress::Return(Err(WorktreeError::MergeConflict(m))),
                _ => Progress::Return(Err(WorktreeError::GitError(m))),
            }
        },
        Some(e) => Progress::Return(Err(e)),
    }
}

/// What reading the head commit of `dir` does next, given the outcomes so
/// far: git names the commit, and what it wrote is trimmed.
pub open spec fn get_head_commit_plan(dir: Seq<char>, outcomes: Seq<OutcomeView>) -> ProgressView<
    Seq<char>,
> {
    if outcomes.len() == 0 {
        git(dir, seq!["rev-parse"@, "HEAD"@])
    } else {
        match git_failure(outcomes[0], "Failed to get HEAD commit: "@) {
            Some(e) => raise(e),
            None => ProgressView::Return(Ok(trim_of(output_of(outcomes[0])))),
        }
    }
}

/// Reads the hash of the commit that is checked out in `workspace_root`:
/// returns the next command, or the result. `outcomes` holds the outcomes
/// of the commands run so far, in order.
pub fn get_head_commit(workspace_root: &str, outcomes: &Vec<Outcome>) -> (p: Progress<String>)
    ensures
        p.deep_view() == get_head_commit_plan(workspace_root@, outcomes.deep_view()),
{
    if outcomes.len() == 0 {
        return run_git(workspace_root, args2("rev-parse", "HEAD"));
    }
    assert(outcomes.deep_view()[0] == outcomes[0]@);
    match check_git(&outcomes[0], "Failed to get HEAD commit: ") {
        Some(e) => Progress::Return(Err(e)),
        None => Progress::Return(Ok(trimmed(stdout_of(&outcomes[0]).as_str()))),
    }
}

/// What asking whether a merge is in progress does next, given the outcomes
/// so far: it looks for the marker of a merge in progress.
pub open spec fn is_in_merge_conflict_plan(
    workspace_root: Seq<char>,
    outcomes: Seq<OutcomeView>,
) -> ProgressView<bool> {
    if outcomes.len() == 0 {
        ProgressView::Run(CommandView::PathExists { path: merge_marker(workspace_root) })
    } else {
        match existence(outcomes[0]) {
            Ok(b) => ProgressView::Return(Ok(b)),
            Err(e) => raise(e),
        }
    }
}

/// Whether a merge is in progress in `workspace_root`: returns the next
/// command, or the answer. `outcomes` holds the outcomes of the commands
/// run so far, in order.
pub fn is_in_merge_conflict(workspace_root: &str, outcomes: &Vec<Outcome>) -> (p: Progress<bool>)
    ensures
        p.deep_view() == is_in_merge_conflict_plan(workspace_root@, outcomes.deep_view()),
{
    if outcomes.len() == 0 {
        return Progress::Run(
            Command::PathExists { path: join_path(workspace_root, ".git/MERGE_HEAD") },
        );
    }
    assert(outcomes.deep_view()[0] == outcomes[0]@);
    match check_exists(&outcomes[0]) {
        Ok(b) => Progress::Return(Ok(b)),
        Err(e) => Progress::Return(Err(e)),
    }
}

/// The branch that git means by `name`: `name` without `remotes/origin/` at
/// its start, up to its first `~`.
pub open spec fn merge_branch_of(name: Seq<char>) -> Seq<char> {
    before_first(without_prefix(name, "remotes/origin/"@), '~')
}

/// The branch that git means by `name`, the trimmed output of `git
/// name-rev`: the prefix of a remote and the distance from the branch's tip
/// are left out, so that `remotes/origin/work~1` names `work`.
pub fn clean_branch_name(name: &str) -> (branch: String)
    ensures
        branch@ == merge_branch_of(name@),
{
    let local = strip_prefix(name, "remotes/origin/");
    up_to(local.as_str(), '~')
}

/// What asking for the branch that is being merged does next, given the
/// outcomes so far.
///
/// Without the marker of a merge in progress there is no such branch. Else
/// git names the commit that is being merged; where it cannot, there is no
/// answer; where it can, the name is trimmed and cleaned as
/// [`merge_branch_of`] says.
pub open spec fn get_merge_branch_plan(
    workspace_root: Seq<char>,
    outcomes: Seq<OutcomeView>,
) -> ProgressView<Option<Seq<char>>> {
    if outcomes.len() == 0 {
        ProgressView::Run(CommandView::PathExists { path: merge_marker(workspace_root) })
    } else {
        match existence(outcomes[0]) {
            Err(e) => raise(e),
            Ok(false) => ProgressView::Return(Ok(None)),
            Ok(true) => {
                if outcomes.len() == 1 {
                    git(workspace_root, seq!["name-rev"@, "--name-only"@, "MERGE_HEAD"@])
                } else {
                    match outcomes[1] {
                        OutcomeView::Exited { success, stdout, stderr } => if success {
                            ProgressView::Return(Ok(Some(merge_branch_of(trim_of(stdout)))))
                        } else {
                            ProgressView::Return(Ok(None))
                        },
                        OutcomeView::IoError(m) => raise(WorktreeErrorView::IoError(m)),
                        _ => raise(WorktreeErrorView::IoError(misfit_text())),
                    }
                }
            },
        }
    }
}

/// The branch that is being merged in `workspace_root`, if a merge is in
/// progress and git can name it: returns the next command, or the answer.
/// `outcomes` holds the outcomes of the commands run so far, in order.
pub fn get_merge_branch(workspace_root: &str, outcomes: &Vec<Outcome>) -> (p: Progress<
    Option<String>,
>)
    ensures
        p.deep_view() == get_merge_branch_plan(workspace_root@, outcomes.deep_view()),
{
    let ghost all = outcomes.deep_view();
    if outcomes.len() == 0 {
        return Progress::Run(
            Command::PathExists { path: join_path(workspace_root, ".git/MERGE_HEAD") },
        );
    }
    assert(all[0] == outcomes[0]@);
    match check_exists(&outcomes[0]) {
        Err(e) => {
            return Progress::Return(Err(e));
        },
        Ok(false) => {
            return Progress::Return(Ok(None));
        },
        Ok(true) => {},
    }
    if outcomes.len() == 1 {
        return run_git(workspace_root, args3("name-rev", "--name-only", "MERGE_HEAD"));
    }
    assert(all[1] == outcomes[1]@);
    match &outcomes[1] {
        Outcome::Exited { success, stdout, stderr } => {
            if *success {
                let name = trimmed(stdout.as_str());
                Progress::Return(Ok(Some(clean_branch_name(name.as_str()))))
            } else {
                Progress::Return(Ok(None))
            }
        },
        Outcome::IoError(m) => Progress::Return(Err(WorktreeError::IoError(m.clone()))),
        _ => Progress::Return(Err(WorktreeError::IoError(String::from_str("unexpected outcome")))),
    }
}

/// What aborting the merge in progress does next, given the outcomes so
/// far.
pub open spec fn abort_merge_plan(workspace_root: Seq<char>, outcomes: Seq<OutcomeView>) -> ProgressView<
    (),
> {
    if outcomes.len() == 0 {
        git(workspace_root, seq!["merge"@, "--abort"@])
    } else {
        match git_failure(outcomes[0], "Failed to abort merge: "@) {
            Some(e) => raise(e),
            None => ProgressView::Return(Ok(())),
        }
    }
}

/// Aborts the merge in progress in `workspace_root`: returns the next
/// command, or the result. `outcomes` holds the outcomes of the commands
/// run so far, in order.
pub fn abort_merge(workspace_root: &str, outcomes: &Vec<Outcome>) -> (p: Progress<()>)
    ensures
        p.deep_view() == abort_merge_plan(workspace_root@, outcomes.deep_view()),
{
    if outcomes.len() == 0 {
        return run_git(workspace_root, args2("merge", "--abort"));
    }
    assert(outcomes.deep_view()[0] == outcomes[0]@);
    match check_git(&outcomes[0], "Failed to abort merge: ") {
        Some(e) => Progress::Return(Err(e)),
        None => Progress::Return(Ok(())),
    }
}

/// What asking for unmerged paths does next, given the outcomes so far: git
/// lists the unmerged files, and there are some exactly if what it wrote,
/// trimmed, is not empty.
pub open spec fn has_unresolved_conflicts_plan(
    workspace_root: Seq<char>,
    outcomes: Seq<OutcomeView>,
) -> ProgressView<bool> {
    if outcomes.len() == 0 {
        git(workspace_root, seq!["ls-files"@, "-u"@])
    } else {
        match git_failure(outcomes[0], "Failed to check conflicts: "@) {
            Some(e) => raise(e),
            None => ProgressView::Return(Ok(unmerged_listed(trim_of(output_of(outcomes[0]))))),
        }
    }
}

/// Whether the trimmed list of unmerged files names any file.
pub open spec fn unmerged_listed(listing: Seq<char>) -> bool {
    listing.len() != 0
}

/// Whether `listing`, the trimmed output of `git ls-files -u`, names any
/// file.
pub fn lists_unmerged(listing: &str) -> (r: bool)
    ensures
        r == unmerged_listed(listing@),
{
    listing.unicode_len() != 0
}

/// Whether paths are still unmerged in `workspace_root`: returns the next
/// command, or the answer. `outcomes` holds the outcomes of the commands
/// run so far, in order.
pub fn has_unresolved_conflicts(workspace_root: &str, outcomes: &Vec<Outcome>) -> (p: Progress<
    bool,
>)
    ensures
        p.deep_view() == has_unresolved_conflicts_plan(workspace_root@, outcomes.deep_view()),
{
    if outcomes.len() == 0 {
        return run_git(workspace_root, args2("ls-files", "-u"));
    }
    assert(outcomes.deep_view()[0] == outcomes[0]@);
    match check_git(&outcomes[0], "Failed to check conflicts: ") {
        Some(e) => Progress::Return(Err(e)),
        None => {
            let listing = trimmed(stdout_of(&outcomes[0]).as_str());
            Progress::Return(Ok(lists_unmerged(listing.as_str())))
        },
    }
}

/// What completing the merge in progress does next, given the outcomes so
/// far.
///
/// First git is asked for unmerged paths, as
/// [`has_unresolved_conflicts_plan`] says: while there are some, the
/// operation ends with `UnresolvedConflicts` and nothing is staged. Else
/// git stages everything and commits with the message of the merge.
pub open spec fn complete_merge_plan(
    workspace_root: Seq<char>,
    outcomes: Seq<OutcomeView>,
) -> ProgressView<()> {
    match has_unresolved_conflicts_plan(workspace_root, outcomes) {
        ProgressView::Run(c) => ProgressView::Run(c),
        ProgressView::Return(Err(e)) => raise(e),
        ProgressView::Return(Ok(true)) => raise(WorktreeErrorView::UnresolvedConflicts),
        ProgressView::Return(Ok(false)) => {
            if outcomes.len() == 1 {
                git(workspace_root, seq!["add"@, "-A"@])
            } else {
                match git_failure(outcomes[1], "Failed to stage changes: "@) {
                    Some(e) => raise(e),
                    None => {
                        if outcomes.len() == 2 {
                            git(workspace_root, seq!["commit"@, "--no-edit"@])
                        } else {
                            match git_failure(outcomes[2], "Failed to complete merge: "@) {
                                Some(e) => raise(e),
                                None => ProgressView::Return(Ok(())),
                            }
                        }
                    },
                }
            }
        },
    }
}

/// Completes the merge in progress in `workspace_root`, once its conflicts
/// are resolved: returns the next command, or the result. `outcomes` holds
/// the outcomes of the commands run so far, in order.
pub fn complete_merge(workspace_root: &str, outcomes: &Vec<Outcome>) -> (p: Progress<()>)
    ensures
        p.deep_view() == complete_merge_plan(workspace_root@, outcomes.deep_view()),
{
    let ghost all = outcomes.deep_view();
    match has_unresolved_conflicts(workspace_root, outcomes) {
        Progress::Run(c) => {
            return Progress::Run(c);
        },
        Progress::Return(Err(e)) => {
            return Progress::Return(Err(e));
        },
        Progress::Return(Ok(true)) => {
            return Progress::Return(Err(WorktreeError::UnresolvedConflicts));
        },
        Progress::Return(Ok(false)) => {},
    }
    if outcomes.len() == 1 {
        return run_git(workspace_root, args2("add", "-A"));
    }
    assert(all[1] == outcomes[1]@);
    match check_git(&outcomes[1], "Failed to stage changes: ") {
        Some(e) => {
            return Progress::Return(Err(e));
        },
        None => {},
    }
    if outcomes.len() == 2 {
        return run_git(workspace_root, args2("commit", "--no-edit"));
    }
    assert(all[2] == outcomes[2]@);
    match check_git(&outcomes[2], "Failed to complete merge: ") {
        Some(e) => Progress::Return(Err(e)),
        None => Progress::Return(Ok(())),
    }
}

} // verus!
