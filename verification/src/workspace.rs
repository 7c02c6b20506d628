//! Finding the workspace that a directory belongs to.

use crate::text::{chars_of, last_index_of, lemma_last_index_is};
use crate::worktree::{
    join_path, path_in, Command, CommandView, Outcome, OutcomeView, Progress, ProgressView,
    WorktreeError, WorktreeErrorView,
};
use vstd::prelude::*;

verus! {

/// The directory above `dir`, if there is one: what stands before the last
/// slash of `dir`, and the root for a directory right below it. The root
/// has no directory above it, nor has a name without a slash.
pub open spec fn parent_of(dir: Seq<char>) -> Option<Seq<char>> {
    let at = last_index_of(dir, '/');
    if at < 0 || dir.len() <= 1 {
        None
    } else if at == 0 {
        Some(dir.take(1))
    } else {
        Some(dir.take(at))
    }
}

/// The directory above `dir`, if there is one.
pub fn parent_dir(dir: &str) -> (parent: Option<String>)
    ensures
        parent.deep_view() == parent_of(dir@),
        parent matches Some(p) ==> p@.len() < dir@.len(),
{
    let text = chars_of(dir);
    let mut i: usize = text.len();
    while i > 0 && text[i - 1] != '/'
        invariant
            i <= text.len(),
            text@ == dir@,
            forall|j: int| i <= j < text.len() ==> text@[j] != '/',
        decreases i,
    {
        i -= 1;
    }
    proof {
        lemma_last_index_is(dir@, '/', i as int);
    }
    if i == 0 || text.len() <= 1 {
        None
    } else if i == 1 {
        Some(dir.substring_char(0, 1).to_string())
    } else {
        Some(dir.substring_char(0, i - 1).to_string())
    }
}

/// What is asked of the directory `dir` as the question with the number
/// `phase`: whether it holds `.bacchus`, whether it holds `.beads`, whether
/// it holds a directory `.git`.
pub open spec fn marker_question(dir: Seq<char>, phase: int) -> CommandView {
    if phase == 0 {
        CommandView::PathExists { path: path_in(dir, ".bacchus"@) }
    } else if phase == 1 {
        CommandView::PathExists { path: path_in(dir, ".beads"@) }
    } else {
        CommandView::IsDir { path: path_in(dir, ".git"@) }
    }
}

/// Whether `outcome` says yes.
pub open spec fn says_yes(outcome: OutcomeView) -> bool {
    outcome == OutcomeView::Exists(true)
}

/// What finding the workspace of `dir` does next, given the outcomes so far
/// of the questions asked of `dir` and of the directories above it.
///
/// A directory is the workspace where it holds `.bacchus` or `.beads`, or a
/// directory `.git`. The directories are asked from `dir` upward, and the
/// first that is a workspace is the answer. Where none is, up to the root,
/// there is no workspace. An outcome that is no yes counts as a no.
pub open spec fn find_workspace_root_plan(dir: Seq<char>, outcomes: Seq<OutcomeView>) -> ProgressView<
    Option<Seq<char>>,
>
    decreases dir.len(),
{
    if outcomes.len() == 0 {
        ProgressView::Run(marker_question(dir, 0))
    } else if says_yes(outcomes[0]) {
        ProgressView::Return(Ok(Some(dir)))
    } else if outcomes.len() == 1 {
        ProgressView::Run(marker_question(dir, 1))
    } else if says_yes(outcomes[1]) {
        ProgressView::Return(Ok(Some(dir)))
    } else if outcomes.len() == 2 {
        ProgressView::Run(marker_question(dir, 2))
    } else if says_yes(outcomes[2]) {
        ProgressView::Return(Ok(Some(dir)))
    } else {
        match parent_of(dir) {
            Some(parent) => if parent.len() < dir.len() {
                find_workspace_root_plan(parent, outcomes.skip(3))
            } else {
                ProgressView::Return(Ok(None))
            },
            None => ProgressView::Return(Ok(None)),
        }
    }
}

fn is_yes(outcome: &Outcome) -> (r: bool)
    ensures
        r == says_yes(outcome@),
{
    match outcome {
        Outcome::Exists(b) => *b,
        _ => false,
    }
}

fn find_from(dir: &str, outcomes: &Vec<Outcome>, from: usize) -> (p: Progress<Option<String>>)
    requires
        from <= outcomes.len(),
    ensures
        p.deep_view() == find_workspace_root_plan(dir@, outcomes.deep_view().skip(from as int)),
    decreases dir@.len(),
{
    let ghost rest = outcomes.deep_view().skip(from as int);
    let n = outcomes.len() - from;
    if n == 0 {
        return Progress::Run(Command::PathExists { path: join_path(dir, ".bacchus") });
    }
    assert(rest[0] == outcomes[from as int]@);
    if is_yes(&outcomes[from]) {
        return Progress::Return(Ok(Some(dir.to_string())));
    }
    if n == 1 {
        return Progress::Run(Command::PathExists { path: join_path(dir, ".beads") });
    }
    assert(rest[1] == outcomes[from + 1]@);
    if is_yes(&outcomes[from + 1]) {
        return Progress::Return(Ok(Some(dir.to_string())));
    }
    if n == 2 {
        return Progress::Run(Command::IsDir { path: join_path(dir, ".git") });
    }
    assert(rest[2] == outcomes[from + 2]@);
    if is_yes(&outcomes[from + 2]) {
        return Progress::Return(Ok(Some(dir.to_string())));
    }
    match parent_dir(dir) {
        Some(parent) => {
            assert(rest.skip(3) =~= outcomes.deep_view().skip(from + 3));
            find_from(parent.as_str(), outcomes, from + 3)
        },
        None => Progress::Return(Ok(None)),
    }
}

/// Finds the workspace that the directory `dir` belongs to: `dir` itself
/// or the nearest directory above it that holds `.bacchus`, `.beads` or a
/// directory `.git`. Returns the next question, or the answer. `outcomes`
/// holds the outcomes of the questions asked so far, in order.
pub fn find_workspace_root(dir: &str, outcomes: &Vec<Outcome>) -> (p: Progress<Option<String>>)
    ensures
        p.deep_view() == find_workspace_root_plan(dir@, outcomes.deep_view()),
{
    assert(outcomes.deep_view().skip(0) =~= outcomes.deep_view());
    find_from(dir, outcomes, 0)
}

} // verus!
