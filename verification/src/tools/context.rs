//! What an agent is told about where it stands: about one bead, or about
//! the project as a whole.

pub mod global;
pub mod task;

pub use global::generate_global_context;
pub use task::generate_task_context;

use crate::text::{before_first, has_prefix, starts_with, strip_prefix, up_to};
use vstd::prelude::*;

verus! {

/// What a context is about.
#[derive(Debug, PartialEq, Eq)]
pub enum ContextTarget {
    /// One bead.
    Task(String),
    /// The project as a whole.
    Global,
}

/// What a [`ContextTarget`] holds, as mathematical values.
pub enum ContextTargetView {
    Task(Seq<char>),
    Global,
}

impl View for ContextTarget {
    type V = ContextTargetView;

    open spec fn view(&self) -> ContextTargetView {
        match self {
            ContextTarget::Task(b) => ContextTargetView::Task(b@),
            ContextTarget::Global => ContextTargetView::Global,
        }
    }
}

/// The bead in whose worktree `current_dir` lies: the name of the directory
/// right below `worktrees_dir` on the way to `current_dir`, if
/// `current_dir` lies below `worktrees_dir`.
pub open spec fn bead_of_dir(current_dir: Seq<char>, worktrees_dir: Seq<char>) -> Option<Seq<char>> {
    let lead = worktrees_dir + "/"@;
    if has_prefix(current_dir, lead) && before_first(current_dir.skip(lead.len() as int), '/').len()
        > 0 {
        Some(before_first(current_dir.skip(lead.len() as int), '/'))
    } else {
        None
    }
}

/// What the context is about: the bead that is named; else the bead in
/// whose worktree `current_dir` lies; else the project.
pub open spec fn context_target_of(
    bead_id: Option<Seq<char>>,
    current_dir: Seq<char>,
    worktrees_dir: Seq<char>,
) -> ContextTargetView {
    match bead_id {
        Some(b) => ContextTargetView::Task(b),
        None => match bead_of_dir(current_dir, worktrees_dir) {
            Some(b) => ContextTargetView::Task(b),
            None => ContextTargetView::Global,
        },
    }
}

/// Decides what the context is about, for an agent that works in
/// `current_dir` and may have named a bead.
pub fn generate_context(bead_id: Option<String>, current_dir: &str, worktrees_dir: &str) -> (target:
    ContextTarget)
    ensures
        target@ == context_target_of(bead_id.deep_view(), current_dir@, worktrees_dir@),
{
    match bead_id {
        Some(b) => ContextTarget::Task(b),
        None => {
            let mut lead = worktrees_dir.to_string();
            lead.append("/");
            let rest = strip_prefix(current_dir, lead.as_str());
            if starts_with(current_dir, lead.as_str()) {
                let name = up_to(rest.as_str(), '/');
                if name.as_str().unicode_len() > 0 {
                    ContextTarget::Task(name)
                } else {
                    ContextTarget::Global
                }
            } else {
                ContextTarget::Global
            }
        },
    }
}

} // verus!
