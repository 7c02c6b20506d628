//! Setting up the coordination database.

use crate::claims::{StoreError, StoreErrorView};
use crate::db::migrations::{apply_migrations_from, apply_migrations_plan};
use crate::db::{
    failure_of, failure_text, Answer, AnswerView, Pending, PendingView, Statement, StatementView,
};
use crate::worktree::{join_path, path_in};
use vstd::prelude::*;

verus! {

/// The settings of a connection: a write-ahead log, so that readers do not
/// hold up the writer, and foreign keys enforced.
pub const CONNECTION_SQL: &'static str = "PRAGMA journal_mode = WAL; PRAGMA foreign_keys = ON;";

/// Where the coordination database lies in a workspace, unless another path
/// is configured.
pub open spec fn db_path_of(workspace_root: Seq<char>, configured: Option<Seq<char>>) -> Seq<char> {
    match configured {
        Some(path) => path,
        None => path_in(workspace_root, ".bacchus/bacchus.db"@),
    }
}

/// The path of the coordination database of the workspace at
/// `workspace_root`, given the path that is configured, if any.
pub fn db_path(workspace_root: &str, configured: Option<&str>) -> (path: String)
    ensures
        path@ == db_path_of(workspace_root@, configured.deep_view()),
{
    match configured {
        Some(path) => path.to_string(),
        None => join_path(workspace_root, ".bacchus/bacchus.db"),
    }
}

/// What setting up the database does next, given the answers so far: the
/// connection is configured; then the schema is brought up to date as
/// [`apply_migrations_plan`] says.
pub open spec fn init_db_plan(answers: Seq<AnswerView>) -> PendingView<usize, StoreErrorView> {
    if answers.len() == 0 {
        PendingView::Run(StatementView::Batch { sql: CONNECTION_SQL@ })
    } else if !(answers[0] is Changed) {
        PendingView::Return(Err(StoreErrorView::Database(failure_text(answers[0]))))
    } else {
        apply_migrations_plan(answers.skip(1))
    }
}

/// Sets up a connection to the coordination database that was just opened:
/// returns the next statement, or the number of migrations that were
/// applied. `answers` holds the answers to the statements run so far, in
/// order.
pub fn init_db(answers: &Vec<Answer>) -> (p: Pending<usize, StoreError>)
    ensures
        p.deep_view() == init_db_plan(answers.deep_view()),
{
    if answers.len() == 0 {
        return Pending::Run(Statement::Batch { sql: String::from_str(CONNECTION_SQL) });
    }
    assert(answers.deep_view()[0] == answers[0]@);
    match &answers[0] {
        Answer::Changed(_) => {},
        other => {
            return Pending::Return(Err(StoreError::Database(failure_of(other))));
        },
    }
    apply_migrations_from(answers, 1)
}

} // verus!
