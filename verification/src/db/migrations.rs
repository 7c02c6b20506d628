//! The schema of the coordination database, as a list of migrations that
//! are applied in order; the database records the version it has reached.

use crate::claims::{StoreError, StoreErrorView};
use crate::db::{
    failure_of, failure_text, integer_in, no_params, Answer, AnswerView, Pending, PendingView,
    Statement, StatementView, Value, ValueView,
};
use vstd::prelude::*;

verus! {

/// A step of the schema.
#[derive(Debug, Clone, Copy, PartialEq, Eq)]
pub struct Migration {
    pub version: i32,
    pub name: &'static str,
    pub sql: &'static str,
}

/// What a [`Migration`] holds, as mathematical values.
pub struct MigrationView {
    pub version: int,
    pub name: Seq<char>,
    pub sql: Seq<char>,
}

impl View for Migration {
    type V = MigrationView;

    open spec fn view(&self) -> MigrationView {
        MigrationView { version: self.version as int, name: self.name@, sql: self.sql@ }
    }
}

impl DeepView for Migration {
    type V = MigrationView;

    open spec fn deep_view(&self) -> MigrationView {
        self@
    }
}

/// The first schema: tasks, symbols and what was kept about them.
pub const INITIAL_SCHEMA_SQL: &'static str =
    "CREATE TABLE IF NOT EXISTS schema_version (version INTEGER PRIMARY KEY);
CREATE TABLE tasks (bead_id TEXT PRIMARY KEY, title TEXT, status TEXT, owner TEXT, workplan TEXT, footprint TEXT, start_hash TEXT, last_heartbeat INTEGER, last_update INTEGER);
CREATE TABLE symbols (id INTEGER PRIMARY KEY, file TEXT NOT NULL, fq_name TEXT NOT NULL, kind TEXT NOT NULL, span_start_line INTEGER NOT NULL, span_end_line INTEGER NOT NULL, line_count INTEGER NOT NULL, hash TEXT NOT NULL, docstring TEXT, language TEXT NOT NULL DEFAULT 'typescript');
CREATE INDEX idx_symbols_file ON symbols(file);
CREATE INDEX idx_symbols_fq_name ON symbols(fq_name);
CREATE INDEX idx_symbols_language ON symbols(language);
CREATE TABLE bead_symbols (bead_id TEXT NOT NULL, symbol_ref TEXT NOT NULL, symbol_id INTEGER, relation TEXT NOT NULL, is_virtual INTEGER DEFAULT 0, PRIMARY KEY (bead_id, symbol_ref, relation));
CREATE TABLE notifications (id INTEGER PRIMARY KEY, notification_type TEXT NOT NULL, from_agent TEXT, from_bead TEXT, commit_hash TEXT, target_agent TEXT, target_bead TEXT, target_symbol TEXT, change_kind TEXT, change_description TEXT, is_breaking INTEGER DEFAULT 1, decision_options TEXT, decision_result TEXT, decision_notes TEXT, status TEXT DEFAULT 'pending', created_at INTEGER NOT NULL, acknowledged_at INTEGER, resolved_at INTEGER);
CREATE INDEX idx_notifications_target ON notifications(target_agent, status);
CREATE INDEX idx_notifications_symbol ON notifications(target_symbol, status);
CREATE TABLE symbol_calls (id INTEGER PRIMARY KEY, caller_symbol_id INTEGER NOT NULL, callee_fq_name TEXT NOT NULL, call_site_file TEXT, call_site_line INTEGER, FOREIGN KEY (caller_symbol_id) REFERENCES symbols(id));
CREATE INDEX idx_symbol_calls_callee ON symbol_calls(callee_fq_name);
CREATE TABLE doc_fragments (id TEXT PRIMARY KEY, path TEXT, anchor TEXT, scope_type TEXT, scope_ref TEXT, content_markdown TEXT, last_generated_at INTEGER, stale INTEGER DEFAULT 0);
CREATE TABLE doc_sources (fragment_id TEXT NOT NULL, source_type TEXT NOT NULL, source_ref TEXT NOT NULL, source_hash TEXT, PRIMARY KEY (fragment_id, source_type, source_ref));
";

/// The second schema: tasks know their parent and their estimated size.
pub const ESTIMATION_SQL: &'static str =
    "ALTER TABLE tasks ADD COLUMN parent_bead TEXT REFERENCES tasks(bead_id);
ALTER TABLE tasks ADD COLUMN estimated_tokens INTEGER;
ALTER TABLE tasks ADD COLUMN estimated_files INTEGER;
ALTER TABLE tasks ADD COLUMN estimated_symbols INTEGER;
CREATE INDEX idx_tasks_parent ON tasks(parent_bead);
";

/// The third schema: claims take the place of tasks; the symbols stay.
pub const CLAIMS_ONLY_SQL: &'static str =
    "DROP TABLE IF EXISTS notifications;
DROP TABLE IF EXISTS symbol_calls;
DROP TABLE IF EXISTS doc_fragments;
DROP TABLE IF EXISTS doc_sources;
DROP TABLE IF EXISTS bead_symbols;
DROP TABLE IF EXISTS tasks;
CREATE TABLE claims (bead_id TEXT PRIMARY KEY, agent_id TEXT NOT NULL, worktree_path TEXT NOT NULL, branch_name TEXT NOT NULL, start_commit TEXT NOT NULL, claimed_at INTEGER NOT NULL);
";

/// The query for the version that the database has reached.
pub const CURRENT_VERSION_SQL: &'static str =
    "SELECT version FROM schema_version ORDER BY version DESC LIMIT 1";

/// The statement that records a version as reached.
pub const RECORD_VERSION_SQL: &'static str =
    "INSERT OR REPLACE INTO schema_version (version) VALUES (?1)";

/// Every migration, in the order in which they are applied.
pub open spec fn all_migrations() -> Seq<MigrationView> {
    seq![
        MigrationView { version: 1, name: "initial_schema"@, sql: INITIAL_SCHEMA_SQL@ },
        MigrationView { version: 2, name: "add_parent_bead_and_estimation"@, sql: ESTIMATION_SQL@ },
        MigrationView { version: 3, name: "simplify_schema_claims_only"@, sql: CLAIMS_ONLY_SQL@ },
    ]
}

/// Every migration, in the order in which they are applied.
pub fn migrations() -> (all: Vec<Migration>)
    ensures
        all.deep_view() == all_migrations(),
{
    let mut all: Vec<Migration> = Vec::new();
    all.push(Migration { version: 1, name: "initial_schema", sql: INITIAL_SCHEMA_SQL });
    all.push(
        Migration { version: 2, name: "add_parent_bead_and_estimation", sql: ESTIMATION_SQL },
    );
    all.push(Migration { version: 3, name: "simplify_schema_claims_only", sql: CLAIMS_ONLY_SQL });
    assert(all.deep_view() =~= all_migrations());
    all
}

/// The text of the error for a row that holds no version.
pub open spec fn bad_version_text() -> Seq<char> {
    "row does not hold a version"@
}

/// The version that `answer` reports: 0 where no version is recorded, and
/// where the query fails, as it does on a database without a schema.
pub open spec fn version_in(answer: AnswerView) -> Result<i32, StoreErrorView> {
    match answer {
        AnswerView::Rows(rows) => if rows.len() == 0 {
            Ok(0i32)
        } else if rows[0].len() == 1 && integer_in(rows[0][0]) is Some && i32::MIN <= integer_in(
            rows[0][0],
        )->0 <= i32::MAX {
            Ok(integer_in(rows[0][0])->0 as i32)
        } else {
            Err(StoreErrorView::Database(bad_version_text()))
        },
        AnswerView::Failed(_) => Ok(0i32),
        other => Err(StoreErrorView::Database(failure_text(other))),
    }
}

fn read_version(answer: &Answer) -> (r: Result<i32, StoreError>)
    ensures
        match r {
            Ok(v) => version_in(answer@) == Ok::<i32, StoreErrorView>(v),
            Err(e) => version_in(answer@) == Err::<i32, StoreErrorView>(e@),
        },
{
    match answer {
        Answer::Rows(rows) => {
            if rows.len() == 0 {
                return Ok(0);
            }
            assert(rows.deep_view()[0] == rows[0].deep_view());
            if rows[0].len() == 1 {
                assert(rows[0].deep_view()[0] == rows[0][0]@);
                match &rows[0][0] {
                    Value::Integer(n) => {
                        if -2147483648 <= *n && *n <= 2147483647 {
                            return Ok(*n as i32);
                        }
                    },
                    _ => {},
                }
            }
            Err(StoreError::Database(String::from_str("row does not hold a version")))
        },
        Answer::Failed(_) => Ok(0),
        other => Err(StoreError::Database(failure_of(other))),
    }
}

/// What asking for the version of the schema does next, given the answers
/// so far.
pub open spec fn get_current_version_plan(answers: Seq<AnswerView>) -> PendingView<
    i32,
    StoreErrorView,
> {
    if answers.len() == 0 {
        PendingView::Run(StatementView::Query { sql: CURRENT_VERSION_SQL@, params: Seq::empty() })
    } else {
        PendingView::Return(version_in(answers[0]))
    }
}

/// The version that the schema of the database has reached, 0 for a
/// database without a schema: returns the next statement, or the result.
/// `answers` holds the answers to the statements run so far, in order.
pub fn get_current_version(answers: &Vec<Answer>) -> (p: Pending<i32, StoreError>)
    ensures
        p.deep_view() == get_current_version_plan(answers.deep_view()),
{
    if answers.len() == 0 {
        return Pending::Run(
            Statement::Query { sql: String::from_str(CURRENT_VERSION_SQL), params: no_params() },
        );
    }
    assert(answers.deep_view()[0] == answers[0]@);
    match read_version(&answers[0]) {
        Ok(v) => Pending::Return(Ok(v)),
        Err(e) => Pending::Return(Err(e)),
    }
}

/// The migrations among `all` that a database at `version` has not seen:
/// those with a higher version, in their order.
pub open spec fn pending_after(all: Seq<MigrationView>, version: int) -> Seq<MigrationView> {
    all.filter(|m: MigrationView| m.version > version)
}

/// How the migrations `pending` are applied from position `k` on, given the
/// answers since then: each migration's statements are run, then its
/// version is recorded. The first statement that fails ends the sequence
/// with its error. The result is the number of migrations applied.
pub open spec fn migrate_plan(pending: Seq<MigrationView>, k: nat, answers: Seq<AnswerView>) -> PendingView<
    usize,
    StoreErrorView,
>
    decreases pending.len() - k,
{
    if k >= pending.len() {
        PendingView::Return(Ok(pending.len() as usize))
    } else if answers.len() == 0 {
        PendingView::Run(StatementView::Batch { sql: pending[k as int].sql })
    } else if !(answers[0] is Changed) {
        PendingView::Return(Err(StoreErrorView::Database(failure_text(answers[0]))))
    } else if answers.len() == 1 {
        PendingView::Run(
            StatementView::Execute {
                sql: RECORD_VERSION_SQL@,
                params: seq![ValueView::Integer(pending[k as int].version)],
            },
        )
    } else if !(answers[1] is Changed) {
        PendingView::Return(Err(StoreErrorView::Database(failure_text(answers[1]))))
    } else {
        migrate_plan(pending, k + 1, answers.skip(2))
    }
}

/// What bringing the schema up to date does next, given the answers so
/// far: the version of the schema is read, a failure to read it counting as
/// version 0; then the migrations that the database has not seen are
/// applied as [`migrate_plan`] says.
pub open spec fn apply_migrations_plan(answers: Seq<AnswerView>) -> PendingView<
    usize,
    StoreErrorView,
> {
    if answers.len() == 0 {
        PendingView::Run(StatementView::Query { sql: CURRENT_VERSION_SQL@, params: Seq::empty() })
    } else {
        let version: int = match version_in(answers[0]) {
            Ok(v) => v as int,
            Err(_) => 0,
        };
        migrate_plan(pending_after(all_migrations(), version), 0, answers.skip(1))
    }
}

fn pending_migrations(version: i32) -> (out: Vec<Migration>)
    ensures
        out.deep_view() == pending_after(all_migrations(), version as int),
{
    let all = migrations();
    let ghost views = all.deep_view();
    let mut out: Vec<Migration> = Vec::new();
    let mut i: usize = 0;
    proof {
        reveal(Seq::filter);
        assert(views.take(0) =~= Seq::<MigrationView>::empty());
        assert(out.deep_view() =~= pending_after(views.take(0), version as int));
    }
    while i < all.len()
        invariant
            i <= all.len(),
            views == all.deep_view(),
            out.deep_view() == pending_after(views.take(i as int), version as int),
        decreases all.len() - i,
    {
        let ghost before = out.deep_view();
        proof {
            reveal(Seq::filter);
            assert(views.take(i + 1).drop_last() =~= views.take(i as int));
            assert(views.take(i + 1).last() == all[i as int]@);
        }
        if all[i].version > version {
            out.push(all[i]);
            assert(out.deep_view() =~= before.push(all[i as int]@));
        }
        i += 1;
    }
    assert(views.take(all.len() as int) =~= views);
    out
}

/// Follows [`apply_migrations_plan`] over the answers from position `from`
/// on.
pub(crate) fn apply_migrations_from(answers: &Vec<Answer>, from: usize) -> (p: Pending<usize, StoreError>)
    requires
        from <= answers.len(),
    ensures
        p.deep_view() == apply_migrations_plan(answers.deep_view().skip(from as int)),
{
    let ghost all = answers.deep_view().skip(from as int);
    if answers.len() == from {
        return Pending::Run(
            Statement::Query { sql: String::from_str(CURRENT_VERSION_SQL), params: no_params() },
        );
    }
    assert(all[0] == answers[from as int]@);
    let version = match read_version(&answers[from]) {
        Ok(v) => v,
        Err(_) => 0,
    };
    let pending = pending_migrations(version);
    let ghost goal = apply_migrations_plan(all);
    let ghost views = pending.deep_view();
    let mut k: usize = 0;
    let mut at: usize = from + 1;
    assert(all.skip(1) =~= answers.deep_view().skip(at as int));
    while k < pending.len()
        invariant
            k <= pending.len(),
            from < at <= answers.len(),
            views == pending.deep_view(),
            goal == apply_migrations_plan(answers.deep_view().skip(from as int)),
            goal == migrate_plan(views, k as nat, answers.deep_view().skip(at as int)),
        decreases pending.len() - k,
    {
        let ghost rest = answers.deep_view().skip(at as int);
        assert(views[k as int] == pending[k as int]@);
        if at >= answers.len() {
            return Pending::Run(Statement::Batch { sql: String::from_str(pending[k].sql) });
        }
        assert(rest[0] == answers[at as int]@);
        match &answers[at] {
            Answer::Changed(_) => {},
            other => {
                return Pending::Return(Err(StoreError::Database(failure_of(other))));
            },
        }
        if at + 1 >= answers.len() {
            let mut params: Vec<Value> = Vec::new();
            params.push(Value::Integer(pending[k].version as i64));
            assert(params.deep_view() =~= seq![ValueView::Integer(views[k as int].version)]);
            return Pending::Run(
                Statement::Execute { sql: String::from_str(RECORD_VERSION_SQL), params },
            );
        }
        assert(rest[1] == answers[at + 1]@);
        match &answers[at + 1] {
            Answer::Changed(_) => {},
            other => {
                return Pending::Return(Err(StoreError::Database(failure_of(other))));
            },
        }
        assert(rest.skip(2) =~= answers.deep_view().skip(at + 2));
        at = at + 2;
        k = k + 1;
    }
    Pending::Return(Ok(pending.len()))
}

/// Brings the schema of the database up to date: returns the next
/// statement, or the number of migrations that were applied. `answers`
/// holds the answers to the statements run so far, in order.
pub fn apply_migrations(answers: &Vec<Answer>) -> (p: Pending<usize, StoreError>)
    ensures
        p.deep_view() == apply_migrations_plan(answers.deep_view()),
{
    assert(answers.deep_view().skip(0) =~= answers.deep_view());
    apply_migrations_from(answers, 0)
}

} // verus!
