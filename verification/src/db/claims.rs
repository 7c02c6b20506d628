//! The claim table in the database: one row for each active claim, keyed by
//! the bead.

use crate::claims::{Claim, ClaimView, StoreError, StoreErrorView};
use crate::db::{
    failure_of, failure_text, integer_in, no_params, params1, text_in, text_value, Answer,
    AnswerView, Pending, PendingView, Statement, StatementView, Value, ValueView,
};
use vstd::prelude::*;

verus! {

/// The query for the claim on a bead.
pub const FIND_CLAIM_SQL: &'static str =
    "SELECT bead_id, agent_id, worktree_path, branch_name, start_commit, claimed_at FROM claims WHERE bead_id = ?1";

/// The statement that records a claim. The bead is the table's key, so the
/// statement is turned down where the bead has a row.
pub const INSERT_CLAIM_SQL: &'static str =
    "INSERT INTO claims (bead_id, agent_id, worktree_path, branch_name, start_commit, claimed_at) VALUES (?1, ?2, ?3, ?4, ?5, ?6)";

/// The statement that removes the claim on a bead.
pub const DELETE_CLAIM_SQL: &'static str = "DELETE FROM claims WHERE bead_id = ?1";

/// The query for every claim, the newest first.
pub const LIST_CLAIMS_SQL: &'static str =
    "SELECT bead_id, agent_id, worktree_path, branch_name, start_commit, claimed_at FROM claims ORDER BY claimed_at DESC";

/// The text of the error for a row that holds no claim.
pub open spec fn bad_row_text() -> Seq<char> {
    "row does not hold a claim"@
}

/// The claim that a row of the table holds: bead, agent, worktree path,
/// branch and start commit, each a text, and the time of the claim, an
/// integer. `None` for a row of another shape.
pub open spec fn claim_of(row: Seq<ValueView>) -> Option<ClaimView> {
    if row.len() == 6 && text_in(row[0]) is Some && text_in(row[1]) is Some && text_in(row[2])
        is Some && text_in(row[3]) is Some && text_in(row[4]) is Some && integer_in(row[5])
        is Some {
        Some(
            ClaimView {
                bead_id: text_in(row[0])->0,
                agent_id: text_in(row[1])->0,
                worktree_path: text_in(row[2])->0,
                branch_name: text_in(row[3])->0,
                start_commit: text_in(row[4])->0,
                claimed_at: integer_in(row[5])->0,
            },
        )
    } else {
        None
    }
}

/// The row that holds `claim`.
pub open spec fn row_of(claim: ClaimView) -> Seq<ValueView> {
    seq![
        ValueView::Text(claim.bead_id),
        ValueView::Text(claim.agent_id),
        ValueView::Text(claim.worktree_path),
        ValueView::Text(claim.branch_name),
        ValueView::Text(claim.start_commit),
        ValueView::Integer(claim.claimed_at),
    ]
}

/// The claims that `rows` hold, in their order, if each row holds one.
pub open spec fn claims_of(rows: Seq<Seq<ValueView>>) -> Option<Seq<ClaimView>> {
    if forall|i: int| 0 <= i < rows.len() ==> (#[trigger] claim_of(rows[i])) is Some {
        Some(Seq::new(rows.len(), |i: int| claim_of(rows[i])->0))
    } else {
        None
    }
}

fn text_of(value: &Value) -> (r: Option<String>)
    ensures
        r.deep_view() == text_in(value@),
{
    match value {
        Value::Text(s) => Some(s.clone()),
        _ => None,
    }
}

/// The claim that `row` holds, if it holds one.
pub fn decode_claim(row: &Vec<Value>) -> (r: Option<Claim>)
    ensures
        r.deep_view() == claim_of(row.deep_view()),
{
    let ghost view = row.deep_view();
    if row.len() != 6 {
        return None;
    }
    assert(view[0] == row[0]@ && view[1] == row[1]@ && view[2] == row[2]@ && view[3] == row[3]@
        && view[4] == row[4]@ && view[5] == row[5]@);
    let claimed_at = match &row[5] {
        Value::Integer(n) => *n,
        _ => {
            return None;
        },
    };
    match (
        text_of(&row[0]),
        text_of(&row[1]),
        text_of(&row[2]),
        text_of(&row[3]),
        text_of(&row[4]),
    ) {
        (Some(bead_id), Some(agent_id), Some(worktree_path), Some(branch_name), Some(start_commit)) => Some(
            Claim { bead_id, agent_id, worktree_path, branch_name, start_commit, claimed_at },
        ),
        _ => None,
    }
}

/// The row that holds `claim`.
pub fn encode_claim(claim: &Claim) -> (row: Vec<Value>)
    ensures
        row.deep_view() == row_of(claim@),
{
    let mut row: Vec<Value> = Vec::new();
    row.push(text_value(claim.bead_id.as_str()));
    row.push(text_value(claim.agent_id.as_str()));
    row.push(text_value(claim.worktree_path.as_str()));
    row.push(text_value(claim.branch_name.as_str()));
    row.push(text_value(claim.start_commit.as_str()));
    row.push(Value::Integer(claim.claimed_at));
    assert(row.deep_view() =~= row_of(claim@));
    row
}

fn decode_claims(rows: &Vec<Vec<Value>>) -> (r: Option<Vec<Claim>>)
    ensures
        r.deep_view() == claims_of(rows.deep_view()),
{
    let ghost view = rows.deep_view();
    let mut out: Vec<Claim> = Vec::new();
    let mut i: usize = 0;
    while i < rows.len()
        invariant
            i <= rows.len(),
            view == rows.deep_view(),
            out.len() == i,
            forall|j: int| 0 <= j < i ==> (#[trigger] claim_of(view[j])) == Some(out[j]@),
        decreases rows.len() - i,
    {
        assert(view[i as int] == rows[i as int].deep_view());
        match decode_claim(&rows[i]) {
            Some(claim) => {
                out.push(claim);
            },
            None => {
                assert(claim_of(view[i as int]) is None);
                return None;
            },
        }
        i += 1;
    }
    assert(out.deep_view() =~= Seq::new(view.len(), |i: int| claim_of(view[i])->0));
    Some(out)
}

/// The failure that `answer` stands for.
pub open spec fn database_failure<V>(answer: AnswerView) -> PendingView<V, StoreErrorView> {
    PendingView::Return(Err(StoreErrorView::Database(failure_text(answer))))
}

fn fails<T: DeepView>(answer: &Answer) -> (p: Pending<T, StoreError>)
    ensures
        p.deep_view() == database_failure::<T::V>(answer@),
{
    Pending::Return(Err(StoreError::Database(failure_of(answer))))
}

/// What looking up the claim on `bead_id` does next, given the answers so
/// far: the row of the bead is queried and decoded; no row means no claim.
pub open spec fn find_claim_plan(bead_id: Seq<char>, answers: Seq<AnswerView>) -> PendingView<
    Option<ClaimView>,
    StoreErrorView,
> {
    if answers.len() == 0 {
        PendingView::Run(
            StatementView::Query { sql: FIND_CLAIM_SQL@, params: seq![ValueView::Text(bead_id)] },
        )
    } else {
        match answers[0] {
            AnswerView::Rows(rows) => if rows.len() == 0 {
                PendingView::Return(Ok(None))
            } else {
                match claim_of(rows[0]) {
                    Some(claim) => PendingView::Return(Ok(Some(claim))),
                    None => PendingView::Return(Err(StoreErrorView::Database(bad_row_text()))),
                }
            },
            other => database_failure(other),
        }
    }
}

/// The claim on `bead_id`, if the table holds one: returns the next
/// statement, or the result. `answers` holds the answers to the statements
/// run so far, in order.
pub fn find_claim(bead_id: &str, answers: &Vec<Answer>) -> (p: Pending<Option<Claim>, StoreError>)
    ensures
        p.deep_view() == find_claim_plan(bead_id@, answers.deep_view()),
{
    if answers.len() == 0 {
        return Pending::Run(
            Statement::Query { sql: String::from_str(FIND_CLAIM_SQL), params: params1(bead_id) },
        );
    }
    assert(answers.deep_view()[0] == answers[0]@);
    match &answers[0] {
        Answer::Rows(rows) => {
            if rows.len() == 0 {
                return Pending::Return(Ok(None));
            }
            assert(rows.deep_view()[0] == rows[0].deep_view());
            match decode_claim(&rows[0]) {
                Some(claim) => Pending::Return(Ok(Some(claim))),
                None => Pending::Return(
                    Err(StoreError::Database(String::from_str("row does not hold a claim"))),
                ),
            }
        },
        other => fails(other),
    }
}

/// What recording `claim` does next, given the answers so far: its row is
/// inserted. Where the bead has a row already the database turns the
/// statement down, and the result is `Conflict`.
pub open spec fn insert_claim_plan(claim: ClaimView, answers: Seq<AnswerView>) -> PendingView<
    (),
    StoreErrorView,
> {
    if answers.len() == 0 {
        PendingView::Run(StatementView::Execute { sql: INSERT_CLAIM_SQL@, params: row_of(claim) })
    } else {
        match answers[0] {
            AnswerView::Changed(_) => PendingView::Return(Ok(())),
            AnswerView::Duplicate(m) => PendingView::Return(Err(StoreErrorView::Conflict(m))),
            other => database_failure(other),
        }
    }
}

/// Records `claim` in the table: returns the next statement, or the
/// result. `answers` holds the answers to the statements run so far, in
/// order.
pub fn insert_claim(claim: &Claim, answers: &Vec<Answer>) -> (p: Pending<(), StoreError>)
    ensures
        p.deep_view() == insert_claim_plan(claim@, answers.deep_view()),
{
    if answers.len() == 0 {
        return Pending::Run(
            Statement::Execute {
                sql: String::from_str(INSERT_CLAIM_SQL),
                params: encode_claim(claim),
            },
        );
    }
    assert(answers.deep_view()[0] == answers[0]@);
    match &answers[0] {
        Answer::Changed(_) => Pending::Return(Ok(())),
        Answer::Duplicate(m) => Pending::Return(Err(StoreError::Conflict(m.clone()))),
        other => fails(other),
    }
}

/// What removing the claim on `bead_id` does next, given the answers so
/// far: its row is deleted. That no row was there is no error.
pub open spec fn delete_claim_plan(bead_id: Seq<char>, answers: Seq<AnswerView>) -> PendingView<
    (),
    StoreErrorView,
> {
    if answers.len() == 0 {
        PendingView::Run(
            StatementView::Execute {
                sql: DELETE_CLAIM_SQL@,
                params: seq![ValueView::Text(bead_id)],
            },
        )
    } else {
        match answers[0] {
            AnswerView::Changed(_) => PendingView::Return(Ok(())),
            other => database_failure(other),
        }
    }
}

/// Removes the claim on `bead_id` from the table: returns the next
/// statement, or the result. `answers` holds the answers to the statements
/// run so far, in order.
pub fn delete_claim(bead_id: &str, answers: &Vec<Answer>) -> (p: Pending<(), StoreError>)
    ensures
        p.deep_view() == delete_claim_plan(bead_id@, answers.deep_view()),
{
    if answers.len() == 0 {
        return Pending::Run(
            Statement::Execute {
                sql: String::from_str(DELETE_CLAIM_SQL),
                params: params1(bead_id),
            },
        );
    }
    assert(answers.deep_view()[0] == answers[0]@);
    match &answers[0] {
        Answer::Changed(_) => Pending::Return(Ok(())),
        other => fails(other),
    }
}

/// What listing the claims does next, given the answers so far: the rows
/// of the table are queried, the newest first, and decoded.
pub open spec fn all_claims_plan(answers: Seq<AnswerView>) -> PendingView<
    Seq<ClaimView>,
    StoreErrorView,
> {
    if answers.len() == 0 {
        PendingView::Run(StatementView::Query { sql: LIST_CLAIMS_SQL@, params: Seq::empty() })
    } else {
        match answers[0] {
            AnswerView::Rows(rows) => match claims_of(rows) {
                Some(claims) => PendingView::Return(Ok(claims)),
                None => PendingView::Return(Err(StoreErrorView::Database(bad_row_text()))),
            },
            other => database_failure(other),
        }
    }
}

/// Every claim of the table, the newest first: returns the next statement,
/// or the result. `answers` holds the answers to the statements run so far,
/// in order.
pub fn all_claims(answers: &Vec<Answer>) -> (p: Pending<Vec<Claim>, StoreError>)
    ensures
        p.deep_view() == all_claims_plan(answers.deep_view()),
{
    if answers.len() == 0 {
        return Pending::Run(
            Statement::Query { sql: String::from_str(LIST_CLAIMS_SQL), params: no_params() },
        );
    }
    assert(answers.deep_view()[0] == answers[0]@);
    match &answers[0] {
        Answer::Rows(rows) => match decode_claims(rows) {
            Some(claims) => Pending::Return(Ok(claims)),
            None => Pending::Return(
                Err(StoreError::Database(String::from_str("row does not hold a claim"))),
            ),
        },
        other => fails(other),
    }
}

} // verus!
