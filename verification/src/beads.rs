//! Beads: the units of work that the issue tracker hands out.

use crate::db::{
    failure_of, failure_text, no_params, optional_text_in, params1, params2, text_in, Answer,
    AnswerView, Pending, PendingView, Statement, StatementView, Value, ValueView,
};
use crate::text::{chars_of, same};
use crate::worktree::{join_path, path_in};
use vstd::prelude::*;

verus! {

/// What the tracker knows of a bead.
#[derive(Debug, PartialEq, Eq)]
pub struct BeadInfo {
    pub id: String,
    pub title: String,
    pub description: Option<String>,
    pub priority: String,
    pub status: String,
}

/// What a [`BeadInfo`] holds, as mathematical values.
pub struct BeadInfoView {
    pub id: Seq<char>,
    pub title: Seq<char>,
    pub description: Option<Seq<char>>,
    pub priority: Seq<char>,
    pub status: Seq<char>,
}

impl View for BeadInfo {
    type V = BeadInfoView;

    open spec fn view(&self) -> BeadInfoView {
        BeadInfoView {
            id: self.id@,
            title: self.title@,
            description: self.description.deep_view(),
            priority: self.priority@,
            status: self.status@,
        }
    }
}

impl DeepView for BeadInfo {
    type V = BeadInfoView;

    open spec fn deep_view(&self) -> BeadInfoView {
        self@
    }
}

impl Clone for BeadInfo {
    fn clone(&self) -> (r: Self)
        ensures
            r == *self,
    {
        BeadInfo {
            id: self.id.clone(),
            title: self.title.clone(),
            description: self.description.clone(),
            priority: self.priority.clone(),
            status: self.status.clone(),
        }
    }
}

/// The rank of a priority: `P0` comes first, then `P1`, `P2` and `P3`, and
/// every other priority after them.
pub open spec fn priority_rank(priority: Seq<char>) -> int {
    if priority == "P0"@ {
        0
    } else if priority == "P1"@ {
        1
    } else if priority == "P2"@ {
        2
    } else if priority == "P3"@ {
        3
    } else {
        4
    }
}

/// Whether the text `a` comes before the text `b`, or is the same: the two
/// are compared character by character from the front, and a text that ends
/// first comes first.
pub open spec fn text_le(a: Seq<char>, b: Seq<char>) -> bool
    decreases a.len(),
{
    if a.len() == 0 {
        true
    } else if b.len() == 0 {
        false
    } else if a[0] != b[0] {
        (a[0] as u32) < (b[0] as u32)
    } else {
        text_le(a.drop_first(), b.drop_first())
    }
}

/// Whether the bead `a` is to be worked on no later than the bead `b`: by
/// the rank of their priorities, and by their identifiers where the ranks
/// are the same.
pub open spec fn comes_first(a: BeadInfoView, b: BeadInfoView) -> bool {
    priority_rank(a.priority) < priority_rank(b.priority) || (priority_rank(a.priority)
        == priority_rank(b.priority) && text_le(a.id, b.id))
}

/// Whether `beads` stand in the order in which they are to be worked on, as
/// the tracker lists the ready beads.
pub open spec fn by_priority(beads: Seq<BeadInfoView>) -> bool {
    forall|i: int, j: int| 0 <= i < j < beads.len() ==> comes_first(beads[i], beads[j])
}

/// Of two texts, one comes before the other or is the same.
pub proof fn lemma_text_le_total(a: Seq<char>, b: Seq<char>)
    ensures
        text_le(a, b) || text_le(b, a),
    decreases a.len(),
{
    if a.len() > 0 && b.len() > 0 {
        if a[0] == b[0] {
            lemma_text_le_total(a.drop_first(), b.drop_first());
        } else {
            vstd::utf8::char_u32_cast(a[0], a[0] as u32);
            vstd::utf8::char_u32_cast(b[0], b[0] as u32);
        }
    }
}

/// A text that comes no later than a second, which comes no later than a
/// third, comes no later than the third.
pub proof fn lemma_text_le_trans(a: Seq<char>, b: Seq<char>, c: Seq<char>)
    requires
        text_le(a, b),
        text_le(b, c),
    ensures
        text_le(a, c),
    decreases a.len(),
{
    if a.len() > 0 && b.len() > 0 && c.len() > 0 && a[0] == b[0] && b[0] == c[0] {
        lemma_text_le_trans(a.drop_first(), b.drop_first(), c.drop_first());
    }
}

/// Of two beads, one is to be worked on no later than the other; and the
/// order carries over from a first to a second to a third bead.
pub proof fn lemma_comes_first(a: BeadInfoView, b: BeadInfoView, c: BeadInfoView)
    ensures
        comes_first(a, b) || comes_first(b, a),
        comes_first(a, b) && comes_first(b, c) ==> comes_first(a, c),
{
    lemma_text_le_total(a.id, b.id);
    if comes_first(a, b) && comes_first(b, c) && priority_rank(a.priority) == priority_rank(
        b.priority,
    ) && priority_rank(b.priority) == priority_rank(c.priority) {
        lemma_text_le_trans(a.id, b.id, c.id);
    }
}

fn rank_of(priority: &str) -> (rank: u8)
    ensures
        rank == priority_rank(priority@),
{
    if same(priority, "P0") {
        0
    } else if same(priority, "P1") {
        1
    } else if same(priority, "P2") {
        2
    } else if same(priority, "P3") {
        3
    } else {
        4
    }
}

fn text_comes_first(a: &str, b: &str) -> (r: bool)
    ensures
        r == text_le(a@, b@),
{
    let x = chars_of(a);
    let y = chars_of(b);
    let mut i: usize = 0;
    assert(a@.skip(0) =~= a@ && b@.skip(0) =~= b@);
    while i < x.len() && i < y.len() && x[i] == y[i]
        invariant
            i <= x.len(),
            i <= y.len(),
            x@ == a@,
            y@ == b@,
            text_le(a@, b@) == text_le(a@.skip(i as int), b@.skip(i as int)),
        decreases x.len() - i,
    {
        assert(a@.skip(i as int).drop_first() =~= a@.skip(i + 1));
        assert(b@.skip(i as int).drop_first() =~= b@.skip(i + 1));
        i += 1;
    }
    if i >= x.len() {
        true
    } else if i >= y.len() {
        false
    } else {
        (x[i] as u32) < (y[i] as u32)
    }
}

/// Whether the bead `a` is to be worked on no later than the bead `b`.
pub fn works_first(a: &BeadInfo, b: &BeadInfo) -> (r: bool)
    ensures
        r == comes_first(a@, b@),
{
    let x = rank_of(a.priority.as_str());
    let y = rank_of(b.priority.as_str());
    x < y || (x == y && text_comes_first(a.id.as_str(), b.id.as_str()))
}

/// The statuses that a bead can be given.
pub open spec fn is_status(status: Seq<char>) -> bool {
    status == "open"@ || status == "in_progress"@ || status == "blocked"@ || status == "closed"@
}

/// Whether `status` is one of `open`, `in_progress`, `blocked`, `closed`.
pub fn valid_status(status: &str) -> (r: bool)
    ensures
        r == is_status(status@),
{
    same(status, "open") || same(status, "in_progress") || same(status, "blocked") || same(
        status,
        "closed",
    )
}

/// Why the tracker could not be asked, or what it turned down.
#[derive(Debug, PartialEq, Eq)]
pub enum BeadsError {
    /// The database failed; the text is its message.
    Database(String),
    /// There is no tracker database at this path.
    DatabaseNotFound(String),
    /// The tracker has no bead of this name.
    BeadNotFound(String),
    /// This is no status that a bead can be given.
    InvalidStatus(String),
}

/// What a [`BeadsError`] holds, as mathematical values.
pub enum BeadsErrorView {
    Database(Seq<char>),
    DatabaseNotFound(Seq<char>),
    BeadNotFound(Seq<char>),
    InvalidStatus(Seq<char>),
}

impl View for BeadsError {
    type V = BeadsErrorView;

    open spec fn view(&self) -> BeadsErrorView {
        match self {
            BeadsError::Database(m) => BeadsErrorView::Database(m@),
            BeadsError::DatabaseNotFound(m) => BeadsErrorView::DatabaseNotFound(m@),
            BeadsError::BeadNotFound(m) => BeadsErrorView::BeadNotFound(m@),
            BeadsError::InvalidStatus(m) => BeadsErrorView::InvalidStatus(m@),
        }
    }
}

impl DeepView for BeadsError {
    type V = BeadsErrorView;

    open spec fn deep_view(&self) -> BeadsErrorView {
        self@
    }
}

/// The message of an error.
pub open spec fn error_message(error: BeadsErrorView) -> Seq<char> {
    match error {
        BeadsErrorView::Database(m) => "Database error: "@ + m,
        BeadsErrorView::DatabaseNotFound(m) => "Beads database not found at path: "@ + m,
        BeadsErrorView::BeadNotFound(m) => "Bead not found: "@ + m,
        BeadsErrorView::InvalidStatus(m) => "Invalid status: "@ + m,
    }
}

impl BeadsError {
    /// The message of the error.
    pub fn message(&self) -> (text: String)
        ensures
            text@ == error_message(self@),
    {
        match self {
            BeadsError::Database(m) => String::from_str("Database error: ").concat(m.as_str()),
            BeadsError::DatabaseNotFound(m) => String::from_str(
                "Beads database not found at path: ",
            ).concat(m.as_str()),
            BeadsError::BeadNotFound(m) => String::from_str("Bead not found: ").concat(m.as_str()),
            BeadsError::InvalidStatus(m) => String::from_str("Invalid status: ").concat(
                m.as_str(),
            ),
        }
    }
}

/// The query for the beads that are ready: open, and not held up by a bead
/// that is neither done nor closed; by priority, then by identifier.
pub const READY_BEADS_SQL: &'static str =
    "SELECT i.id, i.title, i.description, i.priority, i.status FROM issues i WHERE i.status = 'open' AND NOT EXISTS (SELECT 1 FROM dependencies d JOIN issues blocker ON d.blocks_id = blocker.id WHERE d.issue_id = i.id AND blocker.status != 'done' AND blocker.status != 'closed') ORDER BY CASE i.priority WHEN 'P0' THEN 0 WHEN 'P1' THEN 1 WHEN 'P2' THEN 2 WHEN 'P3' THEN 3 ELSE 4 END, i.id";

/// The query that finds a bead only where it is ready.
pub const READY_BEAD_SQL: &'static str =
    "SELECT i.id FROM issues i WHERE i.id = ?1 AND i.status = 'open' AND NOT EXISTS (SELECT 1 FROM dependencies d JOIN issues blocker ON d.blocks_id = blocker.id WHERE d.issue_id = i.id AND blocker.status != 'done' AND blocker.status != 'closed')";

/// The query for one bead.
pub const BEAD_SQL: &'static str =
    "SELECT id, title, description, priority, status FROM issues WHERE id = ?1";

/// The statement that sets the status of a bead.
pub const UPDATE_STATUS_SQL: &'static str = "UPDATE issues SET status = ?1 WHERE id = ?2";

/// Where the tracker's database lies in a workspace.
pub open spec fn beads_db_path(workspace_root: Seq<char>) -> Seq<char> {
    path_in(path_in(workspace_root, ".beads"@), "beads.db"@)
}

/// The bead that a row of the tracker holds: its identifier, title,
/// description, priority and status, each a text, the description possibly
/// null. `None` for a row of another shape.
pub open spec fn bead_of(row: Seq<ValueView>) -> Option<BeadInfoView> {
    if row.len() == 5 && text_in(row[0]) is Some && text_in(row[1]) is Some && optional_text_in(
        row[2],
    ) is Some && text_in(row[3]) is Some && text_in(row[4]) is Some {
        Some(
            BeadInfoView {
                id: text_in(row[0])->0,
                title: text_in(row[1])->0,
                description: optional_text_in(row[2])->0,
                priority: text_in(row[3])->0,
                status: text_in(row[4])->0,
            },
        )
    } else {
        None
    }
}

/// The beads that `rows` hold, in their order, if each row holds one.
pub open spec fn beads_of(rows: Seq<Seq<ValueView>>) -> Option<Seq<BeadInfoView>> {
    if forall|i: int| 0 <= i < rows.len() ==> (#[trigger] bead_of(rows[i])) is Some {
        Some(Seq::new(rows.len(), |i: int| bead_of(rows[i])->0))
    } else {
        None
    }
}

/// The text of the error for a row that holds no bead.
pub open spec fn bad_row_text() -> Seq<char> {
    "row does not hold a bead"@
}

fn text_of(value: &Value) -> (r: Option<String>)
    ensures
        r.deep_view() == text_in(value@),
{
    match value {
        Value::Text(s) => Some(s.clone()),
        _ => None,
    }
}

/// The bead that `row` holds, if it holds one.
pub fn decode_bead(row: &Vec<Value>) -> (r: Option<BeadInfo>)
    ensures
        r.deep_view() == bead_of(row.deep_view()),
{
    let ghost view = row.deep_view();
    if row.len() != 5 {
        return None;
    }
    assert(view[0] == row[0]@ && view[1] == row[1]@ && view[2] == row[2]@ && view[3] == row[3]@
        && view[4] == row[4]@);
    let description = match &row[2] {
        Value::Text(s) => Some(s.clone()),
        Value::Null => None,
        _ => {
            return None;
        },
    };
    match (text_of(&row[0]), text_of(&row[1]), text_of(&row[3]), text_of(&row[4])) {
        (Some(id), Some(title), Some(priority), Some(status)) => Some(
            BeadInfo { id, title, description, priority, status },
        ),
        _ => None,
    }
}

/// The beads that `rows` hold, in their order, if each row holds one.
pub fn decode_beads(rows: &Vec<Vec<Value>>) -> (r: Option<Vec<BeadInfo>>)
    ensures
        r.deep_view() == beads_of(rows.deep_view()),
{
    let ghost view = rows.deep_view();
    let mut out: Vec<BeadInfo> = Vec::new();
    let mut i: usize = 0;
    while i < rows.len()
        invariant
            i <= rows.len(),
            view == rows.deep_view(),
            out.len() == i,
            forall|j: int| 0 <= j < i ==> (#[trigger] bead_of(view[j])) == Some(out[j]@),
        decreases rows.len() - i,
    {
        assert(view[i as int] == rows[i as int].deep_view());
        match decode_bead(&rows[i]) {
            Some(bead) => {
                out.push(bead);
            },
            None => {
                assert(bead_of(view[i as int]) is None);
                return None;
            },
        }
        i += 1;
    }
    assert(out.deep_view() =~= Seq::new(view.len(), |i: int| bead_of(view[i])->0));
    Some(out)
}

/// What opening the tracker's database comes to: the statement that looks
/// for its file, or the error for a workspace without one; `None` once the
/// file is known to be there.
pub open spec fn locate_plan<V>(workspace_root: Seq<char>, answers: Seq<AnswerView>) -> Option<
    PendingView<V, BeadsErrorView>,
> {
    let path = beads_db_path(workspace_root);
    if answers.len() == 0 {
        Some(PendingView::Run(StatementView::Locate { path }))
    } else {
        match answers[0] {
            AnswerView::Found(true) => None,
            AnswerView::Found(false) => Some(
                PendingView::Return(Err(BeadsErrorView::DatabaseNotFound(path))),
            ),
            other => Some(PendingView::Return(Err(BeadsErrorView::Database(failure_text(other))))),
        }
    }
}

fn locate<T: DeepView>(workspace_root: &str, answers: &Vec<Answer>) -> (r: Option<
    Pending<T, BeadsError>,
>)
    ensures
        r.deep_view() == locate_plan::<T::V>(workspace_root@, answers.deep_view()),
        r is None ==> answers.len() >= 1,
{
    let path = join_path(join_path(workspace_root, ".beads").as_str(), "beads.db");
    if answers.len() == 0 {
        return Some(Pending::Run(Statement::Locate { path }));
    }
    assert(answers.deep_view()[0] == answers[0]@);
    match &answers[0] {
        Answer::Found(true) => None,
        Answer::Found(false) => Some(Pending::Return(Err(BeadsError::DatabaseNotFound(path)))),
        other => Some(Pending::Return(Err(BeadsError::Database(failure_of(other))))),
    }
}

/// What asking for the ready beads does next, given the answers so far:
/// the tracker's database must be there; then its ready beads are queried
/// and decoded.
pub open spec fn get_ready_beads_plan(workspace_root: Seq<char>, answers: Seq<AnswerView>) -> PendingView<
    Seq<BeadInfoView>,
    BeadsErrorView,
> {
    match locate_plan(workspace_root, answers) {
        Some(p) => p,
        None => {
            if answers.len() == 1 {
                PendingView::Run(
                    StatementView::Query { sql: READY_BEADS_SQL@, params: Seq::empty() },
                )
            } else {
                match answers[1] {
                    AnswerView::Rows(rows) => match beads_of(rows) {
                        Some(beads) => PendingView::Return(Ok(beads)),
                        None => PendingView::Return(Err(BeadsErrorView::Database(bad_row_text()))),
                    },
                    other => PendingView::Return(
                        Err(BeadsErrorView::Database(failure_text(other))),
                    ),
                }
            }
        },
    }
}

/// The beads that are ready to be worked on: open, and held up by no bead
/// that is still unfinished; by priority, then by identifier. Returns the
/// next statement, or the result. `answers` holds the answers to the
/// statements run so far, in order.
pub fn get_ready_beads(workspace_root: &str, answers: &Vec<Answer>) -> (p: Pending<
    Vec<BeadInfo>,
    BeadsError,
>)
    ensures
        p.deep_view() == get_ready_beads_plan(workspace_root@, answers.deep_view()),
{
    match locate(workspace_root, answers) {
        Some(p) => {
            return p;
        },
        None => {},
    }
    if answers.len() == 1 {
        return Pending::Run(
            Statement::Query { sql: String::from_str(READY_BEADS_SQL), params: no_params() },
        );
    }
    assert(answers.deep_view()[1] == answers[1]@);
    match &answers[1] {
        Answer::Rows(rows) => match decode_beads(rows) {
            Some(beads) => Pending::Return(Ok(beads)),
            None => Pending::Return(
                Err(BeadsError::Database(String::from_str("row does not hold a bead"))),
            ),
        },
        other => Pending::Return(Err(BeadsError::Database(failure_of(other)))),
    }
}

/// What asking for the bead `bead_id` does next, given the answers so far:
/// the tracker's database must be there; then the bead is queried. No row
/// means `BeadNotFound`.
pub open spec fn get_bead_plan(
    workspace_root: Seq<char>,
    bead_id: Seq<char>,
    answers: Seq<AnswerView>,
) -> PendingView<BeadInfoView, BeadsErrorView> {
    match locate_plan(workspace_root, answers) {
        Some(p) => p,
        None => {
            if answers.len() == 1 {
                PendingView::Run(
                    StatementView::Query { sql: BEAD_SQL@, params: seq![ValueView::Text(bead_id)] },
                )
            } else {
                match answers[1] {
                    AnswerView::Rows(rows) => if rows.len() == 0 {
                        PendingView::Return(Err(BeadsErrorView::BeadNotFound(bead_id)))
                    } else {
                        match bead_of(rows[0]) {
                            Some(bead) => PendingView::Return(Ok(bead)),
                            None => PendingView::Return(
                                Err(BeadsErrorView::Database(bad_row_text())),
                            ),
                        }
                    },
                    other => PendingView::Return(
                        Err(BeadsErrorView::Database(failure_text(other))),
                    ),
                }
            }
        },
    }
}

/// The bead `bead_id` as the tracker holds it: returns the next statement,
/// or the result. `answers` holds the answers to the statements run so far,
/// in order.
pub fn get_bead(workspace_root: &str, bead_id: &str, answers: &Vec<Answer>) -> (p: Pending<
    BeadInfo,
    BeadsError,
>)
    ensures
        p.deep_view() == get_bead_plan(workspace_root@, bead_id@, answers.deep_view()),
{
    match locate(workspace_root, answers) {
        Some(p) => {
            return p;
        },
        None => {},
    }
    if answers.len() == 1 {
        return Pending::Run(
            Statement::Query { sql: String::from_str(BEAD_SQL), params: params1(bead_id) },
        );
    }
    assert(answers.deep_view()[1] == answers[1]@);
    match &answers[1] {
        Answer::Rows(rows) => {
            if rows.len() == 0 {
                return Pending::Return(Err(BeadsError::BeadNotFound(bead_id.to_string())));
            }
            assert(rows.deep_view()[0] == rows[0].deep_view());
            match decode_bead(&rows[0]) {
                Some(bead) => Pending::Return(Ok(bead)),
                None => Pending::Return(
                    Err(BeadsError::Database(String::from_str("row does not hold a bead"))),
                ),
            }
        },
        other => Pending::Return(Err(BeadsError::Database(failure_of(other)))),
    }
}

/// What asking whether the bead `bead_id` is ready does next, given the
/// answers so far: the tracker's database must be there; then the bead is
/// looked for among the ready ones.
pub open spec fn is_bead_ready_plan(
    workspace_root: Seq<char>,
    bead_id: Seq<char>,
    answers: Seq<AnswerView>,
) -> PendingView<bool, BeadsErrorView> {
    match locate_plan(workspace_root, answers) {
        Some(p) => p,
        None => {
            if answers.len() == 1 {
                PendingView::Run(
                    StatementView::Query {
                        sql: READY_BEAD_SQL@,
                        params: seq![ValueView::Text(bead_id)],
                    },
                )
            } else {
                match answers[1] {
                    AnswerView::Rows(rows) => PendingView::Return(Ok(rows.len() > 0)),
                    other => PendingView::Return(
                        Err(BeadsErrorView::Database(failure_text(other))),
                    ),
                }
            }
        },
    }
}

/// Whether the bead `bead_id` is ready: open, and held up by no bead that
/// is still unfinished. Returns the next statement, or the answer.
/// `answers` holds the answers to the statements run so far, in order.
pub fn is_bead_ready(workspace_root: &str, bead_id: &str, answers: &Vec<Answer>) -> (p: Pending<
    bool,
    BeadsError,
>)
    ensures
        p.deep_view() == is_bead_ready_plan(workspace_root@, bead_id@, answers.deep_view()),
{
    match locate(workspace_root, answers) {
        Some(p) => {
            return p;
        },
        None => {},
    }
    if answers.len() == 1 {
        return Pending::Run(
            Statement::Query { sql: String::from_str(READY_BEAD_SQL), params: params1(bead_id) },
        );
    }
    assert(answers.deep_view()[1] == answers[1]@);
    match &answers[1] {
        Answer::Rows(rows) => Pending::Return(Ok(rows.len() > 0)),
        other => Pending::Return(Err(BeadsError::Database(failure_of(other)))),
    }
}

/// What setting the status of the bead `bead_id` does next, given the
/// answers so far.
///
/// A status that is none of `open`, `in_progress`, `blocked` and `closed`
/// is turned down as `InvalidStatus` before the database is touched. Then
/// the tracker's database must be there, and the bead is updated: where no
/// row changes, the bead is not there, and the result is `BeadNotFound`.
pub open spec fn update_bead_status_plan(
    workspace_root: Seq<char>,
    bead_id: Seq<char>,
    status: Seq<char>,
    answers: Seq<AnswerView>,
) -> PendingView<(), BeadsErrorView> {
    if !is_status(status) {
        PendingView::Return(Err(BeadsErrorView::InvalidStatus(status)))
    } else {
        match locate_plan(workspace_root, answers) {
            Some(p) => p,
            None => {
                if answers.len() == 1 {
                    PendingView::Run(
                        StatementView::Execute {
                            sql: UPDATE_STATUS_SQL@,
                            params: seq![ValueView::Text(status), ValueView::Text(bead_id)],
                        },
                    )
                } else {
                    match answers[1] {
                        AnswerView::Changed(n) => if n == 0 {
                            PendingView::Return(Err(BeadsErrorView::BeadNotFound(bead_id)))
                        } else {
                            PendingView::Return(Ok(()))
                        },
                        other => PendingView::Return(
                            Err(BeadsErrorView::Database(failure_text(other))),
                        ),
                    }
                }
            },
        }
    }
}

/// Sets the status of the bead `bead_id`: returns the next statement, or
/// the result. `answers` holds the answers to the statements run so far, in
/// order.
pub fn update_bead_status(workspace_root: &str, bead_id: &str, status: &str, answers: &Vec<Answer>) -> (p:
    Pending<(), BeadsError>)
    ensures
        p.deep_view() == update_bead_status_plan(
            workspace_root@,
            bead_id@,
            status@,
            answers.deep_view(),
        ),
{
    if !valid_status(status) {
        return Pending::Return(Err(BeadsError::InvalidStatus(status.to_string())));
    }
    match locate(workspace_root, answers) {
        Some(p) => {
            return p;
        },
        None => {},
    }
    if answers.len() == 1 {
        return Pending::Run(
            Statement::Execute {
                sql: String::from_str(UPDATE_STATUS_SQL),
                params: params2(status, bead_id),
            },
        );
    }
    assert(answers.deep_view()[1] == answers[1]@);
    match &answers[1] {
        Answer::Changed(n) => {
            if *n == 0 {
                Pending::Return(Err(BeadsError::BeadNotFound(bead_id.to_string())))
            } else {
                Pending::Return(Ok(()))
            }
        },
        other => Pending::Return(Err(BeadsError::Database(failure_of(other)))),
    }
}

} // verus!
