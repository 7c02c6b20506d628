//! The seam between the queries of this crate and the database engine.
//!
//! No function of this crate opens a database. Each query is a function
//! from the answers of the statements run so far to the next statement, or
//! to the query's result; the caller runs each [`Statement`] and appends
//! its [`Answer`].

pub mod claims;
pub mod connection;
pub mod migrations;

pub use connection::init_db;
pub use migrations::apply_migrations;

use vstd::prelude::*;

verus! {

/// A value of a column or of a parameter.
#[derive(Debug, PartialEq, Eq)]
pub enum Value {
    Null,
    Integer(i64),
    Text(String),
}

/// What a [`Value`] holds, as a mathematical value.
pub enum ValueView {
    Null,
    Integer(int),
    Text(Seq<char>),
}

impl View for Value {
    type V = ValueView;

    open spec fn view(&self) -> ValueView {
        match self {
            Value::Null => ValueView::Null,
            Value::Integer(n) => ValueView::Integer(*n as int),
            Value::Text(s) => ValueView::Text(s@),
        }
    }
}

impl DeepView for Value {
    type V = ValueView;

    open spec fn deep_view(&self) -> ValueView {
        self@
    }
}

impl Clone for Value {
    fn clone(&self) -> (r: Self)
        ensures
            r == *self,
    {
        match self {
            Value::Null => Value::Null,
            Value::Integer(n) => Value::Integer(*n),
            Value::Text(s) => Value::Text(s.clone()),
        }
    }
}

/// Something to ask of the database.
#[derive(Debug, PartialEq, Eq)]
pub enum Statement {
    /// Is there a database file at `path`? Answered by [`Answer::Found`].
    Locate { path: String },
    /// Run the statement `sql` with `params` bound to `?1`, `?2` and so on.
    /// Answered by [`Answer::Changed`] with the number of rows changed, or by
    /// [`Answer::Duplicate`] where a key that must be unique already exists.
    Execute { sql: String, params: Vec<Value> },
    /// Run the statements of `sql`, which take no parameters, one after the
    /// other. Answered by [`Answer::Changed`].
    Batch { sql: String },
    /// Run the query `sql` with `params`. Answered by [`Answer::Rows`].
    Query { sql: String, params: Vec<Value> },
}

/// What a [`Statement`] holds, as mathematical values.
pub enum StatementView {
    Locate { path: Seq<char> },
    Execute { sql: Seq<char>, params: Seq<ValueView> },
    Batch { sql: Seq<char> },
    Query { sql: Seq<char>, params: Seq<ValueView> },
}

impl View for Statement {
    type V = StatementView;

    open spec fn view(&self) -> StatementView {
        match self {
            Statement::Locate { path } => StatementView::Locate { path: path@ },
            Statement::Execute { sql, params } => StatementView::Execute {
                sql: sql@,
                params: params.deep_view(),
            },
            Statement::Batch { sql } => StatementView::Batch { sql: sql@ },
            Statement::Query { sql, params } => StatementView::Query {
                sql: sql@,
                params: params.deep_view(),
            },
        }
    }
}

/// What the database answered to a [`Statement`].
#[derive(Debug, PartialEq, Eq)]
pub enum Answer {
    /// Whether the database file is there.
    Found(bool),
    /// The statement ran; so many rows were changed.
    Changed(usize),
    /// The rows of the query, each with the values of its columns.
    Rows(Vec<Vec<Value>>),
    /// The statement was turned down: a key that must be unique is taken.
    Duplicate(String),
    /// The statement failed; the text is the error's message.
    Failed(String),
}

/// What an [`Answer`] holds, as mathematical values.
pub enum AnswerView {
    Found(bool),
    Changed(nat),
    Rows(Seq<Seq<ValueView>>),
    Duplicate(Seq<char>),
    Failed(Seq<char>),
}

impl View for Answer {
    type V = AnswerView;

    open spec fn view(&self) -> AnswerView {
        match self {
            Answer::Found(b) => AnswerView::Found(*b),
            Answer::Changed(n) => AnswerView::Changed(*n as nat),
            Answer::Rows(rows) => AnswerView::Rows(rows.deep_view()),
            Answer::Duplicate(m) => AnswerView::Duplicate(m@),
            Answer::Failed(m) => AnswerView::Failed(m@),
        }
    }
}

impl DeepView for Answer {
    type V = AnswerView;

    open spec fn deep_view(&self) -> AnswerView {
        self@
    }
}

/// Where a query stands: it needs a statement run, or it has its result.
#[derive(Debug, PartialEq, Eq)]
pub enum Pending<T, E> {
    /// The query needs this statement run and its answer appended.
    Run(Statement),
    /// The query has ended with this result.
    Return(Result<T, E>),
}

/// What a [`Pending`] holds, as mathematical values.
pub enum PendingView<V, W> {
    Run(StatementView),
    Return(Result<V, W>),
}

impl<T: DeepView, E: DeepView> DeepView for Pending<T, E> {
    type V = PendingView<T::V, E::V>;

    open spec fn deep_view(&self) -> PendingView<T::V, E::V> {
        match self {
            Pending::Run(s) => PendingView::Run(s@),
            Pending::Return(Ok(t)) => PendingView::Return(Ok(t.deep_view())),
            Pending::Return(Err(e)) => PendingView::Return(Err(e.deep_view())),
        }
    }
}

/// The text of the error for an answer that does not fit its statement.
pub open spec fn misfit_text() -> Seq<char> {
    "unexpected answer"@
}

/// The message with which `answer` stands for a failure: its own where it
/// is one, else the text for an answer that does not fit.
pub open spec fn failure_text(answer: AnswerView) -> Seq<char> {
    match answer {
        AnswerView::Failed(m) => m,
        AnswerView::Duplicate(m) => m,
        _ => misfit_text(),
    }
}

/// The message with which `answer` stands for a failure.
pub fn failure_of(answer: &Answer) -> (text: String)
    ensures
        text@ == failure_text(answer@),
{
    match answer {
        Answer::Failed(m) => m.clone(),
        Answer::Duplicate(m) => m.clone(),
        _ => String::from_str("unexpected answer"),
    }
}

/// The text value of a column.
pub fn text_value(s: &str) -> (v: Value)
    ensures
        v@ == ValueView::Text(s@),
{
    Value::Text(s.to_string())
}

/// The parameters of a statement that takes one text.
pub fn params1(a: &str) -> (v: Vec<Value>)
    ensures
        v.deep_view() == seq![ValueView::Text(a@)],
{
    let mut v: Vec<Value> = Vec::new();
    v.push(text_value(a));
    assert(v.deep_view() =~= seq![ValueView::Text(a@)]);
    v
}

/// The parameters of a statement that takes two texts.
pub fn params2(a: &str, b: &str) -> (v: Vec<Value>)
    ensures
        v.deep_view() == seq![ValueView::Text(a@), ValueView::Text(b@)],
{
    let mut v: Vec<Value> = Vec::new();
    v.push(text_value(a));
    v.push(text_value(b));
    assert(v.deep_view() =~= seq![ValueView::Text(a@), ValueView::Text(b@)]);
    v
}

/// The parameters of a statement that takes none.
pub fn no_params() -> (v: Vec<Value>)
    ensures
        v.deep_view() == Seq::<ValueView>::empty(),
{
    let v: Vec<Value> = Vec::new();
    assert(v.deep_view() =~= Seq::<ValueView>::empty());
    v
}

/// The text in `value`, if it holds one.
pub open spec fn text_in(value: ValueView) -> Option<Seq<char>> {
    match value {
        ValueView::Text(s) => Some(s),
        _ => None,
    }
}

/// The text in `value`, or nothing for a null: `None` where it holds
/// neither.
pub open spec fn optional_text_in(value: ValueView) -> Option<Option<Seq<char>>> {
    match value {
        ValueView::Text(s) => Some(Some(s)),
        ValueView::Null => Some(None),
        _ => None,
    }
}

/// The integer in `value`, if it holds one.
pub open spec fn integer_in(value: ValueView) -> Option<int> {
    match value {
        ValueView::Integer(n) => Some(n),
        _ => None,
    }
}

} // verus!
