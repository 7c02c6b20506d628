//! Searching the symbol index, and filling it.

use crate::claims::{StoreError, StoreErrorView};
use crate::db::{
    failure_of, failure_text, integer_in, optional_text_in, text_in, text_value, Answer,
    AnswerView, Pending, PendingView, Statement, StatementView, Value, ValueView,
};
use crate::indexer::types::{kind_name, language_name, ExtractedSymbol};
use crate::text::{
    after_text, joined, last_part, lowercase, lowercase_of, push_joined, replace_char, replaced,
};
use vstd::prelude::*;

verus! {

/// How many symbols a search shows where no number is named.
pub const DEFAULT_LIMIT: i32 = 50;

/// What is searched for.
#[derive(Debug, PartialEq, Eq)]
pub struct FindSymbolsInput {
    /// A pattern for the name, with `*` for any run of characters.
    pub pattern: Option<String>,
    pub kind: Option<String>,
    /// A pattern for the file, with `*` for any run of characters.
    pub file: Option<String>,
    pub language: Option<String>,
    pub limit: Option<i32>,
    /// A query for the full-text index.
    pub search: Option<String>,
    /// Whether the pattern is to be matched loosely.
    pub fuzzy: bool,
}

/// A symbol of the index.
#[derive(Debug, PartialEq, Eq)]
pub struct SymbolInfo {
    pub id: i64,
    pub file: String,
    pub fq_name: String,
    pub kind: String,
    pub span_start_line: i32,
    pub span_end_line: i32,
    pub line_count: i32,
    pub hash: String,
    pub docstring: Option<String>,
    pub language: Option<String>,
}

/// What a [`SymbolInfo`] holds, as mathematical values.
pub struct SymbolInfoView {
    pub id: int,
    pub file: Seq<char>,
    pub fq_name: Seq<char>,
    pub kind: Seq<char>,
    pub span_start_line: int,
    pub span_end_line: int,
    pub line_count: int,
    pub hash: Seq<char>,
    pub docstring: Option<Seq<char>>,
    pub language: Option<Seq<char>>,
}

impl View for SymbolInfo {
    type V = SymbolInfoView;

    open spec fn view(&self) -> SymbolInfoView {
        SymbolInfoView {
            id: self.id as int,
            file: self.file@,
            fq_name: self.fq_name@,
            kind: self.kind@,
            span_start_line: self.span_start_line as int,
            span_end_line: self.span_end_line as int,
            line_count: self.line_count as int,
            hash: self.hash@,
            docstring: self.docstring.deep_view(),
            language: self.language.deep_view(),
        }
    }
}

impl DeepView for SymbolInfo {
    type V = SymbolInfoView;

    open spec fn deep_view(&self) -> SymbolInfoView {
        self@
    }
}

/// What a search found.
#[derive(Debug, PartialEq, Eq)]
pub struct FindSymbolsOutput {
    pub symbols: Vec<SymbolInfo>,
    pub total_count: i32,
}

/// What a [`FindSymbolsOutput`] holds, as mathematical values.
pub struct FindSymbolsOutputView {
    pub symbols: Seq<SymbolInfoView>,
    pub total_count: int,
}

impl DeepView for FindSymbolsOutput {
    type V = FindSymbolsOutputView;

    open spec fn deep_view(&self) -> FindSymbolsOutputView {
        FindSymbolsOutputView {
            symbols: self.symbols.deep_view(),
            total_count: self.total_count as int,
        }
    }
}

/// The ways to search the index.
#[derive(Debug, Clone, Copy, PartialEq, Eq, Structural)]
pub enum SearchMode {
    /// By the full-text index.
    FullText,
    /// By likeness of the name to the pattern.
    Fuzzy,
    /// By patterns and exact values.
    Like,
}

/// How `input` is searched for: by full text where it holds a query; else
/// loosely where it asks for that and holds a pattern; else by its patterns
/// and values.
pub fn search_mode(input: &FindSymbolsInput) -> (mode: SearchMode)
    ensures
        mode == if input.search is Some {
            SearchMode::FullText
        } else if input.fuzzy && input.pattern is Some {
            SearchMode::Fuzzy
        } else {
            SearchMode::Like
        },
{
    if input.search.is_some() {
        SearchMode::FullText
    } else if input.fuzzy && input.pattern.is_some() {
        SearchMode::Fuzzy
    } else {
        SearchMode::Like
    }
}

/// A 32-bit number in `value`, if it holds one.
pub open spec fn small_integer_in(value: ValueView) -> Option<int> {
    match value {
        ValueView::Integer(n) => if i32::MIN <= n <= i32::MAX {
            Some(n)
        } else {
            None
        },
        _ => None,
    }
}

/// The symbol that a row of the index holds. `None` for a row of another
/// shape.
pub open spec fn symbol_of(row: Seq<ValueView>) -> Option<SymbolInfoView> {
    if row.len() == 10 && integer_in(row[0]) is Some && text_in(row[1]) is Some && text_in(row[2])
        is Some && text_in(row[3]) is Some && small_integer_in(row[4]) is Some
        && small_integer_in(row[5]) is Some && small_integer_in(row[6]) is Some && text_in(row[7])
        is Some && optional_text_in(row[8]) is Some && optional_text_in(row[9]) is Some {
        Some(
            SymbolInfoView {
                id: integer_in(row[0])->0,
                file: text_in(row[1])->0,
                fq_name: text_in(row[2])->0,
                kind: text_in(row[3])->0,
                span_start_line: small_integer_in(row[4])->0,
                span_end_line: small_integer_in(row[5])->0,
                line_count: small_integer_in(row[6])->0,
                hash: text_in(row[7])->0,
                docstring: optional_text_in(row[8])->0,
                language: optional_text_in(row[9])->0,
            },
        )
    } else {
        None
    }
}

/// The symbols that `rows` hold, in their order; rows of another shape are
/// left out.
pub open spec fn symbols_of(rows: Seq<Seq<ValueView>>) -> Seq<SymbolInfoView> {
    rows.filter_map(|row: Seq<ValueView>| symbol_of(row))
}

fn text_of(value: &Value) -> (r: Option<String>)
    ensures
        r.deep_view() == text_in(value@),
{
    match value {
        Value::Text(s) => Some(s.clone()),
        _ => None,
    }
}

fn optional_text_of(value: &Value) -> (r: Option<Option<String>>)
    ensures
        r.deep_view() == optional_text_in(value@),
{
    match value {
        Value::Text(s) => Some(Some(s.clone())),
        Value::Null => Some(None),
        _ => None,
    }
}

fn small_integer_of(value: &Value) -> (r: Option<i32>)
    ensures
        match r {
            Some(n) => small_integer_in(value@) == Some(n as int),
            None => small_integer_in(value@) is None,
        },
{
    match value {
        Value::Integer(n) => {
            if -2147483648 <= *n && *n <= 2147483647 {
                Some(*n as i32)
            } else {
                None
            }
        },
        _ => None,
    }
}

/// The symbol that `row` holds, if it holds one.
pub fn decode_symbol(row: &Vec<Value>) -> (r: Option<SymbolInfo>)
    ensures
        r.deep_view() == symbol_of(row.deep_view()),
{
    let ghost view = row.deep_view();
    if row.len() != 10 {
        return None;
    }
    assert(view[0] == row[0]@ && view[1] == row[1]@ && view[2] == row[2]@ && view[3] == row[3]@
        && view[4] == row[4]@ && view[5] == row[5]@ && view[6] == row[6]@ && view[7] == row[7]@
        && view[8] == row[8]@ && view[9] == row[9]@);
    let id = match &row[0] {
        Value::Integer(n) => *n,
        _ => {
            return None;
        },
    };
    match (text_of(&row[1]), text_of(&row[2]), text_of(&row[3]), text_of(&row[7])) {
        (Some(file), Some(fq_name), Some(kind), Some(hash)) => {
            match (
                small_integer_of(&row[4]),
                small_integer_of(&row[5]),
                small_integer_of(&row[6]),
                optional_text_of(&row[8]),
                optional_text_of(&row[9]),
            ) {
                (
                    Some(span_start_line),
                    Some(span_end_line),
                    Some(line_count),
                    Some(docstring),
                    Some(language),
                ) => Some(
                    SymbolInfo {
                        id,
                        file,
                        fq_name,
                        kind,
                        span_start_line,
                        span_end_line,
                        line_count,
                        hash,
                        docstring,
                        language,
                    },
                ),
                _ => None,
            }
        },
        _ => None,
    }
}

/// The symbols that `rows` hold, in their order; rows of another shape are
/// left out.
pub fn decode_symbols(rows: &Vec<Vec<Value>>) -> (out: Vec<SymbolInfo>)
    ensures
        out.deep_view() == symbols_of(rows.deep_view()),
{
    let ghost view = rows.deep_view();
    let ghost pick = |row: Seq<ValueView>| symbol_of(row);
    let mut out: Vec<SymbolInfo> = Vec::new();
    let mut i: usize = 0;
    assert(view.take(0) =~= Seq::<Seq<ValueView>>::empty());
    assert(out.deep_view() =~= view.take(0).filter_map(pick));
    while i < rows.len()
        invariant
            i <= rows.len(),
            view == rows.deep_view(),
            pick == |row: Seq<ValueView>| symbol_of(row),
            out.deep_view() == view.take(i as int).filter_map(pick),
        decreases rows.len() - i,
    {
        let ghost before = out.deep_view();
        assert(view[i as int] == rows[i as int].deep_view());
        assert(view.take(i + 1).drop_last() =~= view.take(i as int));
        assert(view.take(i + 1).last() == view[i as int]);
        match decode_symbol(&rows[i]) {
            Some(symbol) => {
                let ghost added = symbol@;
                out.push(symbol);
                assert(out.deep_view() =~= before + seq![added]);
            },
            None => {},
        }
        i += 1;
    }
    assert(view.take(rows.len() as int) =~= view);
    out
}

/// The columns of a symbol, as every search reads them.
pub open spec fn select_text() -> Seq<char> {
    "SELECT id, file, fq_name, kind, span_start_line, span_end_line, line_count, hash, docstring, language FROM symbols "@
}

/// The conditions that `input` puts on a symbol, each with its parameter:
/// the patterns for name and file are matched with `*` for any run of
/// characters; kind and language must be the same.
pub open spec fn conditions_of(input: FindSymbolsInput) -> Seq<(Seq<char>, ValueView)> {
    (match input.pattern {
        Some(p) => seq![("fq_name LIKE ?"@, ValueView::Text(replaced(p@, '*', '%')))],
        None => Seq::empty(),
    }) + (match input.kind {
        Some(k) => seq![("kind = ?"@, ValueView::Text(k@))],
        None => Seq::empty(),
    }) + (match input.file {
        Some(f) => seq![("file LIKE ?"@, ValueView::Text(replaced(f@, '*', '%')))],
        None => Seq::empty(),
    }) + (match input.language {
        Some(l) => seq![("language = ?"@, ValueView::Text(l@))],
        None => Seq::empty(),
    })
}

/// The texts of `conditions`.
pub open spec fn texts_of(conditions: Seq<(Seq<char>, ValueView)>) -> Seq<Seq<char>> {
    Seq::new(conditions.len(), |i: int| conditions[i].0)
}

/// The parameters of `conditions`.
pub open spec fn params_of(conditions: Seq<(Seq<char>, ValueView)>) -> Seq<ValueView> {
    Seq::new(conditions.len(), |i: int| conditions[i].1)
}

/// The clause that holds a symbol to `conditions`: empty where there is
/// none.
pub open spec fn where_clause(conditions: Seq<Seq<char>>) -> Seq<char> {
    if conditions.len() == 0 {
        Seq::empty()
    } else {
        "WHERE "@ + joined(conditions, " AND "@)
    }
}

/// The limit of `input`, or the default of 50.
pub open spec fn limit_of(input: FindSymbolsInput) -> int {
    match input.limit {
        Some(n) => n as int,
        None => 50,
    }
}

/// The count that `answer` holds: one row with one 32-bit number.
pub open spec fn count_in(answer: AnswerView) -> Option<int> {
    match answer {
        AnswerView::Rows(rows) => if rows.len() >= 1 && rows[0].len() == 1 {
            small_integer_in(rows[0][0])
        } else {
            None
        },
        _ => None,
    }
}

/// The text of the error for an answer that holds no count.
pub open spec fn bad_count_text(answer: AnswerView) -> Seq<char> {
    match answer {
        AnswerView::Rows(_) => "row does not hold a count"@,
        other => failure_text(other),
    }
}

fn read_count(answer: &Answer) -> (r: Result<i32, String>)
    ensures
        match r {
            Ok(n) => count_in(answer@) == Some(n as int),
            Err(m) => count_in(answer@) is None && m@ == bad_count_text(answer@),
        },
{
    match answer {
        Answer::Rows(rows) => {
            if rows.len() >= 1 {
                assert(rows.deep_view()[0] == rows[0].deep_view());
                if rows[0].len() == 1 {
                    assert(rows[0].deep_view()[0] == rows[0][0]@);
                    match small_integer_of(&rows[0][0]) {
                        Some(n) => {
                            return Ok(n);
                        },
                        None => {},
                    }
                }
            }
            Err(String::from_str("row does not hold a count"))
        },
        other => Err(failure_of(other)),
    }
}

/// What a search by patterns and values does next, given the answers so
/// far: the symbols that meet the conditions are counted; then they are
/// queried, by file and then by line, up to the limit.
pub open spec fn find_symbols_plan(input: FindSymbolsInput, answers: Seq<AnswerView>) -> PendingView<
    FindSymbolsOutputView,
    StoreErrorView,
> {
    let conditions = conditions_of(input);
    let clause = where_clause(texts_of(conditions));
    if answers.len() == 0 {
        PendingView::Run(
            StatementView::Query {
                sql: "SELECT COUNT(*) FROM symbols "@ + clause,
                params: params_of(conditions),
            },
        )
    } else {
        match count_in(answers[0]) {
            None => PendingView::Return(
                Err(StoreErrorView::Database(bad_count_text(answers[0]))),
            ),
            Some(total) => {
                if answers.len() == 1 {
                    PendingView::Run(
                        StatementView::Query {
                            sql: select_text() + clause + " ORDER BY file, span_start_line LIMIT ?"@,
                            params: params_of(conditions).push(
                                ValueView::Integer(limit_of(input)),
                            ),
                        },
                    )
                } else {
                    match answers[1] {
                        AnswerView::Rows(rows) => PendingView::Return(
                            Ok(
                                FindSymbolsOutputView {
                                    symbols: symbols_of(rows),
                                    total_count: total,
                                },
                            ),
                        ),
                        other => PendingView::Return(
                            Err(StoreErrorView::Database(failure_text(other))),
                        ),
                    }
                }
            },
        }
    }
}

fn add_condition(
    texts: &mut Vec<String>,
    params: &mut Vec<Value>,
    Ghost(sofar): Ghost<Seq<(Seq<char>, ValueView)>>,
    text: &str,
    value: String,
)
    requires
        old(texts).deep_view() == texts_of(sofar),
        old(params).deep_view() == params_of(sofar),
    ensures
        final(texts).deep_view() == texts_of(sofar.push((text@, ValueView::Text(value@)))),
        final(params).deep_view() == params_of(sofar.push((text@, ValueView::Text(value@)))),
{
    let ghost added = (text@, ValueView::Text(value@));
    texts.push(text.to_string());
    params.push(Value::Text(value));
    assert(texts.deep_view() =~= old(texts).deep_view().push(added.0));
    assert(params.deep_view() =~= old(params).deep_view().push(added.1));
    assert(texts_of(sofar.push(added)) =~= texts_of(sofar).push(added.0));
    assert(params_of(sofar.push(added)) =~= params_of(sofar).push(added.1));
}

fn conditions(input: &FindSymbolsInput) -> (r: (Vec<String>, Vec<Value>))
    ensures
        r.0.deep_view() == texts_of(conditions_of(*input)),
        r.1.deep_view() == params_of(conditions_of(*input)),
{
    proof {
        reveal_strlit("%");
    }
    let mut texts: Vec<String> = Vec::new();
    let mut params: Vec<Value> = Vec::new();
    let ghost mut sofar: Seq<(Seq<char>, ValueView)> = Seq::empty();
    assert(texts.deep_view() =~= texts_of(sofar));
    assert(params.deep_view() =~= params_of(sofar));
    match &input.pattern {
        Some(p) => {
            let like = replace_char(p.as_str(), '*', "%");
            add_condition(&mut texts, &mut params, Ghost(sofar), "fq_name LIKE ?", like);
            proof {
                sofar = sofar.push(("fq_name LIKE ?"@, ValueView::Text(replaced(p@, '*', '%'))));
            }
        },
        None => {},
    }
    match &input.kind {
        Some(k) => {
            add_condition(&mut texts, &mut params, Ghost(sofar), "kind = ?", k.clone());
            proof {
                sofar = sofar.push(("kind = ?"@, ValueView::Text(k@)));
            }
        },
        None => {},
    }
    match &input.file {
        Some(f) => {
            let like = replace_char(f.as_str(), '*', "%");
            add_condition(&mut texts, &mut params, Ghost(sofar), "file LIKE ?", like);
            proof {
                sofar = sofar.push(("file LIKE ?"@, ValueView::Text(replaced(f@, '*', '%'))));
            }
        },
        None => {},
    }
    match &input.language {
        Some(l) => {
            add_condition(&mut texts, &mut params, Ghost(sofar), "language = ?", l.clone());
            proof {
                sofar = sofar.push(("language = ?"@, ValueView::Text(l@)));
            }
        },
        None => {},
    }
    assert(sofar =~= conditions_of(*input));
    (texts, params)
}

fn push_where(out: &mut String, texts: &Vec<String>)
    ensures
        final(out)@ == old(out)@ + where_clause(texts.deep_view()),
{
    if texts.len() > 0 {
        let ghost head = out@;
        out.append("WHERE ");
        push_joined(out, texts, " AND ");
        assert(out@ =~= head + where_clause(texts.deep_view()));
    } else {
        assert(texts.deep_view().len() == 0);
        assert(out@ =~= old(out)@ + Seq::<char>::empty());
    }
}

/// Searches the index by the patterns and values of `input`: returns the
/// next statement, or what was found. `answers` holds the answers to the
/// statements run so far, in order.
pub fn find_symbols(input: &FindSymbolsInput, answers: &Vec<Answer>) -> (p: Pending<
    FindSymbolsOutput,
    StoreError,
>)
    ensures
        p.deep_view() == find_symbols_plan(*input, answers.deep_view()),
{
    let ghost all = answers.deep_view();
    let (texts, params) = conditions(input);
    if answers.len() == 0 {
        let mut sql = String::from_str("SELECT COUNT(*) FROM symbols ");
        push_where(&mut sql, &texts);
        return Pending::Run(Statement::Query { sql, params });
    }
    assert(all[0] == answers[0]@);
    let total_count = match read_count(&answers[0]) {
        Ok(n) => n,
        Err(m) => {
            return Pending::Return(Err(StoreError::Database(m)));
        },
    };
    if answers.len() == 1 {
        let mut sql = String::from_str(
            "SELECT id, file, fq_name, kind, span_start_line, span_end_line, line_count, hash, docstring, language FROM symbols ",
        );
        push_where(&mut sql, &texts);
        sql.append(" ORDER BY file, span_start_line LIMIT ?");
        let limit: i32 = match input.limit {
            Some(n) => n,
            None => DEFAULT_LIMIT,
        };
        let ghost before = params.deep_view();
        let mut params = params;
        params.push(Value::Integer(limit as i64));
        assert(params.deep_view() =~= before.push(ValueView::Integer(limit as int)));
        return Pending::Run(Statement::Query { sql, params });
    }
    assert(all[1] == answers[1]@);
    match &answers[1] {
        Answer::Rows(rows) => Pending::Return(
            Ok(FindSymbolsOutput { symbols: decode_symbols(rows), total_count }),
        ),
        other => Pending::Return(Err(StoreError::Database(failure_of(other)))),
    }
}

/// The query of a search by full text, the best matches first.
pub const FTS_SQL: &'static str =
    "SELECT s.id, s.file, s.fq_name, s.kind, s.span_start_line, s.span_end_line, s.line_count, s.hash, s.docstring, s.language FROM symbols_fts JOIN symbols s ON symbols_fts.rowid = s.id WHERE symbols_fts MATCH ?1 ORDER BY bm25(symbols_fts) LIMIT ?2";

/// The query that counts the matches of a search by full text.
pub const FTS_COUNT_SQL: &'static str =
    "SELECT COUNT(*) FROM symbols_fts WHERE symbols_fts MATCH ?1";

/// The number of symbols as a 32-bit number, the largest such number for
/// more.
pub open spec fn count_of(symbols: int) -> int {
    if symbols > i32::MAX {
        i32::MAX as int
    } else {
        symbols
    }
}

/// What a search by full text does next, given the answers so far: the
/// best matches are queried up to the limit; then all matches are counted.
/// Where they cannot be counted, the count is the number of symbols found.
pub open spec fn search_symbols_fts_plan(query: Seq<char>, limit: int, answers: Seq<AnswerView>) -> PendingView<
    FindSymbolsOutputView,
    StoreErrorView,
> {
    if answers.len() == 0 {
        PendingView::Run(
            StatementView::Query {
                sql: FTS_SQL@,
                params: seq![ValueView::Text(query), ValueView::Integer(limit)],
            },
        )
    } else {
        match answers[0] {
            AnswerView::Rows(rows) => {
                if answers.len() == 1 {
                    PendingView::Run(
                        StatementView::Query {
                            sql: FTS_COUNT_SQL@,
                            params: seq![ValueView::Text(query)],
                        },
                    )
                } else {
                    PendingView::Return(
                        Ok(
                            FindSymbolsOutputView {
                                symbols: symbols_of(rows),
                                total_count: match count_in(answers[1]) {
                                    Some(n) => n,
                                    None => count_of(symbols_of(rows).len() as int),
                                },
                            },
                        ),
                    )
                }
            },
            other => PendingView::Return(Err(StoreErrorView::Database(failure_text(other)))),
        }
    }
}

/// Searches the full-text index for `query`: returns the next statement,
/// or what was found. `answers` holds the answers to the statements run so
/// far, in order.
pub fn search_symbols_fts(query: &str, limit: i32, answers: &Vec<Answer>) -> (p: Pending<
    FindSymbolsOutput,
    StoreError,
>)
    ensures
        p.deep_view() == search_symbols_fts_plan(query@, limit as int, answers.deep_view()),
{
    let ghost all = answers.deep_view();
    if answers.len() == 0 {
        let mut params: Vec<Value> = Vec::new();
        params.push(text_value(query));
        params.push(Value::Integer(limit as i64));
        assert(params.deep_view() =~= seq![
            ValueView::Text(query@),
            ValueView::Integer(limit as int),
        ]);
        return Pending::Run(Statement::Query { sql: String::from_str(FTS_SQL), params });
    }
    assert(all[0] == answers[0]@);
    match &answers[0] {
        Answer::Rows(rows) => {
            if answers.len() == 1 {
                return Pending::Run(
                    Statement::Query {
                        sql: String::from_str(FTS_COUNT_SQL),
                        params: crate::db::params1(query),
                    },
                );
            }
            assert(all[1] == answers[1]@);
            let symbols = decode_symbols(rows);
            let total_count: i32 = match read_count(&answers[1]) {
                Ok(n) => n,
                Err(_) => {
                    assert(symbols.deep_view().len() == symbols.len());
                    if symbols.len() > 2147483647 {
                        2147483647
                    } else {
                        symbols.len() as i32
                    }
                },
            };
            Pending::Return(Ok(FindSymbolsOutput { symbols, total_count }))
        },
        other => Pending::Return(Err(StoreError::Database(failure_of(other)))),
    }
}

/// The query for the symbols that may be like a pattern.
pub const FUZZY_SQL: &'static str =
    "SELECT id, file, fq_name, kind, span_start_line, span_end_line, line_count, hash, docstring, language FROM symbols WHERE LOWER(fq_name) LIKE ?1 OR LOWER(fq_name) LIKE ?2";

/// The pattern for the names that begin as `lower` does: its first
/// character, or an underscore where it is empty, and then anything.
pub open spec fn prefix_pattern(lower: Seq<char>) -> Seq<char> {
    if lower.len() == 0 {
        "_%"@
    } else {
        lower.take(1) + "%"@
    }
}

/// The pattern for the names that hold `lower` anywhere.
pub open spec fn contains_pattern(lower: Seq<char>) -> Seq<char> {
    "%"@ + lower + "%"@
}

/// The two patterns by which the symbols that may be like the lowercase
/// text `lower` are picked: those that begin with its first character, and
/// those that hold it.
pub fn fuzzy_patterns(lower: &str) -> (patterns: (String, String))
    ensures
        patterns.0@ == prefix_pattern(lower@),
        patterns.1@ == contains_pattern(lower@),
{
    let prefix = if lower.unicode_len() == 0 {
        String::from_str("_%")
    } else {
        let first = lower.substring_char(0, 1);
        assert(first@ =~= lower@.take(1));
        String::from_str(first).concat("%")
    };
    let contains = String::from_str("%").concat(lower).concat("%");
    (prefix, contains)
}

/// What picking the symbols that may be like `query` does next, given the
/// answers so far: the symbols whose lowercase name begins with the first
/// character of the lowercase query, or holds the lowercase query, are
/// queried.
pub open spec fn fuzzy_candidates_plan(query: Seq<char>, answers: Seq<AnswerView>) -> PendingView<
    Seq<SymbolInfoView>,
    StoreErrorView,
> {
    let lower = lowercase_of(query);
    if answers.len() == 0 {
        PendingView::Run(
            StatementView::Query {
                sql: FUZZY_SQL@,
                params: seq![
                    ValueView::Text(prefix_pattern(lower)),
                    ValueView::Text(contains_pattern(lower)),
                ],
            },
        )
    } else {
        match answers[0] {
            AnswerView::Rows(rows) => PendingView::Return(Ok(symbols_of(rows))),
            other => PendingView::Return(Err(StoreErrorView::Database(failure_text(other)))),
        }
    }
}

/// Picks the symbols that may be like `query`, to be compared with it more
/// closely: returns the next statement, or the symbols. `answers` holds the
/// answers to the statements run so far, in order.
pub fn find_symbols_fuzzy(query: &str, answers: &Vec<Answer>) -> (p: Pending<
    Vec<SymbolInfo>,
    StoreError,
>)
    ensures
        p.deep_view() == fuzzy_candidates_plan(query@, answers.deep_view()),
{
    if answers.len() == 0 {
        let lower = lowercase(query);
        let patterns = fuzzy_patterns(lower.as_str());
        let mut params: Vec<Value> = Vec::new();
        params.push(Value::Text(patterns.0));
        params.push(Value::Text(patterns.1));
        assert(params.deep_view() =~= seq![
            ValueView::Text(prefix_pattern(lowercase_of(query@))),
            ValueView::Text(contains_pattern(lowercase_of(query@))),
        ]);
        return Pending::Run(Statement::Query { sql: String::from_str(FUZZY_SQL), params });
    }
    assert(answers.deep_view()[0] == answers[0]@);
    match &answers[0] {
        Answer::Rows(rows) => Pending::Return(Ok(decode_symbols(rows))),
        other => Pending::Return(Err(StoreError::Database(failure_of(other)))),
    }
}

/// The name of a symbol without what it lies in: what stands after the
/// last `::` of its full name.
pub fn symbol_name(fq_name: &str) -> (name: String)
    ensures
        name@ == last_part(fq_name@, "::"@),
{
    after_text(fq_name, "::")
}

/// What a loose search reports, given the symbols that were found like
/// enough, the most alike first: how many they are, and the first of them
/// up to the limit. A negative limit counts as none at all.
pub fn fuzzy_output(ranked: Vec<SymbolInfo>, limit: i32) -> (out: FindSymbolsOutput)
    ensures
        out.total_count == count_of(ranked@.len() as int),
        out.symbols@ == ranked@.take(
            if limit < 0 {
                0
            } else if limit <= ranked@.len() {
                limit as int
            } else {
                ranked@.len() as int
            },
        ),
{
    let total_count: i32 = if ranked.len() > 2147483647 {
        2147483647
    } else {
        ranked.len() as i32
    };
    let mut symbols = ranked;
    let keep: usize = if limit < 0 {
        0
    } else if (limit as usize) < symbols.len() {
        limit as usize
    } else {
        symbols.len()
    };
    symbols.truncate(keep);
    FindSymbolsOutput { symbols, total_count }
}

/// The query that counts the symbols of the index.
pub const COUNT_SYMBOLS_SQL: &'static str = "SELECT COUNT(*) FROM symbols";

/// What counting the symbols of the index does next, given the answers so
/// far. An index that cannot be counted counts as empty.
pub open spec fn count_symbols_plan(answers: Seq<AnswerView>) -> PendingView<i32, StoreErrorView> {
    if answers.len() == 0 {
        PendingView::Run(StatementView::Query { sql: COUNT_SYMBOLS_SQL@, params: Seq::empty() })
    } else {
        PendingView::Return(
            Ok(
                match count_in(answers[0]) {
                    Some(n) => n as i32,
                    None => 0i32,
                },
            ),
        )
    }
}

/// Counts the symbols of the index: returns the next statement, or the
/// count. `answers` holds the answers to the statements run so far, in
/// order.
pub fn count_symbols(answers: &Vec<Answer>) -> (p: Pending<i32, StoreError>)
    ensures
        p.deep_view() == count_symbols_plan(answers.deep_view()),
{
    if answers.len() == 0 {
        return Pending::Run(
            Statement::Query {
                sql: String::from_str(COUNT_SYMBOLS_SQL),
                params: crate::db::no_params(),
            },
        );
    }
    assert(answers.deep_view()[0] == answers[0]@);
    match read_count(&answers[0]) {
        Ok(n) => Pending::Return(Ok(n)),
        Err(_) => Pending::Return(Ok(0)),
    }
}

/// The statement that records a symbol in the index.
pub const INSERT_SYMBOL_SQL: &'static str =
    "INSERT OR REPLACE INTO symbols (file, fq_name, kind, span_start_line, span_end_line, line_count, hash, docstring, language) VALUES (?1, ?2, ?3, ?4, ?5, ?6, ?7, ?8, ?9)";

/// The parameters that record `symbol`.
pub open spec fn symbol_params(symbol: ExtractedSymbol) -> Seq<ValueView> {
    seq![
        ValueView::Text(symbol.file@),
        ValueView::Text(symbol.fq_name@),
        ValueView::Text(kind_name(symbol.kind)),
        ValueView::Integer(symbol.span_start_line as int),
        ValueView::Integer(symbol.span_end_line as int),
        ValueView::Integer(symbol.line_count as int),
        ValueView::Text(symbol.hash@),
        match symbol.docstring {
            Some(d) => ValueView::Text(d@),
            None => ValueView::Null,
        },
        ValueView::Text(language_name(symbol.language)),
    ]
}

/// How `symbols` are recorded from position `k` on, given the answers since
/// then: one statement for each symbol, in order. The first statement that
/// fails ends the sequence with its error.
pub open spec fn store_symbols_plan(symbols: Seq<ExtractedSymbol>, k: nat, answers: Seq<AnswerView>) -> PendingView<
    (),
    StoreErrorView,
>
    decreases symbols.len() - k,
{
    if k >= symbols.len() {
        PendingView::Return(Ok(()))
    } else if answers.len() == 0 {
        PendingView::Run(
            StatementView::Execute {
                sql: INSERT_SYMBOL_SQL@,
                params: symbol_params(symbols[k as int]),
            },
        )
    } else if !(answers[0] is Changed) {
        PendingView::Return(Err(StoreErrorView::Database(failure_text(answers[0]))))
    } else {
        store_symbols_plan(symbols, k + 1, answers.skip(1))
    }
}

fn params_for(symbol: &ExtractedSymbol) -> (params: Vec<Value>)
    ensures
        params.deep_view() == symbol_params(*symbol),
{
    let mut params: Vec<Value> = Vec::new();
    params.push(text_value(symbol.file.as_str()));
    params.push(text_value(symbol.fq_name.as_str()));
    params.push(text_value(symbol.kind.as_str()));
    params.push(Value::Integer(symbol.span_start_line as i64));
    params.push(Value::Integer(symbol.span_end_line as i64));
    params.push(Value::Integer(symbol.line_count as i64));
    params.push(text_value(symbol.hash.as_str()));
    params.push(
        match &symbol.docstring {
            Some(d) => text_value(d.as_str()),
            None => Value::Null,
        },
    );
    params.push(text_value(symbol.language.as_str()));
    assert(params.deep_view() =~= symbol_params(*symbol));
    params
}

/// Records `symbols` in the index, replacing what the index holds under
/// their keys: returns the next statement, or the result. `answers` holds
/// the answers to the statements run so far, in order.
pub fn store_symbols(symbols: &Vec<ExtractedSymbol>, answers: &Vec<Answer>) -> (p: Pending<
    (),
    StoreError,
>)
    ensures
        p.deep_view() == store_symbols_plan(symbols@, 0, answers.deep_view()),
{
    let ghost all = answers.deep_view();
    let ghost goal = store_symbols_plan(symbols@, 0, all);
    let mut k: usize = 0;
    assert(all.skip(0) =~= all);
    while k < symbols.len()
        invariant
            k <= symbols.len(),
            k <= answers.len(),
            all == answers.deep_view(),
            goal == store_symbols_plan(symbols@, 0, all),
            goal == store_symbols_plan(symbols@, k as nat, all.skip(k as int)),
        decreases symbols.len() - k,
    {
        let ghost rest = all.skip(k as int);
        if k >= answers.len() {
            return Pending::Run(
                Statement::Execute {
                    sql: String::from_str(INSERT_SYMBOL_SQL),
                    params: params_for(&symbols[k]),
                },
            );
        }
        assert(rest[0] == answers[k as int]@);
        match &answers[k] {
            Answer::Changed(_) => {},
            other => {
                return Pending::Return(Err(StoreError::Database(failure_of(other))));
            },
        }
        assert(rest.skip(1) =~= all.skip(k + 1));
        k = k + 1;
    }
    Pending::Return(Ok(()))
}

} // verus!
