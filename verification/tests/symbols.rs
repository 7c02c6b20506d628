use bacchus::claims::{Claim, StoreError};
use bacchus::db::connection::init_db;
use bacchus::db::{Answer, Pending, Statement, Value};
use bacchus::indexer::{ExtractedSymbol, Language, SymbolKind};
use bacchus::tools::status::{broken_claims, orphaned_worktrees};
use bacchus::tools::symbols::{
    count_symbols, decode_symbol, find_symbols, find_symbols_fuzzy, fuzzy_output,
    fuzzy_patterns, search_mode, search_symbols_fts, store_symbols, symbol_name,
    FindSymbolsInput, SearchMode, SymbolInfo,
};
use rusqlite::Connection;

fn to_sql(value: &Value) -> rusqlite::types::Value {
    match value {
        Value::Null => rusqlite::types::Value::Null,
        Value::Integer(n) => rusqlite::types::Value::Integer(*n),
        Value::Text(s) => rusqlite::types::Value::Text(s.clone()),
    }
}

fn from_sql(value: rusqlite::types::Value) -> Value {
    match value {
        rusqlite::types::Value::Integer(n) => Value::Integer(n),
        rusqlite::types::Value::Text(s) => Value::Text(s),
        _ => Value::Null,
    }
}

fn answer(conn: &Connection, statement: &Statement) -> Answer {
    match statement {
        Statement::Locate { .. } => Answer::Found(true),
        Statement::Batch { sql } => match conn.execute_batch(sql) {
            Ok(()) => Answer::Changed(0),
            Err(e) => Answer::Failed(e.to_string()),
        },
        Statement::Execute { sql, params } => {
            match conn.execute(sql, rusqlite::params_from_iter(params.iter().map(to_sql))) {
                Ok(n) => Answer::Changed(n),
                Err(e) => Answer::Failed(e.to_string()),
            }
        }
        Statement::Query { sql, params } => {
            let mut stmt = match conn.prepare(sql) {
                Ok(s) => s,
                Err(e) => return Answer::Failed(e.to_string()),
            };
            let columns = stmt.column_count();
            let mut rows = match stmt.query(rusqlite::params_from_iter(params.iter().map(to_sql))) {
                Ok(r) => r,
                Err(e) => return Answer::Failed(e.to_string()),
            };
            let mut out = Vec::new();
            loop {
                match rows.next() {
                    Ok(Some(row)) => {
                        let mut values = Vec::new();
                        for i in 0..columns {
                            values.push(from_sql(row.get(i).unwrap()));
                        }
                        out.push(values);
                    }
                    Ok(None) => break,
                    Err(e) => return Answer::Failed(e.to_string()),
                }
            }
            Answer::Rows(out)
        }
    }
}

fn run<T, E>(conn: &Connection, query: impl Fn(&Vec<Answer>) -> Pending<T, E>) -> Result<T, E> {
    let mut answers = Vec::new();
    loop {
        match query(&answers) {
            Pending::Run(statement) => answers.push(answer(conn, &statement)),
            Pending::Return(result) => return result,
        }
    }
}

fn symbol(file: &str, name: &str, kind: SymbolKind, line: u32, language: Language) -> ExtractedSymbol {
    ExtractedSymbol {
        file: file.to_string(),
        fq_name: format!("{}::{}", file, name),
        kind,
        span_start_line: line,
        span_end_line: line + 2,
        line_count: 3,
        hash: "h".to_string(),
        docstring: if line % 2 == 0 { Some("doc".to_string()) } else { None },
        language,
    }
}

fn setup() -> Connection {
    let conn = Connection::open_in_memory().unwrap();
    run(&conn, |a| init_db(a)).unwrap();
    let symbols = vec![
        symbol("src/user.ts", "User", SymbolKind::Class, 1, Language::TypeScript),
        symbol("src/user.ts", "UserService", SymbolKind::Class, 10, Language::TypeScript),
        symbol("src/user.ts", "greet", SymbolKind::Function, 20, Language::TypeScript),
        symbol("lib/util.py", "user_name", SymbolKind::Function, 5, Language::Python),
    ];
    run(&conn, |a| store_symbols(&symbols, a)).unwrap();
    conn
}

fn input() -> FindSymbolsInput {
    FindSymbolsInput {
        pattern: None,
        kind: None,
        file: None,
        language: None,
        limit: Some(10),
        search: None,
        fuzzy: false,
    }
}

#[test]
fn test_find_symbols_empty() {
    let conn = Connection::open_in_memory().unwrap();
    run(&conn, |a| init_db(a)).unwrap();

    let input = FindSymbolsInput {
        pattern: None,
        kind: None,
        file: None,
        language: None,
        limit: Some(10),
        search: None,
        fuzzy: false,
    };

    let result = run(&conn, |a| find_symbols(&input, a)).unwrap();
    assert_eq!(result.total_count, 0);
    assert!(result.symbols.is_empty());
}

#[test]
fn empty_index_counts_nothing() {
    let conn = Connection::open_in_memory().unwrap();
    run(&conn, |a| init_db(a)).unwrap();
    assert_eq!(run(&conn, |a| count_symbols(a)), Ok(0));
}

#[test]
fn symbols_are_found_by_pattern_kind_file_and_language() {
    let conn = setup();
    assert_eq!(run(&conn, |a| count_symbols(a)), Ok(4));
    let all = run(&conn, |a| find_symbols(&input(), a)).unwrap();
    assert_eq!(all.total_count, 4);
    let names: Vec<&str> = all.symbols.iter().map(|s| s.fq_name.as_str()).collect();
    assert_eq!(
        names,
        vec![
            "lib/util.py::user_name",
            "src/user.ts::User",
            "src/user.ts::UserService",
            "src/user.ts::greet"
        ]
    );
    assert_eq!(all.symbols[0].kind, "function");
    assert_eq!(all.symbols[0].language.as_deref(), Some("python"));
    assert_eq!(all.symbols[0].span_start_line, 5);
    assert_eq!(all.symbols[0].docstring, None);
    assert_eq!(all.symbols[1].line_count, 3);

    let by_pattern = FindSymbolsInput { pattern: Some("*::User*".to_string()), ..input() };
    // The database matches patterns without regard to case.
    let found = run(&conn, |a| find_symbols(&by_pattern, a)).unwrap();
    assert_eq!(found.total_count, 3);
    let by_kind = FindSymbolsInput {
        pattern: Some("*User*".to_string()),
        kind: Some("class".to_string()),
        file: Some("src/*".to_string()),
        language: Some("typescript".to_string()),
        limit: Some(1),
        ..input()
    };
    let found = run(&conn, |a| find_symbols(&by_kind, a)).unwrap();
    assert_eq!(found.total_count, 2);
    assert_eq!(found.symbols.len(), 1);
    assert_eq!(found.symbols[0].fq_name, "src/user.ts::User");
}

#[test]
fn search_builds_its_statements() {
    let by_kind = FindSymbolsInput {
        pattern: Some("User*".to_string()),
        kind: Some("class".to_string()),
        ..input()
    };
    assert_eq!(
        find_symbols(&by_kind, &Vec::new()),
        Pending::Run(Statement::Query {
            sql: "SELECT COUNT(*) FROM symbols WHERE fq_name LIKE ? AND kind = ?".to_string(),
            params: vec![Value::Text("User%".to_string()), Value::Text("class".to_string())],
        })
    );
    let counted = vec![Answer::Rows(vec![vec![Value::Integer(7)]])];
    assert_eq!(
        find_symbols(&FindSymbolsInput { limit: None, ..input() }, &counted),
        Pending::Run(Statement::Query {
            sql: "SELECT id, file, fq_name, kind, span_start_line, span_end_line, line_count, hash, docstring, language FROM symbols  ORDER BY file, span_start_line LIMIT ?".to_string(),
            params: vec![Value::Integer(50)],
        })
    );
    assert_eq!(
        find_symbols(&input(), &vec![Answer::Failed("locked".to_string())]),
        Pending::Return(Err(StoreError::Database("locked".to_string())))
    );
    assert_eq!(
        find_symbols(&input(), &vec![Answer::Rows(vec![])]),
        Pending::Return(Err(StoreError::Database("row does not hold a count".to_string())))
    );
}

#[test]
fn search_modes_are_told_apart() {
    assert_eq!(search_mode(&input()), SearchMode::Like);
    assert_eq!(search_mode(&FindSymbolsInput { fuzzy: true, ..input() }), SearchMode::Like);
    assert_eq!(
        search_mode(&FindSymbolsInput { fuzzy: true, pattern: Some("x".to_string()), ..input() }),
        SearchMode::Fuzzy
    );
    assert_eq!(
        search_mode(&FindSymbolsInput {
            fuzzy: true,
            pattern: Some("x".to_string()),
            search: Some("q".to_string()),
            ..input()
        }),
        SearchMode::FullText
    );
}

#[test]
fn full_text_search_counts_what_it_finds_when_it_cannot_count() {
    let row = vec![
        Value::Integer(1),
        Value::Text("f".to_string()),
        Value::Text("f::a".to_string()),
        Value::Text("function".to_string()),
        Value::Integer(1),
        Value::Integer(2),
        Value::Integer(2),
        Value::Text("h".to_string()),
        Value::Null,
        Value::Null,
    ];
    let found = vec![Answer::Rows(vec![row.clone(), vec![Value::Null], row.clone()])];
    assert!(matches!(search_symbols_fts("a", 5, &Vec::new()), Pending::Run(Statement::Query { .. })));
    assert!(matches!(search_symbols_fts("a", 5, &found), Pending::Run(Statement::Query { .. })));
    let mut uncounted = found.clone_answers();
    uncounted.push(Answer::Failed("no such table".to_string()));
    match search_symbols_fts("a", 5, &uncounted) {
        Pending::Return(Ok(out)) => {
            assert_eq!(out.symbols.len(), 2);
            assert_eq!(out.total_count, 2);
        }
        other => panic!("unexpected: {:?}", other),
    }
    let mut counted = found.clone_answers();
    counted.push(Answer::Rows(vec![vec![Value::Integer(9)]]));
    match search_symbols_fts("a", 5, &counted) {
        Pending::Return(Ok(out)) => assert_eq!(out.total_count, 9),
        other => panic!("unexpected: {:?}", other),
    }
    let conn = setup();
    assert!(matches!(
        run(&conn, |a| search_symbols_fts("user", 5, a)),
        Err(StoreError::Database(_))
    ));
    assert_eq!(decode_symbol(&row).unwrap().fq_name, "f::a");
    let mut wide = row.clone();
    wide[4] = Value::Integer(1 << 40);
    assert_eq!(decode_symbol(&wide), None);
}

trait CloneAnswers {
    fn clone_answers(&self) -> Vec<Answer>;
}

impl CloneAnswers for Vec<Answer> {
    fn clone_answers(&self) -> Vec<Answer> {
        self.iter()
            .map(|a| match a {
                Answer::Found(b) => Answer::Found(*b),
                Answer::Changed(n) => Answer::Changed(*n),
                Answer::Rows(rows) => Answer::Rows(
                    rows.iter().map(|r| r.iter().map(|v| v.clone()).collect()).collect(),
                ),
                Answer::Duplicate(m) => Answer::Duplicate(m.clone()),
                Answer::Failed(m) => Answer::Failed(m.clone()),
            })
            .collect()
    }
}

#[test]
fn loose_search_picks_candidates_by_prefix_and_content() {
    assert_eq!(fuzzy_patterns("user"), ("u%".to_string(), "%user%".to_string()));
    assert_eq!(fuzzy_patterns(""), ("_%".to_string(), "%%".to_string()));
    assert_eq!(fuzzy_patterns("ü"), ("ü%".to_string(), "%ü%".to_string()));
    assert_eq!(
        find_symbols_fuzzy("USER", &Vec::new()),
        Pending::Run(Statement::Query {
            sql: bacchus::tools::symbols::FUZZY_SQL.to_string(),
            params: vec![Value::Text("u%".to_string()), Value::Text("%user%".to_string())],
        })
    );
    let conn = setup();
    let candidates = run(&conn, |a| find_symbols_fuzzy("User", a)).unwrap();
    assert_eq!(candidates.len(), 4);
    let candidates = run(&conn, |a| find_symbols_fuzzy("gReEt", a)).unwrap();
    assert_eq!(candidates.len(), 1);
    assert_eq!(candidates[0].fq_name, "src/user.ts::greet");
    assert_eq!(symbol_name("src/user.ts::User"), "User");
    assert_eq!(symbol_name("a::b::c"), "c");
    assert_eq!(symbol_name("plain"), "plain");
    assert_eq!(symbol_name("a::"), "");
    assert_eq!(symbol_name(":::"), ":");
    assert_eq!(symbol_name(""), "");
}

fn info(id: i64) -> SymbolInfo {
    SymbolInfo {
        id,
        file: "f".to_string(),
        fq_name: format!("f::s{}", id),
        kind: "function".to_string(),
        span_start_line: 1,
        span_end_line: 1,
        line_count: 1,
        hash: "h".to_string(),
        docstring: None,
        language: None,
    }
}

#[test]
fn loose_search_reports_the_best_up_to_the_limit() {
    let out = fuzzy_output(vec![info(1), info(2), info(3)], 2);
    assert_eq!(out.total_count, 3);
    assert_eq!(out.symbols, vec![info(1), info(2)]);
    let out = fuzzy_output(vec![info(1)], 5);
    assert_eq!(out.total_count, 1);
    assert_eq!(out.symbols.len(), 1);
    let out = fuzzy_output(vec![info(1)], -1);
    assert_eq!(out.total_count, 1);
    assert!(out.symbols.is_empty());
    let out = fuzzy_output(vec![], 0);
    assert_eq!(out.total_count, 0);
}

#[test]
fn storing_stops_at_the_first_failure() {
    let symbols = vec![
        symbol("a.rs", "x", SymbolKind::Struct, 1, Language::Rust),
        symbol("a.rs", "y", SymbolKind::Impl, 4, Language::Rust),
    ];
    match store_symbols(&symbols, &Vec::new()) {
        Pending::Run(Statement::Execute { params, .. }) => {
            assert_eq!(params.len(), 9);
            assert_eq!(params[0], Value::Text("a.rs".to_string()));
            assert_eq!(params[2], Value::Text("struct".to_string()));
            assert_eq!(params[3], Value::Integer(1));
            assert_eq!(params[7], Value::Null);
            assert_eq!(params[8], Value::Text("rust".to_string()));
        }
        other => panic!("unexpected: {:?}", other),
    }
    match store_symbols(&symbols, &vec![Answer::Changed(1)]) {
        Pending::Run(Statement::Execute { params, .. }) => {
            assert_eq!(params[1], Value::Text("a.rs::y".to_string()));
            assert_eq!(params[7], Value::Text("doc".to_string()));
        }
        other => panic!("unexpected: {:?}", other),
    }
    assert_eq!(
        store_symbols(&symbols, &vec![Answer::Changed(1), Answer::Changed(1)]),
        Pending::Return(Ok(()))
    );
    assert_eq!(
        store_symbols(&symbols, &vec![Answer::Failed("full".to_string()), Answer::Changed(1)]),
        Pending::Return(Err(StoreError::Database("full".to_string())))
    );
    assert_eq!(store_symbols(&Vec::new(), &Vec::new()), Pending::Return(Ok(())));
}

fn claim(bead: &str, path: &str) -> Claim {
    Claim {
        bead_id: bead.to_string(),
        agent_id: "a".to_string(),
        worktree_path: path.to_string(),
        branch_name: format!("bacchus/{}", bead),
        start_commit: "c".to_string(),
        claimed_at: 0,
    }
}

#[test]
fn status_finds_what_does_not_fit_together() {
    let claims = vec![claim("b1", "/w/b1"), claim("b2", "/w/b2"), claim("b3", "/w/b3")];
    let found = vec!["/w/b1".to_string(), "/w/stray".to_string(), "/w/b3".to_string(), "odd".to_string()];
    assert_eq!(orphaned_worktrees(&found, &claims), vec!["stray".to_string(), "odd".to_string()]);
    let present = vec!["/w/b1".to_string(), "/w/b3".to_string()];
    assert_eq!(broken_claims(&claims, &present), vec!["b2".to_string()]);
    assert!(orphaned_worktrees(&Vec::new(), &claims).is_empty());
    assert!(broken_claims(&Vec::new(), &present).is_empty());
    assert_eq!(broken_claims(&claims, &Vec::new()).len(), 3);
}
