use bacchus::claims::{Claim, StoreError};
use bacchus::db::claims::{
    all_claims, decode_claim, delete_claim, encode_claim, find_claim, insert_claim,
};
use bacchus::db::connection::{db_path, init_db};
use bacchus::db::migrations::{apply_migrations, get_current_version, migrations};
use bacchus::db::{Answer, Pending, Statement, Value};
use rusqlite::Connection;

fn to_sql(value: &Value) -> rusqlite::types::Value {
    match value {
        Value::Null => rusqlite::types::Value::Null,
        Value::Integer(n) => rusqlite::types::Value::Integer(*n),
        Value::Text(s) => rusqlite::types::Value::Text(s.clone()),
    }
}

fn from_sql(value: rusqlite::types::Value) -> Value {
    match value {
        rusqlite::types::Value::Integer(n) => Value::Integer(n),
        rusqlite::types::Value::Text(s) => Value::Text(s),
        _ => Value::Null,
    }
}

fn failure(e: rusqlite::Error) -> Answer {
    let duplicate = matches!(
        &e,
        rusqlite::Error::SqliteFailure(code, _)
            if code.code == rusqlite::ErrorCode::ConstraintViolation
    );
    if duplicate {
        Answer::Duplicate(e.to_string())
    } else {
        Answer::Failed(e.to_string())
    }
}

fn answer(conn: &Connection, statement: &Statement) -> Answer {
    match statement {
        Statement::Locate { .. } => Answer::Found(true),
        Statement::Batch { sql } => match conn.execute_batch(sql) {
            Ok(()) => Answer::Changed(0),
            Err(e) => failure(e),
        },
        Statement::Execute { sql, params } => {
            match conn.execute(sql, rusqlite::params_from_iter(params.iter().map(to_sql))) {
                Ok(n) => Answer::Changed(n),
                Err(e) => failure(e),
            }
        }
        Statement::Query { sql, params } => {
            let mut stmt = match conn.prepare(sql) {
                Ok(s) => s,
                Err(e) => return failure(e),
            };
            let columns = stmt.column_count();
            let mut rows = match stmt.query(rusqlite::params_from_iter(params.iter().map(to_sql))) {
                Ok(r) => r,
                Err(e) => return failure(e),
            };
            let mut out = Vec::new();
            loop {
                match rows.next() {
                    Ok(Some(row)) => {
                        let mut values = Vec::new();
                        for i in 0..columns {
                            values.push(from_sql(row.get(i).unwrap()));
                        }
                        out.push(values);
                    }
                    Ok(None) => break,
                    Err(e) => return failure(e),
                }
            }
            Answer::Rows(out)
        }
    }
}

fn run<T, E>(conn: &Connection, query: impl Fn(&Vec<Answer>) -> Pending<T, E>) -> Result<T, E> {
    let mut answers = Vec::new();
    loop {
        match query(&answers) {
            Pending::Run(statement) => answers.push(answer(conn, &statement)),
            Pending::Return(result) => return result,
        }
    }
}

fn claim(bead: &str, agent: &str, at: i64) -> Claim {
    Claim {
        bead_id: bead.to_string(),
        agent_id: agent.to_string(),
        worktree_path: format!("/ws/.bacchus/worktrees/{}", bead),
        branch_name: format!("bacchus/{}", bead),
        start_commit: "abc123".to_string(),
        claimed_at: at,
    }
}

#[test]
fn test_init_db() {
    let conn = Connection::open_in_memory().unwrap();
    run(&conn, |a| init_db(a)).unwrap();

    // Verify connection works
    let count: i32 = conn
        .query_row("SELECT COUNT(*) FROM sqlite_master WHERE type='table'", [], |r| r.get(0))
        .unwrap();
    assert!(count > 0);
}

#[test]
fn test_apply_migrations() {
    let conn = Connection::open_in_memory().unwrap();
    run(&conn, |a| apply_migrations(a)).unwrap();

    let version = run(&conn, |a| get_current_version(a)).unwrap();
    assert_eq!(version, 3); // Update to latest migration version

    // Verify claims table exists
    let count: i32 = conn
        .query_row(
            "SELECT COUNT(*) FROM sqlite_master WHERE type='table' AND name='claims'",
            [],
            |r| r.get(0),
        )
        .unwrap();
    assert_eq!(count, 1);
}

#[test]
fn migrations_are_applied_once() {
    let conn = Connection::open_in_memory().unwrap();
    assert_eq!(run(&conn, |a| get_current_version(a)), Ok(0));
    assert_eq!(run(&conn, |a| apply_migrations(a)), Ok(3));
    assert_eq!(run(&conn, |a| apply_migrations(a)), Ok(0));
    assert_eq!(run(&conn, |a| init_db(a)), Ok(0));
    let all = migrations();
    assert_eq!(all.len(), 3);
    assert_eq!(all[0].version, 1);
    assert_eq!(all[0].name, "initial_schema");
    assert_eq!(all[2].name, "simplify_schema_claims_only");
}

#[test]
fn migrations_go_on_from_the_version_reached() {
    let conn = Connection::open_in_memory().unwrap();
    let all = migrations();
    conn.execute_batch(all[0].sql).unwrap();
    conn.execute("INSERT INTO schema_version (version) VALUES (1)", []).unwrap();
    assert_eq!(run(&conn, |a| get_current_version(a)), Ok(1));
    assert_eq!(run(&conn, |a| apply_migrations(a)), Ok(2));
    assert_eq!(run(&conn, |a| get_current_version(a)), Ok(3));
}

#[test]
fn a_failing_migration_ends_the_sequence() {
    let answers = vec![
        Answer::Rows(vec![]),
        Answer::Changed(0),
        Answer::Changed(1),
        Answer::Failed("no such table: tasks".to_string()),
    ];
    assert_eq!(
        apply_migrations(&answers),
        Pending::Return(Err(StoreError::Database("no such table: tasks".to_string())))
    );
    let step = apply_migrations(&vec![Answer::Failed("no such table".to_string())]);
    assert_eq!(step, Pending::Run(Statement::Batch { sql: migrations()[0].sql.to_string() }));
    let step = apply_migrations(&vec![Answer::Rows(vec![vec![Value::Integer(2)]]), Answer::Changed(0)]);
    assert_eq!(
        step,
        Pending::Run(Statement::Execute {
            sql: "INSERT OR REPLACE INTO schema_version (version) VALUES (?1)".to_string(),
            params: vec![Value::Integer(3)],
        })
    );
    let odd = vec![Answer::Rows(vec![vec![Value::Text("three".to_string())]])];
    assert_eq!(
        get_current_version(&odd),
        Pending::Return(Err(StoreError::Database("row does not hold a version".to_string())))
    );
}

#[test]
fn claim_table_keeps_one_claim_for_each_bead() {
    let conn = Connection::open_in_memory().unwrap();
    run(&conn, |a| init_db(a)).unwrap();
    assert_eq!(run(&conn, |a| find_claim("BEAD-1", a)), Ok(None));
    let first = claim("BEAD-1", "agent-a", 1000);
    assert_eq!(run(&conn, |a| insert_claim(&first, a)), Ok(()));
    assert_eq!(run(&conn, |a| find_claim("BEAD-1", a)), Ok(Some(claim("BEAD-1", "agent-a", 1000))));
    let second = claim("BEAD-1", "agent-b", 2000);
    let refused = run(&conn, |a| insert_claim(&second, a));
    assert!(matches!(refused, Err(StoreError::Conflict(_))));
    assert_eq!(
        run(&conn, |a| find_claim("BEAD-1", a)).unwrap().unwrap().agent_id,
        "agent-a"
    );
    assert_eq!(run(&conn, |a| delete_claim("BEAD-1", a)), Ok(()));
    assert_eq!(run(&conn, |a| delete_claim("BEAD-1", a)), Ok(()));
    assert_eq!(run(&conn, |a| find_claim("BEAD-1", a)), Ok(None));
    assert_eq!(run(&conn, |a| insert_claim(&second, a)), Ok(()));
}

#[test]
fn claims_are_listed_newest_first() {
    let conn = Connection::open_in_memory().unwrap();
    run(&conn, |a| init_db(a)).unwrap();
    assert_eq!(run(&conn, |a| all_claims(a)), Ok(vec![]));
    for c in [claim("a", "x", 10), claim("b", "y", 30), claim("c", "z", 20)] {
        run(&conn, |a| insert_claim(&c, a)).unwrap();
    }
    let listed = run(&conn, |a| all_claims(a)).unwrap();
    let ids: Vec<&str> = listed.iter().map(|c| c.bead_id.as_str()).collect();
    assert_eq!(ids, vec!["b", "c", "a"]);
    assert_eq!(listed[0], claim("b", "y", 30));
}

#[test]
fn a_claim_survives_its_row() {
    let c = claim("BEAD-7", "agent-q", -5);
    let row = encode_claim(&c);
    assert_eq!(row.len(), 6);
    assert_eq!(row[0], Value::Text("BEAD-7".to_string()));
    assert_eq!(row[5], Value::Integer(-5));
    assert_eq!(decode_claim(&row), Some(c));
    assert_eq!(decode_claim(&row[..5].to_vec()), None);
    let mut wrong = encode_claim(&claim("a", "b", 1));
    wrong[5] = Value::Text("now".to_string());
    assert_eq!(decode_claim(&wrong), None);
}

#[test]
fn store_without_schema_fails() {
    let conn = Connection::open_in_memory().unwrap();
    let failed = run(&conn, |a| find_claim("B", a));
    assert!(matches!(failed, Err(StoreError::Database(_))));
    let failed = run(&conn, |a| all_claims(a));
    assert!(matches!(failed, Err(StoreError::Database(_))));
}

#[test]
fn database_path_defaults_below_the_workspace() {
    assert_eq!(db_path("/ws", None), "/ws/.bacchus/bacchus.db");
    assert_eq!(db_path("/ws", Some("/tmp/x.db")), "/tmp/x.db");
}
