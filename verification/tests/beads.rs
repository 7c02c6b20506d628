use bacchus::beads::{
    decode_bead, get_bead, get_ready_beads, is_bead_ready, update_bead_status, valid_status,
    works_first, BeadInfo, BeadsError,
};
use bacchus::db::{Answer, Pending, Statement, Value};
use rusqlite::Connection;

fn to_sql(value: &Value) -> rusqlite::types::Value {
    match value {
        Value::Null => rusqlite::types::Value::Null,
        Value::Integer(n) => rusqlite::types::Value::Integer(*n),
        Value::Text(s) => rusqlite::types::Value::Text(s.clone()),
    }
}

fn from_sql(value: rusqlite::types::Value) -> Value {
    match value {
        rusqlite::types::Value::Integer(n) => Value::Integer(n),
        rusqlite::types::Value::Text(s) => Value::Text(s),
        _ => Value::Null,
    }
}

fn answer(conn: &Connection, statement: &Statement) -> Answer {
    match statement {
        Statement::Locate { .. } => Answer::Found(true),
        Statement::Batch { sql } => match conn.execute_batch(sql) {
            Ok(()) => Answer::Changed(0),
            Err(e) => Answer::Failed(e.to_string()),
        },
        Statement::Execute { sql, params } => {
            match conn.execute(sql, rusqlite::params_from_iter(params.iter().map(to_sql))) {
                Ok(n) => Answer::Changed(n),
                Err(e) => Answer::Failed(e.to_string()),
            }
        }
        Statement::Query { sql, params } => {
            let mut stmt = match conn.prepare(sql) {
                Ok(s) => s,
                Err(e) => return Answer::Failed(e.to_string()),
            };
            let columns = stmt.column_count();
            let mut rows = match stmt.query(rusqlite::params_from_iter(params.iter().map(to_sql))) {
                Ok(r) => r,
                Err(e) => return Answer::Failed(e.to_string()),
            };
            let mut out = Vec::new();
            loop {
                match rows.next() {
                    Ok(Some(row)) => {
                        let mut values = Vec::new();
                        for i in 0..columns {
                            values.push(from_sql(row.get(i).unwrap()));
                        }
                        out.push(values);
                    }
                    Ok(None) => break,
                    Err(e) => return Answer::Failed(e.to_string()),
                }
            }
            Answer::Rows(out)
        }
    }
}

fn run<T, E>(conn: &Connection, query: impl Fn(&Vec<Answer>) -> Pending<T, E>) -> Result<T, E> {
    let mut answers = Vec::new();
    loop {
        match query(&answers) {
            Pending::Run(statement) => answers.push(answer(conn, &statement)),
            Pending::Return(result) => return result,
        }
    }
}

fn setup_test_db() -> Connection {
    let conn = Connection::open_in_memory().unwrap();
    conn.execute(
        "CREATE TABLE issues (
                id TEXT PRIMARY KEY,
                title TEXT NOT NULL,
                description TEXT,
                priority TEXT NOT NULL DEFAULT 'P2',
                status TEXT NOT NULL DEFAULT 'open'
            )",
        [],
    )
    .unwrap();
    conn.execute(
        "CREATE TABLE dependencies (
                id INTEGER PRIMARY KEY,
                issue_id TEXT NOT NULL,
                blocks_id TEXT NOT NULL
            )",
        [],
    )
    .unwrap();
    conn.execute(
        "INSERT INTO issues (id, title, priority, status) VALUES
                ('BEAD-1', 'Ready task', 'P1', 'open'),
                ('BEAD-2', 'Blocked task', 'P2', 'open'),
                ('BEAD-3', 'Blocker', 'P1', 'in_progress')",
        [],
    )
    .unwrap();
    conn.execute(
        "INSERT INTO dependencies (issue_id, blocks_id) VALUES ('BEAD-2', 'BEAD-3')",
        [],
    )
    .unwrap();
    conn
}

#[test]
fn test_get_ready_beads() {
    let conn = setup_test_db();
    let ready = run(&conn, |a| get_ready_beads("/ws", a)).unwrap();
    assert_eq!(ready.len(), 1);
    assert_eq!(ready[0].id, "BEAD-1");
}

#[test]
fn test_get_bead() {
    let conn = setup_test_db();
    let bead = run(&conn, |a| get_bead("/ws", "BEAD-1", a)).unwrap();
    assert_eq!(bead.title, "Ready task");
}

#[test]
fn test_update_bead_status() {
    let conn = setup_test_db();
    run(&conn, |a| update_bead_status("/ws", "BEAD-1", "in_progress", a)).unwrap();
    let bead = run(&conn, |a| get_bead("/ws", "BEAD-1", a)).unwrap();
    assert_eq!(bead.status, "in_progress");
}

#[test]
fn ready_beads_come_by_priority_then_identifier() {
    let conn = setup_test_db();
    conn.execute(
        "INSERT INTO issues (id, title, priority, status) VALUES
                ('BEAD-9', 'Urgent', 'P0', 'open'),
                ('BEAD-0', 'Also P1', 'P1', 'open'),
                ('BEAD-7', 'Odd priority', 'someday', 'open'),
                ('BEAD-8', 'Done', 'P0', 'closed')",
        [],
    )
    .unwrap();
    let ready = run(&conn, |a| get_ready_beads("/ws", a)).unwrap();
    let ids: Vec<&str> = ready.iter().map(|b| b.id.as_str()).collect();
    assert_eq!(ids, vec!["BEAD-9", "BEAD-0", "BEAD-1", "BEAD-7"]);
    assert_eq!(ready[0].description, None);
    assert_eq!(ready[0].priority, "P0");
}

#[test]
fn a_bead_is_ready_once_its_blocker_is_closed() {
    let conn = setup_test_db();
    assert_eq!(run(&conn, |a| is_bead_ready("/ws", "BEAD-1", a)), Ok(true));
    assert_eq!(run(&conn, |a| is_bead_ready("/ws", "BEAD-2", a)), Ok(false));
    assert_eq!(run(&conn, |a| is_bead_ready("/ws", "BEAD-3", a)), Ok(false));
    assert_eq!(run(&conn, |a| is_bead_ready("/ws", "nope", a)), Ok(false));
    run(&conn, |a| update_bead_status("/ws", "BEAD-3", "closed", a)).unwrap();
    assert_eq!(run(&conn, |a| is_bead_ready("/ws", "BEAD-2", a)), Ok(true));
}

#[test]
fn unknown_bead_is_not_found() {
    let conn = setup_test_db();
    assert_eq!(
        run(&conn, |a| get_bead("/ws", "BEAD-404", a)),
        Err(BeadsError::BeadNotFound("BEAD-404".to_string()))
    );
    assert_eq!(
        run(&conn, |a| update_bead_status("/ws", "BEAD-404", "open", a)),
        Err(BeadsError::BeadNotFound("BEAD-404".to_string()))
    );
}

#[test]
fn invalid_status_never_reaches_the_database() {
    let step = update_bead_status("/ws", "BEAD-1", "done", &Vec::new());
    assert_eq!(step, Pending::Return(Err(BeadsError::InvalidStatus("done".to_string()))));
    assert!(valid_status("open"));
    assert!(valid_status("in_progress"));
    assert!(valid_status("blocked"));
    assert!(valid_status("closed"));
    assert!(!valid_status("Open"));
    assert!(!valid_status(""));
}

#[test]
fn missing_database_is_reported_with_its_path() {
    let first = get_ready_beads("/ws", &Vec::new());
    assert_eq!(first, Pending::Run(Statement::Locate { path: "/ws/.beads/beads.db".to_string() }));
    let step = get_ready_beads("/ws", &vec![Answer::Found(false)]);
    assert_eq!(
        step,
        Pending::Return(Err(BeadsError::DatabaseNotFound("/ws/.beads/beads.db".to_string())))
    );
    let step = get_bead("/ws", "B", &vec![Answer::Failed("permission denied".to_string())]);
    assert_eq!(
        step,
        Pending::Return(Err(BeadsError::Database("permission denied".to_string())))
    );
}

#[test]
fn database_failure_is_passed_on() {
    let answers = vec![Answer::Found(true), Answer::Failed("no such table: issues".to_string())];
    assert_eq!(
        get_ready_beads("/ws", &answers),
        Pending::Return(Err(BeadsError::Database("no such table: issues".to_string())))
    );
    assert_eq!(
        is_bead_ready("/ws", "B", &answers),
        Pending::Return(Err(BeadsError::Database("no such table: issues".to_string())))
    );
    let odd = vec![Answer::Found(true), Answer::Changed(1)];
    assert_eq!(
        get_bead("/ws", "B", &odd),
        Pending::Return(Err(BeadsError::Database("unexpected answer".to_string())))
    );
}

#[test]
fn rows_of_another_shape_hold_no_bead() {
    let text = |s: &str| Value::Text(s.to_string());
    let good = vec![text("B"), text("T"), Value::Null, text("P1"), text("open")];
    assert_eq!(
        decode_bead(&good),
        Some(BeadInfo {
            id: "B".to_string(),
            title: "T".to_string(),
            description: None,
            priority: "P1".to_string(),
            status: "open".to_string(),
        })
    );
    let described = vec![text("B"), text("T"), text("D"), text("P1"), text("open")];
    assert_eq!(decode_bead(&described).unwrap().description, Some("D".to_string()));
    let short = vec![text("B"), text("T"), Value::Null, text("P1")];
    assert_eq!(decode_bead(&short), None);
    let wrong = vec![Value::Integer(1), text("T"), Value::Null, text("P1"), text("open")];
    assert_eq!(decode_bead(&wrong), None);
    let answers = vec![Answer::Found(true), Answer::Rows(vec![good, short])];
    assert_eq!(
        get_ready_beads("/ws", &answers),
        Pending::Return(Err(BeadsError::Database("row does not hold a bead".to_string())))
    );
}

#[test]
fn tracker_errors_have_messages() {
    assert_eq!(BeadsError::Database("x".to_string()).message(), "Database error: x");
    assert_eq!(
        BeadsError::DatabaseNotFound("/p".to_string()).message(),
        "Beads database not found at path: /p"
    );
    assert_eq!(BeadsError::BeadNotFound("B".to_string()).message(), "Bead not found: B");
    assert_eq!(BeadsError::InvalidStatus("s".to_string()).message(), "Invalid status: s");
}

#[test]
fn beads_are_ordered_by_priority_then_identifier() {
    let bead = |id: &str, priority: &str| BeadInfo {
        id: id.to_string(),
        title: String::new(),
        description: None,
        priority: priority.to_string(),
        status: "open".to_string(),
    };
    assert!(works_first(&bead("B", "P0"), &bead("A", "P1")));
    assert!(!works_first(&bead("A", "P1"), &bead("B", "P0")));
    assert!(works_first(&bead("A", "P1"), &bead("B", "P1")));
    assert!(!works_first(&bead("B", "P1"), &bead("A", "P1")));
    assert!(works_first(&bead("A", "P1"), &bead("A", "P1")));
    assert!(works_first(&bead("A", "P3"), &bead("A", "p3")));
    assert!(works_first(&bead("B", "low"), &bead("C", "high")));
    assert!(works_first(&bead("BEAD-1", "P2"), &bead("BEAD-10", "P2")));
    assert!(works_first(&bead("BEAD-10", "P2"), &bead("BEAD-2", "P2")));
    assert!(works_first(&bead("", "P2"), &bead("a", "P2")));
    assert!(!works_first(&bead("é", "P2"), &bead("z", "P2")));
    // The order is that of the database.
    let conn = setup_test_db();
    conn.execute(
        "INSERT INTO issues (id, title, priority, status) VALUES
                ('BEAD-10', 't', 'P1', 'open'), ('BEAD-é', 't', 'P1', 'open'),
                ('BEAD-Z', 't', 'P1', 'open'), ('BEAD-0', 't', 'later', 'open')",
        [],
    )
    .unwrap();
    let ready = run(&conn, |a| get_ready_beads("/ws", a)).unwrap();
    for pair in ready.windows(2) {
        assert!(works_first(&pair[0], &pair[1]), "{} before {}", pair[0].id, pair[1].id);
    }
    assert_eq!(ready.len(), 5);
}
