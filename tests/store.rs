use entry_api::{Entry, Reply, Request, ServiceError, Statement, Step, StoreOutcome, StoredRow};

fn open_store() -> rusqlite::Connection {
    let conn = rusqlite::Connection::open_in_memory().unwrap();
    conn.execute_batch(
        "create table entries (id integer primary key, created_at text default current_timestamp, name text);",
    )
    .unwrap();
    conn
}

fn run_statement(conn: &rusqlite::Connection, statement: &Statement) -> StoreOutcome {
    match statement {
        Statement::Insert { name } => match conn.execute(statement.sql(), (name,)) {
            Ok(n) => StoreOutcome::Changed(n),
            Err(_) => StoreOutcome::Failed,
        },
        Statement::DeleteById { id } => match conn.execute(statement.sql(), (id,)) {
            Ok(n) => StoreOutcome::Changed(n),
            Err(_) => StoreOutcome::Failed,
        },
        Statement::SelectAll => {
            let mut stmt = match conn.prepare(statement.sql()) {
                Ok(s) => s,
                Err(_) => return StoreOutcome::Failed,
            };
            let rows = stmt.query_map([], |row| {
                Ok(StoredRow { id: row.get(0)?, created_at: row.get(1)?, name: row.get(2)? })
            });
            match rows.and_then(|it| it.collect::<Result<Vec<_>, _>>()) {
                Ok(rows) => StoreOutcome::Rows(rows),
                Err(_) => StoreOutcome::Failed,
            }
        }
    }
}

fn handle(conn: &rusqlite::Connection, request: &Request) -> Result<Reply, ServiceError> {
    match request.begin(true) {
        Step::Done(r) => r,
        Step::Run(statement) => request.finish(&run_statement(conn, &statement)),
    }
}

fn create(conn: &rusqlite::Connection, name: &str) -> Result<Reply, ServiceError> {
    handle(conn, &Request::Create { name: Some(name.to_string()) })
}

fn list(conn: &rusqlite::Connection) -> Vec<Entry> {
    match handle(conn, &Request::List) {
        Ok(Reply::Entries(es)) => es,
        other => panic!("list failed: {:?}", other),
    }
}

fn is_wire_layout(s: &str) -> bool {
    let b = s.as_bytes();
    b.len() == 19
        && b.iter().enumerate().all(|(i, c)| match i {
            4 | 7 => *c == b'-',
            10 => *c == b' ',
            13 | 16 => *c == b':',
            _ => c.is_ascii_digit(),
        })
}

#[test]
fn create_then_list_yields_the_one_entry() {
    let conn = open_store();
    assert!(matches!(create(&conn, "Alice"), Ok(Reply::Ack)));
    let es = list(&conn);
    assert_eq!(es.len(), 1);
    assert_eq!(es[0].name, "Alice");
    assert!(es[0].id > 0);
    assert!(is_wire_layout(&es[0].created_at.to_wire()));
}

#[test]
fn create_without_name_adds_no_row() {
    let conn = open_store();
    create(&conn, "Bob").unwrap();
    let before = list(&conn).len();
    let r = handle(&conn, &Request::Create { name: None });
    assert!(matches!(r, Ok(Reply::NoName)));
    assert_eq!(r.unwrap().text(), Some("no name"));
    assert_eq!(list(&conn).len(), before);
}

#[test]
fn delete_existing_removes_exactly_that_row() {
    let conn = open_store();
    for name in ["a", "b", "c"] {
        create(&conn, name).unwrap();
    }
    let es = list(&conn);
    let victim = es.iter().find(|e| e.name == "b").unwrap().id;
    assert!(matches!(handle(&conn, &Request::Delete { id: victim }), Ok(Reply::Ack)));
    let after = list(&conn);
    assert_eq!(after.len(), 2);
    assert!(after.iter().all(|e| e.id != victim));
    let mut names: Vec<String> = after.iter().map(|e| e.name.clone()).collect();
    names.sort();
    assert_eq!(names, vec!["a".to_string(), "c".to_string()]);
}

#[test]
fn delete_missing_id_succeeds_and_changes_nothing() {
    let conn = open_store();
    create(&conn, "x").unwrap();
    let before: Vec<(i32, String)> = list(&conn).into_iter().map(|e| (e.id, e.name)).collect();
    let r = handle(&conn, &Request::Delete { id: 4242 });
    assert!(matches!(r, Ok(Reply::Ack)));
    assert_eq!(r.unwrap().text(), Some("ok"));
    let after: Vec<(i32, String)> = list(&conn).into_iter().map(|e| (e.id, e.name)).collect();
    assert_eq!(before, after);
    assert!(matches!(handle(&conn, &Request::Delete { id: 4242 }), Ok(Reply::Ack)));
}

#[test]
fn many_creates_give_as_many_rows_with_distinct_ids() {
    let conn = open_store();
    let n = 25;
    for i in 0..n {
        create(&conn, &format!("caller {}", i)).unwrap();
    }
    let es = list(&conn);
    assert_eq!(es.len(), n);
    let mut ids: Vec<i32> = es.iter().map(|e| e.id).collect();
    ids.sort();
    ids.dedup();
    assert_eq!(ids.len(), n);
}

#[test]
fn unreadable_timestamp_fails_the_whole_list() {
    let conn = open_store();
    create(&conn, "good").unwrap();
    conn.execute("insert into entries (created_at, name) values ('yesterday', 'bad');", ()).unwrap();
    create(&conn, "also good").unwrap();
    assert_eq!(handle(&conn, &Request::List).err(), Some(ServiceError::StorageError));
}

#[test]
fn name_round_trips_unchanged() {
    let conn = open_store();
    let name = "O'Brien \"quoted\"; drop table entries; -- \u{e9}\u{1f600}  ";
    create(&conn, name).unwrap();
    let es = list(&conn);
    assert_eq!(es.len(), 1);
    assert_eq!(es[0].name, name);
}

#[test]
fn lock_failure_is_reported() {
    for request in [Request::Create { name: None }, Request::List, Request::Delete { id: 1 }] {
        match request.begin(false) {
            Step::Done(Err(e)) => assert_eq!(e, ServiceError::LockError),
            other => panic!("unexpected step {:?}", other),
        }
    }
}

#[test]
fn failed_statement_is_a_storage_error() {
    let failed = StoreOutcome::Failed;
    assert_eq!(
        Request::Create { name: Some("n".to_string()) }.finish(&failed).err(),
        Some(ServiceError::StorageError)
    );
    assert_eq!(Request::List.finish(&failed).err(), Some(ServiceError::StorageError));
    assert_eq!(Request::Delete { id: 3 }.finish(&failed).err(), Some(ServiceError::StorageError));
    assert_eq!(Request::List.finish(&StoreOutcome::Changed(1)).err(), Some(ServiceError::StorageError));
    assert_eq!(
        Request::Delete { id: 3 }.finish(&StoreOutcome::Rows(vec![])).err(),
        Some(ServiceError::StorageError)
    );
}

#[test]
fn steps_carry_the_request_values() {
    match (Request::Create { name: Some("Zoe".to_string()) }).begin(true) {
        Step::Run(Statement::Insert { name }) => assert_eq!(name, "Zoe"),
        other => panic!("unexpected step {:?}", other),
    }
    match (Request::Delete { id: -7 }).begin(true) {
        Step::Run(Statement::DeleteById { id }) => assert_eq!(id, -7),
        other => panic!("unexpected step {:?}", other),
    }
    assert!(matches!(Request::List.begin(true), Step::Run(Statement::SelectAll)));
    assert_eq!(Statement::SelectAll.sql(), "select id, created_at, name from entries;");
    assert_eq!(Reply::Entries(vec![]).text(), None);
}

#[test]
fn rows_map_in_order() {
    let rows = vec![
        StoredRow { id: 2, created_at: "2024-01-02 03:04:05".to_string(), name: "b".to_string() },
        StoredRow { id: 1, created_at: "1999-12-31 23:59:59".to_string(), name: "a".to_string() },
    ];
    let es = Entry::read_all(&rows).unwrap();
    assert_eq!(es.len(), 2);
    assert_eq!((es[0].id, es[0].name.as_str()), (2, "b"));
    assert_eq!(es[1].created_at.to_wire(), "1999-12-31 23:59:59");
    assert!(Entry::read_all(&vec![]).unwrap().is_empty());
    let bad = StoredRow { id: 9, created_at: "2024-01-02T03:04:05".to_string(), name: "c".to_string() };
    assert_eq!(Entry::from_row(&bad).err(), Some(ServiceError::StorageError));
}
