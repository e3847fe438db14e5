use libsql_migration::batch::BatchRunner;
use libsql_migration::errors::LibsqlRemoteMigratorError;
use libsql_migration::remote::migrate;
use libsql_migration::remote::ManifestEntry;
use libsql_migration::remote::RemoteFailure;
use libsql_migration::util::create_migration_table_sql;
use libsql_migration::util::DbEvent;
use libsql_migration::util::ExecAction;
use libsql_migration::util::lookup_event;
use libsql_migration::util::Executor;
use libsql_migration::util::MigrationResult;

fn runtime() -> tokio::runtime::Runtime {
    tokio::runtime::Builder::new_current_thread()
        .enable_all()
        .build()
        .unwrap()
}

fn setup_test_db(rt: &tokio::runtime::Runtime) -> libsql::Connection {
    let db = rt
        .block_on(libsql::Builder::new_local(":memory:").build())
        .unwrap();
    db.connect().unwrap()
}

fn run_executor(
    rt: &tokio::runtime::Runtime,
    conn: &libsql::Connection,
    mut ex: Executor,
) -> Result<MigrationResult, String> {
    loop {
        let action = match ex.current_action() {
            Some(a) => a,
            None => break,
        };
        let sql = ex.action_sql().unwrap();
        let id = ex.id.clone();
        let ev = rt.block_on(async {
            match action {
                ExecAction::Lookup => match conn.prepare(&sql).await {
                    Ok(stmt) => match stmt.query([id]).await {
                        Ok(mut rows) => match rows.next().await {
                            Ok(Some(row)) => match row.get_value(0) {
                                Ok(libsql::Value::Integer(n)) => lookup_event(Some(Some(n))),
                                Ok(_) => lookup_event(Some(None)),
                                Err(e) => DbEvent::Failed(e.to_string()),
                            },
                            Ok(None) => lookup_event(None),
                            Err(e) => DbEvent::Failed(e.to_string()),
                        },
                        Err(e) => DbEvent::Failed(e.to_string()),
                    },
                    Err(e) => DbEvent::Failed(e.to_string()),
                },
                ExecAction::MarkPending | ExecAction::MarkExecuted => {
                    match conn.execute(&sql, [id]).await {
                        Ok(_) => DbEvent::Done,
                        Err(e) => DbEvent::Failed(e.to_string()),
                    }
                }
                ExecAction::EnsureSchema | ExecAction::RunScript => {
                    match conn.execute(&sql, ()).await {
                        Ok(_) => DbEvent::Done,
                        Err(e) => DbEvent::Failed(e.to_string()),
                    }
                }
            }
        });
        ex.step(ev);
    }
    match ex.finish().unwrap() {
        Ok(m) => Ok(m),
        Err(e) => Err(e.message()),
    }
}

/// Drives a batch, resolving each migration's script by its URL from the
/// simulated remote contents.
fn run_batch(
    rt: &tokio::runtime::Runtime,
    conn: &libsql::Connection,
    mut runner: BatchRunner,
    bodies: &std::collections::HashMap<String, String>,
) -> Result<bool, String> {
    if runner.needs_schema() {
        let sql = create_migration_table_sql();
        rt.block_on(conn.execute(&sql, ()))
            .map_err(|e| e.to_string())?;
        runner.confirm_schema();
    }
    while !runner.is_finished() {
        let (id, source) = {
            let item = runner.current().unwrap();
            (item.id.clone(), item.source.clone())
        };
        let script = bodies
            .get(&source)
            .cloned()
            .ok_or_else(|| format!("fetch failed for {}", source))?;
        let outcome = run_executor(rt, conn, Executor::new(id, script))?;
        runner.record(outcome);
    }
    Ok(runner.did_new_migration())
}

/// The first simulated manifest: creates test1 and test2, each with a
/// status column.
fn manifest_v1() -> (Vec<ManifestEntry>, std::collections::HashMap<String, String>) {
    let entries = vec![
        ManifestEntry {
            id: "0001_test1".to_string(),
            url: "https://scripts.test/v1/0001.sql".to_string(),
        },
        ManifestEntry {
            id: "0002_test2".to_string(),
            url: "https://scripts.test/v1/0002.sql".to_string(),
        },
        ManifestEntry {
            id: "0003_status".to_string(),
            url: "https://scripts.test/v1/0003.sql".to_string(),
        },
    ];
    let mut bodies = std::collections::HashMap::new();
    bodies.insert(
        "https://scripts.test/v1/0001.sql".to_string(),
        "CREATE TABLE test1 (\n  id INTEGER PRIMARY KEY autoincrement,\n  status BOOLEAN\n);"
            .to_string(),
    );
    bodies.insert(
        "https://scripts.test/v1/0002.sql".to_string(),
        "CREATE TABLE test2 (\n  id INTEGER PRIMARY KEY autoincrement\n);".to_string(),
    );
    bodies.insert(
        "https://scripts.test/v1/0003.sql".to_string(),
        "ALTER TABLE test2\nADD status BOOLEAN;".to_string(),
    );
    (entries, bodies)
}

fn migrate_remote(
    rt: &tokio::runtime::Runtime,
    conn: &libsql::Connection,
    entries: Vec<ManifestEntry>,
    bodies: &std::collections::HashMap<String, String>,
) -> Result<bool, String> {
    let runner = migrate(Ok(entries)).map_err(|e| e.message())?;
    run_batch(rt, conn, runner, bodies)
}

fn column_info(
    rt: &tokio::runtime::Runtime,
    conn: &libsql::Connection,
    table: &str,
) -> std::collections::HashMap<String, String> {
    let mut out = std::collections::HashMap::new();
    rt.block_on(async {
        let mut rows = conn
            .query(&format!("PRAGMA table_info('{}');", table), ())
            .await
            .unwrap();
        while let Some(row) = rows.next().await.unwrap() {
            let name = row.get::<String>(1).unwrap();
            let col_type = row.get::<String>(2).unwrap();
            out.insert(name, col_type);
        }
    });
    out
}

fn table_names(rt: &tokio::runtime::Runtime, conn: &libsql::Connection) -> Vec<libsql::Value> {
    rt.block_on(async {
        let mut stmt = conn
            .prepare("SELECT name FROM sqlite_master WHERE type='table';")
            .await
            .unwrap();
        let mut rows = stmt.query(()).await.unwrap();
        let mut acc = vec![];
        while let Some(row) = rows.next().await.unwrap() {
            acc.push(row.get_value(0).unwrap());
        }
        acc
    })
}

#[test]
fn remote_migration_test_establish_connection() {
    let rt = runtime();
    let conn = setup_test_db(&rt);
    let (entries, bodies) = manifest_v1();

    migrate_remote(&rt, &conn, entries, &bodies).unwrap();

    let found = rt.block_on(async {
        let mut stmt = conn
            .prepare("SELECT name FROM sqlite_master WHERE type='table' AND name = ?;")
            .await
            .unwrap();
        let mut rows = stmt.query(["libsql_migrations"]).await.unwrap();
        rows.next().await.unwrap().is_some()
    });
    assert!(found, "Migrations table not found");
}

#[test]
fn invalid_url() {
    // the document at the URL is not a manifest: the decode fails before
    // anything runs
    let response = migrate(Err(RemoteFailure::Fetch(
        "error decoding response body: invalid type: map, expected a sequence".to_string(),
    )));
    assert!(matches!(
        response,
        Err(LibsqlRemoteMigratorError::ReqwestError(_))
    ));
}

#[test]
fn empty_url() {
    let response = migrate(Err(RemoteFailure::InvalidUrl("".to_string())));
    assert!(matches!(
        response,
        Err(LibsqlRemoteMigratorError::MigrationUrlNotValid(_))
    ));
}

#[test]
fn check_for_valid_execution() {
    let rt = runtime();
    let conn = setup_test_db(&rt);
    let (entries, bodies) = manifest_v1();

    migrate_remote(&rt, &conn, entries, &bodies).unwrap();

    let tables = table_names(&rt, &conn);
    assert!(
        tables.contains(&libsql::Value::Text(String::from("test1"))),
        "Failed to create test1 migrations"
    );
    assert!(
        tables.contains(&libsql::Value::Text(String::from("test2"))),
        "Failed to create test2 migrations"
    );

    let info1 = column_info(&rt, &conn, "test1");
    assert_eq!(
        info1.get_key_value("id"),
        Some((&String::from("id"), &String::from("INTEGER")))
    );
    assert_eq!(
        info1.get_key_value("status"),
        Some((&String::from("status"), &String::from("BOOLEAN")))
    );

    let info2 = column_info(&rt, &conn, "test2");
    assert_eq!(
        info2.get_key_value("id"),
        Some((&String::from("id"), &String::from("INTEGER")))
    );
    assert_eq!(
        info2.get_key_value("status"),
        Some((&String::from("status"), &String::from("BOOLEAN")))
    );
}

#[test]
fn should_not_execute_new_script_with_same_id() {
    let rt = runtime();
    let conn = setup_test_db(&rt);
    let (entries, bodies) = manifest_v1();

    migrate_remote(&rt, &conn, entries, &bodies).unwrap();

    // a second manifest reuses the ids but points them at new scripts
    let entries_v3 = vec![ManifestEntry {
        id: "0001_test1".to_string(),
        url: "https://scripts.test/v3/0001.sql".to_string(),
    }];
    let mut bodies_v3 = std::collections::HashMap::new();
    bodies_v3.insert(
        "https://scripts.test/v3/0001.sql".to_string(),
        "ALTER TABLE test1\nADD Email TEXT;".to_string(),
    );
    let applied = migrate_remote(&rt, &conn, entries_v3, &bodies_v3).unwrap();
    assert!(!applied);

    let info1 = column_info(&rt, &conn, "test1");
    assert_eq!(info1.get_key_value("Email"), None);
}

#[test]
fn should_execute_correctly_for_multiple_urls() {
    let rt = runtime();
    let conn = setup_test_db(&rt);
    let (entries, bodies) = manifest_v1();

    migrate_remote(&rt, &conn, entries, &bodies).unwrap();

    let entries_v2 = vec![
        ManifestEntry {
            id: "0004_email1".to_string(),
            url: "https://scripts.test/v2/0004.sql".to_string(),
        },
        ManifestEntry {
            id: "0005_email2".to_string(),
            url: "https://scripts.test/v2/0005.sql".to_string(),
        },
    ];
    let mut bodies_v2 = std::collections::HashMap::new();
    bodies_v2.insert(
        "https://scripts.test/v2/0004.sql".to_string(),
        "ALTER TABLE test1\nADD Email TEXT;".to_string(),
    );
    bodies_v2.insert(
        "https://scripts.test/v2/0005.sql".to_string(),
        "ALTER TABLE test2\nADD Email TEXT;".to_string(),
    );
    let applied = migrate_remote(&rt, &conn, entries_v2, &bodies_v2).unwrap();
    assert!(applied);

    let tables = table_names(&rt, &conn);
    assert!(
        tables.contains(&libsql::Value::Text(String::from("test1"))),
        "Failed to create test1 migrations"
    );
    assert!(
        tables.contains(&libsql::Value::Text(String::from("test2"))),
        "Failed to create test2 migrations"
    );

    let info1 = column_info(&rt, &conn, "test1");
    assert_eq!(
        info1.get_key_value("id"),
        Some((&String::from("id"), &String::from("INTEGER")))
    );
    assert_eq!(
        info1.get_key_value("status"),
        Some((&String::from("status"), &String::from("BOOLEAN")))
    );
    assert_eq!(
        info1.get_key_value("Email"),
        Some((&String::from("Email"), &String::from("TEXT")))
    );

    let info2 = column_info(&rt, &conn, "test2");
    assert_eq!(
        info2.get_key_value("Email"),
        Some((&String::from("Email"), &String::from("TEXT")))
    );
}
