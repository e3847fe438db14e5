use libsql_migration::batch::BatchRunner;
use libsql_migration::dir::migrate;
use libsql_migration::dir::FileEntry;
use libsql_migration::errors::LibsqlDirMigratorError;
use libsql_migration::util::create_migration_table_sql;
use libsql_migration::util::DbEvent;
use libsql_migration::util::ExecAction;
use libsql_migration::util::lookup_event;
use libsql_migration::util::Executor;
use libsql_migration::util::MigrationResult;
use libsql_migration::util::PathStatus;

fn runtime() -> tokio::runtime::Runtime {
    tokio::runtime::Builder::new_current_thread()
        .enable_all()
        .build()
        .unwrap()
}

fn setup_test_db(rt: &tokio::runtime::Runtime) -> libsql::Connection {
    let db = rt
        .block_on(libsql::Builder::new_local(":memory:").build())
        .unwrap();
    db.connect().unwrap()
}

fn run_executor(
    rt: &tokio::runtime::Runtime,
    conn: &libsql::Connection,
    mut ex: Executor,
) -> Result<MigrationResult, String> {
    loop {
        let action = match ex.current_action() {
            Some(a) => a,
            None => break,
        };
        let sql = ex.action_sql().unwrap();
        let id = ex.id.clone();
        let ev = rt.block_on(async {
            match action {
                ExecAction::Lookup => match conn.prepare(&sql).await {
                    Ok(stmt) => match stmt.query([id]).await {
                        Ok(mut rows) => match rows.next().await {
                            Ok(Some(row)) => match row.get_value(0) {
                                Ok(libsql::Value::Integer(n)) => lookup_event(Some(Some(n))),
                                Ok(_) => lookup_event(Some(None)),
                                Err(e) => DbEvent::Failed(e.to_string()),
                            },
                            Ok(None) => lookup_event(None),
                            Err(e) => DbEvent::Failed(e.to_string()),
                        },
                        Err(e) => DbEvent::Failed(e.to_string()),
                    },
                    Err(e) => DbEvent::Failed(e.to_string()),
                },
                ExecAction::MarkPending | ExecAction::MarkExecuted => {
                    match conn.execute(&sql, [id]).await {
                        Ok(_) => DbEvent::Done,
                        Err(e) => DbEvent::Failed(e.to_string()),
                    }
                }
                ExecAction::EnsureSchema | ExecAction::RunScript => {
                    match conn.execute(&sql, ()).await {
                        Ok(_) => DbEvent::Done,
                        Err(e) => DbEvent::Failed(e.to_string()),
                    }
                }
            }
        });
        ex.step(ev);
    }
    match ex.finish().unwrap() {
        Ok(m) => Ok(m),
        Err(e) => Err(e.message()),
    }
}

fn run_batch(
    rt: &tokio::runtime::Runtime,
    conn: &libsql::Connection,
    mut runner: BatchRunner,
    files: &std::collections::HashMap<String, String>,
) -> Result<bool, String> {
    if runner.needs_schema() {
        let sql = create_migration_table_sql();
        rt.block_on(conn.execute(&sql, ()))
            .map_err(|e| e.to_string())?;
        runner.confirm_schema();
    }
    while !runner.is_finished() {
        let (id, source) = {
            let item = runner.current().unwrap();
            (item.id.clone(), item.source.clone())
        };
        let script = files
            .get(&source)
            .cloned()
            .ok_or_else(|| format!("Unable to read {:?} file!", source))?;
        let outcome = run_executor(rt, conn, Executor::new(id, script))?;
        runner.record(outcome);
    }
    Ok(runner.did_new_migration())
}

fn base_migrations() -> std::collections::HashMap<String, String> {
    let mut files = std::collections::HashMap::new();
    files.insert(
        "./migrations/0001_test1.sql".to_string(),
        "CREATE TABLE test1 (\n  id INTEGER PRIMARY KEY autoincrement\n);".to_string(),
    );
    files.insert(
        "./migrations/0002_test2.sql".to_string(),
        "CREATE TABLE test2 (\n  id INTEGER PRIMARY KEY autoincrement\n);".to_string(),
    );
    files
}

fn migrate_dir(
    rt: &tokio::runtime::Runtime,
    conn: &libsql::Connection,
    root: &str,
    files: &std::collections::HashMap<String, String>,
) -> Result<bool, String> {
    let status = PathStatus {
        path: root.to_string(),
        exists: true,
        is_dir: true,
        is_file: false,
    };
    let entries: Vec<FileEntry> = files
        .keys()
        .map(|path| FileEntry {
            path: path.clone(),
            id: path.trim_start_matches("./migrations/").to_string(),
        })
        .collect();
    let runner = migrate(&status, Ok(entries)).map_err(|e| e.message())?;
    run_batch(rt, conn, runner, files)
}

fn table_names(rt: &tokio::runtime::Runtime, conn: &libsql::Connection) -> Vec<libsql::Value> {
    rt.block_on(async {
        let mut stmt = conn
            .prepare("SELECT name FROM sqlite_master WHERE type='table';")
            .await
            .unwrap();
        let mut rows = stmt.query(()).await.unwrap();
        let mut acc = vec![];
        while let Some(row) = rows.next().await.unwrap() {
            acc.push(row.get_value(0).unwrap());
        }
        acc
    })
}

#[test]
fn migration_test_establish_connection() {
    let rt = runtime();
    let conn = setup_test_db(&rt);
    let files = base_migrations();

    migrate_dir(&rt, &conn, "./migrations", &files).unwrap();

    let found = rt.block_on(async {
        let mut stmt = conn
            .prepare("SELECT name FROM sqlite_master WHERE type='table' AND name = ?;")
            .await
            .unwrap();
        let mut rows = stmt.query(["libsql_migrations"]).await.unwrap();
        rows.next().await.unwrap().is_some()
    });
    assert!(found, "Migrations table not found");
}

#[test]
fn migration_test_non_existent_migration_folder() {
    let status = PathStatus {
        path: "./my_non_existent_migrations/".to_string(),
        exists: false,
        is_dir: false,
        is_file: false,
    };

    match migrate(&status, Ok(vec![])) {
        Ok(_) => panic!("Should have thrown error for non-existent folder"),
        Err(e) => {
            assert!(
                matches!(e, LibsqlDirMigratorError::MigrationDirNotFound(_)),
                "Expected MigrationDirNotFound, got {:?}",
                e
            );
        }
    }
}

#[test]
fn migration_test_invalid_file_as_migration() {
    let status = PathStatus {
        path: "invalid_migration.txt".to_string(),
        exists: true,
        is_dir: false,
        is_file: true,
    };

    match migrate(
        &status,
        Ok(vec![FileEntry {
            path: "invalid_migration.txt".to_string(),
            id: "invalid_migration.txt".to_string(),
        }]),
    ) {
        Ok(_) => panic!("Should have thrown error for non-existent folder"),
        Err(e) => {
            assert!(
                matches!(e, LibsqlDirMigratorError::InvalidMigrationPath(_)),
                "Expected InvalidMigrationPath, got {:?}",
                e
            );
        }
    }
}

#[test]
fn migration_test_test_for_file_counts() {
    let rt = runtime();
    let conn = setup_test_db(&rt);
    let files = base_migrations();

    migrate_dir(&rt, &conn, "./migrations", &files).unwrap();

    let tables = table_names(&rt, &conn);
    assert!(
        tables.contains(&libsql::Value::Text(String::from("test1"))),
        "Failed to create test1 migrations"
    );
    assert!(
        tables.contains(&libsql::Value::Text(String::from("test2"))),
        "Failed to create test2 migrations"
    );

    let info1 = rt.block_on(async {
        let mut rows = conn.query("PRAGMA table_info('test1');", ()).await.unwrap();
        let mut out = std::collections::HashMap::new();
        while let Some(row) = rows.next().await.unwrap() {
            let name = row.get::<String>(1).unwrap();
            let col_type = row.get::<String>(2).unwrap();
            out.insert(name, col_type);
        }
        out
    });
    assert_eq!(
        info1.get_key_value("id"),
        Some((&String::from("id"), &String::from("INTEGER")))
    );
}
