use sinogi::migrations::{database_address, schema_migrations, MigrationKind, MigrationStore};

#[test]
fn database_address_is_the_sqlite_store() {
    assert_eq!(database_address(), "sqlite:sinogi.db");
}

#[test]
fn bootstrap_is_one_create_tables_migration() {
    let v = schema_migrations("CREATE TABLE books (id INTEGER);".to_string());
    assert_eq!(v.len(), 1);
    assert_eq!(v[0].version, 1);
    assert_eq!(v[0].description, "Create tables");
    assert_eq!(v[0].script, "CREATE TABLE books (id INTEGER);");
    assert_eq!(v[0].kind, MigrationKind::Up);
}

#[test]
fn applying_the_bootstrap_twice_runs_it_once() {
    let migrations = schema_migrations("CREATE TABLE books (id INTEGER);".to_string());
    let mut store = MigrationStore::new();
    let first = store.apply(&migrations);
    assert_eq!(first, vec![1]);
    assert_eq!(store.applied, vec![1]);
    let second = store.apply(&migrations);
    assert!(second.is_empty());
    assert_eq!(store.applied, vec![1]);
}

#[test]
fn already_bootstrapped_store_is_left_alone() {
    let migrations = schema_migrations("CREATE TABLE books (id INTEGER);".to_string());
    let mut store = MigrationStore::new();
    store.apply(&migrations);
    let log_before = store.applied.clone();
    let run = store.apply(&migrations);
    assert!(run.is_empty());
    assert_eq!(store.applied, log_before);
}
