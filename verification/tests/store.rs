use journal::gateway;
use journal::store::StorageError;
use journal::store::Store;

#[test]
fn create_entry_returns_trimmed_count() {
    let mut store = Store::new();
    store.migrate();
    let r = store.create_entry("  Hello world  ", 1000);
    assert!(matches!(r, Ok(11)));
    assert_eq!(store.entries.len(), 1);
    assert_eq!(store.entries[0].body, "Hello world");
    assert_eq!(store.entries[0].id, 1);
}

#[test]
fn whitespace_only_entry_is_rejected_and_not_persisted() {
    let mut store = Store::new();
    store.migrate();
    let before = store.entries.len();
    let r = store.create_entry("   ", 1000);
    assert!(matches!(r, Err(StorageError::EmptyBody)));
    assert_eq!(store.entries.len(), before);
}

#[test]
fn empty_entry_is_rejected() {
    let mut store = Store::new();
    store.migrate();
    let r = store.create_entry("", 5);
    assert!(r.is_err());
    assert_eq!(store.entries.len(), 0);
}

#[test]
fn migration_is_idempotent() {
    let mut store = Store::new();
    store.migrate();
    let r = store.create_entry("one", 1);
    assert!(r.is_ok());
    let len_before = store.entries.len();
    let next_before = store.next_id;
    store.migrate();
    assert!(store.migrated);
    assert_eq!(store.entries.len(), len_before);
    assert_eq!(store.next_id, next_before);
}

#[test]
fn fresh_row_has_equal_timestamps() {
    let mut store = Store::new();
    store.migrate();
    let r = store.create_entry("note", 123456);
    assert!(r.is_ok());
    assert_eq!(store.entries[0].inserted_at, store.entries[0].updated_at);
    assert_eq!(store.entries[0].inserted_at, 123456);
    assert_eq!(store.entries[0].updated_at, 123456);
}

#[test]
fn handle_entry_success_scenario() {
    let mut store = Store::new();
    store.migrate();
    let r = store.handle_entry("  Hello world  ", 42);
    assert!(r.contains("Created. Length: 11 chars."));
    assert!(r.contains("is-success"));
    assert_eq!(store.entries.len(), 1);
    assert_eq!(store.entries[0].body, "Hello world");
}

#[test]
fn handle_entry_error_scenario() {
    let mut store = Store::new();
    store.migrate();
    let r = store.handle_entry("   ", 42);
    assert!(r.contains("is-danger"));
    assert!(r.contains("CHECK constraint failed"));
    assert_eq!(store.entries.len(), 0);
}

#[test]
fn identifiers_ascend_from_one() {
    let mut store = Store::new();
    store.migrate();
    let a = store.create_entry("a", 1);
    let b = store.create_entry("b", 2);
    let c = store.create_entry("c", 3);
    assert!(a.is_ok());
    assert!(b.is_ok());
    assert!(c.is_ok());
    assert_eq!(store.entries[0].id, 1);
    assert_eq!(store.entries[1].id, 2);
    assert_eq!(store.entries[2].id, 3);
}

#[test]
fn error_message_is_the_constraint_text() {
    assert_eq!(
        StorageError::EmptyBody.message(),
        "CHECK constraint failed: length(trim(body)) > 0"
    );
}

#[test]
fn migration_sql_has_three_statements() {
    let stmts = gateway::migration_sql();
    assert_eq!(stmts.len(), 3);
    assert!(stmts[0].contains("create table if not exists entries"));
    assert!(stmts[0].contains("check(length(trim(body)) > 0)"));
    assert!(stmts[1].contains("create index if not exists entries_inserted_at"));
    assert!(stmts[2].contains("create trigger if not exists entries_updated_at"));
}

#[test]
fn default_port_is_fixed() {
    assert_eq!(gateway::DEFAULT_PORT, 9999);
}

#[test]
fn db_file_name_is_fixed() {
    assert_eq!(gateway::db_file_name(), "journal.db");
}
