//! The persistence gateway's fixed data: the SQL that the schema migration
//! executes, and the configuration defaults of the process.
//!
//! The migration installs three schema objects — the entries table with its
//! non-empty-body check, a secondary index on `inserted_at`, and the trigger
//! that refreshes `updated_at` on every row update. Each statement is
//! guarded by `if not exists`, so running the whole migration again applies
//! nothing and raises no error. The surrounding binary executes these
//! statements inside one transaction.

use vstd::prelude::*;

verus! {

/// The listen port used when none is configured.
pub const DEFAULT_PORT: u16 = 9999;

/// How many seconds a write waits for the storage lock before failing.
pub const BUSY_TIMEOUT_SECS: u64 = 5;

/// The file name of the database inside the per-user data directory.
pub fn db_file_name() -> (r: &'static str)
    ensures
        r@ == "journal.db"@,
{
    "journal.db"
}

/// The entries table: ascending integer identity, a body whose trimmed
/// content must be non-empty, and timestamps that default to the same
/// creation instant.
pub open spec fn create_table_sql() -> Seq<char> {
    "create table if not exists entries (\n            id integer primary key autoincrement not null,\n            body text not null check(length(trim(body)) > 0),\n            inserted_at datetime not null default(STRFTIME('%Y-%m-%d %H:%M:%f', 'NOW')),\n            updated_at datetime not null default(STRFTIME('%Y-%m-%d %H:%M:%f', 'NOW'))\n        )"@
}

/// The secondary index on `inserted_at`, for future chronological listing.
pub open spec fn create_index_sql() -> Seq<char> {
    "create index if not exists entries_inserted_at on entries (inserted_at);"@
}

/// The trigger that refreshes `updated_at` whenever a row is updated.
pub open spec fn create_trigger_sql() -> Seq<char> {
    "create trigger if not exists entries_updated_at after update on entries\n        begin\n            update entries set updated_at = STRFTIME('%Y-%m-%d %H:%M:%f', 'NOW')\n            where id = old.id;\n        end;"@
}

/// The migration statements in the order they must run: one per schema
/// object, each a no-op when the object already exists.
pub fn migration_sql() -> (r: Vec<&'static str>)
    ensures
        r@.len() == 3,
        r@[0]@ == create_table_sql(),
        r@[1]@ == create_index_sql(),
        r@[2]@ == create_trigger_sql(),
{
    let mut v: Vec<&'static str> = Vec::new();
    v.push(
        "create table if not exists entries (\n            id integer primary key autoincrement not null,\n            body text not null check(length(trim(body)) > 0),\n            inserted_at datetime not null default(STRFTIME('%Y-%m-%d %H:%M:%f', 'NOW')),\n            updated_at datetime not null default(STRFTIME('%Y-%m-%d %H:%M:%f', 'NOW'))\n        )",
    );
    v.push("create index if not exists entries_inserted_at on entries (inserted_at);");
    v.push(
        "create trigger if not exists entries_updated_at after update on entries\n        begin\n            update entries set updated_at = STRFTIME('%Y-%m-%d %H:%M:%f', 'NOW')\n            where id = old.id;\n        end;",
    );
    v
}

} // verus!
