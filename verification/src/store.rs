//! A model of the persistence layer: the single table of journal entries,
//! its schema migration, and the entry service that validates and inserts.
//!
//! The store models exactly what the relational schema enforces — rows with
//! unique ascending identifiers, a body whose trimmed content is non-empty,
//! and timestamps that are equal at creation. The surrounding binary keeps
//! the same rows in the on-disk database; this type is what the library's
//! contracts and tests speak of.

use vstd::prelude::*;
use vstd::string::StrSliceExecFns;
use vstd::string::StringExecFns;

use crate::render::flash_html;
use crate::render::form_html;
use crate::render::render_entry_response;
use crate::render::success_text;
use crate::text::escape_spec;
use crate::text::lemma_trim_idempotent;
use crate::text::trim_spec;
use crate::text::trim_str;

verus! {

/// One persisted journal row.
pub struct Entry {
    /// Auto-assigned, unique, immutable identity.
    pub id: u64,
    /// The stored body: trimmed, with non-empty trimmed content.
    pub body: String,
    /// Creation time, set once.
    pub inserted_at: u64,
    /// Last-modification time; equals `inserted_at` until the row is updated
    /// (no update path exists in scope).
    pub updated_at: u64,
}

/// Why the store refused an insert. The only constraint in the schema is the
/// non-empty-body check, so the only error is its violation.
pub enum StorageError {
    EmptyBody,
}

/// The message the storage layer reports for a rejected insert; it is
/// surfaced to the caller verbatim.
pub open spec fn constraint_message() -> Seq<char> {
    "CHECK constraint failed: length(trim(body)) > 0"@
}

impl StorageError {
    /// The storage error text, surfaced verbatim to the user.
    pub fn message(&self) -> (r: String)
        ensures
            r@ == constraint_message(),
    {
        String::from_str("CHECK constraint failed: length(trim(body)) > 0")
    }
}

/// The journal store: whether the schema has been applied, the identifier
/// the next row will receive, and the rows in insertion order.
pub struct Store {
    pub migrated: bool,
    pub next_id: u64,
    pub entries: Vec<Entry>,
}

/// The store after a schema migration: the schema is applied and nothing
/// else changes.
pub open spec fn spec_migrate(s: Store) -> Store {
    Store { migrated: true, next_id: s.next_id, entries: s.entries }
}

/// The result the entry service owes for a given raw body: the trimmed
/// character count if the trimmed body is non-empty, and the constraint
/// violation otherwise.
pub open spec fn entry_outcome(raw: Seq<char>) -> Result<u64, StorageError> {
    let t = trim_spec(raw);
    if t.len() > 0 {
        Result::Ok(t.len() as u64)
    } else {
        Result::Err(StorageError::EmptyBody)
    }
}

/// How an entry creation changes the store: on success exactly one new row
/// is appended, carrying the trimmed body, the next identifier and equal
/// timestamps; on failure the store is unchanged.
pub open spec fn entry_transition(pre: Store, post: Store, raw: Seq<char>, now: u64) -> bool {
    let t = trim_spec(raw);
    if t.len() > 0 {
        &&& post.entries@.len() == pre.entries@.len() + 1
        &&& post.entries@[pre.entries@.len() as int].id == pre.next_id
        &&& post.entries@[pre.entries@.len() as int].body@ == t
        &&& post.entries@[pre.entries@.len() as int].inserted_at == now
        &&& post.entries@[pre.entries@.len() as int].updated_at == now
        &&& forall|k: int|
            0 <= k < pre.entries@.len() ==> post.entries@[k] == pre.entries@[k]
        &&& post.next_id == pre.next_id + 1
        &&& post.migrated == pre.migrated
    } else {
        post == pre
    }
}

impl Store {
    /// The invariants the schema enforces: identifiers are assigned in
    /// ascending order starting at one, and every stored body passes the
    /// non-empty-trimmed-content check and is stored already trimmed.
    pub open spec fn wf(self) -> bool {
        &&& self.next_id == self.entries@.len() + 1
        &&& forall|k: int|
            0 <= k < self.entries@.len() ==> (#[trigger] self.entries@[k]).id == k + 1
        &&& forall|k: int|
            0 <= k < self.entries@.len() ==> trim_spec(
                (#[trigger] self.entries@[k]).body@,
            ) == self.entries@[k].body@
        &&& forall|k: int|
            0 <= k < self.entries@.len() ==> (#[trigger] self.entries@[k]).body@.len() > 0
    }

    /// Every row still shows its creation state: `updated_at` equals
    /// `inserted_at`. Holds of every store built without an update path.
    pub open spec fn rows_fresh(self) -> bool {
        forall|k: int|
            0 <= k < self.entries@.len() ==> (#[trigger] self.entries@[k]).inserted_at
                == self.entries@[k].updated_at
    }

    /// How many schema objects (table, index, trigger) the migration has
    /// installed.
    pub open spec fn schema_object_count(self) -> int {
        if self.migrated {
            3
        } else {
            0
        }
    }

    /// An empty store over which the schema has not yet been applied.
    pub fn new() -> (s: Store)
        ensures
            s.wf(),
            s.rows_fresh(),
            !s.migrated,
            s.entries@.len() == 0,
            s.next_id == 1,
    {
        Store { migrated: false, next_id: 1, entries: Vec::new() }
    }

    /// Applies the schema. Idempotent and safe to run on every start: on a
    /// store that is already migrated it changes nothing at all.
    pub fn migrate(&mut self)
        ensures
            *final(self) == spec_migrate(*old(self)),
            final(self).schema_object_count() == 3,
            old(self).wf() ==> final(self).wf(),
            old(self).rows_fresh() ==> final(self).rows_fresh(),
            old(self).migrated ==> *final(self) == *old(self),
    {
        self.migrated = true;
    }

    /// Validates and inserts a new entry.
    ///
    /// The raw body is trimmed; if the trimmed content is non-empty, one row
    /// is persisted with the trimmed body, equal creation timestamps, and
    /// the next identifier, and the character count of the stored body is
    /// returned. Otherwise the constraint rejects the insert and no row is
    /// persisted.
    pub fn create_entry(&mut self, raw_body: &str, now: u64) -> (r: Result<u64, StorageError>)
        requires
            old(self).wf(),
            old(self).migrated,
            old(self).next_id < u64::MAX,
        ensures
            final(self).wf(),
            r == entry_outcome(raw_body@),
            entry_transition(*old(self), *final(self), raw_body@, now),
            old(self).rows_fresh() ==> final(self).rows_fresh(),
    {
        let trimmed = trim_str(raw_body);
        let count = trimmed.unicode_len();
        if count == 0 {
            Result::Err(StorageError::EmptyBody)
        } else {
            let id = self.next_id;
            let entry = Entry { id, body: trimmed, inserted_at: now, updated_at: now };
            self.entries.push(entry);
            self.next_id = id + 1;
            proof {
                lemma_trim_idempotent(raw_body@);
            }
            Result::Ok(count as u64)
        }
    }

    /// The full response to an entry submission: validates and inserts as
    /// `create_entry`, then renders the form fragment again with a success
    /// notice reading the stored character count, or with the storage error
    /// message verbatim.
    pub fn handle_entry(&mut self, raw_body: &str, now: u64) -> (r: String)
        requires
            old(self).wf(),
            old(self).migrated,
            old(self).next_id < u64::MAX,
        ensures
            final(self).wf(),
            entry_transition(*old(self), *final(self), raw_body@, now),
            old(self).rows_fresh() ==> final(self).rows_fresh(),
            trim_spec(raw_body@).len() > 0 ==> r@ == form_html(
                Option::Some(
                    flash_html(true, success_text((trim_spec(raw_body@).len() as u64) as int)),
                ),
            ),
            trim_spec(raw_body@).len() == 0 ==> r@ == form_html(
                Option::Some(flash_html(false, escape_spec(constraint_message()))),
            ),
    {
        match self.create_entry(raw_body, now) {
            Result::Ok(n) => render_entry_response(Result::Ok(n)),
            Result::Err(e) => render_entry_response(Result::Err(e.message())),
        }
    }
}

/// Law: schema migration is idempotent. Migrating a store a second time
/// yields exactly the store the first migration produced, with the same
/// count of schema objects.
pub proof fn lemma_migrate_idempotent(s: Store)
    ensures
        spec_migrate(spec_migrate(s)) == spec_migrate(s),
        spec_migrate(spec_migrate(s)).schema_object_count() == spec_migrate(
            s,
        ).schema_object_count(),
{
}

} // verus!
