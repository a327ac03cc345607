//! The durable mapping from visitor name to visit count.
//!
//! The records live in the `visitors` table of an SQLite database that the
//! store opens in memory and owns, so nothing but this module writes them.
//! Each SQL statement is issued by one small function whose contract states,
//! without proof, what the statement does to the table; everything else is
//! verified against those contracts.

use crate::error::StoreError;
use crate::model::{no_counts, valid_count, valid_name, well_formed, Counts, MAX_COUNT};
use crate::record::VisitorRecord;
use rusqlite::OptionalExtension;
use vstd::prelude::*;

verus! {

/// `rusqlite::Connection`, carried as an opaque value.
#[verifier::external_type_specification]
#[verifier::external_body]
pub struct ExConnection(rusqlite::Connection);

/// The rows of the `visitors` table that a connection reaches, as a map from
/// name to count; the empty map while the table does not exist.
pub uninterp spec fn table_rows(conn: rusqlite::Connection) -> Map<Seq<char>, int>;

/// Whether the `visitors` table exists in the database of a connection.
pub uninterp spec fn has_table(conn: rusqlite::Connection) -> bool;

/// Calls `Connection::open_in_memory`. A database opened this way is private
/// to the connection and starts without any table, hence without rows.
#[verifier::external_body]
fn open_memory() -> (opened: Result<rusqlite::Connection, rusqlite::Error>)
    ensures
        opened matches Ok(conn) ==> !has_table(conn) && table_rows(conn) == no_counts(),
{
    rusqlite::Connection::open_in_memory()
}

/// Calls `Connection::execute` with `CREATE TABLE IF NOT EXISTS`. On success
/// the table exists: the statement has added it, empty, or found it in
/// place. A failed statement adds nothing. Either way no row is touched.
#[verifier::external_body]
fn create_table(conn: &mut rusqlite::Connection) -> (created: Result<usize, rusqlite::Error>)
    ensures
        table_rows(*final(conn)) == table_rows(*old(conn)),
        match created {
            Ok(_) => has_table(*final(conn)),
            Err(_) => has_table(*final(conn)) == has_table(*old(conn)),
        },
{
    conn.execute(
        "CREATE TABLE IF NOT EXISTS visitors (name TEXT NOT NULL PRIMARY KEY, count INTEGER NOT NULL)",
        (),
    )
}

/// Calls `Connection::query_row` and `OptionalExtension::optional` with a
/// `SELECT` of the count stored under `name`. The name is the table's primary
/// key, so at most one row matches: `Some` carries that row's count, `None`
/// says that no row has the name. Without the table the statement cannot be
/// prepared and the call fails; nothing else is claimed of a failure.
#[verifier::external_body]
fn select_count(conn: &rusqlite::Connection, name: &str) -> (found: Result<
    Option<i64>,
    rusqlite::Error,
>)
    ensures
        match found {
            Ok(Some(count)) => table_rows(*conn).contains_key(name@) && table_rows(*conn)[name@]
                == count,
            Ok(None) => !table_rows(*conn).contains_key(name@),
            Err(_) => true,
        },
        !has_table(*conn) ==> found is Err,
{
    conn.query_row("SELECT count FROM visitors WHERE name = ?1", (name,), |row| {
        row.get::<usize, i64>(0)
    }).optional()
}

/// Calls `Connection::execute` with an `UPDATE` of the count stored under
/// `name`. On success the result is the number of rows changed: one, with the
/// new count in place, when a row has the name, and zero, with the rows as
/// they were, when none has. A failed statement changes nothing, and without
/// the table the call fails.
#[verifier::external_body]
fn update_count(conn: &mut rusqlite::Connection, name: &str, count: i64) -> (changed: Result<
    usize,
    rusqlite::Error,
>)
    ensures
        match changed {
            Ok(rows) => if table_rows(*old(conn)).contains_key(name@) {
                rows == 1 && table_rows(*final(conn)) == table_rows(*old(conn)).insert(
                    name@,
                    count as int,
                )
            } else {
                rows == 0 && table_rows(*final(conn)) == table_rows(*old(conn))
            },
            Err(_) => table_rows(*final(conn)) == table_rows(*old(conn)),
        },
        has_table(*final(conn)) == has_table(*old(conn)),
        !has_table(*old(conn)) ==> changed is Err,
{
    conn.execute("UPDATE visitors SET count = ?2 WHERE name = ?1", (name, count))
}

/// Calls `Connection::execute` with an `INSERT` of the row `(name, count)`.
/// On success the row is in the table. The primary key lets the statement
/// fail rather than add a second row under one name. A failed statement
/// changes nothing, and without the table the call fails.
#[verifier::external_body]
fn insert_row(conn: &mut rusqlite::Connection, name: &str, count: i64) -> (inserted: Result<
    usize,
    rusqlite::Error,
>)
    ensures
        match inserted {
            Ok(_) => table_rows(*final(conn)) == table_rows(*old(conn)).insert(
                name@,
                count as int,
            ),
            Err(_) => table_rows(*final(conn)) == table_rows(*old(conn)),
        },
        has_table(*final(conn)) == has_table(*old(conn)),
        !has_table(*old(conn)) ==> inserted is Err,
{
    conn.execute("INSERT INTO visitors (name, count) VALUES (?1, ?2)", (name, count))
}

/// What is left to do after the update of a write.
#[derive(Debug, Clone, Copy, PartialEq, Eq, Structural)]
pub enum WriteStep {
    /// The update changed the record of the name: the write is done.
    Done,
    /// The update found no record of the name: the record is to be inserted.
    Insert,
}

/// What the outcome of the update makes of a write: its failure, or the
/// step that follows from the number of rows it changed.
pub open spec fn stepped(updated: Result<usize, StoreError>) -> Result<WriteStep, StoreError> {
    match updated {
        Err(cause) => Err(cause),
        Ok(changed) => if changed == 0 {
            Ok(WriteStep::Insert)
        } else {
            Ok(WriteStep::Done)
        },
    }
}

/// Decides from the outcome of the update whether a write inserts or
/// overwrites. An update that changed no row found no record under the
/// name, so the record is inserted; one that changed a row has overwritten
/// the count. A failed update fails the write with the same cause, and
/// nothing is inserted.
pub fn step_after_update(updated: Result<usize, StoreError>) -> (step: Result<
    WriteStep,
    StoreError,
>)
    ensures
        step == stepped(updated),
{
    match updated {
        Err(cause) => Err(cause),
        Ok(changed) => {
            if changed == 0 {
                Ok(WriteStep::Insert)
            } else {
                Ok(WriteStep::Done)
            }
        },
    }
}

/// The single source of truth for visit counts: one record per name, kept in
/// an SQLite database that the store owns.
pub struct PersistentStore {
    conn: rusqlite::Connection,
}

impl PersistentStore {
    /// The records of the store, as counts by name.
    pub closed spec fn view(&self) -> Counts {
        table_rows(self.conn)
    }

    /// Whether the table of the store has been created.
    pub closed spec fn ready(&self) -> bool {
        has_table(self.conn)
    }

    /// Every record that the store holds is valid.
    pub open spec fn wf(&self) -> bool {
        well_formed(self@)
    }

    /// Opens a store on a fresh in-memory database. The table is not created
    /// yet: until `ensure_schema` has succeeded, reads and writes fail.
    pub fn open_in_memory() -> (opened: Result<PersistentStore, StoreError>)
        ensures
            match opened {
                Ok(store) => store.wf() && !store.ready() && store@ == no_counts(),
                Err(e) => e is Database,
            },
    {
        match open_memory() {
            Ok(conn) => Ok(PersistentStore { conn }),
            Err(e) => Err(StoreError::Database(e)),
        }
    }

    /// Makes sure that the table exists. It can be called any number of
    /// times, and never changes a record.
    pub fn ensure_schema(&mut self) -> (ensured: Result<(), StoreError>)
        ensures
            final(self)@ == old(self)@,
            match ensured {
                Ok(()) => final(self).ready(),
                Err(e) => e is Database && final(self).ready() == old(self).ready(),
            },
    {
        match create_table(&mut self.conn) {
            Ok(_) => Ok(()),
            Err(e) => Err(StoreError::Database(e)),
        }
    }

    /// Looks up the record of `name`. `None` means that the name has no
    /// record; a failure of the database is reported, never read as `None`.
    pub fn get(&self, name: &str) -> (found: Result<Option<VisitorRecord>, StoreError>)
        requires
            self.wf(),
        ensures
            match found {
                Ok(Some(record)) => self@.contains_key(name@) && record.name@ == name@
                    && record.count as int == self@[name@] && record.wf(),
                Ok(None) => !self@.contains_key(name@),
                Err(e) => e is Database,
            },
            !self.ready() ==> found is Err,
    {
        match select_count(&self.conn, name) {
            Ok(Some(count)) => Ok(Some(VisitorRecord { name: name.to_owned(), count: count as u64 })),
            Ok(None) => Ok(None),
            Err(e) => Err(StoreError::Database(e)),
        }
    }

    /// Writes `count` as the count of `name`: a new record if the name has
    /// none, the new count in the existing record otherwise. A record that
    /// would not be valid is refused with `Constraint` before the database is
    /// asked; any failure leaves the store as it was.
    pub fn upsert(&mut self, name: &str, count: u64) -> (written: Result<(), StoreError>)
        requires
            old(self).wf(),
        ensures
            final(self).wf(),
            final(self).ready() == old(self).ready(),
            match written {
                Ok(()) => final(self)@ == old(self)@.insert(name@, count as int),
                Err(e) => final(self)@ == old(self)@,
            },
            !(valid_name(name@) && valid_count(count as int)) <==> written matches Err(
                StoreError::Constraint,
            ),
            !old(self).ready() ==> written is Err,
    {
        if name.is_empty() || count < 1 || count > MAX_COUNT {
            return Err(StoreError::Constraint);
        }
        let value: i64 = count as i64;
        let updated = match update_count(&mut self.conn, name, value) {
            Ok(changed) => Ok(changed),
            Err(e) => Err(StoreError::Database(e)),
        };
        match step_after_update(updated) {
            Err(cause) => Err(cause),
            Ok(WriteStep::Done) => Ok(()),
            Ok(WriteStep::Insert) => match insert_row(&mut self.conn, name, value) {
                Ok(_) => Ok(()),
                Err(e) => Err(StoreError::Database(e)),
            },
        }
    }
}

} // verus!
