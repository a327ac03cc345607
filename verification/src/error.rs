//! The failures that the store and the counter report.

use vstd::prelude::*;
use vstd::string::StringExecFns;

verus! {

/// `rusqlite::Error`, carried as an opaque value.
#[verifier::external_type_specification]
#[verifier::external_body]
pub struct ExDatabaseError(rusqlite::Error);

/// The words in which a database error describes itself: what its `Display`
/// writes. They depend on the error alone.
pub uninterp spec fn database_words(error: rusqlite::Error) -> Seq<char>;

/// Calls `rusqlite::Error`'s `Display` through `to_string`. The text is the
/// database's own account of the failure, whatever it says.
#[verifier::external_body]
fn database_error_text(error: &rusqlite::Error) -> (text: String)
    ensures
        text@ == database_words(*error),
{
    error.to_string()
}

/// A failure of the persistent store.
#[derive(Debug, PartialEq)]
pub enum StoreError {
    /// The database refused or failed a statement; the cause is carried along.
    Database(rusqlite::Error),
    /// The record breaks a constraint of the table: an empty name, or a count
    /// below one or beyond what the column holds.
    Constraint,
}

/// A failure of one visit: the store failure that stopped it.
#[derive(Debug, PartialEq)]
pub struct CounterError {
    pub cause: StoreError,
}

/// What is said of a record that the store refuses as invalid.
pub open spec fn constraint_text() -> Seq<char> {
    "the record breaks a constraint of the table"@
}

impl StoreError {
    /// Why the store failed, in words: the database's own words for a
    /// failure of the database, fixed words for a broken constraint.
    pub open spec fn words(&self) -> Seq<char> {
        match self {
            StoreError::Database(error) => database_words(*error),
            StoreError::Constraint => constraint_text(),
        }
    }

    /// Says in words why the store failed.
    pub fn message(&self) -> (text: String)
        ensures
            text@ == self.words(),
    {
        match self {
            StoreError::Database(error) => database_error_text(error),
            StoreError::Constraint => String::from_str(
                "the record breaks a constraint of the table",
            ),
        }
    }
}

impl CounterError {
    /// Says in words why the visit failed: the message of its cause.
    pub fn message(&self) -> (text: String)
        ensures
            text@ == self.cause.words(),
    {
        self.cause.message()
    }
}

} // verus!
