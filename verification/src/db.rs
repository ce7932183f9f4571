//! The errors of setting up the daemon's database, and the decisions taken
//! while setting it up.

use vstd::prelude::*;

verus! {

/// An error while setting up the database.
#[derive(Clone, Copy, Debug, PartialEq, Eq)]
pub enum DBError {
    InitialisationError(&'static str),
}

/// What creating the data directory came to.
#[derive(Clone, Copy, Debug, PartialEq, Eq, Structural)]
pub enum DirCreation {
    Created,
    AlreadyExists,
    Failed,
}

/// Returns the error for a missing home directory.
pub fn no_home_error() -> (res: DBError)
    ensures
        res matches DBError::InitialisationError(m) && m@ == "Could not find home directory"@,
{
    DBError::InitialisationError("Could not find home directory")
}

/// Decides whether setting up can go on after creating the data
/// directory: a directory that already exists is fine.
pub fn check_data_dir(outcome: DirCreation) -> (res: Result<(), DBError>)
    ensures
        outcome != DirCreation::Failed ==> res is Ok,
        outcome == DirCreation::Failed ==> (res matches Err(DBError::InitialisationError(m))
            && m@ == "Error creating the data directory"@),
{
    match outcome {
        DirCreation::Created => Ok(()),
        DirCreation::AlreadyExists => Ok(()),
        DirCreation::Failed => Err(DBError::InitialisationError("Error creating the data directory")),
    }
}

/// Decides the outcome of setting up the tables: an error when SQLite
/// failed.
pub fn check_tables(tables_ok: bool) -> (res: Result<(), DBError>)
    ensures
        tables_ok ==> res is Ok,
        !tables_ok ==> (res matches Err(DBError::InitialisationError(m))
            && m@ == "Error initialising the database"@),
{
    if tables_ok {
        Ok(())
    } else {
        Err(DBError::InitialisationError("Error initialising the database"))
    }
}

/// The name of the database file inside the data directory.
pub fn db_name() -> (res: &'static str)
    ensures
        res@ == "automations.db"@,
{
    "automations.db"
}

} // verus!
