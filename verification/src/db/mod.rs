//! The task store: opening a connection, the table model and the task
//! operations.

pub mod laws;
pub mod store;
pub mod table;
pub mod task;

use crate::db::store::{
    database_path, has_tasks_table, id_mark, is_private, open_database, task_rows,
};
use crate::db::task::{build_tasks_db_table, built, store_outcome, TaskError};
use rusqlite::Connection;
use vstd::prelude::*;

verus! {

/// Where the tasks are kept: in memory for a test run, in a scratch file for a
/// dry run, else in the tracker's own file.
pub open spec fn path_for(is_test: Option<bool>, is_dry_test: Option<bool>) -> Seq<char> {
    if is_test == Some(true) {
        ":memory:"@
    } else if is_dry_test == Some(true) {
        "test_tasks.db"@
    } else {
        "tasks.db"@
    }
}

/// The database path for the given mode; a test run wins over a dry run.
pub fn db_path(is_test: Option<bool>, is_dry_test: Option<bool>) -> (path: &'static str)
    ensures
        path@ == path_for(is_test, is_dry_test),
{
    match is_test {
        Some(true) => ":memory:",
        _ => match is_dry_test {
            Some(true) => "test_tasks.db",
            _ => "tasks.db",
        },
    }
}

/// Makes sure the schema exists on `conn`; rows that are there stay.
pub fn build_db(conn: &mut Connection) -> (r: Result<(), TaskError>)
    ensures
        built(*old(conn), *final(conn), r),
{
    build_tasks_db_table(conn)
}

/// Opens the database of the given mode and makes sure the schema exists.
///
/// A connection that comes back is on the path of the mode. One opened for a
/// test run has its database to itself: it has the `tasks` relation, no rows,
/// and has given out no id, so the first task gets id 1. Of what a database
/// on a file holds nothing is promised, since other connections can write to
/// it. A store failure is `Storage`.
pub fn connect_db(is_test: Option<bool>, is_dry_test: Option<bool>) -> (r: Result<
    Connection,
    TaskError,
>)
    ensures
        match r {
            Ok(conn) => {
                &&& database_path(conn) == path_for(is_test, is_dry_test)
                &&& is_test == Some(true) ==> is_private(conn)
                &&& is_private(conn) ==> {
                    &&& has_tasks_table(conn)
                    &&& task_rows(conn).len() == 0
                    &&& id_mark(conn) == 0
                }
            },
            Err(error) => error is Storage,
        },
{
    let mut conn = match store_outcome(open_database(db_path(is_test, is_dry_test))) {
        Ok(conn) => conn,
        Err(error) => {
            return Err(error);
        },
    };
    match build_db(&mut conn) {
        Ok(_) => Ok(conn),
        Err(error) => Err(error),
    }
}

} // verus!
