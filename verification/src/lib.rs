//! A task tracker over a local SQLite store: named tasks with a done flag,
//! a creation time and soft deletion, and the command dispatcher on top.

pub mod commands;
pub mod db;
pub mod text;

pub use crate::commands::{command_switch, Commands};
pub use crate::db::connect_db;

use crate::commands::{switched, Report};
use crate::db::path_for;
use crate::db::store::database_path;
use crate::db::task::TaskError;
use rusqlite::Connection;
use vstd::prelude::*;

verus! {

/// The parsed command line: one command.
#[derive(Debug)]
pub struct Args {
    pub cmd: Commands,
}

/// Runs one command from start to end: opens the tracker's file, or the
/// scratch file for a dry run, makes sure the schema exists, and dispatches
/// the command.
///
/// `Err` means that the database could not be opened or prepared, and is
/// `Storage`. Otherwise the report is what the command gave on a connection to
/// `tasks.db`, or to `test_tasks.db` where the command asks for a dry run,
/// and never to a database in memory. The database is on a file, which other
/// connections can write to, so of the table nothing more is promised than
/// what holds of the values that the task operation returned.
pub fn run(args: Args) -> (r: Result<Report, TaskError>)
    ensures
        match r {
            Ok(report) => exists|before: Connection, after: Connection|
                database_path(before) == path_for(Some(false), Some(args.cmd.is_dry()))
                    && #[trigger] switched(args.cmd, before, after, report@),
            Err(error) => error is Storage,
        },
{
    let is_dry_test = args.cmd.dry_test();
    let mut conn = match connect_db(Some(false), Some(is_dry_test)) {
        Ok(conn) => conn,
        Err(error) => {
            return Err(error);
        },
    };
    let ghost before = conn;
    let report = command_switch(args, &mut conn);
    assert(switched(args.cmd, before, conn, report@));
    Ok(report)
}

} // verus!
