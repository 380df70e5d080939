//! The boundary to `rusqlite`: the declared outside types, the names for what a
//! connection holds, and one wrapper per SQL statement.
//!
//! Nothing in this file is proved. A connection on the path `:memory:` has a
//! database of its own, which changes only through that connection: of such a
//! connection the contracts say what each statement does to the table, taking
//! the relation to be the one that `create_table` makes. A database on a file
//! can change under any connection and may hold a relation made otherwise, so
//! of a connection on a file the contracts say only what holds of the values
//! that a call returns, whatever the file holds.

use crate::db::table::{answers, ascending, is_fresh, with_deletion, with_status};
use crate::db::task::{row_of, rows_of, Task, TaskRow};
use rusqlite::Connection;
use rusqlite::OptionalExtension;
use vstd::prelude::*;

verus! {

/// `rusqlite::Connection`, opaque to the verifier.
#[verifier::external_type_specification]
#[verifier::external_body]
pub struct ExConnection(rusqlite::Connection);

/// `rusqlite::Error`, opaque to the verifier.
#[verifier::external_type_specification]
#[verifier::external_body]
pub struct ExError(rusqlite::Error);

/// The path that `conn` was opened on.
pub uninterp spec fn database_path(conn: Connection) -> Seq<char>;

/// The rows of the `tasks` relation in the private database of `conn`, in
/// ascending id order; empty while the relation does not exist. Nothing is
/// claimed of it unless `is_private(conn)`.
pub uninterp spec fn task_rows(conn: Connection) -> Seq<TaskRow>;

/// Whether the private database of `conn` has the `tasks` relation. Nothing is
/// claimed of it unless `is_private(conn)`.
pub uninterp spec fn has_tasks_table(conn: Connection) -> bool;

/// The largest id that the `tasks` relation in the private database of `conn`
/// has given out so far: the larger of the largest id in the table and of what
/// `AUTOINCREMENT` remembers; 0 while neither is there. Nothing is claimed of
/// it unless `is_private(conn)`.
pub uninterp spec fn id_mark(conn: Connection) -> int;

/// Whether `conn` has a database of its own, in memory, that no other
/// connection reaches.
pub open spec fn is_private(conn: Connection) -> bool {
    database_path(conn) == ":memory:"@
}

/// `Connection::open`. Claims that the connection is on the path given, and
/// that the path `:memory:` gives a fresh database, which has no rows and has
/// given out no id.
#[verifier::external_body]
pub(crate) fn open_database(path: &str) -> (r: Result<Connection, rusqlite::Error>)
    ensures
        r matches Ok(conn) ==> {
            &&& database_path(conn) == path@
            &&& is_private(conn) ==> task_rows(conn).len() == 0 && id_mark(conn) == 0
        },
{
    Connection::open(path)
}

/// `Connection::execute` on `CREATE TABLE IF NOT EXISTS`. Claims that the
/// connection stays on its path, and of a private database that after success
/// the relation exists and holds the rows it held before (none, if it was
/// just created), with the same ids given out.
#[verifier::external_body]
pub(crate) fn create_table(conn: &mut Connection) -> (r: Result<usize, rusqlite::Error>)
    ensures
        database_path(*final(conn)) == database_path(*old(conn)),
        r is Ok && is_private(*old(conn)) ==> {
            &&& has_tasks_table(*final(conn))
            &&& task_rows(*final(conn)) == task_rows(*old(conn))
            &&& id_mark(*final(conn)) == id_mark(*old(conn))
        },
{
    conn.execute(
        "CREATE TABLE IF NOT EXISTS tasks (
            id INTEGER PRIMARY KEY AUTOINCREMENT,
            created_at DATETIME NOT NULL DEFAULT CURRENT_TIMESTAMP,
            deleted_at DATETIME NULL,
            name TEXT NOT NULL,
            is_done BOOLEAN NOT NULL
        )",
        (),
    )
}

/// `Connection::query_row` on `INSERT .. RETURNING`. Claims that the connection
/// stays on its path and that a returned row has the given name and done
/// flag. Of a private database it claims also that after success the relation
/// is there, that the table is the old one with the returned row appended,
/// that this row has no deletion time, and that its id is one above the
/// largest id given out before (`AUTOINCREMENT`), so above every id in the
/// table.
#[verifier::external_body]
pub(crate) fn insert_row(conn: &mut Connection, name: &str, done: bool) -> (r: Result<
    Task,
    rusqlite::Error,
>)
    ensures
        database_path(*final(conn)) == database_path(*old(conn)),
        r matches Ok(task) ==> {
            &&& task.name@ == name@
            &&& task.is_done == done
            &&& is_private(*old(conn)) ==> {
                &&& task.deleted_at is None
                &&& has_tasks_table(*final(conn))
                &&& task.id == id_mark(*old(conn)) + 1
                &&& id_mark(*final(conn)) == task.id
                &&& is_fresh(task_rows(*old(conn)), task.id as int)
                &&& task_rows(*final(conn)) == task_rows(*old(conn)).push(task@)
            }
        },
{
    conn.query_row(
        "INSERT INTO tasks (name, is_done) VALUES (?1, ?2)
         RETURNING id, name, is_done, created_at, deleted_at",
        (name, done),
        |row| row.try_into().map(Task::from_columns),
    )
}

/// `Connection::execute` on `UPDATE .. SET is_done`. Claims that the connection
/// stays on its path, and of a private database that after success the
/// relation is there, the row with the given id, if any, has the given flag,
/// and nothing else changed.
#[verifier::external_body]
pub(crate) fn set_done(conn: &mut Connection, id: u32, done: bool) -> (r: Result<
    usize,
    rusqlite::Error,
>)
    ensures
        database_path(*final(conn)) == database_path(*old(conn)),
        r is Ok && is_private(*old(conn)) ==> {
            &&& has_tasks_table(*final(conn))
            &&& id_mark(*final(conn)) == id_mark(*old(conn))
            &&& task_rows(*final(conn)) == with_status(task_rows(*old(conn)), id as int, done)
        },
{
    conn.execute("UPDATE tasks SET is_done = ?1 WHERE id = ?2", (done, id))
}

/// `Connection::execute` on `UPDATE .. SET deleted_at = CURRENT_TIMESTAMP`.
/// Claims that the connection stays on its path, and of a private database
/// that after success the relation is there, the row with the given id, if
/// any, carries one deletion time, which the store chose, and nothing else
/// changed.
#[verifier::external_body]
pub(crate) fn mark_deleted(conn: &mut Connection, id: u32) -> (r: Result<usize, rusqlite::Error>)
    ensures
        database_path(*final(conn)) == database_path(*old(conn)),
        r is Ok && is_private(*old(conn)) ==> {
            &&& has_tasks_table(*final(conn))
            &&& id_mark(*final(conn)) == id_mark(*old(conn))
            &&& exists|stamp: Seq<char>|
                task_rows(*final(conn)) == #[trigger] with_deletion(
                    task_rows(*old(conn)),
                    id as int,
                    stamp,
                )
        },
{
    conn.execute("UPDATE tasks SET deleted_at = CURRENT_TIMESTAMP WHERE id = ?1", (id,))
}

/// `Connection::query_row` on `SELECT .. WHERE id`, with
/// `OptionalExtension::optional` for the empty answer. Claims that a returned
/// task has the id asked for. Of a private database it claims also that an
/// answer means the relation is there, that a returned task is the row of the
/// table with that id, that `None` means no row has it, and that the ids of
/// the table ascend strictly (primary key).
#[verifier::external_body]
pub(crate) fn fetch_by_id(conn: &Connection, id: u32) -> (r: Result<Option<Task>, rusqlite::Error>)
    ensures
        r matches Ok(Some(task)) ==> task.id == id,
        r matches Ok(found) ==> (is_private(*conn) ==> {
            &&& has_tasks_table(*conn)
            &&& ascending(task_rows(*conn))
            &&& answers(task_rows(*conn), id as int, row_of(found))
        }),
{
    conn.query_row(
        "SELECT id, name, is_done, created_at, deleted_at FROM tasks WHERE id = ?1",
        (id,),
        |row| row.try_into().map(Task::from_columns),
    ).optional()
}

/// `Connection::prepare` and `Statement::query_map` on `SELECT .. ORDER BY id`,
/// collected. Claims of a private database that an answer means the relation
/// is there, that the tasks returned are the rows of the table, all of them
/// and in table order, and that their ids ascend strictly (primary key).
#[verifier::external_body]
pub(crate) fn fetch_all(conn: &Connection) -> (r: Result<Vec<Task>, rusqlite::Error>)
    ensures
        r matches Ok(tasks) ==> (is_private(*conn) ==> {
            &&& has_tasks_table(*conn)
            &&& ascending(task_rows(*conn))
            &&& rows_of(tasks@) == task_rows(*conn)
        }),
{
    let mut statement = conn.prepare(
        "SELECT id, name, is_done, created_at, deleted_at FROM tasks ORDER BY id",
    )?;
    let rows = statement.query_map((), |row| row.try_into().map(Task::from_columns))?;
    rows.collect()
}

/// `rusqlite::Error`'s `Display` text. Nothing is claimed of it.
#[verifier::external_body]
pub(crate) fn describe(error: &rusqlite::Error) -> (text: String) {
    error.to_string()
}

} // verus!
