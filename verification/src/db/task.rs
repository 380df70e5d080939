//! The task entity, its mathematical view, and the errors of the task operations.

use crate::db::store::{
    create_table, database_path, describe, fetch_all, fetch_by_id, has_tasks_table, id_mark,
    insert_row, is_private, mark_deleted, set_done, task_rows,
};
use crate::db::table::{
    active_rows, ascending, flagged, has_active, has_id, is_fresh, lemma_deletion_keeps_ids,
    lemma_deletion_row, lemma_listed_rows_are_active, lemma_lookup_decides,
    lemma_status_keeps_ids, lemma_status_row, row_with, stamped, with_deletion, with_status,
};
use crate::text::{decimal, flag_str, flag_text, push_decimal};
use rusqlite::Connection;
use vstd::prelude::*;
use vstd::string::StringExecFns;

verus! {

/// One stored task, as the store hands it out.
#[derive(Debug, PartialEq, Eq)]
pub struct Task {
    pub id: u32,
    pub name: String,
    pub is_done: bool,
    pub created_at: String,
    pub deleted_at: Option<String>,
}

/// A row of the `tasks` relation as a mathematical value.
pub ghost struct TaskRow {
    pub id: int,
    pub name: Seq<char>,
    pub is_done: bool,
    pub created_at: Seq<char>,
    pub deleted_at: Option<Seq<char>>,
}

impl TaskRow {
    /// A row is active while it carries no deletion time.
    pub open spec fn is_active(self) -> bool {
        self.deleted_at is None
    }
}

/// The characters of an optional string.
pub open spec fn text_of(s: Option<String>) -> Option<Seq<char>> {
    match s {
        Some(t) => Some(t@),
        None => None,
    }
}

impl View for Task {
    type V = TaskRow;

    open spec fn view(&self) -> TaskRow {
        TaskRow {
            id: self.id as int,
            name: self.name@,
            is_done: self.is_done,
            created_at: self.created_at@,
            deleted_at: text_of(self.deleted_at),
        }
    }
}

/// The printed line of a row: its id, name, done flag and creation time.
pub open spec fn line_of(row: TaskRow) -> Seq<char> {
    "id = "@ + decimal(row.id as nat) + ", name = "@ + row.name + ", is_done = "@ + flag_text(
        row.is_done,
    ) + ", created_at = "@ + row.created_at
}

impl Clone for Task {
    fn clone(&self) -> (copy: Task)
        ensures
            copy == *self,
    {
        let deleted_at = match &self.deleted_at {
            Some(stamp) => Some(stamp.clone()),
            None => None,
        };
        Task {
            id: self.id,
            name: self.name.clone(),
            is_done: self.is_done,
            created_at: self.created_at.clone(),
            deleted_at,
        }
    }
}

impl Task {
    /// The task made of one row's columns, in the order id, name, done flag,
    /// creation time, deletion time.
    pub fn from_columns(columns: (u32, String, bool, String, Option<String>)) -> (task: Task)
        ensures
            task.id == columns.0,
            task.name == columns.1,
            task.is_done == columns.2,
            task.created_at == columns.3,
            task.deleted_at == columns.4,
    {
        Task {
            id: columns.0,
            name: columns.1,
            is_done: columns.2,
            created_at: columns.3,
            deleted_at: columns.4,
        }
    }

    /// The log line of the task: what the user is shown of it.
    pub fn log(&self) -> (text: String)
        ensures
            text@ == line_of(self@),
    {
        let mut text = String::from_str("id = ");
        push_decimal(&mut text, self.id);
        text.append(", name = ");
        text.append(self.name.as_str());
        text.append(", is_done = ");
        text.append(flag_str(self.is_done));
        text.append(", created_at = ");
        text.append(self.created_at.as_str());
        text
    }

    /// Whether the task has not been soft-deleted.
    pub fn is_active(&self) -> (active: bool)
        ensures
            active == self@.is_active(),
    {
        self.deleted_at.is_none()
    }
}

/// Why a task operation failed.
#[derive(Debug, PartialEq, Eq)]
pub enum TaskError {
    /// The input breaks a rule of the operation: the name is empty.
    Validation,
    /// No active task has the id: it never existed, or it is deleted.
    NotFound,
    /// The store failed; the text is the store's own.
    Storage(String),
}

/// Why a task operation failed, as a mathematical value.
pub ghost enum Failure {
    Validation,
    NotFound,
    Storage(Seq<char>),
}

impl View for TaskError {
    type V = Failure;

    open spec fn view(&self) -> Failure {
        match *self {
            TaskError::Validation => Failure::Validation,
            TaskError::NotFound => Failure::NotFound,
            TaskError::Storage(text) => Failure::Storage(text@),
        }
    }
}

/// The text that tells the user of a failure.
pub open spec fn message_of(failure: Failure) -> Seq<char> {
    match failure {
        Failure::Validation => "Task name cannot be empty"@,
        Failure::NotFound => "Task not found"@,
        Failure::Storage(text) => text,
    }
}

impl Clone for TaskError {
    fn clone(&self) -> (copy: TaskError)
        ensures
            copy == *self,
    {
        match self {
            TaskError::Validation => TaskError::Validation,
            TaskError::NotFound => TaskError::NotFound,
            TaskError::Storage(text) => TaskError::Storage(text.clone()),
        }
    }
}

impl TaskError {
    /// The text that tells the user of this failure; for a store failure, the
    /// store's own words.
    pub fn message(&self) -> (text: String)
        ensures
            text@ == message_of(self@),
    {
        match self {
            TaskError::Validation => String::from_str("Task name cannot be empty"),
            TaskError::NotFound => String::from_str("Task not found"),
            TaskError::Storage(text) => text.clone(),
        }
    }
}

/// The row that an optional task stands for.
pub open spec fn row_of(task: Option<Task>) -> Option<TaskRow> {
    match task {
        Some(t) => Some(t@),
        None => None,
    }
}

/// The rows that a sequence of tasks stands for.
pub open spec fn rows_of(tasks: Seq<Task>) -> Seq<TaskRow> {
    tasks.map_values(|t: Task| t@)
}

/// What a store call gave, with a store failure turned into `Storage`.
pub fn store_outcome<T>(outcome: Result<T, rusqlite::Error>) -> (r: Result<T, TaskError>)
    ensures
        outcome matches Ok(value) ==> r == Ok::<T, TaskError>(value),
        outcome is Err ==> r matches Err(TaskError::Storage(_)),
{
    match outcome {
        Ok(value) => Ok(value),
        Err(error) => Err(TaskError::Storage(describe(&error))),
    }
}

/// The task that a lookup by id gave; no row is `NotFound`.
pub fn found_task(lookup: Result<Option<Task>, rusqlite::Error>) -> (r: Result<Task, TaskError>)
    ensures
        lookup matches Ok(Some(task)) ==> r == Ok::<Task, TaskError>(task),
        lookup matches Ok(None) ==> r matches Err(TaskError::NotFound),
        lookup is Err ==> r matches Err(TaskError::Storage(_)),
{
    match store_outcome(lookup) {
        Ok(Some(task)) => Ok(task),
        Ok(None) => Err(TaskError::NotFound),
        Err(error) => Err(error),
    }
}

/// The task that a lookup by id gave, if it is active; a deleted row is
/// `NotFound`, as no row is.
pub fn active_task(lookup: Result<Option<Task>, rusqlite::Error>) -> (r: Result<Task, TaskError>)
    ensures
        lookup matches Ok(Some(task)) ==> (if task.deleted_at is None {
            r == Ok::<Task, TaskError>(task)
        } else {
            r matches Err(TaskError::NotFound)
        }),
        lookup matches Ok(None) ==> r matches Err(TaskError::NotFound),
        lookup is Err ==> r matches Err(TaskError::Storage(_)),
{
    match found_task(lookup) {
        Ok(task) => {
            if task.is_active() {
                Ok(task)
            } else {
                Err(TaskError::NotFound)
            }
        },
        Err(error) => Err(error),
    }
}

/// The task that a lookup by id gave, if it is deleted; an active row is
/// `NotFound`, as no row is.
pub fn deleted_task(lookup: Result<Option<Task>, rusqlite::Error>) -> (r: Result<Task, TaskError>)
    ensures
        lookup matches Ok(Some(task)) ==> (if task.deleted_at is Some {
            r == Ok::<Task, TaskError>(task)
        } else {
            r matches Err(TaskError::NotFound)
        }),
        lookup matches Ok(None) ==> r matches Err(TaskError::NotFound),
        lookup is Err ==> r matches Err(TaskError::Storage(_)),
{
    match found_task(lookup) {
        Ok(task) => {
            if task.is_active() {
                Err(TaskError::NotFound)
            } else {
                Ok(task)
            }
        },
        Err(error) => Err(error),
    }
}

/// The active tasks among `all`, in their order.
pub fn active_tasks(all: Vec<Task>) -> (shown: Vec<Task>)
    ensures
        rows_of(shown@) == active_rows(rows_of(all@)),
{
    let mut shown: Vec<Task> = Vec::new();
    let mut i: usize = 0;
    proof {
        assert(rows_of(all@).take(0) =~= Seq::<TaskRow>::empty());
        reveal(Seq::filter);
    }
    while i < all.len()
        invariant
            i <= all.len(),
            rows_of(shown@) == active_rows(rows_of(all@).take(i as int)),
        decreases all.len() - i,
    {
        let ghost seen = rows_of(all@).take(i as int);
        let ghost before = rows_of(shown@);
        proof {
            assert(rows_of(all@).take(i + 1) =~= seen.push(all[i as int]@));
            seen.lemma_filter_push(all[i as int]@, |r: TaskRow| r.is_active());
        }
        if all[i].is_active() {
            shown.push(all[i].clone());
            assert(rows_of(shown@) =~= before.push(all[i as int]@));
        }
        i = i + 1;
    }
    assert(rows_of(all@).take(all.len() as int) =~= rows_of(all@));
    shown
}

/// A private database after a statement that gave out no id: the relation is
/// there and the largest id given out is what it was.
pub open spec fn settled(before: Connection, after: Connection) -> bool {
    has_tasks_table(after) && id_mark(after) == id_mark(before)
}

/// A private database after a statement that gave out `id`: the relation is
/// there and `id` is one above the largest id given out before.
pub open spec fn numbered(before: Connection, after: Connection, id: int) -> bool {
    has_tasks_table(after) && id == id_mark(before) + 1 && id_mark(after) == id
}

/// How making sure of the schema relates the connection before, the connection
/// after and the result. The connection stays on its path. Of a connection
/// that has its database to itself: on success the `tasks` relation exists,
/// with the rows it had if it was there and the same ids given out. A failure
/// is `Storage`.
pub open spec fn built(before: Connection, after: Connection, r: Result<(), TaskError>) -> bool {
    &&& database_path(after) == database_path(before)
    &&& match r {
        Ok(_) => is_private(before) ==> {
            &&& settled(before, after)
            &&& task_rows(after) == task_rows(before)
        },
        Err(error) => error is Storage,
    }
}

/// Makes sure the `tasks` relation exists; one that exists is left as it is.
pub fn build_tasks_db_table(conn: &mut Connection) -> (r: Result<(), TaskError>)
    ensures
        built(*old(conn), *final(conn), r),
{
    match store_outcome(create_table(conn)) {
        Ok(_) => Ok(()),
        Err(error) => Err(error),
    }
}

/// What holds of the result of creating a task named `name`, on any store.
///
/// Only the empty name is rejected, with `Validation`; a name of blanks only
/// counts as a name. Otherwise the store decides: a task that comes back has
/// the given name and is not done; a store failure is `Storage`.
pub open spec fn creation_result(name: Seq<char>, r: Result<Task, TaskError>) -> bool {
    if name.len() == 0 {
        r matches Err(TaskError::Validation)
    } else {
        match r {
            Ok(task) => task.name@ == name && !task.is_done,
            Err(error) => error is Storage,
        }
    }
}

/// What holds of the result of setting the done flag of `id`, on any store: a
/// task that comes back has that id, and the failure is never `Validation`.
pub open spec fn update_result(id: int, r: Result<Task, TaskError>) -> bool {
    match r {
        Ok(task) => task.id == id,
        Err(error) => !(error is Validation),
    }
}

/// What holds of the result of listing, on any store: the tasks that come back
/// are active; a failure is `Storage`.
pub open spec fn listing_result(r: Result<Vec<Task>, TaskError>) -> bool {
    match r {
        Ok(tasks) => forall|i: int|
            0 <= i < tasks@.len() ==> (#[trigger] tasks@[i]).deleted_at is None,
        Err(error) => error is Storage,
    }
}

/// What holds of the result of deleting `id`, on any store: a task that comes
/// back has that id and a deletion time, and the failure is never
/// `Validation`.
pub open spec fn deletion_result(id: int, r: Result<Task, TaskError>) -> bool {
    match r {
        Ok(task) => task.id == id && task.deleted_at is Some,
        Err(error) => !(error is Validation),
    }
}

/// How creating a task named `name` relates the table before, the table after
/// and the result.
///
/// The empty name is `Validation` and nothing is written; a name of blanks
/// only counts as a name. Otherwise the store decides: on success the
/// returned row is appended, with the given name, not done, not deleted and
/// with an id above all others; a store failure is `Storage`.
pub open spec fn created(
    before: Seq<TaskRow>,
    after: Seq<TaskRow>,
    name: Seq<char>,
    r: Result<Task, TaskError>,
) -> bool {
    if name.len() == 0 {
        r matches Err(TaskError::Validation) && after == before
    } else {
        match r {
            Ok(task) => {
                &&& task.name@ == name
                &&& !task.is_done
                &&& task.deleted_at is None
                &&& is_fresh(before, task.id as int)
                &&& after == before.push(task@)
            },
            Err(error) => error is Storage,
        }
    }
}

/// How setting the done flag of `id` relates the table before, the table after
/// and the result.
///
/// When the store answers, the result is `Ok` exactly if some row has the id,
/// deleted or not: that row gets the flag and is returned as it then stands,
/// and nothing else changes. `NotFound` means that no row has the id, and then
/// nothing changes. A store failure is `Storage`.
pub open spec fn updated(
    before: Seq<TaskRow>,
    after: Seq<TaskRow>,
    id: int,
    done: bool,
    r: Result<Task, TaskError>,
) -> bool {
    match r {
        Ok(task) => {
            &&& ascending(before)
            &&& has_id(before, id)
            &&& after == with_status(before, id, done)
            &&& task@ == flagged(row_with(before, id), done)
        },
        Err(TaskError::NotFound) => !has_id(before, id) && after == before,
        Err(TaskError::Validation) => false,
        Err(TaskError::Storage(_)) => true,
    }
}

/// How listing relates the table and the result: on success the tasks are the
/// active rows, all of them, in ascending id order; a failure is `Storage`.
pub open spec fn listed(rows: Seq<TaskRow>, r: Result<Vec<Task>, TaskError>) -> bool {
    match r {
        Ok(tasks) => ascending(rows) && rows_of(tasks@) == active_rows(rows),
        Err(error) => error is Storage,
    }
}

/// How deleting `id` relates the table before, the table after and the result.
///
/// When the store answers, the result is `Ok` exactly if an active row has the
/// id: that row gets a deletion time and is returned as it then stands, and
/// nothing else changes. `NotFound` means that no active row has the id (none
/// at all, or a deleted one), and then nothing changes. A store failure is
/// `Storage`; where no active row has the id, nothing changes then either, so
/// a deletion time that is set is never cleared or replaced.
pub open spec fn deleted(
    before: Seq<TaskRow>,
    after: Seq<TaskRow>,
    id: int,
    r: Result<Task, TaskError>,
) -> bool {
    match r {
        Ok(task) => {
            &&& ascending(before)
            &&& has_active(before, id)
            &&& task.deleted_at matches Some(stamp) && {
                &&& after == with_deletion(before, id, stamp@)
                &&& task@ == stamped(row_with(before, id), stamp@)
            }
        },
        Err(TaskError::NotFound) => !has_active(before, id) && after == before,
        Err(TaskError::Validation) => false,
        Err(TaskError::Storage(_)) => has_active(before, id) || after == before,
    }
}

/// What creating a task named `name` does, from the connection before to the
/// connection after.
///
/// On any store: the connection stays on its path, the empty name leaves it
/// untouched, and the result is as `creation_result` says. Of a connection
/// that has its database to itself: the table changes as `created` says, and
/// the id of a task that comes back is one above the largest id given out
/// before, so the first id of a fresh database is 1.
pub open spec fn insert_effect(
    before: Connection,
    after: Connection,
    name: Seq<char>,
    r: Result<Task, TaskError>,
) -> bool {
    &&& database_path(after) == database_path(before)
    &&& name.len() == 0 ==> after == before
    &&& creation_result(name, r)
    &&& is_private(before) ==> {
        &&& created(task_rows(before), task_rows(after), name, r)
        &&& r matches Ok(task) ==> numbered(before, after, task.id as int)
    }
}

/// What setting the done flag of `id` does, from the connection before to the
/// connection after.
///
/// On any store: the connection stays on its path and the result is as
/// `update_result` says. Of a connection that has its database to itself: the
/// table changes as `updated` says, and unless the store fails the relation
/// is there and no id was given out.
pub open spec fn update_effect(
    before: Connection,
    after: Connection,
    id: int,
    done: bool,
    r: Result<Task, TaskError>,
) -> bool {
    &&& database_path(after) == database_path(before)
    &&& update_result(id, r)
    &&& is_private(before) ==> {
        &&& updated(task_rows(before), task_rows(after), id, done, r)
        &&& !(r matches Err(TaskError::Storage(_))) ==> settled(before, after)
    }
}

/// What listing gives on `conn`.
///
/// On any store the result is as `listing_result` says. Of a connection that
/// has its database to itself it is the whole listing of the table, as
/// `listed` says, and an answer means that the relation is there.
pub open spec fn list_effect(conn: Connection, r: Result<Vec<Task>, TaskError>) -> bool {
    &&& listing_result(r)
    &&& is_private(conn) ==> {
        &&& listed(task_rows(conn), r)
        &&& r is Ok ==> has_tasks_table(conn)
    }
}

/// What deleting `id` does, from the connection before to the connection
/// after.
///
/// On any store: the connection stays on its path and the result is as
/// `deletion_result` says. Of a connection that has its database to itself:
/// the table changes as `deleted` says, and unless the store fails the
/// relation is there and no id was given out.
pub open spec fn delete_effect(
    before: Connection,
    after: Connection,
    id: int,
    r: Result<Task, TaskError>,
) -> bool {
    &&& database_path(after) == database_path(before)
    &&& deletion_result(id, r)
    &&& is_private(before) ==> {
        &&& deleted(task_rows(before), task_rows(after), id, r)
        &&& !(r matches Err(TaskError::Storage(_))) ==> settled(before, after)
    }
}

/// Stores a new task named `task_name` and returns it as stored.
///
/// Only the empty name is rejected, and then the store is not touched; a name
/// of blanks only is stored as given.
pub fn insert_task(conn: &mut Connection, task_name: String) -> (r: Result<Task, TaskError>)
    ensures
        insert_effect(*old(conn), *final(conn), task_name@, r),
{
    if task_name.as_str().is_empty() {
        return Err(TaskError::Validation);
    }
    store_outcome(insert_row(conn, task_name.as_str(), false))
}

/// Sets the done flag of the task with `id`, deleted or not, and returns the
/// task as it then stands.
pub fn update_task_status(conn: &mut Connection, id: u32, is_done: bool) -> (r: Result<
    Task,
    TaskError,
>)
    ensures
        update_effect(*old(conn), *final(conn), id as int, is_done, r),
{
    let ghost before = task_rows(*conn);
    match store_outcome(set_done(conn, id, is_done)) {
        Ok(_) => {},
        Err(error) => {
            return Err(error);
        },
    }
    let lookup = fetch_by_id(conn, id);
    proof {
        if is_private(*conn) {
            lemma_status_keeps_ids(before, id as int, is_done);
            if lookup is Ok && lookup->Ok_0 is Some {
                lemma_status_row(before, id as int, is_done, lookup->Ok_0->Some_0@);
            }
        }
    }
    found_task(lookup)
}

/// Lists the active tasks in ascending id order, which is insertion order.
pub fn read_tasks(conn: &Connection) -> (r: Result<Vec<Task>, TaskError>)
    ensures
        list_effect(*conn, r),
{
    match store_outcome(fetch_all(conn)) {
        Ok(all) => {
            let shown = active_tasks(all);
            proof {
                assert forall|i: int| 0 <= i < shown@.len() implies (
                #[trigger] shown@[i]).deleted_at is None by {
                    lemma_listed_rows_are_active(rows_of(all@), i);
                    assert(rows_of(shown@)[i] == shown@[i]@);
                }
            }
            Ok(shown)
        },
        Err(error) => Err(error),
    }
}

/// Soft-deletes the active task with `id` and returns it as it then stands,
/// with its deletion time.
pub fn delete_task(conn: &mut Connection, id: u32) -> (r: Result<Task, TaskError>)
    ensures
        delete_effect(*old(conn), *final(conn), id as int, r),
{
    let ghost before = task_rows(*conn);
    let first = fetch_by_id(conn, id);
    proof {
        if is_private(*conn) && first is Ok {
            lemma_lookup_decides(before, id as int, row_of(first->Ok_0));
        }
    }
    match active_task(first) {
        Ok(_) => {},
        Err(error) => {
            return Err(error);
        },
    }
    match store_outcome(mark_deleted(conn, id)) {
        Ok(_) => {},
        Err(error) => {
            return Err(error);
        },
    }
    let second = fetch_by_id(conn, id);
    proof {
        if is_private(*conn) {
            let stamp = choose|stamp: Seq<char>|
                task_rows(*conn) == #[trigger] with_deletion(before, id as int, stamp);
            lemma_deletion_keeps_ids(before, id as int, stamp);
            if second is Ok && second->Ok_0 is Some {
                lemma_deletion_row(before, id as int, stamp, second->Ok_0->Some_0@);
            }
        }
    }
    deleted_task(second)
}

} // verus!
