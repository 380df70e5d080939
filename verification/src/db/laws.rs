//! What the task operations guarantee together.
//!
//! The first part speaks of the table model alone. The second part speaks of
//! the operations themselves, through the relations `created`, `updated`,
//! `listed` and `deleted`, which their contracts promise of a connection that
//! has its database to itself.

use crate::db::store::{id_mark, is_private};
use crate::db::table::{
    active_rows, ascending, flagged, has_active, has_id, holds, is_fresh, lemma_deletion_keeps_ids,
    lemma_entry_is_row_with, lemma_id_names_one_row, lemma_listed_rows_are_active,
    lemma_listing_ascends, lemma_status_keeps_ids, row_with, stamped, with_deletion, with_status,
};
use crate::db::task::{
    created, creation_result, deleted, deletion_result, insert_effect, listed, listing_result,
    rows_of, update_result, updated, Task, TaskError, TaskRow,
};
use rusqlite::Connection;
use vstd::prelude::*;

verus! {

/// A created task is listed, once and last: the listing after the insert is
/// the listing before it with the new task appended, and no earlier entry
/// equals the new task.
pub proof fn lemma_created_task_listed_once(rows: Seq<TaskRow>, task: TaskRow)
    requires
        is_fresh(rows, task.id),
        task.is_active(),
    ensures
        active_rows(rows.push(task)) == active_rows(rows).push(task),
        !holds(active_rows(rows), task),
{
    rows.lemma_filter_push(task, |r: TaskRow| r.is_active());
    if holds(active_rows(rows), task) {
        let i = choose|i: int|
            0 <= i < active_rows(rows).len() && #[trigger] active_rows(rows)[i] == task;
        lemma_listed_rows_are_active(rows, i);
        let j = choose|j: int| 0 <= j < rows.len() && #[trigger] rows[j] == task;
        assert(rows[j].id < task.id);
    }
}

/// After a task is deleted no listed row carries its id.
pub proof fn lemma_deleted_task_not_listed(rows: Seq<TaskRow>, id: int, stamp: Seq<char>, i: int)
    requires
        0 <= i < active_rows(with_deletion(rows, id, stamp)).len(),
    ensures
        active_rows(with_deletion(rows, id, stamp))[i].id != id,
{
    let after = with_deletion(rows, id, stamp);
    lemma_listed_rows_are_active(after, i);
    let row = active_rows(after)[i];
    let j = choose|j: int| 0 <= j < after.len() && #[trigger] after[j] == row;
    if rows[j].id == id {
        assert(after[j].deleted_at == Some(stamp));
    }
}

/// A deleted task is no longer active, so a second delete of the same id finds
/// nothing to delete.
pub proof fn lemma_second_delete_rejected(rows: Seq<TaskRow>, id: int, stamp: Seq<char>)
    ensures
        !has_active(with_deletion(rows, id, stamp), id),
{
    let after = with_deletion(rows, id, stamp);
    if has_active(after, id) {
        let j = choose|j: int|
            0 <= j < after.len() && #[trigger] after[j].id == id && after[j].is_active();
        assert(after[j].deleted_at == Some(stamp));
    }
}

/// Setting a task done and then not done leaves the table as one update to
/// not done does: the rows with the id are not done, and every row keeps its
/// id, name, creation time and deletion time.
pub proof fn lemma_status_toggle(rows: Seq<TaskRow>, id: int)
    ensures
        with_status(with_status(rows, id, true), id, false) == with_status(rows, id, false),
        with_status(rows, id, false).len() == rows.len(),
        forall|i: int|
            0 <= i < rows.len() ==> {
                let row = #[trigger] with_status(rows, id, false)[i];
                &&& row.id == rows[i].id
                &&& row.name == rows[i].name
                &&& row.created_at == rows[i].created_at
                &&& row.deleted_at == rows[i].deleted_at
                &&& row.is_done == (rows[i].id != id && rows[i].is_done)
            },
{
    assert(with_status(with_status(rows, id, true), id, false) =~= with_status(rows, id, false));
}

/// Setting a status twice to the same value is the same as setting it once.
pub proof fn lemma_status_idempotent(rows: Seq<TaskRow>, id: int, done: bool)
    ensures
        with_status(with_status(rows, id, done), id, done) == with_status(rows, id, done),
{
    assert(with_status(with_status(rows, id, done), id, done) =~= with_status(rows, id, done));
}

/// A status update shows and hides nothing: the listing after it is the
/// listing before it with the flag set on the rows with the id.
pub proof fn lemma_status_keeps_listing(rows: Seq<TaskRow>, id: int, done: bool)
    ensures
        active_rows(with_status(rows, id, done)) == with_status(active_rows(rows), id, done),
    decreases rows.len(),
{
    let shown = |r: TaskRow| r.is_active();
    reveal(Seq::filter);
    if rows.len() > 0 {
        let head = rows.drop_last();
        let last = rows.last();
        let moved = if last.id == id {
            flagged(last, done)
        } else {
            last
        };
        lemma_status_keeps_listing(head, id, done);
        assert(rows =~= head.push(last));
        assert(with_status(rows, id, done) =~= with_status(head, id, done).push(moved));
        head.lemma_filter_push(last, shown);
        with_status(head, id, done).lemma_filter_push(moved, shown);
        if last.is_active() {
            assert(with_status(active_rows(head).push(last), id, done) =~= with_status(
                active_rows(head),
                id,
                done,
            ).push(moved));
        }
    } else {
        assert(with_status(rows, id, done) =~= rows);
        assert(with_status(active_rows(rows), id, done) =~= active_rows(rows));
    }
}

/// Deleting one task changes no other: every row with another id is the row it
/// was, at the place it was.
pub proof fn lemma_delete_leaves_others(rows: Seq<TaskRow>, id: int, stamp: Seq<char>)
    ensures
        with_deletion(rows, id, stamp).len() == rows.len(),
        forall|i: int|
            0 <= i < rows.len() && rows[i].id != id ==> #[trigger] with_deletion(
                rows,
                id,
                stamp,
            )[i] == rows[i],
{
}

/// Deleting one task takes exactly that task out of the listing: what is listed
/// afterwards is what was listed before, without the rows of that id.
pub proof fn lemma_delete_removes_from_listing(rows: Seq<TaskRow>, id: int, stamp: Seq<char>)
    ensures
        active_rows(with_deletion(rows, id, stamp)) == active_rows(rows).filter(
            |r: TaskRow| r.id != id,
        ),
    decreases rows.len(),
{
    let shown = |r: TaskRow| r.is_active();
    let other = |r: TaskRow| r.id != id;
    reveal(Seq::filter);
    if rows.len() > 0 {
        let head = rows.drop_last();
        let last = rows.last();
        let moved = if last.id == id {
            stamped(last, stamp)
        } else {
            last
        };
        lemma_delete_removes_from_listing(head, id, stamp);
        assert(rows =~= head.push(last));
        assert(with_deletion(rows, id, stamp) =~= with_deletion(head, id, stamp).push(moved));
        head.lemma_filter_push(last, shown);
        with_deletion(head, id, stamp).lemma_filter_push(moved, shown);
        if last.is_active() {
            active_rows(head).lemma_filter_push(last, other);
        }
    } else {
        assert(with_deletion(rows, id, stamp) =~= rows);
    }
}

/// Tasks created one after another are listed in that order, after all that
/// was listed before.
pub proof fn lemma_listing_keeps_insertion_order(
    rows: Seq<TaskRow>,
    a: TaskRow,
    b: TaskRow,
    c: TaskRow,
)
    requires
        a.is_active(),
        b.is_active(),
        c.is_active(),
    ensures
        active_rows(rows.push(a).push(b).push(c)) == active_rows(rows).push(a).push(b).push(c),
{
    let shown = |r: TaskRow| r.is_active();
    rows.lemma_filter_push(a, shown);
    rows.push(a).lemma_filter_push(b, shown);
    rows.push(a).push(b).lemma_filter_push(c, shown);
}

/// A status update keeps a deleted task deleted and an active one active.
pub proof fn lemma_status_keeps_lifecycle(rows: Seq<TaskRow>, id: int, done: bool, other: int)
    ensures
        has_active(with_status(rows, id, done), other) == has_active(rows, other),
        has_id(with_status(rows, id, done), other) == has_id(rows, other),
{
    let after = with_status(rows, id, done);
    if has_active(rows, other) {
        let j = choose|j: int|
            0 <= j < rows.len() && #[trigger] rows[j].id == other && rows[j].is_active();
        assert(after[j].id == other && after[j].is_active());
    }
    if has_active(after, other) {
        let j = choose|j: int|
            0 <= j < after.len() && #[trigger] after[j].id == other && after[j].is_active();
        assert(rows[j].id == other && rows[j].is_active());
    }
    if has_id(rows, other) {
        let j = choose|j: int| 0 <= j < rows.len() && #[trigger] rows[j].id == other;
        assert(after[j].id == other);
    }
    if has_id(after, other) {
        let j = choose|j: int| 0 <= j < after.len() && #[trigger] after[j].id == other;
        assert(rows[j].id == other);
    }
}

/// Round trip: a task created under a non-empty name comes back with that
/// name and not done, and a listing made right after holds it exactly once,
/// as its last entry.
pub proof fn law_created_task_is_listed(
    before: Seq<TaskRow>,
    after: Seq<TaskRow>,
    name: Seq<char>,
    made: Result<Task, TaskError>,
    shown: Result<Vec<Task>, TaskError>,
)
    requires
        name.len() > 0,
        created(before, after, name, made),
        made is Ok,
        listed(after, shown),
        shown is Ok,
    ensures
        made->Ok_0.name@ == name,
        !made->Ok_0.is_done,
        rows_of(shown->Ok_0@).len() > 0,
        rows_of(shown->Ok_0@).last() == made->Ok_0@,
        forall|i: int|
            0 <= i < rows_of(shown->Ok_0@).len() - 1 ==> rows_of(shown->Ok_0@)[i] != made->Ok_0@,
{
    let task = made->Ok_0@;
    lemma_created_task_listed_once(before, task);
    let earlier = active_rows(before);
    assert forall|i: int| 0 <= i < earlier.len() implies earlier[i] != task by {
        if earlier[i] == task {
            assert(holds(earlier, task));
        }
    }
}

/// Empty-name rejection: creating a task with the empty name fails with
/// `Validation` and leaves the table, and so every later listing, as it was.
pub proof fn law_empty_name_rejected(
    before: Seq<TaskRow>,
    after: Seq<TaskRow>,
    made: Result<Task, TaskError>,
)
    requires
        created(before, after, Seq::<char>::empty(), made),
    ensures
        made matches Err(TaskError::Validation),
        after == before,
        active_rows(after) == active_rows(before),
{
}

/// Visibility after delete: once a delete succeeds, a listing holds no task of
/// that id, while the task returned by the delete has the name, done flag and
/// creation time it had, and a deletion time.
pub proof fn law_deleted_task_is_hidden(
    before: Seq<TaskRow>,
    after: Seq<TaskRow>,
    id: int,
    gone: Result<Task, TaskError>,
    shown: Result<Vec<Task>, TaskError>,
)
    requires
        deleted(before, after, id, gone),
        gone is Ok,
        listed(after, shown),
        shown is Ok,
    ensures
        forall|i: int| 0 <= i < shown->Ok_0@.len() ==> (#[trigger] shown->Ok_0@[i]).id != id,
        gone->Ok_0.id == id,
        gone->Ok_0.name@ == row_with(before, id).name,
        gone->Ok_0.is_done == row_with(before, id).is_done,
        gone->Ok_0.created_at@ == row_with(before, id).created_at,
        gone->Ok_0.deleted_at is Some,
        row_with(before, id).is_active(),
{
    let tasks = shown->Ok_0@;
    let stamp = gone->Ok_0.deleted_at->Some_0@;
    assert forall|i: int| 0 <= i < tasks.len() implies (#[trigger] tasks[i]).id != id by {
        assert(rows_of(tasks)[i] == tasks[i]@);
        lemma_deleted_task_not_listed(before, id, stamp, i);
    }
    let j = choose|j: int|
        0 <= j < before.len() && #[trigger] before[j].id == id && before[j].is_active();
    assert(holds(before, before[j]));
    lemma_entry_is_row_with(before, before[j]);
}

/// Delete is rejected the second time: after a delete of an id has succeeded,
/// the next delete of the same id does not succeed, and unless the store
/// fails it is `NotFound` and changes nothing.
pub proof fn law_second_delete_is_rejected(
    before: Seq<TaskRow>,
    between: Seq<TaskRow>,
    after: Seq<TaskRow>,
    id: int,
    first: Result<Task, TaskError>,
    second: Result<Task, TaskError>,
)
    requires
        deleted(before, between, id, first),
        first is Ok,
        deleted(between, after, id, second),
    ensures
        second is Err,
        !(second matches Err(TaskError::Storage(_))) ==> (second matches Err(TaskError::NotFound))
            && after == between,
{
    lemma_second_delete_rejected(before, id, first->Ok_0.deleted_at->Some_0@);
}

/// Status toggling: setting a task done and then not done leaves it not done,
/// with the id, name, creation time and deletion time it had, and leaves the
/// table as one update to not done would.
pub proof fn law_status_toggle(
    before: Seq<TaskRow>,
    between: Seq<TaskRow>,
    after: Seq<TaskRow>,
    id: int,
    first: Result<Task, TaskError>,
    second: Result<Task, TaskError>,
)
    requires
        updated(before, between, id, true, first),
        first is Ok,
        updated(between, after, id, false, second),
        second is Ok,
    ensures
        !second->Ok_0.is_done,
        second->Ok_0.id == id,
        second->Ok_0.name@ == row_with(before, id).name,
        second->Ok_0.created_at@ == row_with(before, id).created_at,
        second->Ok_0@.deleted_at == row_with(before, id).deleted_at,
        after == with_status(before, id, false),
{
    lemma_status_toggle(before, id);
    lemma_status_keeps_ids(before, id, true);
    let j = choose|j: int| 0 <= j < before.len() && #[trigger] before[j].id == id;
    assert(holds(before, before[j]));
    lemma_entry_is_row_with(before, before[j]);
    assert(between[j] == flagged(before[j], true));
    assert(holds(between, between[j]));
    lemma_entry_is_row_with(between, between[j]);
}

/// Isolation: a successful delete of one task leaves every row of another id
/// exactly as it was, at the place where it was, and takes nothing but the
/// deleted task out of the listing.
pub proof fn law_delete_leaves_others(
    before: Seq<TaskRow>,
    after: Seq<TaskRow>,
    id: int,
    gone: Result<Task, TaskError>,
)
    requires
        deleted(before, after, id, gone),
        gone is Ok,
    ensures
        after.len() == before.len(),
        forall|i: int| 0 <= i < before.len() && before[i].id != id ==> #[trigger] after[i] == before[i],
        forall|other: int|
            other != id && has_id(before, other) ==> #[trigger] row_with(after, other) == row_with(
                before,
                other,
            ),
        active_rows(after) == active_rows(before).filter(|r: TaskRow| r.id != id),
{
    let stamp = gone->Ok_0.deleted_at->Some_0@;
    lemma_delete_leaves_others(before, id, stamp);
    lemma_delete_removes_from_listing(before, id, stamp);
    lemma_deletion_keeps_ids(before, id, stamp);
    assert forall|other: int| other != id && has_id(before, other) implies #[trigger] row_with(
        after,
        other,
    ) == row_with(before, other) by {
        let j = choose|j: int| 0 <= j < before.len() && #[trigger] before[j].id == other;
        assert(holds(before, before[j]));
        lemma_entry_is_row_with(before, before[j]);
        assert(after[j] == before[j]);
        assert(holds(after, after[j]));
        lemma_entry_is_row_with(after, after[j]);
    }
}

/// Ordering: three tasks created one after another are listed in that order,
/// after everything that was listed before them.
pub proof fn law_listing_follows_creation(
    start: Seq<TaskRow>,
    one: Seq<TaskRow>,
    two: Seq<TaskRow>,
    three: Seq<TaskRow>,
    names: (Seq<char>, Seq<char>, Seq<char>),
    made: (Result<Task, TaskError>, Result<Task, TaskError>, Result<Task, TaskError>),
    shown: Result<Vec<Task>, TaskError>,
)
    requires
        created(start, one, names.0, made.0),
        created(one, two, names.1, made.1),
        created(two, three, names.2, made.2),
        made.0 is Ok,
        made.1 is Ok,
        made.2 is Ok,
        listed(three, shown),
        shown is Ok,
    ensures
        rows_of(shown->Ok_0@) == active_rows(start).push(made.0->Ok_0@).push(made.1->Ok_0@).push(
            made.2->Ok_0@,
        ),
        made.0->Ok_0.id < made.1->Ok_0.id < made.2->Ok_0.id,
{
    let a = made.0->Ok_0@;
    let b = made.1->Ok_0@;
    let c = made.2->Ok_0@;
    lemma_listing_keeps_insertion_order(start, a, b, c);
    assert(one[one.len() - 1].id == a.id);
    assert(two[two.len() - 1].id == b.id);
}

/// A listing is in strictly ascending id order.
pub proof fn law_listing_ascends_by_id(rows: Seq<TaskRow>, shown: Result<Vec<Task>, TaskError>)
    requires
        listed(rows, shown),
        shown is Ok,
    ensures
        forall|i: int, j: int|
            0 <= i < j < shown->Ok_0@.len() ==> (#[trigger] shown->Ok_0@[i]).id < (
            #[trigger] shown->Ok_0@[j]).id,
{
    let tasks = shown->Ok_0@;
    lemma_listing_ascends(rows);
    assert forall|i: int, j: int| 0 <= i < j < tasks.len() implies (#[trigger] tasks[i]).id < (
    #[trigger] tasks[j]).id by {
        assert(rows_of(tasks)[i] == tasks[i]@);
        assert(rows_of(tasks)[j] == tasks[j]@);
    }
}

/// Setting a status that is already set succeeds with the same task and
/// leaves the table as it is.
pub proof fn law_status_repeat(
    before: Seq<TaskRow>,
    between: Seq<TaskRow>,
    after: Seq<TaskRow>,
    id: int,
    done: bool,
    first: Result<Task, TaskError>,
    second: Result<Task, TaskError>,
)
    requires
        updated(before, between, id, done, first),
        first is Ok,
        updated(between, after, id, done, second),
        second is Ok,
    ensures
        after == between,
        second->Ok_0@ == first->Ok_0@,
{
    lemma_status_idempotent(before, id, done);
    lemma_status_keeps_ids(before, id, done);
    let j = choose|j: int| 0 <= j < before.len() && #[trigger] before[j].id == id;
    assert(holds(before, before[j]));
    lemma_entry_is_row_with(before, before[j]);
    assert(between[j] == flagged(before[j], done));
    assert(holds(between, between[j]));
    lemma_entry_is_row_with(between, between[j]);
}

/// A status update neither hides nor shows a task: a deleted task stays
/// deleted, an active one stays active, and the listing differs only in the
/// flag of the updated task.
pub proof fn law_update_keeps_visibility(
    before: Seq<TaskRow>,
    after: Seq<TaskRow>,
    id: int,
    done: bool,
    changed: Result<Task, TaskError>,
)
    requires
        updated(before, after, id, done, changed),
        changed is Ok,
    ensures
        forall|other: int| has_active(after, other) == has_active(before, other),
        active_rows(after) == with_status(active_rows(before), id, done),
        changed->Ok_0@.deleted_at == row_with(before, id).deleted_at,
{
    assert forall|other: int| has_active(after, other) == has_active(before, other) by {
        lemma_status_keeps_lifecycle(before, id, done, other);
    }
    lemma_status_keeps_listing(before, id, done);
}

/// What is promised of the table of a connection that has its database to
/// itself includes what is promised of the result on any store.
pub proof fn law_relations_give_results(
    before: Seq<TaskRow>,
    after: Seq<TaskRow>,
    id: int,
    name: Seq<char>,
    done: bool,
    r: Result<Task, TaskError>,
    shown: Result<Vec<Task>, TaskError>,
)
    ensures
        created(before, after, name, r) ==> creation_result(name, r),
        updated(before, after, id, done, r) ==> update_result(id, r),
        deleted(before, after, id, r) ==> deletion_result(id, r),
        listed(before, shown) ==> listing_result(shown),
{
    if r is Ok && updated(before, after, id, done, r) {
        let j = choose|j: int| 0 <= j < before.len() && #[trigger] before[j].id == id;
        assert(holds(before, before[j]));
        lemma_entry_is_row_with(before, before[j]);
    }
    if r is Ok && deleted(before, after, id, r) {
        let j = choose|j: int|
            0 <= j < before.len() && #[trigger] before[j].id == id && before[j].is_active();
        assert(holds(before, before[j]));
        lemma_entry_is_row_with(before, before[j]);
    }
    if shown is Ok && listed(before, shown) {
        let tasks = shown->Ok_0@;
        assert forall|i: int| 0 <= i < tasks.len() implies (#[trigger] tasks[i]).deleted_at is None by {
            lemma_listed_rows_are_active(before, i);
            assert(rows_of(tasks)[i] == tasks[i]@);
        }
    }
}

/// A deletion time that is set is never cleared or replaced by a delete,
/// whatever the delete returns: where the task of the id is already deleted,
/// the delete fails and the table stays as it is.
pub proof fn law_deleted_stays_deleted(
    before: Seq<TaskRow>,
    after: Seq<TaskRow>,
    id: int,
    r: Result<Task, TaskError>,
    i: int,
)
    requires
        ascending(before),
        deleted(before, after, id, r),
        0 <= i < before.len(),
        before[i].id == id,
        before[i].deleted_at is Some,
    ensures
        r is Err,
        after == before,
{
    if has_active(before, id) {
        let j = choose|j: int|
            0 <= j < before.len() && #[trigger] before[j].id == id && before[j].is_active();
        assert(holds(before, before[i]));
        assert(holds(before, before[j]));
        lemma_id_names_one_row(before, before[i], before[j]);
    }
}

/// Ids are given out one after another: of two creates in a row on a
/// connection that has its database to itself, both successful, the second
/// task has the id after that of the first.
pub proof fn law_ids_follow(
    start: Connection,
    between: Connection,
    end: Connection,
    names: (Seq<char>, Seq<char>),
    made: (Result<Task, TaskError>, Result<Task, TaskError>),
)
    requires
        is_private(start),
        insert_effect(start, between, names.0, made.0),
        insert_effect(between, end, names.1, made.1),
        made.0 is Ok,
        made.1 is Ok,
    ensures
        made.1->Ok_0.id == made.0->Ok_0.id + 1,
        made.0->Ok_0.id == id_mark(start) + 1,
{
}

/// What a table keeps of its rows from `before` to `after`: none leaves or
/// moves, each keeps its id, name and creation time, and a deletion time that
/// is set stays as it is.
pub open spec fn keeps_history(before: Seq<TaskRow>, after: Seq<TaskRow>) -> bool {
    &&& before.len() <= after.len()
    &&& forall|i: int|
        0 <= i < before.len() ==> {
            &&& (#[trigger] after[i]).id == before[i].id
            &&& after[i].name == before[i].name
            &&& after[i].created_at == before[i].created_at
            &&& before[i].deleted_at is Some ==> after[i].deleted_at == before[i].deleted_at
        }
}

/// No operation removes a row, changes an id, a name or a creation time, or
/// clears or changes a deletion time, whatever it returns short of a store
/// failure.
pub proof fn law_operations_keep_history(
    before: Seq<TaskRow>,
    after: Seq<TaskRow>,
    id: int,
    name: Seq<char>,
    done: bool,
    r: Result<Task, TaskError>,
)
    requires
        !(r matches Err(TaskError::Storage(_))),
        created(before, after, name, r) || updated(before, after, id, done, r) || deleted(
            before,
            after,
            id,
            r,
        ),
    ensures
        keeps_history(before, after),
{
    if r is Ok && deleted(before, after, id, r) {
        let stamp = r->Ok_0.deleted_at->Some_0@;
        let j = choose|j: int|
            0 <= j < before.len() && #[trigger] before[j].id == id && before[j].is_active();
        assert forall|i: int| 0 <= i < before.len() && before[i].deleted_at is Some implies after[i]
            == before[i] by {
            if before[i].id == id {
                assert(holds(before, before[i]));
                assert(holds(before, before[j]));
                lemma_id_names_one_row(before, before[i], before[j]);
            }
        }
    }
}

} // verus!
