//! The `tasks` relation as a sequence of rows in ascending id order, the effect
//! of each task operation on it, and the laws that follow.

use crate::db::task::TaskRow;
use vstd::prelude::*;

verus! {

/// Ids grow strictly along the sequence, so no id occurs twice.
pub open spec fn ascending(rows: Seq<TaskRow>) -> bool {
    forall|i: int, j: int| 0 <= i < j < rows.len() ==> rows[i].id < rows[j].id
}

/// Some row carries `id`, deleted or not.
pub open spec fn has_id(rows: Seq<TaskRow>, id: int) -> bool {
    exists|i: int| 0 <= i < rows.len() && #[trigger] rows[i].id == id
}

/// Some row carries `id` and is not deleted.
pub open spec fn has_active(rows: Seq<TaskRow>, id: int) -> bool {
    exists|i: int| 0 <= i < rows.len() && #[trigger] rows[i].id == id && rows[i].is_active()
}

/// Every id in `rows` lies below `id`.
pub open spec fn is_fresh(rows: Seq<TaskRow>, id: int) -> bool {
    forall|i: int| 0 <= i < rows.len() ==> #[trigger] rows[i].id < id
}

/// The rows that a listing shows: the active ones, in table order.
pub open spec fn active_rows(rows: Seq<TaskRow>) -> Seq<TaskRow> {
    rows.filter(|r: TaskRow| r.is_active())
}

/// `row` with its done flag set to `done`.
pub open spec fn flagged(row: TaskRow, done: bool) -> TaskRow {
    TaskRow { is_done: done, ..row }
}

/// `row` with its deletion time set to `stamp`.
pub open spec fn stamped(row: TaskRow, stamp: Seq<char>) -> TaskRow {
    TaskRow { deleted_at: Some(stamp), ..row }
}

/// The table after the done flag of every row with `id` is set to `done`.
pub open spec fn with_status(rows: Seq<TaskRow>, id: int, done: bool) -> Seq<TaskRow> {
    rows.map_values(|r: TaskRow| if r.id == id { flagged(r, done) } else { r })
}

/// The table after every row with `id` is given the deletion time `stamp`.
pub open spec fn with_deletion(rows: Seq<TaskRow>, id: int, stamp: Seq<char>) -> Seq<TaskRow> {
    rows.map_values(|r: TaskRow| if r.id == id { stamped(r, stamp) } else { r })
}

/// `row` is an entry of `rows`.
pub open spec fn holds(rows: Seq<TaskRow>, row: TaskRow) -> bool {
    exists|i: int| 0 <= i < rows.len() && #[trigger] rows[i] == row
}

/// The row that carries `id`; meaningful where `has_id` holds.
pub open spec fn row_with(rows: Seq<TaskRow>, id: int) -> TaskRow {
    rows[choose|i: int| 0 <= i < rows.len() && #[trigger] rows[i].id == id]
}

/// In an ascending table two entries with the same id are the same row.
pub proof fn lemma_id_names_one_row(rows: Seq<TaskRow>, a: TaskRow, b: TaskRow)
    requires
        ascending(rows),
        holds(rows, a),
        holds(rows, b),
        a.id == b.id,
    ensures
        a == b,
{
    let i = choose|i: int| 0 <= i < rows.len() && #[trigger] rows[i] == a;
    let j = choose|j: int| 0 <= j < rows.len() && #[trigger] rows[j] == b;
    if i < j {
        assert(rows[i].id < rows[j].id);
    } else if j < i {
        assert(rows[j].id < rows[i].id);
    }
}

/// An entry of an ascending table is the row that its id names, and the id is
/// active exactly if that entry is.
pub proof fn lemma_entry_is_row_with(rows: Seq<TaskRow>, row: TaskRow)
    requires
        ascending(rows),
        holds(rows, row),
    ensures
        has_id(rows, row.id),
        row_with(rows, row.id) == row,
        has_active(rows, row.id) == row.is_active(),
{
    let i = choose|i: int| 0 <= i < rows.len() && #[trigger] rows[i] == row;
    assert(rows[i].id == row.id);
    let found = row_with(rows, row.id);
    assert(holds(rows, found));
    lemma_id_names_one_row(rows, found, row);
    if has_active(rows, row.id) {
        let j = choose|j: int|
            0 <= j < rows.len() && #[trigger] rows[j].id == row.id && rows[j].is_active();
        assert(holds(rows, rows[j]));
        lemma_id_names_one_row(rows, rows[j], row);
    }
}

/// What a lookup by id tells of the table it looked at: `Some(row)` is the row
/// with the id, `None` means that no row has it.
pub open spec fn answers(rows: Seq<TaskRow>, id: int, found: Option<TaskRow>) -> bool {
    match found {
        Some(row) => row.id == id && holds(rows, row),
        None => !has_id(rows, id),
    }
}

/// A lookup by id on an ascending table decides whether the id is present and
/// whether it is active.
pub proof fn lemma_lookup_decides(rows: Seq<TaskRow>, id: int, found: Option<TaskRow>)
    requires
        ascending(rows),
        answers(rows, id, found),
    ensures
        has_id(rows, id) == (found is Some),
        has_active(rows, id) == (found matches Some(row) && row.is_active()),
        found matches Some(row) ==> row_with(rows, id) == row,
{
    match found {
        Some(row) => {
            lemma_entry_is_row_with(rows, row);
        },
        None => {
            if has_active(rows, id) {
                let j = choose|j: int|
                    0 <= j < rows.len() && #[trigger] rows[j].id == id && rows[j].is_active();
                assert(has_id(rows, id));
            }
        },
    }
}

/// Setting a done flag keeps every id in place, so order and presence of ids
/// are those of the table before; where no row has the id nothing changes.
pub proof fn lemma_status_keeps_ids(rows: Seq<TaskRow>, id: int, done: bool)
    ensures
        with_status(rows, id, done).len() == rows.len(),
        forall|i: int|
            0 <= i < rows.len() ==> (#[trigger] with_status(rows, id, done)[i]).id == rows[i].id,
        ascending(with_status(rows, id, done)) == ascending(rows),
        forall|other: int| has_id(with_status(rows, id, done), other) == has_id(rows, other),
        !has_id(rows, id) ==> with_status(rows, id, done) == rows,
{
    let after = with_status(rows, id, done);
    assert forall|i: int| 0 <= i < rows.len() implies (#[trigger] after[i]).id == rows[i].id by {}
    lemma_same_ids(rows, after);
    if !has_id(rows, id) {
        assert forall|i: int| 0 <= i < rows.len() implies after[i] == rows[i] by {
            if rows[i].id == id {
                assert(has_id(rows, id));
            }
        }
        assert(after =~= rows);
    }
}

/// Two tables with the same ids at the same places agree on order and on which
/// ids are present.
pub proof fn lemma_same_ids(a: Seq<TaskRow>, b: Seq<TaskRow>)
    requires
        a.len() == b.len(),
        forall|i: int| 0 <= i < a.len() ==> (#[trigger] b[i]).id == a[i].id,
    ensures
        ascending(b) == ascending(a),
        forall|id: int| has_id(b, id) == has_id(a, id),
{
    if ascending(a) {
        assert forall|i: int, j: int| 0 <= i < j < b.len() implies b[i].id < b[j].id by {
            assert(a[i].id < a[j].id);
        }
    }
    if ascending(b) {
        assert forall|i: int, j: int| 0 <= i < j < a.len() implies a[i].id < a[j].id by {
            assert(b[i].id < b[j].id);
        }
    }
    assert forall|id: int| has_id(b, id) == has_id(a, id) by {
        if has_id(a, id) {
            let i = choose|i: int| 0 <= i < a.len() && #[trigger] a[i].id == id;
            assert(b[i].id == id);
        }
        if has_id(b, id) {
            let i = choose|i: int| 0 <= i < b.len() && #[trigger] b[i].id == id;
            assert(a[i].id == id);
        }
    }
}

/// After a done flag is set, the entry with the id is the old row with the new
/// flag.
pub proof fn lemma_status_row(rows: Seq<TaskRow>, id: int, done: bool, row: TaskRow)
    requires
        ascending(rows),
        holds(with_status(rows, id, done), row),
        row.id == id,
    ensures
        has_id(rows, id),
        row == flagged(row_with(rows, id), done),
{
    let after = with_status(rows, id, done);
    let i = choose|i: int| 0 <= i < after.len() && #[trigger] after[i] == row;
    assert(after[i] == flagged(rows[i], done));
    assert(holds(rows, rows[i]));
    lemma_entry_is_row_with(rows, rows[i]);
}

/// Setting a deletion time keeps every id in place, so order and presence of
/// ids are those of the table before; where no row has the id nothing changes.
pub proof fn lemma_deletion_keeps_ids(rows: Seq<TaskRow>, id: int, stamp: Seq<char>)
    ensures
        with_deletion(rows, id, stamp).len() == rows.len(),
        forall|i: int|
            0 <= i < rows.len() ==> (#[trigger] with_deletion(rows, id, stamp)[i]).id
                == rows[i].id,
        ascending(with_deletion(rows, id, stamp)) == ascending(rows),
        forall|other: int| has_id(with_deletion(rows, id, stamp), other) == has_id(rows, other),
        !has_id(rows, id) ==> with_deletion(rows, id, stamp) == rows,
{
    let after = with_deletion(rows, id, stamp);
    assert forall|i: int| 0 <= i < rows.len() implies (#[trigger] after[i]).id == rows[i].id by {}
    lemma_same_ids(rows, after);
    if !has_id(rows, id) {
        assert forall|i: int| 0 <= i < rows.len() implies after[i] == rows[i] by {
            if rows[i].id == id {
                assert(has_id(rows, id));
            }
        }
        assert(after =~= rows);
    }
}

/// After a deletion time is set, the entry with the id is the old row with that
/// time.
pub proof fn lemma_deletion_row(rows: Seq<TaskRow>, id: int, stamp: Seq<char>, row: TaskRow)
    requires
        ascending(rows),
        holds(with_deletion(rows, id, stamp), row),
        row.id == id,
    ensures
        has_id(rows, id),
        row == stamped(row_with(rows, id), stamp),
{
    let after = with_deletion(rows, id, stamp);
    let i = choose|i: int| 0 <= i < after.len() && #[trigger] after[i] == row;
    assert(after[i] == stamped(rows[i], stamp));
    assert(holds(rows, rows[i]));
    lemma_entry_is_row_with(rows, rows[i]);
}

/// Every listed row is an active row of the table.
pub proof fn lemma_listed_rows_are_active(rows: Seq<TaskRow>, i: int)
    requires
        0 <= i < active_rows(rows).len(),
    ensures
        active_rows(rows)[i].is_active(),
        holds(rows, active_rows(rows)[i]),
{
    let shown = |r: TaskRow| r.is_active();
    rows.lemma_filter_pred(shown, i);
    let row = active_rows(rows)[i];
    assert(active_rows(rows).contains(row));
    rows.lemma_filter_contains_rev(shown, row);
    let j = choose|j: int| 0 <= j < rows.len() && rows[j] == row;
    assert(rows[j] == row);
}

/// The listing of an ascending table ascends: tasks are listed in the order
/// of their ids, which is the order of their creation.
pub proof fn lemma_listing_ascends(rows: Seq<TaskRow>)
    requires
        ascending(rows),
    ensures
        ascending(active_rows(rows)),
    decreases rows.len(),
{
    let shown = |r: TaskRow| r.is_active();
    reveal(Seq::filter);
    if rows.len() > 0 {
        let head = rows.drop_last();
        let last = rows.last();
        assert(rows =~= head.push(last));
        assert forall|i: int, j: int| 0 <= i < j < head.len() implies head[i].id < head[j].id by {
            assert(rows[i].id < rows[j].id);
        }
        lemma_listing_ascends(head);
        head.lemma_filter_push(last, shown);
        if last.is_active() {
            let listed = active_rows(head);
            assert forall|i: int, j: int| 0 <= i < j < listed.push(last).len() implies listed.push(
                last,
            )[i].id < listed.push(last)[j].id by {
                if j == listed.len() {
                    lemma_listed_rows_are_active(head, i);
                    let k = choose|k: int| 0 <= k < head.len() && #[trigger] head[k] == listed[i];
                    assert(rows[k].id < rows[rows.len() - 1].id);
                }
            }
        }
    }
}

} // verus!
