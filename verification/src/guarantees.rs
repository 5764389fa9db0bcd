//! What the service guarantees, request by request.
//!
//! Each statement here is about [`run`]: about what a request, started by its
//! handler, does to the rows of a table and how it ends. All of them are
//! proved from the handlers' steps and from what the statements mean.

use vstd::prelude::*;
use crate::error::CustomError;
use crate::handler::{
    begin_create, begin_delete, begin_delete_all, begin_edit, begin_get, begin_list, next_step,
    ReplyView, StepView,
};
use crate::ident::is_generated_id;
use crate::model::{options_or_default, QueryOptions, TodoView, UpdateTodoSchema};
use crate::order::id_before;
use crate::page::{lemma_page_is_a_stretch, page_of};
use crate::service::run;
use crate::storage::QueryView;
use crate::table::{
    answer, has_id, has_title, index_of, is_table, lemma_index_of, lemma_place,
    lemma_statement_keeps_table, lemma_statement_keeps_titles, place, row_of, rows_after,
    titles_differ, titles_filled,
};

verus! {

/// Listing changes nothing and shows one page of the rows: the page that
/// [`page_of`] cuts out, never longer than the page length that the request
/// asks for, its todos by ascending id.
pub proof fn lemma_list_shows_a_page(
    rows: Seq<TodoView>,
    opts: Option<QueryOptions>,
    id: Seq<char>,
)
    requires
        is_table(rows),
    ensures
        ({
            let options = options_or_default(opts);
            let shown = page_of(
                rows,
                options.page_number() as int,
                options.page_length() as int,
            );
            &&& run(rows, begin_list(opts), id) == (
                rows,
                Ok::<ReplyView, CustomError>(ReplyView::Listed(shown)),
            )
            &&& shown.len() <= options.page_length()
            &&& forall|i: int, j: int|
                0 <= i < j < shown.len() ==> id_before(
                    (#[trigger] shown[i]).id->0,
                    (#[trigger] shown[j]).id->0,
                )
        }),
{
    reveal_with_fuel(run, 2);
    let options = options_or_default(opts);
    lemma_page_is_a_stretch(rows, options.page_number() as int, options.page_length() as int);
}

/// Listing an empty table succeeds and shows nothing.
pub proof fn lemma_list_of_no_rows(opts: Option<QueryOptions>, id: Seq<char>)
    ensures
        run(Seq::empty(), begin_list(opts), id) == (
            Seq::<TodoView>::empty(),
            Ok::<ReplyView, CustomError>(ReplyView::Listed(Seq::empty())),
        ),
{
    reveal_with_fuel(run, 2);
}

/// A todo without a title is turned down as a bad request, and nothing is
/// stored: no statement is run at all.
pub proof fn lemma_create_needs_a_title(rows: Seq<TodoView>, body: TodoView, id: Seq<char>)
    requires
        body.title.len() == 0,
    ensures
        begin_create(body) == StepView::Finish(Err(CustomError::BadRequest)),
        run(rows, begin_create(body), id) == (
            rows,
            Err::<ReplyView, CustomError>(CustomError::BadRequest),
        ),
{
    reveal_with_fuel(run, 2);
}

/// A todo whose title some row already has is turned down as a duplicate,
/// and nothing is stored.
pub proof fn lemma_create_refuses_a_taken_title(
    rows: Seq<TodoView>,
    body: TodoView,
    id: Seq<char>,
)
    requires
        body.title.len() > 0,
        has_title(rows, body.title),
    ensures
        run(rows, begin_create(body), id) == (
            rows,
            Err::<ReplyView, CustomError>(CustomError::TodoDuplicate),
        ),
{
    reveal_with_fuel(run, 3);
}

/// Fetching an id that no row has fails as not found.
pub proof fn lemma_get_of_unknown_id(rows: Seq<TodoView>, key: Seq<char>, id: Seq<char>)
    requires
        !has_id(rows, key),
    ensures
        run(rows, begin_get(key), id) == (
            rows,
            Err::<ReplyView, CustomError>(CustomError::TodoNotFound),
        ),
{
    reveal_with_fuel(run, 2);
}

/// Fetching an id that a row has hands out that row.
pub proof fn lemma_get_of_known_id(rows: Seq<TodoView>, key: Seq<char>, id: Seq<char>)
    requires
        has_id(rows, key),
    ensures
        run(rows, begin_get(key), id) == (
            rows,
            Ok::<ReplyView, CustomError>(ReplyView::Found(row_of(rows, key))),
        ),
        row_of(rows, key).id == Some(key),
{
    reveal_with_fuel(run, 2);
}

/// After clearing, the table is empty, and listing shows nothing.
pub proof fn lemma_cleared_table_lists_nothing(
    rows: Seq<TodoView>,
    opts: Option<QueryOptions>,
    id: Seq<char>,
)
    ensures
        run(rows, begin_delete_all(), id) == (
            Seq::<TodoView>::empty(),
            Ok::<ReplyView, CustomError>(ReplyView::Cleared),
        ),
        run(run(rows, begin_delete_all(), id).0, begin_list(opts), id).1 == Ok::<
            ReplyView,
            CustomError,
        >(ReplyView::Listed(Seq::empty())),
{
    reveal_with_fuel(run, 2);
}

/// A todo with a title that no row has is stored, provided the id drawn for
/// it is not in use. The reply is the stored row: the title as sent, the new
/// id, and 0 for each number that the request left out. The table gains that
/// row and keeps all others.
pub proof fn lemma_create_stores_a_new_title(rows: Seq<TodoView>, body: TodoView, id: Seq<char>)
    requires
        is_table(rows),
        body.title.len() > 0,
        !has_title(rows, body.title),
        is_generated_id(id),
        !has_id(rows, id),
    ensures
        ({
            let row = body.stored_as(id);
            let after = rows.insert(place(rows, id), row);
            &&& run(rows, begin_create(body), id) == (
                after,
                Ok::<ReplyView, CustomError>(ReplyView::Created(row)),
            )
            &&& row.id == Some(id) && id.len() > 0
            &&& row.title == body.title
            &&& body.movement is None ==> row.movement == Some(0i8)
            &&& body.punishment is None ==> row.punishment == Some(0i8)
            &&& body.mixup is None ==> row.mixup == Some(0i8)
            &&& body.combo is None ==> row.combo == Some(0i8)
            &&& is_table(after)
            &&& has_id(after, id) && row_of(after, id) == row
            &&& forall|key: Seq<char>|
                has_id(rows, key) ==> has_id(after, key) && #[trigger] row_of(after, key)
                    == row_of(rows, key)
        }),
{
    reveal_with_fuel(run, 3);
    let row = body.stored_as(id);
    let k = place(rows, id);
    let after = rows.insert(k, row);
    lemma_place(rows, id);
    lemma_statement_keeps_table(rows, QueryView::Insert(row));
    assert(after[k] == row);
    lemma_index_of(after, id, k);
    assert forall|key: Seq<char>| has_id(rows, key) implies has_id(after, key) && #[trigger] row_of(
        after,
        key,
    ) == row_of(rows, key) by {
        let i = index_of(rows, key);
        let j = if i < k {
            i
        } else {
            i + 1
        };
        assert(after[j] == rows[i]);
        lemma_index_of(after, key, j);
    }
}

/// If the id drawn for a new todo is already in use, the table refuses the
/// row, and the request fails as an internal error with nothing stored.
pub proof fn lemma_create_with_an_id_in_use(rows: Seq<TodoView>, body: TodoView, id: Seq<char>)
    requires
        body.title.len() > 0,
        !has_title(rows, body.title),
        has_id(rows, id),
    ensures
        run(rows, begin_create(body), id) == (
            rows,
            Err::<ReplyView, CustomError>(CustomError::InternalServerError),
        ),
{
    reveal_with_fuel(run, 3);
}

/// Updating a todo replaces the numbers that the request names and leaves
/// the others, the id and the title as they are. The reply is the row as the
/// table holds it afterwards, and no other row changes.
pub proof fn lemma_update_replaces_named_numbers(
    rows: Seq<TodoView>,
    key: Seq<char>,
    body: UpdateTodoSchema,
    id: Seq<char>,
)
    requires
        is_table(rows),
        has_id(rows, key),
    ensures
        ({
            let old_row = row_of(rows, key);
            let new_row = body.merged_into(old_row);
            &&& run(rows, begin_edit(key, body), id) == (
                rows.update(index_of(rows, key), new_row),
                Ok::<ReplyView, CustomError>(ReplyView::Updated(new_row)),
            )
            &&& new_row.id == old_row.id
            &&& new_row.title == old_row.title
            &&& new_row.movement == if body.movement is Some {
                body.movement
            } else {
                old_row.movement
            }
            &&& new_row.punishment == if body.punishment is Some {
                body.punishment
            } else {
                old_row.punishment
            }
            &&& new_row.mixup == if body.mixup is Some {
                body.mixup
            } else {
                old_row.mixup
            }
            &&& new_row.combo == if body.combo is Some {
                body.combo
            } else {
                old_row.combo
            }
        }),
{
    reveal_with_fuel(run, 4);
    let k = index_of(rows, key);
    let old_row = row_of(rows, key);
    let new_row = body.merged_into(old_row);
    assert(old_row.is_row());
    let write = QueryView::UpdateNumbers {
        id: key,
        movement: new_row.movement->0,
        punishment: new_row.punishment->0,
        mixup: new_row.mixup->0,
        combo: new_row.combo->0,
    };
    let after = rows_after(rows, write);
    assert(after == rows.update(k, new_row));
    lemma_statement_keeps_table(rows, write);
    lemma_index_of(after, key, k);
}

/// Updating an id that no row has fails as not found and changes nothing.
pub proof fn lemma_update_of_unknown_id(
    rows: Seq<TodoView>,
    key: Seq<char>,
    body: UpdateTodoSchema,
    id: Seq<char>,
)
    requires
        !has_id(rows, key),
    ensures
        run(rows, begin_edit(key, body), id) == (
            rows,
            Err::<ReplyView, CustomError>(CustomError::TodoNotFound),
        ),
{
    reveal_with_fuel(run, 2);
}

/// Deleting removes the row with the id and no other; where no row has the
/// id, it fails as not found and changes nothing.
pub proof fn lemma_delete_removes_the_row(rows: Seq<TodoView>, key: Seq<char>, id: Seq<char>)
    ensures
        run(rows, begin_delete(key), id) == if has_id(rows, key) {
            (rows.remove(index_of(rows, key)), Ok::<ReplyView, CustomError>(ReplyView::Deleted))
        } else {
            (rows, Err::<ReplyView, CustomError>(CustomError::TodoNotFound))
        },
{
    reveal_with_fuel(run, 3);
}

/// Once an id has been deleted, fetching it fails as not found, whether or
/// not the deletion found a row.
pub proof fn lemma_deleted_id_is_not_found(
    rows: Seq<TodoView>,
    key: Seq<char>,
    id: Seq<char>,
    later_id: Seq<char>,
)
    requires
        is_table(rows),
    ensures
        ({
            let after = run(rows, begin_delete(key), id).0;
            &&& !has_id(after, key)
            &&& run(after, begin_get(key), later_id) == (
                after,
                Err::<ReplyView, CustomError>(CustomError::TodoNotFound),
            )
        }),
{
    lemma_delete_removes_the_row(rows, key, id);
    let after = run(rows, begin_delete(key), id).0;
    if has_id(rows, key) {
        let k = index_of(rows, key);
        if has_id(after, key) {
            let j = index_of(after, key);
            let i = if j < k {
                j
            } else {
                j + 1
            };
            assert(after[j] == rows[i]);
            lemma_index_of(rows, key, i);
        }
    }
    lemma_get_of_unknown_id(after, key, later_id);
}

/// Whatever a request does, it leaves a table a table: every row keeps its
/// id and all four numbers, and no id is held by two rows.
pub proof fn lemma_requests_keep_the_table(rows: Seq<TodoView>, step: StepView, id: Seq<char>)
    requires
        is_table(rows),
    ensures
        is_table(run(rows, step, id).0),
    decreases step.statements_left(),
{
    match step {
        StepView::Finish(_) => {},
        StepView::Ask(query, pending) => {
            lemma_statement_keeps_table(rows, query);
            lemma_requests_keep_the_table(
                rows_after(rows, query),
                next_step(pending, answer(rows, query), id),
                id,
            );
        },
    }
}

/// A request that fails changes nothing.
pub proof fn lemma_failed_request_changes_nothing(
    rows: Seq<TodoView>,
    opts: Option<QueryOptions>,
    key: Seq<char>,
    body: TodoView,
    numbers: UpdateTodoSchema,
    id: Seq<char>,
)
    requires
        is_table(rows),
    ensures
        run(rows, begin_list(opts), id).1 is Err ==> run(rows, begin_list(opts), id).0 == rows,
        run(rows, begin_get(key), id).1 is Err ==> run(rows, begin_get(key), id).0 == rows,
        run(rows, begin_create(body), id).1 is Err ==> run(rows, begin_create(body), id).0
            == rows,
        run(rows, begin_edit(key, numbers), id).1 is Err ==> run(
            rows,
            begin_edit(key, numbers),
            id,
        ).0 == rows,
        run(rows, begin_delete(key), id).1 is Err ==> run(rows, begin_delete(key), id).0 == rows,
        run(rows, begin_delete_all(), id).1 is Err ==> run(rows, begin_delete_all(), id).0
            == rows,
{
    reveal_with_fuel(run, 3);
    lemma_delete_removes_the_row(rows, key, id);
    if has_id(rows, key) {
        lemma_update_replaces_named_numbers(rows, key, numbers, id);
    } else {
        lemma_update_of_unknown_id(rows, key, numbers, id);
    }
}

/// The rows that creating leaves: those it found, or those with the new row
/// inserted, and the latter only for a title that is not empty and not taken.
proof fn lemma_rows_after_create(rows: Seq<TodoView>, body: TodoView, id: Seq<char>)
    ensures
        ({
            let after = run(rows, begin_create(body), id).0;
            let insert = QueryView::Insert(body.stored_as(id));
            after == rows || (after == rows_after(rows, insert) && body.title.len() > 0
                && !has_title(rows, body.title))
        }),
{
    reveal_with_fuel(run, 3);
}

/// The rows that updating leaves: those it found, or those after one
/// statement that sets numbers.
proof fn lemma_rows_after_edit(
    rows: Seq<TodoView>,
    key: Seq<char>,
    numbers: UpdateTodoSchema,
    id: Seq<char>,
) -> (write: QueryView)
    requires
        is_table(rows),
    ensures
        write is UpdateNumbers,
        ({
            let after = run(rows, begin_edit(key, numbers), id).0;
            after == rows || after == rows_after(rows, write)
        }),
{
    let merged = numbers.merged_into(row_of(rows, key));
    let write = QueryView::UpdateNumbers {
        id: key,
        movement: merged.movement->0,
        punishment: merged.punishment->0,
        mixup: merged.mixup->0,
        combo: merged.combo->0,
    };
    if has_id(rows, key) {
        lemma_update_replaces_named_numbers(rows, key, numbers, id);
    } else {
        lemma_update_of_unknown_id(rows, key, numbers, id);
    }
    write
}

/// No request brings a title into the table twice or stores an empty one:
/// if the titles of a table differ, they still differ after any of the six
/// requests, and if none is empty, none is afterwards.
pub proof fn lemma_requests_keep_titles_apart(
    rows: Seq<TodoView>,
    opts: Option<QueryOptions>,
    key: Seq<char>,
    body: TodoView,
    numbers: UpdateTodoSchema,
    id: Seq<char>,
)
    requires
        is_table(rows),
        titles_differ(rows),
    ensures
        titles_differ(run(rows, begin_list(opts), id).0),
        titles_differ(run(rows, begin_get(key), id).0),
        titles_differ(run(rows, begin_create(body), id).0),
        titles_differ(run(rows, begin_edit(key, numbers), id).0),
        titles_differ(run(rows, begin_delete(key), id).0),
        titles_differ(run(rows, begin_delete_all(), id).0),
        titles_filled(rows) ==> {
            &&& titles_filled(run(rows, begin_list(opts), id).0)
            &&& titles_filled(run(rows, begin_get(key), id).0)
            &&& titles_filled(run(rows, begin_create(body), id).0)
            &&& titles_filled(run(rows, begin_edit(key, numbers), id).0)
            &&& titles_filled(run(rows, begin_delete(key), id).0)
            &&& titles_filled(run(rows, begin_delete_all(), id).0)
        },
{
    lemma_list_shows_a_page(rows, opts, id);
    if has_id(rows, key) {
        lemma_get_of_known_id(rows, key, id);
    } else {
        lemma_get_of_unknown_id(rows, key, id);
    }
    lemma_rows_after_create(rows, body, id);
    lemma_statement_keeps_titles(rows, QueryView::Insert(body.stored_as(id)));
    let write = lemma_rows_after_edit(rows, key, numbers, id);
    lemma_statement_keeps_titles(rows, write);
    lemma_delete_removes_the_row(rows, key, id);
    lemma_statement_keeps_titles(rows, QueryView::DeleteById(key));
    lemma_cleared_table_lists_nothing(rows, opts, id);
}

} // verus!
