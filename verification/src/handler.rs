//! The six requests, each as a small state machine.
//!
//! A handler starts a request: it either turns the request down at once or
//! names the first statement for the storage, together with what is still
//! [`Pending`]. Whoever runs the statement hands the storage's answer to
//! [`resume`], which names the next statement or finishes with the reply. No
//! request takes more than three statements, and none is ever run twice.

use vstd::prelude::*;
use crate::error::CustomError;
use crate::ident::{fresh_id, is_generated_id};
use crate::model::{
    lemma_views_of_subrange, options_or_default, views, QueryOptions, Todo, TodoView,
    UpdateTodoSchema,
};
use crate::page::{page_of, page_start, paginate};
use crate::storage::{Outcome, OutcomeView, Query, QueryView};

verus! {

/// What a request that succeeded sends back.
#[derive(Debug, PartialEq, Eq)]
pub enum Reply {
    /// One page of the list.
    Listed(Vec<Todo>),
    /// The todo that was asked for.
    Found(Todo),
    /// The todo as it was stored.
    Created(Todo),
    /// The todo as the storage holds it after the update.
    Updated(Todo),
    /// The todo is gone.
    Deleted,
    /// All todos are gone.
    Cleared,
}

/// A reply as a mathematical value.
pub enum ReplyView {
    Listed(Seq<TodoView>),
    Found(TodoView),
    Created(TodoView),
    Updated(TodoView),
    Deleted,
    Cleared,
}

impl View for Reply {
    type V = ReplyView;

    open spec fn view(&self) -> ReplyView {
        match self {
            Reply::Listed(todos) => ReplyView::Listed(views(todos@)),
            Reply::Found(todo) => ReplyView::Found(todo@),
            Reply::Created(todo) => ReplyView::Created(todo@),
            Reply::Updated(todo) => ReplyView::Updated(todo@),
            Reply::Deleted => ReplyView::Deleted,
            Reply::Cleared => ReplyView::Cleared,
        }
    }
}

impl ReplyView {
    /// The HTTP status that goes with the reply.
    pub open spec fn status(self) -> u16 {
        match self {
            ReplyView::Listed(_) => 200,
            ReplyView::Found(_) => 200,
            ReplyView::Created(_) => 201,
            ReplyView::Updated(_) => 200,
            ReplyView::Deleted => 204,
            ReplyView::Cleared => 204,
        }
    }
}

impl Reply {
    pub fn status_code(&self) -> (code: u16)
        ensures
            code == self@.status(),
    {
        match self {
            Reply::Listed(_) => 200,
            Reply::Found(_) => 200,
            Reply::Created(_) => 201,
            Reply::Updated(_) => 200,
            Reply::Deleted => 204,
            Reply::Cleared => 204,
        }
    }
}

/// How a request ended, as a mathematical value.
pub open spec fn result_view(result: Result<Reply, CustomError>) -> Result<
    ReplyView,
    CustomError,
> {
    match result {
        Ok(reply) => Ok(reply@),
        Err(error) => Err(error),
    }
}

/// What a request still has to do once the storage has answered.
#[derive(Debug, PartialEq, Eq)]
pub enum Pending {
    /// Show this page of the rows.
    Listing { page: usize, limit: usize },
    /// Hand out the row.
    Fetching,
    /// Store this todo unless its title is taken.
    CreateCheck(Todo),
    /// Report this row as created.
    CreateInsert(Todo),
    /// Merge these numbers into the row with this id.
    EditLookup { id: String, body: UpdateTodoSchema },
    /// Read the row with this id again.
    EditWrite { id: String },
    /// Hand out the row as it is now.
    EditReload,
    /// Remove the row with this id if there is one.
    DeleteCheck { id: String },
    /// Report the row as removed.
    DeleteWrite,
    /// Report the table as empty.
    Clearing,
}

/// What is pending, as a mathematical value.
pub enum PendingView {
    Listing { page: usize, limit: usize },
    Fetching,
    CreateCheck(TodoView),
    CreateInsert(TodoView),
    EditLookup { id: Seq<char>, body: UpdateTodoSchema },
    EditWrite { id: Seq<char> },
    EditReload,
    DeleteCheck { id: Seq<char> },
    DeleteWrite,
    Clearing,
}

impl View for Pending {
    type V = PendingView;

    open spec fn view(&self) -> PendingView {
        match self {
            Pending::Listing { page, limit } => PendingView::Listing { page: *page, limit: *limit },
            Pending::Fetching => PendingView::Fetching,
            Pending::CreateCheck(body) => PendingView::CreateCheck(body@),
            Pending::CreateInsert(row) => PendingView::CreateInsert(row@),
            Pending::EditLookup { id, body } => PendingView::EditLookup { id: id@, body: *body },
            Pending::EditWrite { id } => PendingView::EditWrite { id: id@ },
            Pending::EditReload => PendingView::EditReload,
            Pending::DeleteCheck { id } => PendingView::DeleteCheck { id: id@ },
            Pending::DeleteWrite => PendingView::DeleteWrite,
            Pending::Clearing => PendingView::Clearing,
        }
    }
}

impl PendingView {
    /// How many statements the request may still run, the one that is being
    /// answered included.
    pub open spec fn statements_left(self) -> nat {
        match self {
            PendingView::CreateCheck(_) => 2,
            PendingView::EditLookup { .. } => 3,
            PendingView::EditWrite { .. } => 2,
            PendingView::DeleteCheck { .. } => 2,
            _ => 1,
        }
    }
}

/// Where a request stands: it waits for a statement to be run, or it is over.
#[derive(Debug, PartialEq, Eq)]
pub enum Step {
    /// Run the statement and come back with the answer.
    Ask(Query, Pending),
    /// Send this.
    Finish(Result<Reply, CustomError>),
}

/// A step as a mathematical value.
pub enum StepView {
    Ask(QueryView, PendingView),
    Finish(Result<ReplyView, CustomError>),
}

impl View for Step {
    type V = StepView;

    open spec fn view(&self) -> StepView {
        match self {
            Step::Ask(query, pending) => StepView::Ask(query@, pending@),
            Step::Finish(result) => StepView::Finish(result_view(*result)),
        }
    }
}

impl StepView {
    /// How many statements the request may still run.
    pub open spec fn statements_left(self) -> nat {
        match self {
            StepView::Ask(_, pending) => pending.statements_left(),
            StepView::Finish(_) => 0,
        }
    }

    /// The id of the row that the step is about to insert, if it inserts one.
    pub open spec fn inserted_id(self) -> Seq<char> {
        match self {
            StepView::Ask(QueryView::Insert(row), _) => match row.id {
                Some(id) => id,
                None => Seq::empty(),
            },
            _ => Seq::empty(),
        }
    }
}

/// The step that ends a request in failure.
pub open spec fn failed(error: CustomError) -> StepView {
    StepView::Finish(Err(error))
}

/// The step that ends a request with a reply.
pub open spec fn replied(reply: ReplyView) -> StepView {
    StepView::Finish(Ok(reply))
}

/// Listing starts by selecting all rows. The page is the first and a page has
/// ten rows unless the options say otherwise.
pub open spec fn begin_list(opts: Option<QueryOptions>) -> StepView {
    let options = options_or_default(opts);
    StepView::Ask(
        QueryView::SelectAll,
        PendingView::Listing { page: options.page_number(), limit: options.page_length() },
    )
}

/// Fetching starts by selecting the row.
pub open spec fn begin_get(id: Seq<char>) -> StepView {
    StepView::Ask(QueryView::SelectById(id), PendingView::Fetching)
}

/// Creating is turned down at once if the title is empty. Otherwise it starts
/// by asking whether the title is taken.
pub open spec fn begin_create(body: TodoView) -> StepView {
    if body.title.len() == 0 {
        failed(CustomError::BadRequest)
    } else {
        StepView::Ask(QueryView::TitleExists(body.title), PendingView::CreateCheck(body))
    }
}

/// Updating starts by selecting the row that is to change.
pub open spec fn begin_edit(id: Seq<char>, body: UpdateTodoSchema) -> StepView {
    StepView::Ask(QueryView::SelectById(id), PendingView::EditLookup { id, body })
}

/// Deleting starts by asking whether the row is there.
pub open spec fn begin_delete(id: Seq<char>) -> StepView {
    StepView::Ask(QueryView::IdExists(id), PendingView::DeleteCheck { id })
}

/// Clearing runs its one statement right away.
pub open spec fn begin_delete_all() -> StepView {
    StepView::Ask(QueryView::DeleteAll, PendingView::Clearing)
}

/// Whether a new id is drawn when `outcome` answers `pending`: only when a
/// todo is about to be stored.
pub open spec fn draws_id(pending: PendingView, outcome: OutcomeView) -> bool {
    pending is CreateCheck && outcome == OutcomeView::Flag(false)
}

/// The step that follows when `outcome` answers what was asked under
/// `pending`. `id` is the id for a new row; it matters only where
/// [`draws_id`] holds.
///
/// An answer of a kind that the statement cannot have, and every fault, ends
/// the request as an internal error. A missing row ends fetching and updating
/// as not found, a missing id ends deleting so, and a taken title ends
/// creating as a duplicate.
pub open spec fn next_step(pending: PendingView, outcome: OutcomeView, id: Seq<char>)
    -> StepView {
    match (pending, outcome) {
        (PendingView::Listing { page, limit }, OutcomeView::Rows(rows)) => replied(
            ReplyView::Listed(page_of(rows, page as int, limit as int)),
        ),
        (PendingView::Fetching, OutcomeView::Row(row)) => replied(ReplyView::Found(row)),
        (PendingView::Fetching, OutcomeView::NoRow) => failed(CustomError::TodoNotFound),
        (PendingView::CreateCheck(_), OutcomeView::Flag(true)) => failed(
            CustomError::TodoDuplicate,
        ),
        (PendingView::CreateCheck(body), OutcomeView::Flag(false)) => StepView::Ask(
            QueryView::Insert(body.stored_as(id)),
            PendingView::CreateInsert(body.stored_as(id)),
        ),
        (PendingView::CreateInsert(row), OutcomeView::Done) => replied(ReplyView::Created(row)),
        (PendingView::EditLookup { id: key, body }, OutcomeView::Row(row)) => {
            if row.is_row() {
                let merged = body.merged_into(row);
                StepView::Ask(
                    QueryView::UpdateNumbers {
                        id: key,
                        movement: merged.movement->0,
                        punishment: merged.punishment->0,
                        mixup: merged.mixup->0,
                        combo: merged.combo->0,
                    },
                    PendingView::EditWrite { id: key },
                )
            } else {
                failed(CustomError::InternalServerError)
            }
        },
        (PendingView::EditLookup { .. }, OutcomeView::NoRow) => failed(
            CustomError::TodoNotFound,
        ),
        (PendingView::EditWrite { id: key }, OutcomeView::Done) => StepView::Ask(
            QueryView::SelectById(key),
            PendingView::EditReload,
        ),
        (PendingView::EditReload, OutcomeView::Row(row)) => replied(ReplyView::Updated(row)),
        (PendingView::DeleteCheck { id: key }, OutcomeView::Flag(true)) => StepView::Ask(
            QueryView::DeleteById(key),
            PendingView::DeleteWrite,
        ),
        (PendingView::DeleteCheck { .. }, OutcomeView::Flag(false)) => failed(
            CustomError::TodoNotFound,
        ),
        (PendingView::DeleteWrite, OutcomeView::Done) => replied(ReplyView::Deleted),
        (PendingView::Clearing, OutcomeView::Done) => replied(ReplyView::Cleared),
        _ => failed(CustomError::InternalServerError),
    }
}

/// Every answer brings a request nearer to its end, and no request runs more
/// than three statements.
pub proof fn lemma_requests_end(pending: PendingView, outcome: OutcomeView, id: Seq<char>)
    ensures
        pending.statements_left() <= 3,
        next_step(pending, outcome, id).statements_left() < pending.statements_left(),
{
}

/// Starts a request for one page of the list.
pub fn todos_list_handler(opts: Option<QueryOptions>) -> (step: Step)
    ensures
        step@ == begin_list(opts),
{
    let options = opts.unwrap_or_default();
    let page = options.page.unwrap_or(1);
    let limit = options.limit.unwrap_or(10);
    Step::Ask(Query::SelectAll, Pending::Listing { page, limit })
}

/// Starts a request for the todo with the id.
pub fn get_todo_handler(id: String) -> (step: Step)
    ensures
        step@ == begin_get(id@),
{
    Step::Ask(Query::SelectById(id), Pending::Fetching)
}

/// Starts a request to store a new todo. The id and the numbers that `body`
/// may carry are input like its title: the id is ignored, a number left out
/// is stored as 0.
pub fn create_todo_handler(body: Todo) -> (step: Step)
    ensures
        step@ == begin_create(body@),
{
    if body.title.as_str().is_empty() {
        return Step::Finish(Err(CustomError::BadRequest));
    }
    Step::Ask(Query::TitleExists(body.title.clone()), Pending::CreateCheck(body))
}

/// Starts a request to change numbers of the todo with the id.
pub fn edit_todo_handler(id: String, body: UpdateTodoSchema) -> (step: Step)
    ensures
        step@ == begin_edit(id@, body),
{
    Step::Ask(Query::SelectById(id.clone()), Pending::EditLookup { id, body })
}

/// Starts a request to remove the todo with the id.
pub fn delete_todo_handler(id: String) -> (step: Step)
    ensures
        step@ == begin_delete(id@),
{
    Step::Ask(Query::IdExists(id.clone()), Pending::DeleteCheck { id })
}

/// Starts a request to remove every todo.
pub fn delete_all() -> (step: Step)
    ensures
        step@ == begin_delete_all(),
{
    Step::Ask(Query::DeleteAll, Pending::Clearing)
}

/// Goes on with a request: `outcome` is what the storage answered to the
/// statement that was asked together with `pending`.
///
/// The result is [`next_step`]. Where a todo is about to be stored, its id is
/// drawn here, so the id is some generated id and no more is known of it; the
/// contract says so by reading the id off the step that was built.
pub fn resume(pending: Pending, outcome: Outcome) -> (step: Step)
    ensures
        step@ == next_step(pending@, outcome@, step@.inserted_id()),
        draws_id(pending@, outcome@) ==> is_generated_id(step@.inserted_id()),
{
    let internal = Step::Finish(Err(CustomError::InternalServerError));
    match (pending, outcome) {
        (Pending::Listing { page, limit }, Outcome::Rows(rows)) => {
            let shown = paginate(rows, page, limit);
            proof {
                lemma_views_of_page(rows@, page as int, limit as int);
            }
            Step::Finish(Ok(Reply::Listed(shown)))
        },
        (Pending::Fetching, Outcome::Row(row)) => Step::Finish(Ok(Reply::Found(row))),
        (Pending::Fetching, Outcome::NoRow) => Step::Finish(Err(CustomError::TodoNotFound)),
        (Pending::CreateCheck(_), Outcome::Flag(true)) => Step::Finish(
            Err(CustomError::TodoDuplicate),
        ),
        (Pending::CreateCheck(body), Outcome::Flag(false)) => {
            let row = body.stored_as(fresh_id());
            Step::Ask(Query::Insert(row.clone()), Pending::CreateInsert(row))
        },
        (Pending::CreateInsert(row), Outcome::Done) => Step::Finish(Ok(Reply::Created(row))),
        (Pending::EditLookup { id, body }, Outcome::Row(row)) => {
            match (row.id, row.movement, row.punishment, row.mixup, row.combo) {
                (Some(_), Some(movement), Some(punishment), Some(mixup), Some(combo)) => Step::Ask(
                    Query::UpdateNumbers {
                        id: id.clone(),
                        movement: body.movement.unwrap_or(movement),
                        punishment: body.punishment.unwrap_or(punishment),
                        mixup: body.mixup.unwrap_or(mixup),
                        combo: body.combo.unwrap_or(combo),
                    },
                    Pending::EditWrite { id },
                ),
                _ => internal,
            }
        },
        (Pending::EditLookup { .. }, Outcome::NoRow) => Step::Finish(
            Err(CustomError::TodoNotFound),
        ),
        (Pending::EditWrite { id }, Outcome::Done) => Step::Ask(
            Query::SelectById(id),
            Pending::EditReload,
        ),
        (Pending::EditReload, Outcome::Row(row)) => Step::Finish(Ok(Reply::Updated(row))),
        (Pending::DeleteCheck { id }, Outcome::Flag(true)) => Step::Ask(
            Query::DeleteById(id),
            Pending::DeleteWrite,
        ),
        (Pending::DeleteCheck { .. }, Outcome::Flag(false)) => Step::Finish(
            Err(CustomError::TodoNotFound),
        ),
        (Pending::DeleteWrite, Outcome::Done) => Step::Finish(Ok(Reply::Deleted)),
        (Pending::Clearing, Outcome::Done) => Step::Finish(Ok(Reply::Cleared)),
        _ => internal,
    }
}

/// Reading a page off todos and then reading them as values comes to the same
/// as reading the page off the values.
pub proof fn lemma_views_of_page(todos: Seq<Todo>, page: int, limit: int)
    requires
        limit >= 0,
    ensures
        views(page_of(todos, page, limit)) == page_of(views(todos), page, limit),
{
    let start = page_start(page, limit);
    assert(start >= 0) by (nonlinear_arith)
        requires
            limit >= 0,
            start == if page >= 1 {
                (page - 1) * limit
            } else {
                0
            },
    ;
    if start >= todos.len() {
        assert(views(Seq::<Todo>::empty()) =~= Seq::<TodoView>::empty());
    } else if start + limit >= todos.len() {
        lemma_views_of_subrange(todos, start, todos.len() as int);
    } else {
        lemma_views_of_subrange(todos, start, start + limit);
    }
}

} // verus!
