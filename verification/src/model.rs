//! The todo and the two shapes in which a request carries its parameters.

use vstd::prelude::*;

verus! {

/// A todo, as a request sends it and as the table keeps it.
///
/// A request to create one may leave out the id and the four numbers. A row of
/// the table has them all: see [`TodoView::is_row`].
#[derive(Debug, PartialEq, Eq)]
pub struct Todo {
    pub id: Option<String>,
    pub title: String,
    pub movement: Option<i8>,
    pub punishment: Option<i8>,
    pub mixup: Option<i8>,
    pub combo: Option<i8>,
}

/// Which page of the list a request asks for, and how long a page is.
#[derive(Debug, Clone, Copy, PartialEq, Eq)]
pub struct QueryOptions {
    pub page: Option<usize>,
    pub limit: Option<usize>,
}

/// The numbers that an update replaces. A number left out stays as it is.
#[derive(Debug, Clone, Copy, PartialEq, Eq)]
pub struct UpdateTodoSchema {
    pub movement: Option<i8>,
    pub punishment: Option<i8>,
    pub mixup: Option<i8>,
    pub combo: Option<i8>,
}

/// A todo as a mathematical value: its texts are sequences of characters.
pub struct TodoView {
    pub id: Option<Seq<char>>,
    pub title: Seq<char>,
    pub movement: Option<i8>,
    pub punishment: Option<i8>,
    pub mixup: Option<i8>,
    pub combo: Option<i8>,
}

/// `fallback` where `given` is absent.
pub open spec fn number_or(given: Option<i8>, fallback: i8) -> i8 {
    match given {
        Some(n) => n,
        None => fallback,
    }
}

impl TodoView {
    /// A row of the table has an id and all four numbers.
    pub open spec fn is_row(self) -> bool {
        &&& self.id is Some
        &&& self.movement is Some
        &&& self.punishment is Some
        &&& self.mixup is Some
        &&& self.combo is Some
    }

    /// The row that creating `self` under `id` stores: the title as sent, each
    /// number as sent or 0, and the new id in place of whatever was sent.
    pub open spec fn stored_as(self, id: Seq<char>) -> TodoView {
        TodoView {
            id: Some(id),
            title: self.title,
            movement: Some(number_or(self.movement, 0)),
            punishment: Some(number_or(self.punishment, 0)),
            mixup: Some(number_or(self.mixup, 0)),
            combo: Some(number_or(self.combo, 0)),
        }
    }

    /// The row with its numbers replaced. Id and title stay.
    pub open spec fn with_numbers(self, movement: i8, punishment: i8, mixup: i8, combo: i8)
        -> TodoView {
        TodoView {
            id: self.id,
            title: self.title,
            movement: Some(movement),
            punishment: Some(punishment),
            mixup: Some(mixup),
            combo: Some(combo),
        }
    }
}

impl View for Todo {
    type V = TodoView;

    open spec fn view(&self) -> TodoView {
        TodoView {
            id: match self.id {
                Some(id) => Some(id@),
                None => None,
            },
            title: self.title@,
            movement: self.movement,
            punishment: self.punishment,
            mixup: self.mixup,
            combo: self.combo,
        }
    }
}

/// The todos of a vector as mathematical values, in the vector's order.
pub open spec fn views(todos: Seq<Todo>) -> Seq<TodoView> {
    Seq::new(todos.len(), |i: int| todos[i]@)
}

/// Taking a stretch of todos and reading them as values comes to the same as
/// reading them as values and taking the stretch.
pub proof fn lemma_views_of_subrange(todos: Seq<Todo>, from: int, to: int)
    requires
        0 <= from <= to <= todos.len(),
    ensures
        views(todos.subrange(from, to)) == views(todos).subrange(from, to),
{
    assert(views(todos.subrange(from, to)) =~= views(todos).subrange(from, to));
}

impl Clone for Todo {
    fn clone(&self) -> (copy: Self)
        ensures
            copy@ == self@,
    {
        let id = match &self.id {
            Some(id) => Some(id.clone()),
            None => None,
        };
        Todo {
            id,
            title: self.title.clone(),
            movement: self.movement,
            punishment: self.punishment,
            mixup: self.mixup,
            combo: self.combo,
        }
    }
}

impl Todo {
    /// The row that creating this todo under `id` stores.
    pub fn stored_as(self, id: String) -> (row: Todo)
        ensures
            row@ == self@.stored_as(id@),
    {
        Todo {
            id: Some(id),
            title: self.title,
            movement: Some(self.movement.unwrap_or(0)),
            punishment: Some(self.punishment.unwrap_or(0)),
            mixup: Some(self.mixup.unwrap_or(0)),
            combo: Some(self.combo.unwrap_or(0)),
        }
    }

    /// Whether the todo has all that a row of the table has.
    pub fn is_row(&self) -> (complete: bool)
        ensures
            complete == self@.is_row(),
    {
        self.id.is_some() && self.movement.is_some() && self.punishment.is_some()
            && self.mixup.is_some() && self.combo.is_some()
    }
}

impl Default for QueryOptions {
    /// The options of a request that names neither page nor limit.
    fn default() -> (options: Self)
        ensures
            options.page is None,
            options.limit is None,
    {
        QueryOptions { page: None, limit: None }
    }
}

impl QueryOptions {
    /// The page that the options ask for: the first where they name none.
    /// Pages are counted from 1, and page 0 is read as the first page too.
    pub open spec fn page_number(self) -> usize {
        match self.page {
            Some(page) => page,
            None => 1,
        }
    }

    /// The length of a page: 10 where the options name none.
    pub open spec fn page_length(self) -> usize {
        match self.limit {
            Some(limit) => limit,
            None => 10,
        }
    }
}

/// The options of a request, which may have come without any.
pub open spec fn options_or_default(opts: Option<QueryOptions>) -> QueryOptions {
    match opts {
        Some(options) => options,
        None => QueryOptions { page: None, limit: None },
    }
}

impl UpdateTodoSchema {
    /// The numbers of `row` after this update: each one as the update names
    /// it, or else as the row has it.
    pub open spec fn merged_into(self, row: TodoView) -> TodoView
        recommends
            row.is_row(),
    {
        row.with_numbers(
            number_or(self.movement, row.movement->0),
            number_or(self.punishment, row.punishment->0),
            number_or(self.mixup, row.mixup->0),
            number_or(self.combo, row.combo->0),
        )
    }
}

} // verus!
