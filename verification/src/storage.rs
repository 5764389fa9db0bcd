//! What the service asks of its storage, and what the storage answers.
//!
//! The storage is one table, `todos`. The service runs eight statements on it
//! and nothing else; each [`Query`] is one of them, with the values that the
//! statement binds.

use vstd::prelude::*;
use crate::model::{views, Todo, TodoView};

verus! {

/// A statement for the storage to run.
#[derive(Debug, PartialEq, Eq)]
pub enum Query {
    /// All rows, by ascending id.
    SelectAll,
    /// The row with this id.
    SelectById(String),
    /// Whether some row has this title.
    TitleExists(String),
    /// Whether some row has this id.
    IdExists(String),
    /// Adds this row.
    Insert(Todo),
    /// Sets the four numbers of the row with this id.
    UpdateNumbers { id: String, movement: i8, punishment: i8, mixup: i8, combo: i8 },
    /// Removes the row with this id.
    DeleteById(String),
    /// Removes every row.
    DeleteAll,
}

/// A statement as a mathematical value.
pub enum QueryView {
    SelectAll,
    SelectById(Seq<char>),
    TitleExists(Seq<char>),
    IdExists(Seq<char>),
    Insert(TodoView),
    UpdateNumbers { id: Seq<char>, movement: i8, punishment: i8, mixup: i8, combo: i8 },
    DeleteById(Seq<char>),
    DeleteAll,
}

impl View for Query {
    type V = QueryView;

    open spec fn view(&self) -> QueryView {
        match self {
            Query::SelectAll => QueryView::SelectAll,
            Query::SelectById(id) => QueryView::SelectById(id@),
            Query::TitleExists(title) => QueryView::TitleExists(title@),
            Query::IdExists(id) => QueryView::IdExists(id@),
            Query::Insert(row) => QueryView::Insert(row@),
            Query::UpdateNumbers { id, movement, punishment, mixup, combo } => {
                QueryView::UpdateNumbers {
                    id: id@,
                    movement: *movement,
                    punishment: *punishment,
                    mixup: *mixup,
                    combo: *combo,
                }
            },
            Query::DeleteById(id) => QueryView::DeleteById(id@),
            Query::DeleteAll => QueryView::DeleteAll,
        }
    }
}

impl QueryView {
    /// The statement in SQL. Each `?` is bound to a value of the query, in the
    /// order in which the query's fields are declared; an update binds the
    /// id last.
    pub open spec fn sql(self) -> Seq<char> {
        match self {
            QueryView::SelectAll => "SELECT * FROM todos ORDER BY id"@,
            QueryView::SelectById(_) => "SELECT * FROM todos WHERE id = ?"@,
            QueryView::TitleExists(_) => "SELECT EXISTS(SELECT 1 FROM todos WHERE title = ?)"@,
            QueryView::IdExists(_) => "SELECT EXISTS(SELECT 1 FROM todos WHERE id = ?)"@,
            QueryView::Insert(_) =>
                "INSERT INTO todos (id, title, movement, punishment, mixup, combo) VALUES (?, ?, ?, ?, ?, ?)"@,
            QueryView::UpdateNumbers { .. } =>
                "UPDATE todos SET movement = ?, punishment = ?, mixup = ?, combo = ? WHERE id = ?"@,
            QueryView::DeleteById(_) => "DELETE FROM todos WHERE id = ?"@,
            QueryView::DeleteAll => "DELETE FROM todos"@,
        }
    }
}

impl Query {
    /// The statement in SQL, for a storage that speaks it.
    pub fn sql(&self) -> (text: &'static str)
        ensures
            text@ == self@.sql(),
    {
        match self {
            Query::SelectAll => "SELECT * FROM todos ORDER BY id",
            Query::SelectById(_) => "SELECT * FROM todos WHERE id = ?",
            Query::TitleExists(_) => "SELECT EXISTS(SELECT 1 FROM todos WHERE title = ?)",
            Query::IdExists(_) => "SELECT EXISTS(SELECT 1 FROM todos WHERE id = ?)",
            Query::Insert(_) =>
                "INSERT INTO todos (id, title, movement, punishment, mixup, combo) VALUES (?, ?, ?, ?, ?, ?)",
            Query::UpdateNumbers { .. } =>
                "UPDATE todos SET movement = ?, punishment = ?, mixup = ?, combo = ? WHERE id = ?",
            Query::DeleteById(_) => "DELETE FROM todos WHERE id = ?",
            Query::DeleteAll => "DELETE FROM todos",
        }
    }
}

/// What the storage answered to a statement.
#[derive(Debug, PartialEq, Eq)]
pub enum Outcome {
    /// The rows that a selection found.
    Rows(Vec<Todo>),
    /// The one row that a selection found.
    Row(Todo),
    /// The selection found no row.
    NoRow,
    /// The answer to a question of existence.
    Flag(bool),
    /// The statement ran and returns nothing.
    Done,
    /// The statement failed.
    Fault,
}

/// An answer as a mathematical value.
pub enum OutcomeView {
    Rows(Seq<TodoView>),
    Row(TodoView),
    NoRow,
    Flag(bool),
    Done,
    Fault,
}

impl View for Outcome {
    type V = OutcomeView;

    open spec fn view(&self) -> OutcomeView {
        match self {
            Outcome::Rows(rows) => OutcomeView::Rows(views(rows@)),
            Outcome::Row(row) => OutcomeView::Row(row@),
            Outcome::NoRow => OutcomeView::NoRow,
            Outcome::Flag(flag) => OutcomeView::Flag(*flag),
            Outcome::Done => OutcomeView::Done,
            Outcome::Fault => OutcomeView::Fault,
        }
    }
}

} // verus!
