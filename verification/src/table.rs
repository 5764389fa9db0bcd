//! The table of todos and what each statement means on it.
//!
//! The table is modelled as the sequence of its rows by ascending id. What a
//! statement answers and how it changes the rows is said by [`answer`] and
//! [`rows_after`]; [`Table`] keeps such rows in memory and runs the statements
//! accordingly.

use vstd::prelude::*;
use crate::model::{views, Todo, TodoView};
use crate::order::{
    comes_before, id_before, lemma_id_chain, lemma_id_not_before_itself, lemma_id_one_way,
    lemma_id_total,
};
use crate::storage::{Outcome, OutcomeView, Query, QueryView};

verus! {

/// The rows of a table: each has an id and all its numbers, and the ids
/// ascend strictly, so no id occurs twice.
pub open spec fn is_table(rows: Seq<TodoView>) -> bool {
    &&& forall|i: int| 0 <= i < rows.len() ==> (#[trigger] rows[i]).is_row()
    &&& forall|i: int, j: int|
        0 <= i < j < rows.len() ==> id_before(
            (#[trigger] rows[i]).id->0,
            (#[trigger] rows[j]).id->0,
        )
}

/// Some row has the id.
pub open spec fn has_id(rows: Seq<TodoView>, id: Seq<char>) -> bool {
    exists|i: int| 0 <= i < rows.len() && (#[trigger] rows[i]).id == Some(id)
}

/// Some row has the title.
pub open spec fn has_title(rows: Seq<TodoView>, title: Seq<char>) -> bool {
    exists|i: int| 0 <= i < rows.len() && (#[trigger] rows[i]).title == title
}

/// No title occurs twice.
pub open spec fn titles_differ(rows: Seq<TodoView>) -> bool {
    forall|i: int, j: int|
        0 <= i < j < rows.len() ==> (#[trigger] rows[i]).title != (#[trigger] rows[j]).title
}

/// No title is empty.
pub open spec fn titles_filled(rows: Seq<TodoView>) -> bool {
    forall|i: int| 0 <= i < rows.len() ==> (#[trigger] rows[i]).title.len() > 0
}

/// Where the row with the id stands, if there is one.
pub open spec fn index_of(rows: Seq<TodoView>, id: Seq<char>) -> int {
    choose|i: int| 0 <= i < rows.len() && (#[trigger] rows[i]).id == Some(id)
}

/// The row with the id, if there is one.
pub open spec fn row_of(rows: Seq<TodoView>, id: Seq<char>) -> TodoView {
    rows[index_of(rows, id)]
}

/// The first position from `from` on whose row does not stand before `id`,
/// or the length of `rows` if every row does.
pub open spec fn place_from(rows: Seq<TodoView>, id: Seq<char>, from: int) -> int
    decreases rows.len() - from,
{
    if from < 0 || from >= rows.len() || !id_before(rows[from].id->0, id) {
        from
    } else {
        place_from(rows, id, from + 1)
    }
}

/// Where a row with the id belongs: behind all rows with a smaller id.
pub open spec fn place(rows: Seq<TodoView>, id: Seq<char>) -> int {
    place_from(rows, id, 0)
}

/// The table takes a new row if the row is complete and its id is not in use:
/// the id is the table's key.
pub open spec fn accepts(rows: Seq<TodoView>, row: TodoView) -> bool {
    row.is_row() && !has_id(rows, row.id->0)
}

/// What the table answers to a statement.
pub open spec fn answer(rows: Seq<TodoView>, query: QueryView) -> OutcomeView {
    match query {
        QueryView::SelectAll => OutcomeView::Rows(rows),
        QueryView::SelectById(id) => if has_id(rows, id) {
            OutcomeView::Row(row_of(rows, id))
        } else {
            OutcomeView::NoRow
        },
        QueryView::TitleExists(title) => OutcomeView::Flag(has_title(rows, title)),
        QueryView::IdExists(id) => OutcomeView::Flag(has_id(rows, id)),
        QueryView::Insert(row) => if accepts(rows, row) {
            OutcomeView::Done
        } else {
            OutcomeView::Fault
        },
        QueryView::UpdateNumbers { .. } => OutcomeView::Done,
        QueryView::DeleteById(_) => OutcomeView::Done,
        QueryView::DeleteAll => OutcomeView::Done,
    }
}

/// The rows of the table after a statement.
///
/// A selection changes nothing, and neither does an insertion that the table
/// does not accept, nor an update or a removal that names an id which no row
/// has.
pub open spec fn rows_after(rows: Seq<TodoView>, query: QueryView) -> Seq<TodoView> {
    match query {
        QueryView::Insert(row) => if accepts(rows, row) {
            rows.insert(place(rows, row.id->0), row)
        } else {
            rows
        },
        QueryView::UpdateNumbers { id, movement, punishment, mixup, combo } => if has_id(
            rows,
            id,
        ) {
            rows.update(
                index_of(rows, id),
                row_of(rows, id).with_numbers(movement, punishment, mixup, combo),
            )
        } else {
            rows
        },
        QueryView::DeleteById(id) => if has_id(rows, id) {
            rows.remove(index_of(rows, id))
        } else {
            rows
        },
        QueryView::DeleteAll => Seq::empty(),
        _ => rows,
    }
}

/// In a table the row with a given id is found at one position only.
pub proof fn lemma_index_of(rows: Seq<TodoView>, id: Seq<char>, i: int)
    requires
        is_table(rows),
        0 <= i < rows.len(),
        rows[i].id == Some(id),
    ensures
        has_id(rows, id),
        index_of(rows, id) == i,
{
    let k = index_of(rows, id);
    if k < i {
        lemma_id_one_way(rows[k].id->0, rows[i].id->0);
    } else if i < k {
        lemma_id_one_way(rows[i].id->0, rows[k].id->0);
    }
}

/// What [`place_from`] finds: all rows between `from` and the place stand
/// before `id`, and the row at the place, if there is one, does not.
pub proof fn lemma_place_from(rows: Seq<TodoView>, id: Seq<char>, from: int)
    requires
        0 <= from <= rows.len(),
    ensures
        from <= place_from(rows, id, from) <= rows.len(),
        forall|j: int|
            from <= j < place_from(rows, id, from) ==> id_before((#[trigger] rows[j]).id->0, id),
        place_from(rows, id, from) < rows.len() ==> !id_before(
            rows[place_from(rows, id, from)].id->0,
            id,
        ),
    decreases rows.len() - from,
{
    if from < rows.len() && id_before(rows[from].id->0, id) {
        lemma_place_from(rows, id, from + 1);
    }
}

/// In a table, the place of an id splits the rows: those in front stand
/// before the id, and those from the place on stand behind it, but for the
/// row at the place itself if that row has the id.
pub proof fn lemma_place(rows: Seq<TodoView>, id: Seq<char>)
    requires
        is_table(rows),
    ensures
        0 <= place(rows, id) <= rows.len(),
        forall|j: int| 0 <= j < place(rows, id) ==> id_before((#[trigger] rows[j]).id->0, id),
        forall|j: int|
            place(rows, id) <= j < rows.len() ==> rows[j].id == Some(id) || id_before(
                id,
                (#[trigger] rows[j]).id->0,
            ),
        has_id(rows, id) ==> place(rows, id) == index_of(rows, id),
{
    lemma_place_from(rows, id, 0);
    let k = place(rows, id);
    assert forall|j: int| k <= j < rows.len() implies rows[j].id == Some(id) || id_before(
        id,
        (#[trigger] rows[j]).id->0,
    ) by {
        let there = rows[j].id->0;
        let here = rows[k].id->0;
        lemma_id_total(id, there);
        if id_before(there, id) {
            // then the row at the place stands before the id as well
            if k < j {
                lemma_id_chain(here, there, id);
            }
        }
    }
    if has_id(rows, id) {
        let i = index_of(rows, id);
        lemma_id_not_before_itself(id);
        if k > i {
            assert(id_before(rows[i].id->0, id));
        } else if k < i {
            assert(rows[k].id == Some(id) || id_before(id, rows[k].id->0));
            if rows[k].id == Some(id) {
                lemma_index_of(rows, id, k);
            } else {
                lemma_id_one_way(id, rows[k].id->0);
                assert(id_before(rows[k].id->0, rows[i].id->0));
            }
        }
    }
}

/// Every statement leaves a table a table: rows stay complete, ids stay in
/// ascending order, and so no id is ever held by two rows.
pub proof fn lemma_statement_keeps_table(rows: Seq<TodoView>, query: QueryView)
    requires
        is_table(rows),
    ensures
        is_table(rows_after(rows, query)),
{
    let after = rows_after(rows, query);
    match query {
        QueryView::Insert(row) => {
            if accepts(rows, row) {
                let id = row.id->0;
                let k = place(rows, id);
                lemma_place(rows, id);
                assert forall|i: int, j: int| 0 <= i < j < after.len() implies id_before(
                    (#[trigger] after[i]).id->0,
                    (#[trigger] after[j]).id->0,
                ) by {
                    if j < k {
                        assert(after[i] == rows[i] && after[j] == rows[j]);
                    } else if j == k {
                        assert(after[i] == rows[i]);
                    } else if i < k {
                        assert(after[i] == rows[i] && after[j] == rows[j - 1]);
                        if j - 1 == i {
                        }
                        lemma_id_chain(rows[i].id->0, id, rows[j - 1].id->0);
                    } else if i == k {
                        assert(after[j] == rows[j - 1]);
                    } else {
                        assert(after[i] == rows[i - 1] && after[j] == rows[j - 1]);
                    }
                }
            }
        },
        QueryView::UpdateNumbers { id, .. } => {
            if has_id(rows, id) {
                let k = index_of(rows, id);
                assert forall|i: int, j: int| 0 <= i < j < after.len() implies id_before(
                    (#[trigger] after[i]).id->0,
                    (#[trigger] after[j]).id->0,
                ) by {
                    assert(after[i].id == rows[i].id && after[j].id == rows[j].id);
                }
            }
        },
        QueryView::DeleteById(id) => {
            if has_id(rows, id) {
                let k = index_of(rows, id);
                assert forall|i: int, j: int| 0 <= i < j < after.len() implies id_before(
                    (#[trigger] after[i]).id->0,
                    (#[trigger] after[j]).id->0,
                ) by {
                    let from = if i < k {
                        i
                    } else {
                        i + 1
                    };
                    let to = if j < k {
                        j
                    } else {
                        j + 1
                    };
                    assert(after[i] == rows[from] && after[j] == rows[to]);
                }
                assert forall|i: int| 0 <= i < after.len() implies (#[trigger] after[i]).is_row() by {
                    let from = if i < k {
                        i
                    } else {
                        i + 1
                    };
                    assert(after[i] == rows[from]);
                }
            }
        },
        _ => {},
    }
}

/// A statement brings no title into the table twice, unless it inserts a row
/// under a title that is taken, and it brings no empty title, unless it
/// inserts a row that has one. Only an insertion brings a title at all.
pub proof fn lemma_statement_keeps_titles(rows: Seq<TodoView>, query: QueryView)
    requires
        is_table(rows),
    ensures
        titles_differ(rows) && !(query matches QueryView::Insert(row) && has_title(
            rows,
            row.title,
        )) ==> titles_differ(rows_after(rows, query)),
        titles_filled(rows) && !(query matches QueryView::Insert(row) && row.title.len() == 0)
            ==> titles_filled(rows_after(rows, query)),
{
    let after = rows_after(rows, query);
    match query {
        QueryView::Insert(row) => {
            if accepts(rows, row) {
                let k = place(rows, row.id->0);
                lemma_place(rows, row.id->0);
                assert forall|i: int| 0 <= i < after.len() && i != k implies (
                #[trigger] after[i]) == rows[if i < k {
                    i
                } else {
                    i - 1
                }] by {}
                assert(after[k] == row);
                if titles_differ(rows) && !has_title(rows, row.title) {
                    assert forall|i: int, j: int| 0 <= i < j < after.len() implies (
                    #[trigger] after[i]).title != (#[trigger] after[j]).title by {
                        if i != k && j != k {
                            let from = if i < k {
                                i
                            } else {
                                i - 1
                            };
                            let to = if j < k {
                                j
                            } else {
                                j - 1
                            };
                            assert(rows[from].title != rows[to].title);
                        } else if i == k {
                            assert(rows[j - 1].title != row.title);
                        } else {
                            assert(rows[i].title != row.title);
                        }
                    }
                }
                if titles_filled(rows) && row.title.len() > 0 {
                    assert forall|i: int| 0 <= i < after.len() implies (
                    #[trigger] after[i]).title.len() > 0 by {
                        if i != k {
                            let from = if i < k {
                                i
                            } else {
                                i - 1
                            };
                            assert(rows[from].title.len() > 0);
                        }
                    }
                }
            }
        },
        QueryView::UpdateNumbers { id, .. } => {
            if has_id(rows, id) {
                assert forall|i: int| 0 <= i < after.len() implies (#[trigger] after[i]).title
                    == rows[i].title by {}
                if titles_differ(rows) {
                    assert forall|i: int, j: int| 0 <= i < j < after.len() implies (
                    #[trigger] after[i]).title != (#[trigger] after[j]).title by {
                        assert(rows[i].title != rows[j].title);
                    }
                }
                if titles_filled(rows) {
                    assert forall|i: int| 0 <= i < after.len() implies (
                    #[trigger] after[i]).title.len() > 0 by {
                        assert(rows[i].title.len() > 0);
                    }
                }
            }
        },
        QueryView::DeleteById(id) => {
            if has_id(rows, id) {
                let k = index_of(rows, id);
                assert forall|i: int| 0 <= i < after.len() implies (#[trigger] after[i])
                    == rows[if i < k {
                    i
                } else {
                    i + 1
                }] by {}
                if titles_differ(rows) {
                    assert forall|i: int, j: int| 0 <= i < j < after.len() implies (
                    #[trigger] after[i]).title != (#[trigger] after[j]).title by {
                        let from = if i < k {
                            i
                        } else {
                            i + 1
                        };
                        let to = if j < k {
                            j
                        } else {
                            j + 1
                        };
                        assert(rows[from].title != rows[to].title);
                    }
                }
                if titles_filled(rows) {
                    assert forall|i: int| 0 <= i < after.len() implies (
                    #[trigger] after[i]).title.len() > 0 by {
                        let from = if i < k {
                            i
                        } else {
                            i + 1
                        };
                        assert(rows[from].title.len() > 0);
                    }
                }
            }
        },
        _ => {},
    }
}

/// A table of todos in memory.
pub struct Table {
    rows: Vec<Todo>,
}

impl View for Table {
    type V = Seq<TodoView>;

    closed spec fn view(&self) -> Seq<TodoView> {
        views(self.rows@)
    }
}

impl Table {
    /// What holds of every table: its rows are those of a table.
    #[verifier::type_invariant]
    pub open spec fn sound(&self) -> bool {
        is_table(self@)
    }

    /// A table without rows.
    pub fn new() -> (table: Table)
        ensures
            table@ == Seq::<TodoView>::empty(),
    {
        let rows: Vec<Todo> = Vec::new();
        assert(views(rows@) =~= Seq::<TodoView>::empty());
        Table { rows }
    }

    /// How many rows the table has.
    pub fn len(&self) -> (count: usize)
        ensures
            count == self@.len(),
    {
        self.rows.len()
    }

    /// Moves the rows out, to be changed and put back.
    fn take_rows(&mut self) -> (rows: Vec<Todo>)
        ensures
            rows == old(self).rows,
    {
        let mut rows: Vec<Todo> = Vec::new();
        assert(views(rows@) =~= Seq::<TodoView>::empty());
        core::mem::swap(&mut self.rows, &mut rows);
        rows
    }

    /// Where a row with the id belongs.
    fn position(&self, id: &String) -> (k: usize)
        ensures
            k == place(self@, id@),
            k <= self@.len(),
    {
        let mut k: usize = 0;
        while k < self.rows.len()
            invariant
                k <= self.rows@.len(),
                place(self@, id@) == place_from(self@, id@, k as int),
                self@ == views(self.rows@),
            decreases self.rows@.len() - k,
        {
            let before = match &self.rows[k].id {
                Some(other) => comes_before(other.as_str(), id.as_str()),
                None => false,
            };
            proof {
                use_type_invariant(self);
                assert(self@[k as int].is_row());
            }
            if !before {
                return k;
            }
            k += 1;
        }
        k
    }

    /// Where the row with the id stands, if there is one.
    fn find(&self, id: &String) -> (found: Option<usize>)
        ensures
            found is Some == has_id(self@, id@),
            found is Some ==> found->0 == index_of(self@, id@) && found->0 < self@.len(),
    {
        let k = self.position(id);
        proof {
            use_type_invariant(self);
            lemma_place(self@, id@);
        }
        if k < self.rows.len() {
            let same = match &self.rows[k].id {
                Some(other) => *other == *id,
                None => false,
            };
            if same {
                proof {
                    lemma_index_of(self@, id@, k as int);
                }
                return Some(k);
            }
        }
        None
    }

    /// Whether some row has the title.
    fn title_exists(&self, title: &String) -> (taken: bool)
        ensures
            taken == has_title(self@, title@),
    {
        let mut i: usize = 0;
        while i < self.rows.len()
            invariant
                i <= self.rows@.len(),
                self@ == views(self.rows@),
                forall|j: int| 0 <= j < i ==> (#[trigger] self@[j]).title != title@,
            decreases self.rows@.len() - i,
        {
            if self.rows[i].title == *title {
                assert(self@[i as int].title == title@);
                return true;
            }
            i += 1;
        }
        false
    }

    /// A copy of all rows, by ascending id.
    fn snapshot(&self) -> (copy: Vec<Todo>)
        ensures
            views(copy@) == self@,
    {
        let mut copy: Vec<Todo> = Vec::new();
        let mut i: usize = 0;
        while i < self.rows.len()
            invariant
                i <= self.rows@.len(),
                copy@.len() == i,
                forall|j: int| 0 <= j < i ==> (#[trigger] copy@[j])@ == self.rows@[j]@,
            decreases self.rows@.len() - i,
        {
            copy.push(self.rows[i].clone());
            i += 1;
        }
        assert(views(copy@) =~= views(self.rows@));
        copy
    }

    /// Runs a statement: answers as [`answer`] says and leaves the rows as
    /// [`rows_after`] says.
    pub fn perform(&mut self, query: Query) -> (outcome: Outcome)
        ensures
            outcome@ == answer(old(self)@, query@),
            final(self)@ == rows_after(old(self)@, query@),
            is_table(old(self)@),
            is_table(final(self)@),
    {
        proof {
            use_type_invariant(&*self);
            lemma_statement_keeps_table(self@, query@);
        }
        match query {
            Query::SelectAll => Outcome::Rows(self.snapshot()),
            Query::SelectById(id) => match self.find(&id) {
                Some(i) => Outcome::Row(self.rows[i].clone()),
                None => Outcome::NoRow,
            },
            Query::TitleExists(title) => Outcome::Flag(self.title_exists(&title)),
            Query::IdExists(id) => Outcome::Flag(self.find(&id).is_some()),
            Query::Insert(row) => {
                let taken = match &row.id {
                    Some(id) => self.find(id).is_some(),
                    None => true,
                };
                if taken || !row.is_row() {
                    return Outcome::Fault;
                }
                let k = match &row.id {
                    Some(id) => self.position(id),
                    None => 0,
                };
                let mut rows = self.take_rows();
                let ghost before = rows@;
                rows.insert(k, row);
                assert(views(rows@) =~= views(before).insert(k as int, row@));
                self.rows = rows;
                Outcome::Done
            },
            Query::UpdateNumbers { id, movement, punishment, mixup, combo } => {
                match self.find(&id) {
                    Some(i) => {
                        let mut rows = self.take_rows();
                        let ghost before = rows@;
                        let mut row = rows.remove(i);
                        row.movement = Some(movement);
                        row.punishment = Some(punishment);
                        row.mixup = Some(mixup);
                        row.combo = Some(combo);
                        rows.insert(i, row);
                        assert(views(rows@) =~= views(before).update(
                            i as int,
                            before[i as int]@.with_numbers(movement, punishment, mixup, combo),
                        ));
                        self.rows = rows;
                    },
                    None => {},
                }
                Outcome::Done
            },
            Query::DeleteById(id) => {
                match self.find(&id) {
                    Some(i) => {
                        let mut rows = self.take_rows();
                        let ghost before = rows@;
                        rows.remove(i);
                        assert(views(rows@) =~= views(before).remove(i as int));
                        self.rows = rows;
                    },
                    None => {},
                }
                Outcome::Done
            },
            Query::DeleteAll => {
                let rows: Vec<Todo> = Vec::new();
                assert(views(rows@) =~= Seq::<TodoView>::empty());
                self.rows = rows;
                Outcome::Done
            },
        }
    }
}

} // verus!
