//! Whole requests, served from a table in memory.
//!
//! [`run`] says what a request does from where it stands until it is over:
//! which rows it leaves and how it ends. [`serve`] does it.

use vstd::prelude::*;
use crate::error::CustomError;
use crate::handler::{
    draws_id, next_step, result_view, resume, Reply, ReplyView, Step, StepView,
};
use crate::ident::{is_generated_id, is_hyphen_position};
use crate::model::TodoView;
use crate::table::{answer, is_table, rows_after, Table};

verus! {

/// The rows that a request leaves and the way it ends, when it stands at
/// `step`, the table holds `rows`, and `id` is the id drawn for a new row.
pub open spec fn run(rows: Seq<TodoView>, step: StepView, id: Seq<char>) -> (
    Seq<TodoView>,
    Result<ReplyView, CustomError>,
)
    decreases step.statements_left(),
{
    match step {
        StepView::Finish(result) => (rows, result),
        StepView::Ask(query, pending) => run(
            rows_after(rows, query),
            next_step(pending, answer(rows, query), id),
            id,
        ),
    }
}

/// The id of 32 zeros. It has the shape of a generated id.
pub open spec fn zero_id() -> Seq<char> {
    Seq::new(
        36,
        |i: int|
            if is_hyphen_position(i) {
                '-'
            } else {
                '0'
            },
    )
}

/// A request that is not about to store a todo ends the same whichever id
/// would be drawn: only creating draws one.
pub proof fn lemma_run_without_id(rows: Seq<TodoView>, step: StepView, a: Seq<char>, b: Seq<char>)
    requires
        !(step matches StepView::Ask(_, pending) && pending is CreateCheck),
    ensures
        run(rows, step, a) == run(rows, step, b),
    decreases step.statements_left(),
{
    match step {
        StepView::Finish(_) => {},
        StepView::Ask(query, pending) => {
            let outcome = answer(rows, query);
            assert(next_step(pending, outcome, a) == next_step(pending, outcome, b));
            lemma_run_without_id(rows_after(rows, query), next_step(pending, outcome, a), a, b);
        },
    }
}

/// Serves a request from the table, from `step` to its end.
///
/// The table and the result are as [`run`] says, for some generated id: the
/// one that was drawn if the request stored a new row.
pub fn serve(table: &mut Table, step: Step) -> (result: Result<Reply, CustomError>)
    ensures
        exists|id: Seq<char>|
            is_generated_id(id) && (final(table)@, result_view(result)) == #[trigger] run(
                old(table)@,
                step@,
                id,
            ),
        is_table(final(table)@),
{
    let ghost mut drawn: Option<Seq<char>> = None;
    let mut current = step;
    loop
        invariant
            match drawn {
                Some(id) => is_generated_id(id) && run(old(table)@, step@, id) == run(
                    table@,
                    current@,
                    id,
                ) && !(current@ matches StepView::Ask(_, pending) && pending is CreateCheck),
                None => forall|id: Seq<char>| #[trigger]
                    run(old(table)@, step@, id) == run(table@, current@, id),
            },
        decreases current@.statements_left(),
    {
        match current {
            Step::Finish(result) => {
                proof {
                    use_type_invariant(&*table);
                    let id = match drawn {
                        Some(id) => id,
                        None => zero_id(),
                    };
                    assert(is_generated_id(id));
                    assert((table@, result_view(result)) == run(old(table)@, step@, id));
                }
                return result;
            },
            Step::Ask(query, pending) => {
                let outcome = table.perform(query);
                let next = resume(pending, outcome);
                proof {
                    let id = next@.inserted_id();
                    if draws_id(pending@, outcome@) {
                        assert(drawn is None);
                        drawn = Some(id);
                    } else {
                        match drawn {
                            Some(known) => {
                                assert(next@ == next_step(pending@, outcome@, known));
                            },
                            None => {
                                assert forall|any: Seq<char>| #[trigger]
                                    run(old(table)@, step@, any) == run(table@, next@, any) by {
                                    assert(next@ == next_step(pending@, outcome@, any));
                                }
                            },
                        }
                    }
                }
                current = next;
            },
        }
    }
}

} // verus!
