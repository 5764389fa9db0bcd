use todo_service::model::Todo;
use todo_service::storage::{Outcome, Query};
use todo_service::table::Table;

fn row(id: &str, title: &str, numbers: [i8; 4]) -> Todo {
    Todo {
        id: Some(id.to_string()),
        title: title.to_string(),
        movement: Some(numbers[0]),
        punishment: Some(numbers[1]),
        mixup: Some(numbers[2]),
        combo: Some(numbers[3]),
    }
}

fn filled() -> Table {
    let mut table = Table::new();
    for (id, title) in [("m", "middle"), ("a", "first"), ("z", "last"), ("ab", "second")] {
        assert_eq!(table.perform(Query::Insert(row(id, title, [1, 2, 3, 4]))), Outcome::Done);
    }
    table
}

fn ids(table: &mut Table) -> Vec<String> {
    match table.perform(Query::SelectAll) {
        Outcome::Rows(rows) => rows.into_iter().map(|row| row.id.unwrap()).collect(),
        other => panic!("unexpected answer {:?}", other),
    }
}

#[test]
fn new_table_has_no_rows() {
    let mut table = Table::new();
    assert_eq!(table.len(), 0);
    assert_eq!(table.perform(Query::SelectAll), Outcome::Rows(Vec::new()));
}

#[test]
fn rows_come_out_by_ascending_id() {
    let mut table = filled();
    assert_eq!(table.len(), 4);
    assert_eq!(ids(&mut table), vec!["a", "ab", "m", "z"]);
}

#[test]
fn rows_are_ordered_by_the_bytes_of_their_ids() {
    let mut table = Table::new();
    for id in ["b", "B", "é", "10", "9", ""] {
        assert_eq!(table.perform(Query::Insert(row(id, id, [0, 0, 0, 0]))), Outcome::Done);
    }
    assert_eq!(ids(&mut table), vec!["", "10", "9", "B", "b", "é"]);
}

#[test]
fn select_by_id_finds_the_row() {
    let mut table = filled();
    assert_eq!(
        table.perform(Query::SelectById("ab".to_string())),
        Outcome::Row(row("ab", "second", [1, 2, 3, 4]))
    );
    assert_eq!(table.len(), 4);
}

#[test]
fn select_by_unknown_id_finds_no_row() {
    let mut table = filled();
    assert_eq!(table.perform(Query::SelectById("b".to_string())), Outcome::NoRow);
    assert_eq!(table.perform(Query::SelectById("".to_string())), Outcome::NoRow);
    assert_eq!(Table::new().perform(Query::SelectById("a".to_string())), Outcome::NoRow);
}

#[test]
fn existence_is_answered_for_ids_and_titles() {
    let mut table = filled();
    assert_eq!(table.perform(Query::IdExists("z".to_string())), Outcome::Flag(true));
    assert_eq!(table.perform(Query::IdExists("zz".to_string())), Outcome::Flag(false));
    assert_eq!(table.perform(Query::TitleExists("last".to_string())), Outcome::Flag(true));
    assert_eq!(table.perform(Query::TitleExists("Last".to_string())), Outcome::Flag(false));
    assert_eq!(table.perform(Query::TitleExists("z".to_string())), Outcome::Flag(false));
}

#[test]
fn id_in_use_is_refused() {
    let mut table = filled();
    assert_eq!(table.perform(Query::Insert(row("m", "other", [0, 0, 0, 0]))), Outcome::Fault);
    assert_eq!(table.len(), 4);
    assert_eq!(
        table.perform(Query::SelectById("m".to_string())),
        Outcome::Row(row("m", "middle", [1, 2, 3, 4]))
    );
}

#[test]
fn incomplete_row_is_refused() {
    let mut table = filled();
    let mut no_id = row("q", "quiet", [0, 0, 0, 0]);
    no_id.id = None;
    assert_eq!(table.perform(Query::Insert(no_id)), Outcome::Fault);
    let mut no_combo = row("q", "quiet", [0, 0, 0, 0]);
    no_combo.combo = None;
    assert_eq!(table.perform(Query::Insert(no_combo)), Outcome::Fault);
    assert_eq!(ids(&mut table), vec!["a", "ab", "m", "z"]);
}

#[test]
fn table_itself_does_not_compare_titles() {
    let mut table = filled();
    assert_eq!(table.perform(Query::Insert(row("n", "middle", [0, 0, 0, 0]))), Outcome::Done);
    assert_eq!(table.len(), 5);
}

#[test]
fn update_sets_the_numbers_of_one_row() {
    let mut table = filled();
    let update = Query::UpdateNumbers {
        id: "m".to_string(),
        movement: -1,
        punishment: -2,
        mixup: -3,
        combo: -4,
    };
    assert_eq!(table.perform(update), Outcome::Done);
    assert_eq!(
        table.perform(Query::SelectAll),
        Outcome::Rows(vec![
            row("a", "first", [1, 2, 3, 4]),
            row("ab", "second", [1, 2, 3, 4]),
            row("m", "middle", [-1, -2, -3, -4]),
            row("z", "last", [1, 2, 3, 4]),
        ])
    );
}

#[test]
fn update_of_unknown_id_changes_nothing() {
    let mut table = filled();
    let update = Query::UpdateNumbers {
        id: "q".to_string(),
        movement: 9,
        punishment: 9,
        mixup: 9,
        combo: 9,
    };
    assert_eq!(table.perform(update), Outcome::Done);
    assert_eq!(
        table.perform(Query::SelectAll),
        Outcome::Rows(vec![
            row("a", "first", [1, 2, 3, 4]),
            row("ab", "second", [1, 2, 3, 4]),
            row("m", "middle", [1, 2, 3, 4]),
            row("z", "last", [1, 2, 3, 4]),
        ])
    );
}

#[test]
fn delete_removes_one_row() {
    let mut table = filled();
    assert_eq!(table.perform(Query::DeleteById("ab".to_string())), Outcome::Done);
    assert_eq!(ids(&mut table), vec!["a", "m", "z"]);
    assert_eq!(table.perform(Query::DeleteById("a".to_string())), Outcome::Done);
    assert_eq!(table.perform(Query::DeleteById("z".to_string())), Outcome::Done);
    assert_eq!(ids(&mut table), vec!["m"]);
}

#[test]
fn delete_of_unknown_id_changes_nothing() {
    let mut table = filled();
    assert_eq!(table.perform(Query::DeleteById("q".to_string())), Outcome::Done);
    assert_eq!(ids(&mut table), vec!["a", "ab", "m", "z"]);
}

#[test]
fn delete_all_empties_the_table() {
    let mut table = filled();
    assert_eq!(table.perform(Query::DeleteAll), Outcome::Done);
    assert_eq!(table.len(), 0);
    assert_eq!(table.perform(Query::SelectAll), Outcome::Rows(Vec::new()));
    assert_eq!(table.perform(Query::DeleteAll), Outcome::Done);
}

#[test]
fn removed_id_can_be_used_again() {
    let mut table = filled();
    assert_eq!(table.perform(Query::DeleteById("m".to_string())), Outcome::Done);
    assert_eq!(table.perform(Query::Insert(row("m", "again", [0, 0, 0, 0]))), Outcome::Done);
    assert_eq!(ids(&mut table), vec!["a", "ab", "m", "z"]);
}
