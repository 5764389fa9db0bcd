use todo_service::error::CustomError;
use todo_service::handler::{
    create_todo_handler, delete_all, delete_todo_handler, edit_todo_handler, get_todo_handler,
    todos_list_handler, Reply,
};
use todo_service::model::{QueryOptions, Todo, UpdateTodoSchema};
use todo_service::service::serve;
use todo_service::storage::{Outcome, Query};
use todo_service::table::Table;

fn body(title: &str) -> Todo {
    Todo {
        id: None,
        title: title.to_string(),
        movement: None,
        punishment: None,
        mixup: None,
        combo: None,
    }
}

fn no_numbers() -> UpdateTodoSchema {
    UpdateTodoSchema { movement: None, punishment: None, mixup: None, combo: None }
}

fn create(table: &mut Table, title: &str) -> Todo {
    match serve(table, create_todo_handler(body(title))) {
        Ok(Reply::Created(todo)) => todo,
        other => panic!("unexpected result {:?}", other),
    }
}

fn list(table: &mut Table, page: Option<usize>, limit: Option<usize>) -> Vec<Todo> {
    match serve(table, todos_list_handler(Some(QueryOptions { page, limit }))) {
        Ok(Reply::Listed(todos)) => todos,
        other => panic!("unexpected result {:?}", other),
    }
}

fn all_rows(table: &mut Table) -> Vec<Todo> {
    match table.perform(Query::SelectAll) {
        Outcome::Rows(rows) => rows,
        other => panic!("unexpected answer {:?}", other),
    }
}

#[test]
fn create_update_get_delete_get() {
    let mut table = Table::new();

    let created = serve(&mut table, create_todo_handler(body("jump"))).unwrap();
    assert_eq!(created.status_code(), 201);
    let created = match created {
        Reply::Created(todo) => todo,
        other => panic!("unexpected reply {:?}", other),
    };
    let id = created.id.clone().unwrap();
    assert_eq!(created.title, "jump");
    assert_eq!(created.movement, Some(0));

    let numbers = UpdateTodoSchema { movement: Some(5), ..no_numbers() };
    let updated = serve(&mut table, edit_todo_handler(id.clone(), numbers)).unwrap();
    assert_eq!(updated.status_code(), 200);
    let updated = match updated {
        Reply::Updated(todo) => todo,
        other => panic!("unexpected reply {:?}", other),
    };
    assert_eq!(updated.movement, Some(5));
    assert_eq!(updated.punishment, Some(0));

    let found = serve(&mut table, get_todo_handler(id.clone())).unwrap();
    assert_eq!(found.status_code(), 200);
    assert_eq!(found, Reply::Found(updated));

    let deleted = serve(&mut table, delete_todo_handler(id.clone())).unwrap();
    assert_eq!(deleted.status_code(), 204);
    assert_eq!(deleted, Reply::Deleted);

    let gone = serve(&mut table, get_todo_handler(id)).unwrap_err();
    assert_eq!(gone, CustomError::TodoNotFound);
    assert_eq!(gone.status_code(), 404);
}

#[test]
fn list_shows_at_most_limit_todos_by_ascending_id() {
    let mut table = Table::new();
    for title in ["a", "b", "c", "d", "e", "f", "g"] {
        create(&mut table, title);
    }
    let everything = all_rows(&mut table);
    assert_eq!(everything.len(), 7);
    for limit in 0..9 {
        for page in 0..6 {
            let shown = list(&mut table, Some(page), Some(limit));
            assert!(shown.len() <= limit);
            for pair in shown.windows(2) {
                assert!(pair[0].id < pair[1].id);
            }
            let start = if page == 0 { 0 } else { (page - 1) * limit };
            let end = (start + limit).min(7);
            if start >= 7 {
                assert!(shown.is_empty());
            } else {
                assert_eq!(shown, everything[start..end].to_vec());
            }
        }
    }
}

#[test]
fn list_without_options_shows_the_first_ten() {
    let mut table = Table::new();
    for n in 0..12 {
        create(&mut table, &format!("todo {}", n));
    }
    let everything = all_rows(&mut table);
    let shown = match serve(&mut table, todos_list_handler(None)) {
        Ok(Reply::Listed(todos)) => todos,
        other => panic!("unexpected result {:?}", other),
    };
    assert_eq!(shown, everything[..10].to_vec());
    assert_eq!(list(&mut table, Some(2), None), everything[10..].to_vec());
}

#[test]
fn list_of_an_empty_table_is_empty() {
    let mut table = Table::new();
    assert_eq!(serve(&mut table, todos_list_handler(None)), Ok(Reply::Listed(Vec::new())));
    assert_eq!(list(&mut table, Some(3), Some(4)), Vec::new());
    assert_eq!(list(&mut table, Some(0), Some(0)), Vec::new());
}

#[test]
fn create_without_title_stores_nothing() {
    let mut table = Table::new();
    create(&mut table, "jump");
    let before = all_rows(&mut table);
    let mut sent = body("");
    sent.movement = Some(3);
    assert_eq!(serve(&mut table, create_todo_handler(sent)), Err(CustomError::BadRequest));
    assert_eq!(all_rows(&mut table), before);
}

#[test]
fn create_with_taken_title_stores_nothing() {
    let mut table = Table::new();
    create(&mut table, "jump");
    create(&mut table, "kick");
    let before = all_rows(&mut table);
    let mut sent = body("jump");
    sent.combo = Some(9);
    assert_eq!(serve(&mut table, create_todo_handler(sent)), Err(CustomError::TodoDuplicate));
    assert_eq!(all_rows(&mut table), before);
}

#[test]
fn titles_are_compared_exactly() {
    let mut table = Table::new();
    create(&mut table, "jump");
    create(&mut table, "Jump");
    create(&mut table, "jump ");
    assert_eq!(table.len(), 3);
}

#[test]
fn create_with_new_title_stores_a_row_with_a_new_id() {
    let mut table = Table::new();
    let first = create(&mut table, "jump");
    let mut sent = body("kick");
    sent.punishment = Some(-3);
    let second = match serve(&mut table, create_todo_handler(sent)) {
        Ok(Reply::Created(todo)) => todo,
        other => panic!("unexpected result {:?}", other),
    };
    let id = second.id.clone().unwrap();
    assert!(!id.is_empty());
    assert_ne!(second.id, first.id);
    assert_eq!(second.title, "kick");
    assert_eq!(second.movement, Some(0));
    assert_eq!(second.punishment, Some(-3));
    assert_eq!(second.mixup, Some(0));
    assert_eq!(second.combo, Some(0));
    assert_eq!(table.len(), 2);
    assert_eq!(serve(&mut table, get_todo_handler(id)), Ok(Reply::Found(second)));
}

#[test]
fn get_of_unknown_id_is_not_found() {
    let mut table = Table::new();
    assert_eq!(
        serve(&mut table, get_todo_handler("nobody".to_string())),
        Err(CustomError::TodoNotFound)
    );
    create(&mut table, "jump");
    assert_eq!(
        serve(&mut table, get_todo_handler("00000000-0000-0000-0000-000000000000".to_string())),
        Err(CustomError::TodoNotFound)
    );
}

#[test]
fn update_of_combo_alone_changes_combo_alone() {
    let mut table = Table::new();
    let mut sent = body("jump");
    sent.movement = Some(1);
    sent.punishment = Some(2);
    sent.mixup = Some(3);
    sent.combo = Some(4);
    let created = match serve(&mut table, create_todo_handler(sent)) {
        Ok(Reply::Created(todo)) => todo,
        other => panic!("unexpected result {:?}", other),
    };
    let other = create(&mut table, "kick");
    let id = created.id.clone().unwrap();

    let numbers = UpdateTodoSchema { combo: Some(-9), ..no_numbers() };
    let updated = match serve(&mut table, edit_todo_handler(id.clone(), numbers)) {
        Ok(Reply::Updated(todo)) => todo,
        other => panic!("unexpected result {:?}", other),
    };
    assert_eq!(updated.id, created.id);
    assert_eq!(updated.title, "jump");
    assert_eq!(updated.movement, Some(1));
    assert_eq!(updated.punishment, Some(2));
    assert_eq!(updated.mixup, Some(3));
    assert_eq!(updated.combo, Some(-9));
    assert_eq!(
        serve(&mut table, get_todo_handler(other.id.clone().unwrap())),
        Ok(Reply::Found(other))
    );
    assert_eq!(table.len(), 2);
}

#[test]
fn update_without_numbers_changes_nothing() {
    let mut table = Table::new();
    let created = create(&mut table, "jump");
    let id = created.id.clone().unwrap();
    assert_eq!(
        serve(&mut table, edit_todo_handler(id, no_numbers())),
        Ok(Reply::Updated(created))
    );
}

#[test]
fn update_of_unknown_id_is_not_found() {
    let mut table = Table::new();
    create(&mut table, "jump");
    let before = all_rows(&mut table);
    let numbers = UpdateTodoSchema { movement: Some(5), ..no_numbers() };
    assert_eq!(
        serve(&mut table, edit_todo_handler("nobody".to_string(), numbers)),
        Err(CustomError::TodoNotFound)
    );
    assert_eq!(all_rows(&mut table), before);
}

#[test]
fn deleted_todo_is_not_found_afterwards() {
    let mut table = Table::new();
    let kept = create(&mut table, "kick");
    let id = create(&mut table, "jump").id.unwrap();
    assert_eq!(serve(&mut table, delete_todo_handler(id.clone())), Ok(Reply::Deleted));
    assert_eq!(serve(&mut table, get_todo_handler(id.clone())), Err(CustomError::TodoNotFound));
    assert_eq!(serve(&mut table, delete_todo_handler(id)), Err(CustomError::TodoNotFound));
    assert_eq!(all_rows(&mut table), vec![kept]);
}

#[test]
fn delete_of_unknown_id_is_not_found() {
    let mut table = Table::new();
    create(&mut table, "jump");
    assert_eq!(
        serve(&mut table, delete_todo_handler("nobody".to_string())),
        Err(CustomError::TodoNotFound)
    );
    assert_eq!(table.len(), 1);
}

#[test]
fn list_after_delete_all_is_empty() {
    let mut table = Table::new();
    for title in ["a", "b", "c"] {
        create(&mut table, title);
    }
    let cleared = serve(&mut table, delete_all()).unwrap();
    assert_eq!(cleared, Reply::Cleared);
    assert_eq!(cleared.status_code(), 204);
    assert_eq!(serve(&mut table, todos_list_handler(None)), Ok(Reply::Listed(Vec::new())));
    assert_eq!(table.len(), 0);
}

#[test]
fn delete_all_of_an_empty_table_succeeds() {
    let mut table = Table::new();
    assert_eq!(serve(&mut table, delete_all()), Ok(Reply::Cleared));
}

#[test]
fn title_of_a_deleted_todo_is_free_again() {
    let mut table = Table::new();
    let first = create(&mut table, "jump");
    assert_eq!(
        serve(&mut table, delete_todo_handler(first.id.clone().unwrap())),
        Ok(Reply::Deleted)
    );
    let second = create(&mut table, "jump");
    assert_ne!(first.id, second.id);
}

#[test]
fn every_created_todo_gets_its_own_id() {
    let mut table = Table::new();
    let mut ids = Vec::new();
    for n in 0..40 {
        ids.push(create(&mut table, &format!("todo {}", n)).id.unwrap());
    }
    let listed: Vec<String> =
        all_rows(&mut table).into_iter().map(|todo| todo.id.unwrap()).collect();
    ids.sort();
    assert_eq!(listed, ids);
    ids.dedup();
    assert_eq!(ids.len(), 40);
}
