use axum_todo::{
    handler_404, middleware_error, todos_create, todos_delete, todos_get, todos_index,
    todos_update, ApiError, CreateTodo, Pagination, Status, Todo, TodoStore, UpdateTodo,
    REQUEST_TIMEOUT_SECS,
};
use std::collections::HashSet;
use uuid::Uuid;

fn create(db: &mut TodoStore, text: &str) -> Todo {
    let (status, todo) = todos_create(db, CreateTodo { text: text.to_string() }).unwrap();
    assert_eq!(status, Status::Created);
    todo
}

fn page(offset: Option<usize>, limit: Option<usize>) -> Option<Pagination> {
    Some(Pagination { offset, limit })
}

#[test]
fn scenario_create_get_patch_delete_get() {
    let mut db = TodoStore::new();

    let (status, created) =
        todos_create(&mut db, CreateTodo { text: "buy milk".to_string() }).unwrap();
    assert_eq!(status.code(), 201);
    assert_eq!(created.text, "buy milk");
    assert!(!created.completed);
    let id = created.id;

    let (status, found) = todos_get(id, &db).unwrap();
    assert_eq!(status.code(), 200);
    assert_eq!(found, created);

    let (status, patched) =
        todos_update(id, &mut db, UpdateTodo { text: None, completed: Some(true) }).unwrap();
    assert_eq!(status.code(), 200);
    assert_eq!(patched.id, id);
    assert_eq!(patched.text, "buy milk");
    assert!(patched.completed);

    assert_eq!(todos_delete(id, &mut db), Ok(Status::NoContent));
    assert_eq!(Status::NoContent.code(), 204);

    let gone = todos_get(id, &db).unwrap_err();
    assert_eq!(gone, ApiError::NotFound);
    assert_eq!(gone.status().code(), 404);
}

#[test]
fn create_on_an_empty_store_answers_created() {
    let mut db = TodoStore::new();
    let reply = todos_create(&mut db, CreateTodo { text: "buy milk".to_string() });
    let (status, todo) = reply.unwrap();
    assert_eq!(status, Status::Created);
    assert_eq!(status.code(), 201);
    assert_eq!(todo, Todo { id: todo.id, text: "buy milk".to_string(), completed: false });
    assert_eq!(db.len(), 1);
    assert_eq!(todos_index(None, &db).1, vec![todo]);
}

#[test]
fn create_stores_an_empty_text_as_given() {
    let mut db = TodoStore::new();
    let (status, todo) = todos_create(&mut db, CreateTodo { text: String::new() }).unwrap();
    assert_eq!(status.code(), 201);
    assert_eq!(todo.text, "");
    assert!(!todo.completed);
    assert_eq!(db.len(), 1);
    assert_eq!(todos_get(todo.id, &db).unwrap().1, todo);
}

#[test]
fn create_in_a_store_without_random_ids_succeeds() {
    let mut db = TodoStore::new();
    for id in 0..50u128 {
        db.create_with_id(id, format!("item {id}")).unwrap();
    }
    let (status, todo) = todos_create(&mut db, CreateTodo { text: "drawn".to_string() }).unwrap();
    assert_eq!(status, Status::Created);
    assert!(todo.id >= 50);
    assert_eq!(db.len(), 51);
}

#[test]
fn created_item_is_found_again_with_all_fields() {
    let mut db = TodoStore::new();
    let created = create(&mut db, "water the plants");
    let (_, found) = todos_get(created.id, &db).unwrap();
    assert_eq!(found.id, created.id);
    assert_eq!(found.text, "water the plants");
    assert_eq!(found.completed, false);
}

#[test]
fn created_id_is_a_random_uuid() {
    let mut db = TodoStore::new();
    let created = create(&mut db, "a");
    let uuid = Uuid::from_u128(created.id);
    assert_eq!(uuid.get_version_num(), 4);
    assert_eq!(uuid.get_variant(), uuid::Variant::RFC4122);
    assert_eq!(created.id & 0xf000_c000_0000_0000_0000, 0x4000_8000_0000_0000_0000);
}

#[test]
fn creates_draw_distinct_ids() {
    let mut db = TodoStore::new();
    let mut ids = HashSet::new();
    for n in 0..200 {
        let created = create(&mut db, &format!("item {n}"));
        assert!(ids.insert(created.id));
    }
    assert_eq!(ids.len(), 200);
    assert_eq!(db.len(), 200);
}

#[test]
fn full_listing_counts_the_live_items() {
    let mut db = TodoStore::new();
    let (status, empty) = todos_index(None, &db);
    assert_eq!(status.code(), 200);
    assert!(empty.is_empty());

    let mut ids = Vec::new();
    for n in 0..7 {
        ids.push(create(&mut db, &format!("item {n}")).id);
    }
    assert_eq!(todos_index(None, &db).1.len(), 7);
    assert_eq!(todos_index(page(Some(0), None), &db).1.len(), 7);
    assert_eq!(todos_index(page(Some(0), Some(usize::MAX)), &db).1.len(), 7);

    assert_eq!(todos_delete(ids[2], &mut db), Ok(Status::NoContent));
    assert_eq!(todos_delete(ids[5], &mut db), Ok(Status::NoContent));
    let (_, listed) = todos_index(None, &db);
    assert_eq!(listed.len(), 5);
    let listed_ids: HashSet<u128> = listed.iter().map(|todo| todo.id).collect();
    assert_eq!(listed_ids.len(), 5);
    for (n, id) in ids.iter().enumerate() {
        assert_eq!(listed_ids.contains(id), n != 2 && n != 5);
    }
}

#[test]
fn listing_shows_the_items_as_they_are() {
    let mut db = TodoStore::new();
    let first = create(&mut db, "first");
    let second = create(&mut db, "second");
    todos_update(second.id, &mut db, UpdateTodo { text: None, completed: Some(true) }).unwrap();
    let (_, listed) = todos_index(None, &db);
    assert_eq!(listed.len(), 2);
    for todo in listed {
        if todo.id == first.id {
            assert_eq!(todo.text, "first");
            assert!(!todo.completed);
        } else {
            assert_eq!(todo.id, second.id);
            assert_eq!(todo.text, "second");
            assert!(todo.completed);
        }
    }
}

#[test]
fn listing_skips_offset_and_takes_at_most_limit() {
    let mut db = TodoStore::new();
    for n in 0..5 {
        create(&mut db, &format!("item {n}"));
    }
    assert_eq!(todos_index(page(Some(2), Some(2)), &db).1.len(), 2);
    assert_eq!(todos_index(page(Some(4), Some(10)), &db).1.len(), 1);
    assert_eq!(todos_index(page(Some(1), None), &db).1.len(), 4);
    assert_eq!(todos_index(page(None, Some(3)), &db).1.len(), 3);
    assert_eq!(todos_index(page(None, Some(5)), &db).1.len(), 5);
    assert_eq!(todos_index(page(None, Some(6)), &db).1.len(), 5);
    assert_eq!(todos_index(page(Some(usize::MAX), Some(usize::MAX)), &db).1.len(), 0);
}

#[test]
fn listing_past_the_end_is_empty() {
    let mut db = TodoStore::new();
    for n in 0..3 {
        create(&mut db, &format!("item {n}"));
    }
    assert!(todos_index(page(Some(3), None), &db).1.is_empty());
    assert!(todos_index(page(Some(4), Some(2)), &db).1.is_empty());
    assert!(todos_index(page(Some(usize::MAX), None), &db).1.is_empty());
}

#[test]
fn listing_with_limit_zero_is_empty() {
    let mut db = TodoStore::new();
    assert!(todos_index(page(None, Some(0)), &db).1.is_empty());
    for n in 0..3 {
        create(&mut db, &format!("item {n}"));
    }
    assert!(todos_index(page(None, Some(0)), &db).1.is_empty());
    assert!(todos_index(page(Some(1), Some(0)), &db).1.is_empty());
    assert!(todos_index(page(Some(9), Some(0)), &db).1.is_empty());
}

#[test]
fn pages_of_an_unchanged_store_cover_every_item_once() {
    let mut db = TodoStore::new();
    let mut ids = HashSet::new();
    for n in 0..5 {
        ids.insert(create(&mut db, &format!("item {n}")).id);
    }
    let mut seen = HashSet::new();
    for offset in [0, 2, 4] {
        let (_, listed) = todos_index(page(Some(offset), Some(2)), &db);
        for todo in listed {
            assert!(seen.insert(todo.id));
        }
    }
    assert_eq!(seen, ids);
}

#[test]
fn update_without_fields_changes_nothing() {
    let mut db = TodoStore::new();
    let created = create(&mut db, "unchanged");
    let other = create(&mut db, "other");
    let (status, same) =
        todos_update(created.id, &mut db, UpdateTodo { text: None, completed: None }).unwrap();
    assert_eq!(status, Status::Success);
    assert_eq!(same, created);
    assert_eq!(todos_get(created.id, &db).unwrap().1, created);
    assert_eq!(todos_get(other.id, &db).unwrap().1, other);
    assert_eq!(db.len(), 2);
}

#[test]
fn update_of_completed_keeps_the_text() {
    let mut db = TodoStore::new();
    let created = create(&mut db, "keep me");
    let (_, updated) =
        todos_update(created.id, &mut db, UpdateTodo { text: None, completed: Some(true) })
            .unwrap();
    assert_eq!(updated.text, "keep me");
    assert!(updated.completed);
    let (_, back) =
        todos_update(created.id, &mut db, UpdateTodo { text: None, completed: Some(false) })
            .unwrap();
    assert_eq!(back, created);
}

#[test]
fn update_of_text_keeps_completed() {
    let mut db = TodoStore::new();
    let created = create(&mut db, "old");
    todos_update(created.id, &mut db, UpdateTodo { text: None, completed: Some(true) }).unwrap();
    let (_, updated) = todos_update(
        created.id,
        &mut db,
        UpdateTodo { text: Some("new".to_string()), completed: None },
    )
    .unwrap();
    assert_eq!(updated.id, created.id);
    assert_eq!(updated.text, "new");
    assert!(updated.completed);
    assert_eq!(todos_get(created.id, &db).unwrap().1, updated);
}

#[test]
fn update_of_both_fields_sets_both() {
    let mut db = TodoStore::new();
    let created = create(&mut db, "old");
    let (_, updated) = todos_update(
        created.id,
        &mut db,
        UpdateTodo { text: Some(String::new()), completed: Some(true) },
    )
    .unwrap();
    assert_eq!(updated.text, "");
    assert!(updated.completed);
}

#[test]
fn update_of_a_missing_item_is_not_found() {
    let mut db = TodoStore::new();
    let created = create(&mut db, "here");
    let missing = created.id ^ 1;
    let reply = todos_update(
        missing,
        &mut db,
        UpdateTodo { text: Some("x".to_string()), completed: Some(true) },
    );
    assert_eq!(reply.unwrap_err(), ApiError::NotFound);
    assert_eq!(db.len(), 1);
    assert_eq!(todos_get(created.id, &db).unwrap().1, created);
    assert_eq!(todos_get(missing, &db).unwrap_err(), ApiError::NotFound);
}

#[test]
fn get_of_a_missing_item_is_not_found() {
    let db = TodoStore::new();
    assert_eq!(todos_get(0, &db).unwrap_err(), ApiError::NotFound);
    assert_eq!(todos_get(u128::MAX, &db).unwrap_err().status(), Status::NotFound);
}

#[test]
fn delete_of_a_missing_item_is_not_found() {
    let mut db = TodoStore::new();
    assert_eq!(todos_delete(17, &mut db), Err(ApiError::NotFound));
    let created = create(&mut db, "stays");
    assert_eq!(todos_delete(created.id ^ 1, &mut db), Err(ApiError::NotFound));
    assert_eq!(db.len(), 1);
    assert_eq!(ApiError::NotFound.status().code(), 404);
}

#[test]
fn delete_twice_is_not_found_the_second_time() {
    let mut db = TodoStore::new();
    let created = create(&mut db, "once");
    let other = create(&mut db, "other");
    assert_eq!(todos_delete(created.id, &mut db), Ok(Status::NoContent));
    assert_eq!(todos_delete(created.id, &mut db), Err(ApiError::NotFound));
    assert_eq!(db.len(), 1);
    assert_eq!(todos_get(other.id, &db).unwrap().1, other);
}

#[test]
fn unknown_route_is_answered_with_a_detail() {
    let (status, body) = handler_404();
    assert_eq!(status, Status::NotFound);
    assert_eq!(status.code(), 404);
    assert_eq!(body.detail, "Endpoint not found");
}

#[test]
fn middleware_errors_are_timeout_or_internal() {
    assert_eq!(middleware_error(true), ApiError::Timeout);
    assert_eq!(middleware_error(true).status().code(), 408);
    assert_eq!(middleware_error(false), ApiError::Internal);
    assert_eq!(middleware_error(false).status().code(), 500);
    assert_eq!(REQUEST_TIMEOUT_SECS, 10);
}
