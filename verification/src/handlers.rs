//! The request handlers: one per route, from the decoded request and the
//! store to the status and the body of the answer.
//!
//! | route                 | success                    | failure            |
//! |-----------------------|----------------------------|--------------------|
//! | `GET /todos`          | 200, the listed items      |                    |
//! | `POST /todos`         | 201, the created item      | 500, drawn id taken |
//! | `GET /todos/{id}`     | 200, the item              | 404, no such item  |
//! | `PATCH /todos/{id}`   | 200, the updated item      | 404, no such item  |
//! | `DELETE /todos/{id}`  | 204, no body               | 404, no such item  |
//! | anything else         |                            | 404, a detail      |
//!
//! A path, a query or a body that cannot be decoded never reaches a handler;
//! the embedding program answers it with `ApiError::BadRequest`.

use crate::ident::is_random_id;
use crate::status::{ApiError, Status};
use crate::store::{
    created, deleted, fetched, holds_random_id, is_page, page_len, updated, TodoStore,
};
use crate::todo::{
    new_item, views, CreateTodo, NotFoundResponse, Pagination, Todo, TodoView, UpdateTodo,
};
use std::vec::Vec;
use vstd::prelude::*;

verus! {

/// The pagination that a listing goes by: the one that the query gave, or
/// the default, which skips nothing and shows everything.
pub open spec fn or_default(pagination: Option<Pagination>) -> Pagination {
    match pagination {
        Some(pagination) => pagination,
        None => Pagination { offset: None, limit: None },
    }
}

/// The answer that carries `outcome`: the item with status 200, or the
/// error.
pub open spec fn answered(outcome: Result<TodoView, ApiError>) -> Result<
    (Status, TodoView),
    ApiError,
> {
    match outcome {
        Ok(item) => Ok((Status::Success, item)),
        Err(error) => Err(error),
    }
}

/// An answer with one item, as contracts speak of it.
pub open spec fn reply_view(reply: Result<(Status, Todo), ApiError>) -> Result<
    (Status, TodoView),
    ApiError,
> {
    match reply {
        Ok((status, todo)) => Ok((status, todo@)),
        Err(error) => Err(error),
    }
}

/// The answer to a request to delete `id` from `items`.
pub open spec fn delete_reply(items: Map<u128, TodoView>, id: u128) -> Result<Status, ApiError> {
    if items.contains_key(id) {
        Ok(Status::NoContent)
    } else {
        Err(ApiError::NotFound)
    }
}

/// `GET /todos`: lists the items, in the store's own order, without the
/// first `offset` of them and at most `limit` of them. Without a query
/// nothing is skipped and everything is shown.
pub fn todos_index(pagination: Option<Pagination>, db: &TodoStore) -> (reply: (Status, Vec<Todo>))
    ensures
        reply.0 == Status::Success,
        is_page(
            db@,
            or_default(pagination).offset() as nat,
            or_default(pagination).limit() as nat,
            views(reply.1@),
        ),
        reply.1.len() == page_len(
            db@.len(),
            or_default(pagination).offset() as nat,
            or_default(pagination).limit() as nat,
        ),
{
    let pagination = match pagination {
        Some(pagination) => pagination,
        None => Pagination::default(),
    };
    let todos = db.list(pagination.offset(), pagination.limit());
    (Status::Success, todos)
}

/// `POST /todos`: creates an item with the text of `input` under a newly
/// drawn id, not completed. The store grows by that one item and no other
/// item changes. Where the id drawn is already taken the answer is
/// `Internal` and the store stays as it was; that can only happen in a store
/// that holds an id of random shape, so on any other store, the empty one
/// among them, the answer is 201.
pub fn todos_create(db: &mut TodoStore, input: CreateTodo) -> (reply: Result<
    (Status, Todo),
    ApiError,
>)
    ensures
        match reply {
            Ok((status, todo)) => {
                &&& status == Status::Created
                &&& is_random_id(todo.id)
                &&& !old(db)@.contains_key(todo.id)
                &&& todo@ == new_item(todo.id, input.text@)
                &&& final(db)@ == created(old(db)@, todo.id, input.text@)
            },
            Err(error) => {
                &&& error == ApiError::Internal
                &&& final(db)@ == old(db)@
                &&& holds_random_id(old(db)@)
            },
        },
{
    match db.create(input.text) {
        Ok(todo) => Ok((Status::Created, todo)),
        Err(error) => Err(error),
    }
}

/// `PATCH /todos/{id}`: applies the fields that `input` holds to the item
/// `id` and answers with the item as it then is, or with `NotFound`.
pub fn todos_update(id: u128, db: &mut TodoStore, input: UpdateTodo) -> (reply: Result<
    (Status, Todo),
    ApiError,
>)
    ensures
        final(db)@ == updated(old(db)@, id, input@),
        reply_view(reply) == answered(fetched(final(db)@, id)),
{
    match db.update(id, input) {
        Ok(todo) => Ok((Status::Success, todo)),
        Err(error) => Err(error),
    }
}

/// `GET /todos/{id}`: answers with the item `id`, or with `NotFound`.
pub fn todos_get(id: u128, db: &TodoStore) -> (reply: Result<(Status, Todo), ApiError>)
    ensures
        reply_view(reply) == answered(fetched(db@, id)),
{
    match db.get(id) {
        Ok(todo) => Ok((Status::Success, todo)),
        Err(error) => Err(error),
    }
}

/// `DELETE /todos/{id}`: deletes the item `id` and answers with 204, or
/// with `NotFound` where there is no such item.
pub fn todos_delete(id: u128, db: &mut TodoStore) -> (reply: Result<Status, ApiError>)
    ensures
        final(db)@ == deleted(old(db)@, id),
        reply == delete_reply(old(db)@, id),
{
    if db.delete(id) {
        Ok(Status::NoContent)
    } else {
        Err(ApiError::NotFound)
    }
}

/// The detail that the answer to an unknown route carries.
pub open spec fn endpoint_not_found() -> Seq<char> {
    "Endpoint not found"@
}

/// The answer to a request for a route that does not exist.
pub fn handler_404() -> (reply: (Status, NotFoundResponse))
    ensures
        reply.0 == Status::NotFound,
        reply.1.detail@ == endpoint_not_found(),
{
    (Status::NotFound, NotFoundResponse { detail: "Endpoint not found".to_owned() })
}

} // verus!
