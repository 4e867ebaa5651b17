//! The todo item, the bodies of the create and update requests, and the
//! pagination parameters of a listing.

use std::string::String;
use vstd::prelude::*;
use vstd::std_specs::cmp::PartialEqSpecImpl;

verus! {

/// A todo item as contracts speak of it.
pub struct TodoView {
    pub id: u128,
    pub text: Seq<char>,
    pub completed: bool,
}

/// A todo item. The id is the 128-bit value of the item's UUID; it is given
/// to the item when it is created and never changes.
#[derive(Debug)]
pub struct Todo {
    pub id: u128,
    pub text: String,
    pub completed: bool,
}

impl View for Todo {
    type V = TodoView;

    open spec fn view(&self) -> TodoView {
        TodoView { id: self.id, text: self.text@, completed: self.completed }
    }
}

/// The item that a create request with `text` makes under `id`: not yet
/// completed.
pub open spec fn new_item(id: u128, text: Seq<char>) -> TodoView {
    TodoView { id, text, completed: false }
}

impl Todo {
    /// A fresh item with the given id and text, not yet completed.
    pub fn new(id: u128, text: String) -> (todo: Todo)
        ensures
            todo@ == new_item(id, text@),
    {
        Todo { id, text, completed: false }
    }
}

impl Clone for Todo {
    fn clone(&self) -> (copy: Todo)
        ensures
            copy == *self,
    {
        Todo { id: self.id, text: self.text.clone(), completed: self.completed }
    }
}

impl PartialEq for Todo {
    fn eq(&self, other: &Todo) -> (equal: bool) {
        self.id == other.id && self.text == other.text && self.completed == other.completed
    }
}

impl PartialEqSpecImpl for Todo {
    open spec fn obeys_eq_spec() -> bool {
        true
    }

    open spec fn eq_spec(&self, other: &Todo) -> bool {
        self.id == other.id && self.text@ == other.text@ && self.completed == other.completed
    }
}

/// The views of a sequence of items, in the same order.
pub open spec fn views(todos: Seq<Todo>) -> Seq<TodoView> {
    todos.map_values(|todo: Todo| todo@)
}

/// The body of a create request.
#[derive(Debug)]
pub struct CreateTodo {
    pub text: String,
}

/// The body of an update request as contracts speak of it.
pub struct UpdateTodoView {
    pub text: Option<Seq<char>>,
    pub completed: Option<bool>,
}

/// The body of an update request. A field that is `None` was left out of
/// the request and keeps its value.
#[derive(Debug)]
pub struct UpdateTodo {
    pub text: Option<String>,
    pub completed: Option<bool>,
}

impl View for UpdateTodo {
    type V = UpdateTodoView;

    open spec fn view(&self) -> UpdateTodoView {
        UpdateTodoView {
            text: match self.text {
                Some(text) => Some(text@),
                None => None,
            },
            completed: self.completed,
        }
    }
}

/// The item `item` after the update `input`: each field that the update
/// holds replaces the item's, the others and the id stay.
pub open spec fn patched(item: TodoView, input: UpdateTodoView) -> TodoView {
    TodoView {
        id: item.id,
        text: match input.text {
            Some(text) => text,
            None => item.text,
        },
        completed: match input.completed {
            Some(completed) => completed,
            None => item.completed,
        },
    }
}

impl UpdateTodo {
    /// Applies the update to `todo`.
    pub fn apply(self, todo: Todo) -> (updated: Todo)
        ensures
            updated@ == patched(todo@, self@),
    {
        let mut todo = todo;
        if let Some(text) = self.text {
            todo.text = text;
        }
        if let Some(completed) = self.completed {
            todo.completed = completed;
        }
        todo
    }
}

/// The pagination parameters of a listing. A field that is `None` was left
/// out of the query.
#[derive(Clone, Copy, Debug)]
pub struct Pagination {
    pub offset: Option<usize>,
    pub limit: Option<usize>,
}

impl Pagination {
    /// The number of items to skip: 0 where the query names none.
    pub open spec fn spec_offset(self) -> usize {
        match self.offset {
            Some(offset) => offset,
            None => 0,
        }
    }

    /// The largest number of items to return: unbounded, that is
    /// `usize::MAX`, where the query names none.
    pub open spec fn spec_limit(self) -> usize {
        match self.limit {
            Some(limit) => limit,
            None => usize::MAX,
        }
    }

    /// The number of items to skip.
    #[verifier::when_used_as_spec(spec_offset)]
    pub fn offset(self) -> (offset: usize)
        ensures
            offset == self.spec_offset(),
    {
        match self.offset {
            Some(offset) => offset,
            None => 0,
        }
    }

    /// The largest number of items to return.
    #[verifier::when_used_as_spec(spec_limit)]
    pub fn limit(self) -> (limit: usize)
        ensures
            limit == self.spec_limit(),
    {
        match self.limit {
            Some(limit) => limit,
            None => usize::MAX,
        }
    }
}

impl Default for Pagination {
    fn default() -> (pagination: Pagination)
        ensures
            pagination.offset.is_none(),
            pagination.limit.is_none(),
    {
        Pagination { offset: None, limit: None }
    }
}

/// The body of the answer to a request for a route that does not exist.
#[derive(Debug)]
pub struct NotFoundResponse {
    pub detail: String,
}

} // verus!
