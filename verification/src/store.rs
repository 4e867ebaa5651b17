//! The item store: the collection of todo items, keyed by id.

use crate::ident::{is_random_id, random_id};
use crate::status::ApiError;
use crate::todo::{new_item, patched, views, Todo, TodoView, UpdateTodo, UpdateTodoView};
use std::collections::HashMap;
use std::string::String;
use std::vec::Vec;
use vstd::prelude::*;
use vstd::std_specs::iter::IteratorSpec;

verus! {

/// Whether `items` can be the content of a store: finitely many items, each
/// filed under its own id.
pub open spec fn valid_collection(items: Map<u128, TodoView>) -> bool {
    &&& items.dom().finite()
    &&& forall|id: u128| items.contains_key(id) ==> (#[trigger] items[id]).id == id
}

/// What a lookup of `id` in `items` gives: the item, or `NotFound`.
pub open spec fn fetched(items: Map<u128, TodoView>, id: u128) -> Result<TodoView, ApiError> {
    if items.contains_key(id) {
        Ok(items[id])
    } else {
        Err(ApiError::NotFound)
    }
}

/// The collection after an item with `text` was created under `id`.
pub open spec fn created(items: Map<u128, TodoView>, id: u128, text: Seq<char>) -> Map<
    u128,
    TodoView,
> {
    items.insert(id, new_item(id, text))
}

/// The collection after the update `input` was applied to the item `id`:
/// unchanged where there is no such item.
pub open spec fn updated(items: Map<u128, TodoView>, id: u128, input: UpdateTodoView) -> Map<
    u128,
    TodoView,
> {
    if items.contains_key(id) {
        items.insert(id, patched(items[id], input))
    } else {
        items
    }
}

/// The collection after the item `id` was deleted: unchanged where there is
/// no such item.
pub open spec fn deleted(items: Map<u128, TodoView>, id: u128) -> Map<u128, TodoView> {
    items.remove(id)
}

/// Whether some item of `items` is filed under an id of random shape. Only
/// in such a collection can a newly drawn id be taken already.
pub open spec fn holds_random_id(items: Map<u128, TodoView>) -> bool {
    exists|taken: u128| is_random_id(taken) && #[trigger] items.contains_key(taken)
}

/// Whether `all` holds the items of `items`, each of them exactly once.
pub open spec fn enumerates(items: Map<u128, TodoView>, all: Seq<TodoView>) -> bool {
    &&& all.len() == items.len()
    &&& forall|i: int|
        0 <= i < all.len() ==> items.contains_key((#[trigger] all[i]).id) && items[all[i].id]
            == all[i]
    &&& forall|i: int, j: int|
        0 <= i < j < all.len() ==> (#[trigger] all[i]).id != (#[trigger] all[j]).id
}

/// The number of items that a listing of `count` items shows after it has
/// skipped `offset` of them and with at most `limit` of them shown.
pub open spec fn page_len(count: nat, offset: nat, limit: nat) -> nat {
    let rest = if offset < count {
        (count - offset) as nat
    } else {
        0
    };
    if limit < rest {
        limit
    } else {
        rest
    }
}

/// The part of `all` that is left when `offset` items are skipped and at
/// most `limit` items are taken.
pub open spec fn window(all: Seq<TodoView>, offset: nat, limit: nat) -> Seq<TodoView> {
    let from = if offset < all.len() {
        offset
    } else {
        all.len()
    };
    all.subrange(from as int, (from + page_len(all.len(), offset, limit)) as int)
}

/// Whether `page` is a listing of `items` with `offset` and `limit`: a
/// window of some sequence that holds every item once. The order of that
/// sequence is the store's own and is not fixed by anything.
pub open spec fn is_page(
    items: Map<u128, TodoView>,
    offset: nat,
    limit: nat,
    page: Seq<TodoView>,
) -> bool {
    exists|all: Seq<TodoView>| enumerates(items, all) && page == window(all, offset, limit)
}

/// The outcome of an operation that hands out one item, as contracts speak
/// of it.
pub open spec fn outcome_view(outcome: Result<Todo, ApiError>) -> Result<TodoView, ApiError> {
    match outcome {
        Ok(todo) => Ok(todo@),
        Err(error) => Err(error),
    }
}

/// A walk over the values of a map whose items are filed under their own
/// ids, with as many steps as the map has keys and with exactly the map's
/// values met on the way, meets every item once.
proof fn lemma_walk_enumerates(items: Map<u128, Todo>, all: Seq<Todo>)
    requires
        items.dom().finite(),
        forall|id: u128| items.contains_key(id) ==> (#[trigger] items[id]).id == id,
        all.to_set() == items.values(),
        all.len() == items.dom().len(),
    ensures
        all.no_duplicates(),
        forall|i: int|
            0 <= i < all.len() ==> items.contains_key((#[trigger] all[i]).id) && items[all[i].id]
                == all[i],
{
    assert(items.is_injective());
    items.lemma_injective_values_len();
    all.lemma_no_dup_set_cardinality();
    assert forall|i: int| 0 <= i < all.len() implies items.contains_key((#[trigger] all[i]).id)
        && items[all[i].id] == all[i] by {
        assert(all.to_set().contains(all[i]));
        assert(items.values().contains(all[i]));
        let id = choose|id: u128| items.contains_key(id) && items[id] == all[i];
        assert(items[id].id == id);
    }
}

/// The collection of todo items. Its view is the map from each id to the
/// item filed under it.
pub struct TodoStore {
    items: HashMap<u128, Todo>,
}

impl View for TodoStore {
    type V = Map<u128, TodoView>;

    closed spec fn view(&self) -> Map<u128, TodoView> {
        Map::new(
            |id: u128| self.items@.contains_key(id),
            |id: u128|
                TodoView {
                    id,
                    text: self.items@[id].text@,
                    completed: self.items@[id].completed,
                },
        )
    }
}

impl TodoStore {
    #[verifier::type_invariant]
    spec fn filed_under_own_id(self) -> bool {
        forall|id: u128| self.items@.contains_key(id) ==> (#[trigger] self.items@[id]).id == id
    }

    /// The content of every store is a valid collection, of a size that a
    /// `usize` holds.
    pub proof fn view_is_valid(self)
        ensures
            valid_collection(self@),
            self@.len() <= usize::MAX,
    {
        vstd::std_specs::hash::axiom_hashmap_view_finite_dom(self.items);
        vstd::std_specs::hash::axiom_spec_hash_map_len(&self.items);
        assert(self@.dom() =~= self.items@.dom());
    }

    /// An empty store.
    pub fn new() -> (store: TodoStore)
        ensures
            store@ == Map::<u128, TodoView>::empty(),
    {
        let store = TodoStore { items: HashMap::new() };
        assert(store@ =~= Map::<u128, TodoView>::empty());
        store
    }

    /// The number of items in the store.
    pub fn len(&self) -> (count: usize)
        ensures
            count == self@.len(),
    {
        assert(self@.dom() =~= self.items@.dom());
        self.items.len()
    }

    /// The item filed under `id`, or `NotFound`.
    pub fn get(&self, id: u128) -> (found: Result<Todo, ApiError>)
        ensures
            outcome_view(found) == fetched(self@, id),
    {
        proof {
            use_type_invariant(self);
        }
        match self.items.get(&id) {
            Some(todo) => Ok(todo.clone()),
            None => Err(ApiError::NotFound),
        }
    }

    /// The items of the store, in the store's own order, without the first
    /// `offset` of them and at most `limit` of them.
    pub fn list(&self, offset: usize, limit: usize) -> (page: Vec<Todo>)
        ensures
            is_page(self@, offset as nat, limit as nat, views(page@)),
            page.len() == page_len(self@.len(), offset as nat, limit as nat),
    {
        let ghost all: Seq<Todo> = vstd::std_specs::hash::spec_values_iter(
            &self.items,
        ).remaining().unref();
        proof {
            use_type_invariant(self);
            vstd::std_specs::hash::axiom_spec_values_iter(&self.items);
            vstd::std_specs::hash::axiom_hashmap_view_finite_dom(self.items);
            assert(self@.dom() =~= self.items@.dom());
            lemma_walk_enumerates(self.items@, all);
            assert(enumerates(self@, views(all)));
        }
        let mut seen: usize = 0;
        let mut page: Vec<Todo> = Vec::new();
        for todo in walk: self.items.values()
            invariant_except_break
                seen == walk.index(),
            invariant
                walk.seq().unref() == all,
                all.len() == self.items.len(),
                seen <= all.len(),
                page.len() == page_len(seen as nat, offset as nat, limit as nat),
                views(page@) == window(views(all.take(seen as int)), offset as nat, limit as nat),
            ensures
                seen == all.len() || page.len() >= limit,
        {
            if page.len() >= limit {
                break;
            }
            let ghost shown = views(page@);
            let ghost met = views(all.take(seen as int));
            assert(*todo == all[seen as int]);
            if seen >= offset {
                page.push(todo.clone());
            }
            seen = seen + 1;
            proof {
                let met_now = views(all.take(seen as int));
                assert(met_now =~= met.push(all[seen - 1]@));
                let target = window(met_now, offset as nat, limit as nat);
                if seen - 1 >= offset {
                    assert(views(page@) =~= shown.push(all[seen - 1]@));
                    assert(forall|k: int|
                        0 <= k < shown.len() ==> shown[k] == met[offset + k]);
                }
                assert(views(page@) =~= target);
            }
        }
        proof {
            assert(all.take(all.len() as int) =~= all);
            assert(views(page@) =~= window(views(all), offset as nat, limit as nat));
        }
        page
    }

    /// Files `todo` under its id, in place of what was there.
    fn put(&mut self, todo: Todo)
        ensures
            final(self)@ == old(self)@.insert(todo.id, todo@),
    {
        proof {
            use_type_invariant(&*self);
        }
        // The map is moved out while it changes and moved back afterwards.
        let mut items = HashMap::new();
        std::mem::swap(&mut items, &mut self.items);
        items.insert(todo.id, todo);
        self.items = items;
        assert(self@ =~= old(self)@.insert(todo.id, todo@));
    }

    /// Applies `input` to the item filed under `id` and hands out the item
    /// as it then is, or `NotFound`, with the store unchanged, where there
    /// is no such item.
    pub fn update(&mut self, id: u128, input: UpdateTodo) -> (outcome: Result<Todo, ApiError>)
        ensures
            final(self)@ == updated(old(self)@, id, input@),
            outcome_view(outcome) == fetched(final(self)@, id),
    {
        proof {
            use_type_invariant(&*self);
        }
        let current = match self.items.get(&id) {
            Some(todo) => todo.clone(),
            None => {
                return Err(ApiError::NotFound);
            },
        };
        let todo = input.apply(current);
        self.put(todo.clone());
        Ok(todo)
    }

    /// Creates an item with `text` under `id` and hands it out. An id that
    /// is already taken is refused with `Internal`, and the store stays as
    /// it was: no item is ever replaced by a new one.
    pub fn create_with_id(&mut self, id: u128, text: String) -> (outcome: Result<Todo, ApiError>)
        ensures
            outcome_view(outcome) == if old(self)@.contains_key(id) {
                Err(ApiError::Internal)
            } else {
                Ok(new_item(id, text@))
            },
            final(self)@ == if old(self)@.contains_key(id) {
                old(self)@
            } else {
                created(old(self)@, id, text@)
            },
    {
        if self.items.contains_key(&id) {
            return Err(ApiError::Internal);
        }
        let todo = Todo::new(id, text);
        self.put(todo.clone());
        Ok(todo)
    }

    /// Creates an item with `text` under a newly drawn random id and hands
    /// it out. The id is fresh: in the all but impossible case that the id
    /// drawn is already taken, the outcome is `Internal` and the store stays
    /// as it was. That can only happen in a store that holds an id of random
    /// shape; in any other store, the empty one among them, the item is
    /// created.
    pub fn create(&mut self, text: String) -> (outcome: Result<Todo, ApiError>)
        ensures
            match outcome {
                Ok(todo) => {
                    &&& is_random_id(todo.id)
                    &&& !old(self)@.contains_key(todo.id)
                    &&& todo@ == new_item(todo.id, text@)
                    &&& final(self)@ == created(old(self)@, todo.id, text@)
                },
                Err(error) => {
                    &&& error == ApiError::Internal
                    &&& final(self)@ == old(self)@
                    &&& holds_random_id(old(self)@)
                },
            },
    {
        let id = random_id();
        self.create_with_id(id, text)
    }

    /// Deletes the item filed under `id` and says whether there was one.
    pub fn delete(&mut self, id: u128) -> (removed: bool)
        ensures
            removed == old(self)@.contains_key(id),
            final(self)@ == deleted(old(self)@, id),
    {
        proof {
            use_type_invariant(&*self);
        }
        let mut items = HashMap::new();
        std::mem::swap(&mut items, &mut self.items);
        let removed = items.remove(&id);
        self.items = items;
        assert(self@ =~= old(self)@.remove(id));
        removed.is_some()
    }
}

} // verus!
