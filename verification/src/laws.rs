//! What holds of the operations taken together, proved over the
//! collections and answers that their contracts speak of.

use crate::handlers::{answered, delete_reply};
use crate::status::{ApiError, Status};
use crate::store::{
    created, deleted, enumerates, fetched, is_page, page_len, updated, valid_collection, window,
};
use crate::todo::{new_item, patched, TodoView, UpdateTodoView};
use vstd::prelude::*;

verus! {

/// The collection after one item was created for each of `ids`, in order,
/// the item of `ids[i]` with the text `texts[i]`.
pub open spec fn created_all(
    items: Map<u128, TodoView>,
    ids: Seq<u128>,
    texts: Seq<Seq<char>>,
) -> Map<u128, TodoView>
    decreases ids.len(),
{
    if ids.len() == 0 {
        items
    } else {
        created(created_all(items, ids.drop_last(), texts.drop_last()), ids.last(), texts.last())
    }
}

/// Creating, updating and deleting each keep a collection valid.
pub proof fn law_operations_keep_validity(
    items: Map<u128, TodoView>,
    id: u128,
    text: Seq<char>,
    input: UpdateTodoView,
)
    requires
        valid_collection(items),
    ensures
        valid_collection(created(items, id, text)),
        valid_collection(updated(items, id, input)),
        valid_collection(deleted(items, id)),
{
}

/// Round trip: an item that was created is found under its id, equal in
/// every field to the item that the creation handed out, and the answer
/// that carries it has status 200.
pub proof fn law_created_item_is_found(items: Map<u128, TodoView>, id: u128, text: Seq<char>)
    ensures
        fetched(created(items, id, text), id) == Ok::<TodoView, ApiError>(new_item(id, text)),
        answered(fetched(created(items, id, text), id)) == Ok::<(Status, TodoView), ApiError>(
            (Status::Success, new_item(id, text)),
        ),
{
}

/// Creating an item under an id that is not taken adds exactly one item and
/// leaves every other item as it was.
pub proof fn law_create_adds_one(items: Map<u128, TodoView>, id: u128, text: Seq<char>)
    requires
        valid_collection(items),
        !items.contains_key(id),
    ensures
        created(items, id, text).len() == items.len() + 1,
        forall|other: u128|
            items.contains_key(other) ==> created(items, id, text).contains_key(other)
                && #[trigger] created(items, id, text)[other] == items[other],
{
}

/// Deleting an item that is there takes exactly one item away; deleting
/// one that is not there changes nothing. Every other item stays as it was.
pub proof fn law_delete_takes_one(items: Map<u128, TodoView>, id: u128)
    requires
        valid_collection(items),
    ensures
        items.contains_key(id) ==> deleted(items, id).len() == items.len() - 1,
        !items.contains_key(id) ==> deleted(items, id) == items,
        forall|other: u128|
            other != id && items.contains_key(other) ==> deleted(items, id).contains_key(other)
                && #[trigger] deleted(items, id)[other] == items[other],
{
    if !items.contains_key(id) {
        assert(deleted(items, id) =~= items);
    }
}

/// No lost writes: after items were created under pairwise distinct ids,
/// none of which was taken, the collection has grown by their number, each
/// of them is found under its id as it was created, and every item that was
/// there before is unchanged.
pub proof fn law_creates_are_counted(
    items: Map<u128, TodoView>,
    ids: Seq<u128>,
    texts: Seq<Seq<char>>,
)
    requires
        valid_collection(items),
        ids.len() == texts.len(),
        ids.no_duplicates(),
        forall|i: int| 0 <= i < ids.len() ==> !items.contains_key(#[trigger] ids[i]),
    ensures
        valid_collection(created_all(items, ids, texts)),
        created_all(items, ids, texts).len() == items.len() + ids.len(),
        forall|i: int|
            0 <= i < ids.len() ==> fetched(created_all(items, ids, texts), #[trigger] ids[i])
                == Ok::<TodoView, ApiError>(new_item(ids[i], texts[i])),
        forall|other: u128|
            items.contains_key(other) ==> fetched(created_all(items, ids, texts), other)
                == #[trigger] fetched(items, other),
        forall|other: u128| #[trigger]
            created_all(items, ids, texts).contains_key(other) ==> items.contains_key(other)
                || ids.contains(other),
    decreases ids.len(),
{
    if ids.len() > 0 {
        let before = created_all(items, ids.drop_last(), texts.drop_last());
        law_creates_are_counted(items, ids.drop_last(), texts.drop_last());
        assert forall|i: int| 0 <= i < ids.len() - 1 implies ids.drop_last()[i] != ids.last() by {
            assert(ids[i] != ids[ids.len() - 1]);
        }
        assert(!before.contains_key(ids.last())) by {
            if before.contains_key(ids.last()) {
                if ids.drop_last().contains(ids.last()) {
                    let i = choose|i: int|
                        0 <= i < ids.drop_last().len() && ids.drop_last()[i] == ids.last();
                    assert(ids[i] != ids[ids.len() - 1]);
                }
            }
        }
        assert forall|i: int| 0 <= i < ids.len() implies fetched(
            created_all(items, ids, texts),
            #[trigger] ids[i],
        ) == Ok::<TodoView, ApiError>(new_item(ids[i], texts[i])) by {
            if i < ids.len() - 1 {
                assert(ids.drop_last()[i] == ids[i]);
                assert(texts.drop_last()[i] == texts[i]);
                assert(ids[i] != ids[ids.len() - 1]);
            }
        }
        assert forall|other: u128| #[trigger]
            created_all(items, ids, texts).contains_key(other) implies items.contains_key(other)
            || ids.contains(other) by {
            if other == ids.last() {
                assert(ids[ids.len() - 1] == other);
            } else if !items.contains_key(other) {
                let i = choose|i: int|
                    0 <= i < ids.drop_last().len() && ids.drop_last()[i] == other;
                assert(ids[i] == other);
            }
        }
    }
}

/// A listing that skips nothing and is not limited shows every item of the
/// collection exactly once: it has as many entries as there are items.
pub proof fn law_full_listing_shows_every_item(items: Map<u128, TodoView>, page: Seq<TodoView>)
    requires
        valid_collection(items),
        items.len() <= usize::MAX,
        is_page(items, 0, usize::MAX as nat, page),
    ensures
        page.len() == items.len(),
        enumerates(items, page),
{
    let all = choose|all: Seq<TodoView>|
        enumerates(items, all) && page == window(all, 0, usize::MAX as nat);
    assert(page =~= all);
}

/// Every listing has the length that follows from the number of items, the
/// offset and the limit, and shows only items of the collection, none of
/// them twice.
pub proof fn law_listing_shows_items_once(
    items: Map<u128, TodoView>,
    offset: nat,
    limit: nat,
    page: Seq<TodoView>,
)
    requires
        valid_collection(items),
        is_page(items, offset, limit, page),
    ensures
        page.len() == page_len(items.len(), offset, limit),
        forall|i: int|
            0 <= i < page.len() ==> fetched(items, (#[trigger] page[i]).id) == Ok::<
                TodoView,
                ApiError,
            >(page[i]),
        forall|i: int, j: int|
            0 <= i < j < page.len() ==> (#[trigger] page[i]).id != (#[trigger] page[j]).id,
{
    let all = choose|all: Seq<TodoView>|
        enumerates(items, all) && page == window(all, offset, limit);
    let from = if offset < all.len() {
        offset as int
    } else {
        all.len() as int
    };
    assert forall|i: int| 0 <= i < page.len() implies fetched(items, (#[trigger] page[i]).id)
        == Ok::<TodoView, ApiError>(page[i]) by {
        assert(page[i] == all[from + i]);
    }
    assert forall|i: int, j: int| 0 <= i < j < page.len() implies (#[trigger] page[i]).id != (
    #[trigger] page[j]).id by {
        assert(page[i] == all[from + i]);
        assert(page[j] == all[from + j]);
    }
}

/// A listing whose offset is at least the number of items is empty, and so
/// is a listing with limit 0, whatever the collection holds.
pub proof fn law_listing_past_the_end_is_empty(
    items: Map<u128, TodoView>,
    offset: nat,
    limit: nat,
    page: Seq<TodoView>,
)
    requires
        valid_collection(items),
        is_page(items, offset, limit, page),
        offset >= items.len() || limit == 0,
    ensures
        page == Seq::<TodoView>::empty(),
{
    let all = choose|all: Seq<TodoView>|
        enumerates(items, all) && page == window(all, offset, limit);
    assert(page =~= Seq::<TodoView>::empty());
}

/// An update that holds no field leaves the item, and with it the whole
/// collection, unchanged.
pub proof fn law_empty_update_changes_nothing(
    items: Map<u128, TodoView>,
    id: u128,
    item: TodoView,
)
    ensures
        patched(item, UpdateTodoView { text: None, completed: None }) == item,
        updated(items, id, UpdateTodoView { text: None, completed: None }) == items,
{
    let nothing = UpdateTodoView { text: None, completed: None };
    assert(updated(items, id, nothing) =~= items);
}

/// An update never changes the id. One that holds only `completed` leaves
/// the text unchanged, and one that holds only `text` leaves `completed`
/// unchanged; the field that it holds is the item's afterwards.
pub proof fn law_update_changes_only_its_fields(item: TodoView, text: Seq<char>, completed: bool)
    ensures
        patched(item, UpdateTodoView { text: None, completed: Some(completed) }) == (TodoView {
            id: item.id,
            text: item.text,
            completed,
        }),
        patched(item, UpdateTodoView { text: Some(text), completed: None }) == (TodoView {
            id: item.id,
            text,
            completed: item.completed,
        }),
        patched(item, UpdateTodoView { text: Some(text), completed: Some(completed) })
            == (TodoView {
            id: item.id,
            text,
            completed,
        }),
{
}

/// An update touches one item only: the collection keeps its ids, and every
/// item but the updated one stays as it was.
pub proof fn law_update_touches_one_item(
    items: Map<u128, TodoView>,
    id: u128,
    input: UpdateTodoView,
)
    ensures
        updated(items, id, input).dom() == items.dom(),
        forall|other: u128|
            other != id && items.contains_key(other) ==> #[trigger] updated(items, id, input)[other]
                == items[other],
        items.contains_key(id) ==> updated(items, id, input)[id] == patched(items[id], input),
{
    assert(updated(items, id, input).dom() =~= items.dom());
}

/// Deleting an id that is not there is answered with `NotFound`, and so is
/// the second of two deletions of the same id in a row, whether or not the
/// first found the item. After a deletion the item is not found either.
pub proof fn law_delete_twice_is_not_found(items: Map<u128, TodoView>, id: u128)
    ensures
        !items.contains_key(id) ==> delete_reply(items, id) == Err::<Status, ApiError>(
            ApiError::NotFound,
        ),
        delete_reply(deleted(items, id), id) == Err::<Status, ApiError>(ApiError::NotFound),
        fetched(deleted(items, id), id) == Err::<TodoView, ApiError>(ApiError::NotFound),
        deleted(deleted(items, id), id) == deleted(items, id),
{
    assert(deleted(deleted(items, id), id) =~= deleted(items, id));
}

} // verus!
