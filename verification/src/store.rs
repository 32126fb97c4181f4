//! The two-table store and the semantics of the four operations.
//!
//! The database owns all mutable state of the service: a `todo_list` table
//! and a `todo_item` table. This module models those tables as two
//! sequences and gives the four storage operations — listing lists,
//! listing a list's items, creating a list, and checking an item — exact
//! contracts over that model. The unverified binary runs the same
//! statements against the real database; tests run them here.

use vstd::prelude::*;

use crate::models::AppError;
use crate::models::AppErrorType;
use crate::models::TodoItem;
use crate::models::TodoList;

verus! {

/// Lists are stored in insertion order: ids strictly ascending, every id
/// at least 1 and below the next id the store will hand out.
pub open spec fn lists_wf(lists: Seq<TodoList>, next_id: int) -> bool {
    &&& forall|i: int, j: int| 0 <= i < j < lists.len() ==> lists[i].id < lists[j].id
    &&& forall|i: int| 0 <= i < lists.len() ==> 1 <= (#[trigger] lists[i]).id < next_id
}

/// Items are stored with strictly ascending ids (the primary key).
pub open spec fn items_wf(items: Seq<TodoItem>) -> bool {
    forall|i: int, j: int| 0 <= i < j < items.len() ==> items[i].id < items[j].id
}

/// The two tables and the id the next created list will get.
pub struct Store {
    pub lists: Vec<TodoList>,
    pub items: Vec<TodoItem>,
    pub next_list_id: i32,
}

impl Store {
    pub open spec fn wf(&self) -> bool {
        &&& lists_wf(self.lists@, self.next_list_id as int)
        &&& items_wf(self.items@)
        &&& 1 <= self.next_list_id
    }

    /// An empty store; the first created list will get id 1.
    pub fn new() -> (s: Store)
        ensures
            s.wf(),
            s.lists@ == Seq::<TodoList>::empty(),
            s.items@ == Seq::<TodoItem>::empty(),
            s.next_list_id == 1,
    {
        Store { lists: Vec::new(), items: Vec::new(), next_list_id: 1 }
    }

    /// Seeds one item, as the surrounding system does outside the HTTP
    /// surface. The item is appended only when its id is larger than
    /// every stored item id, which keeps the table well-formed.
    pub fn add_item(&mut self, item: TodoItem) -> (added: bool)
        requires
            old(self).wf(),
        ensures
            final(self).wf(),
            added == (old(self).items@.len() == 0 || old(self).items@.last().id < item.id),
            added ==> final(self).items@ == old(self).items@.push(item),
            !added ==> final(self).items@ == old(self).items@,
            final(self).lists@ == old(self).lists@,
            final(self).next_list_id == old(self).next_list_id,
    {
        let n = self.items.len();
        if n == 0 || self.items[n - 1].id < item.id {
            proof {
                let s = old(self).items@;
                assert forall|i: int| 0 <= i < s.len() implies s[i].id < item.id by {
                    if i < s.len() - 1 {
                        assert(s[i].id < s[s.len() - 1].id);
                    }
                }
            }
            self.items.push(item);
            true
        } else {
            false
        }
    }
}

/// The listing order of `get_todos`: the stored lists reversed, so the
/// largest id comes first.
pub open spec fn todos_view(lists: Seq<TodoList>) -> Seq<TodoList> {
    Seq::new(lists.len(), |i: int| lists[lists.len() - 1 - i])
}

/// Every stored todo list, newest (largest id) first. An empty store
/// yields an empty sequence, not an error.
pub fn get_todos(store: &Store) -> (r: Result<Vec<TodoList>, AppError>)
    requires
        store.wf(),
    ensures
        r matches Ok(v) && v@ == todos_view(store.lists@),
        r matches Ok(v) && forall|i: int, j: int| 0 <= i < j < v@.len() ==> v@[i].id > v@[j].id,
{
    let n = store.lists.len();
    let mut out: Vec<TodoList> = Vec::new();
    let mut k: usize = 0;
    while k < n
        invariant
            n == store.lists@.len(),
            k <= n,
            out@.len() == k,
            forall|m: int| 0 <= m < k ==> out@[m] == store.lists@[n - 1 - m],
        decreases n - k,
    {
        out.push(store.lists[n - 1 - k].duplicate());
        k += 1;
    }
    proof {
        assert(out@ =~= todos_view(store.lists@));
        assert forall|i: int, j: int| 0 <= i < j < out@.len() implies out@[i].id > out@[j].id by {
            assert(store.lists@[n - 1 - j].id < store.lists@[n - 1 - i].id);
        }
    }
    Ok(out)
}

/// What `get_items` returns: the stored items whose `list_id` matches,
/// in storage (ascending id) order.
pub open spec fn items_for(items: Seq<TodoItem>, list_id: i32) -> Seq<TodoItem>
    decreases items.len(),
{
    if items.len() == 0 {
        Seq::empty()
    } else {
        let rest = items_for(items.drop_last(), list_id);
        if items.last().list_id == list_id {
            rest.push(items.last())
        } else {
            rest
        }
    }
}

/// The items of the given list, in ascending id order. A list with no
/// items — an unknown list included — yields an empty sequence, never an
/// error; callers cannot tell the two cases apart here, by design.
pub fn get_items(store: &Store, list_id: i32) -> (r: Result<Vec<TodoItem>, AppError>)
    requires
        store.wf(),
    ensures
        r matches Ok(v) && v@ == items_for(store.items@, list_id),
{
    let n = store.items.len();
    let mut out: Vec<TodoItem> = Vec::new();
    let mut k: usize = 0;
    while k < n
        invariant
            n == store.items@.len(),
            k <= n,
            out@ == items_for(store.items@.take(k as int), list_id),
        decreases n - k,
    {
        proof {
            let s = store.items@;
            assert(s.take(k + 1).drop_last() =~= s.take(k as int));
            assert(s.take(k + 1).last() == s[k as int]);
        }
        if store.items[k].list_id == list_id {
            out.push(store.items[k].duplicate());
        }
        k += 1;
    }
    proof {
        assert(store.items@.take(n as int) =~= store.items@);
    }
    Ok(out)
}

/// Creates a todo list with the given title. The new list gets the next
/// id — positive and larger than the id of every list ever stored, so no
/// id is handed out twice — and is appended to the table.
pub fn create_todo(store: &mut Store, title: String) -> (r: Result<TodoList, AppError>)
    requires
        old(store).wf(),
        old(store).next_list_id < i32::MAX,
    ensures
        final(store).wf(),
        r matches Ok(l) && {
            &&& l.id == old(store).next_list_id
            &&& 1 <= l.id
            &&& l.title == title
            &&& forall|i: int| 0 <= i < old(store).lists@.len()
                ==> (#[trigger] old(store).lists@[i]).id < l.id
            &&& final(store).lists@ == old(store).lists@.push(l)
            &&& final(store).items@ == old(store).items@
            &&& final(store).next_list_id == old(store).next_list_id + 1
        },
{
    let id = store.next_list_id;
    let created = TodoList { id: id, title: title };
    store.lists.push(created.duplicate());
    store.next_list_id = id + 1;
    Ok(created)
}

/// Whether the item at index `j` is the one an item-check looks for:
/// matching primary key, matching list, and not yet checked.
pub open spec fn checkable_at(items: Seq<TodoItem>, list_id: i32, item_id: i32, j: int) -> bool {
    &&& 0 <= j < items.len()
    &&& items[j].id == item_id
    &&& items[j].list_id == list_id
    &&& !items[j].checked
}

/// Whether an item-check on these arguments affects a row.
pub open spec fn can_check(items: Seq<TodoItem>, list_id: i32, item_id: i32) -> bool {
    exists|j: int| checkable_at(items, list_id, item_id, j)
}

/// The index the check affects, when one exists.
pub open spec fn check_index(items: Seq<TodoItem>, list_id: i32, item_id: i32) -> int {
    choose|j: int| checkable_at(items, list_id, item_id, j)
}

/// The item with its `checked` flag set.
pub open spec fn set_checked(it: TodoItem) -> TodoItem {
    TodoItem { checked: true, ..it }
}

/// The item table after a successful check.
pub open spec fn checked_items(items: Seq<TodoItem>, list_id: i32, item_id: i32) -> Seq<TodoItem> {
    items.update(
        check_index(items, list_id, item_id),
        set_checked(items[check_index(items, list_id, item_id)]),
    )
}

/// Marks one item checked: succeeds exactly when an item with this id
/// exists, belongs to this list, and is still unchecked; then that one
/// item's flag flips and nothing else changes. Item not found, wrong
/// list, and already checked are deliberately not told apart: all three
/// surface as the same failure.
pub fn check_item(store: &mut Store, list_id: i32, item_id: i32) -> (r: Result<(), AppError>)
    requires
        old(store).wf(),
    ensures
        final(store).wf(),
        final(store).lists@ == old(store).lists@,
        final(store).next_list_id == old(store).next_list_id,
        r is Ok <==> can_check(old(store).items@, list_id, item_id),
        can_check(old(store).items@, list_id, item_id) ==> final(store).items@
            == checked_items(old(store).items@, list_id, item_id),
        !can_check(old(store).items@, list_id, item_id) ==> final(store).items@
            == old(store).items@,
        r matches Err(e) ==> ((e.message matches Some(m) && m@ == "Faile to check id"@)
            && e.error_type == AppErrorType::DataBaseError),
{
    let ghost s = old(store).items@;
    let n = store.items.len();
    let mut k: usize = 0;
    while k < n
        invariant
            s == old(store).items@,
            old(store).wf(),
            store.items@ == s,
            store.lists@ == old(store).lists@,
            store.next_list_id == old(store).next_list_id,
            n == s.len(),
            k <= n,
            items_wf(s),
            forall|m: int| 0 <= m < k ==> (#[trigger] s[m]).id != item_id,
        decreases n - k,
    {
        if store.items[k].id == item_id {
            proof {
                assert forall|j: int| checkable_at(s, list_id, item_id, j) implies j == k as int by {
                    if j < k as int {
                        assert(s[j].id < s[k as int].id);
                    } else if j > k as int {
                        assert(s[k as int].id < s[j].id);
                    }
                }
            }
            if store.items[k].list_id == list_id && !store.items[k].checked {
                store.items[k].checked = true;
                proof {
                    assert(checkable_at(s, list_id, item_id, k as int));
                    assert(can_check(s, list_id, item_id));
                    assert(check_index(s, list_id, item_id) == k as int);
                    assert(store.items@[k as int] =~= set_checked(s[k as int]));
                    assert(store.items@ =~= checked_items(s, list_id, item_id));
                    assert forall|i: int, j: int| 0 <= i < j < store.items@.len()
                        implies store.items@[i].id < store.items@[j].id by {
                        assert(store.items@[i].id == s[i].id);
                        assert(store.items@[j].id == s[j].id);
                    }
                    assert(items_wf(store.items@));
                }
                return Ok(());
            } else {
                proof {
                    assert forall|j: int| !checkable_at(s, list_id, item_id, j) by {
                        if checkable_at(s, list_id, item_id, j) {
                            assert(j == k);
                        }
                    }
                }
                return Err(check_failed_error());
            }
        }
        k += 1;
    }
    proof {
        assert forall|j: int| !checkable_at(s, list_id, item_id, j) by {
            if 0 <= j < s.len() {
                assert(s[j].id != item_id);
            }
        }
    }
    Err(check_failed_error())
}

/// The failure reported when the check affects no row.
fn check_failed_error() -> (e: AppError)
    ensures
        e.error_type == AppErrorType::DataBaseError,
        e.message matches Some(m) && m@ == "Faile to check id"@,
{
    AppError {
        message: Some("Faile to check id".to_string()),
        cause: None,
        error_type: AppErrorType::DataBaseError,
    }
}

/// The decision the item-check route applies to the UPDATE's reported
/// row count: exactly one affected row means the check was applied; any
/// other count signals the conflict, reported as the same failure
/// `check_item` gives. This one-row test is the service's sole guard
/// against two concurrent checks of the same item.
pub fn rows_affected_outcome(updated: u64) -> (r: Result<(), AppError>)
    ensures
        r is Ok <==> updated == 1,
        r matches Err(e) ==> ((e.message matches Some(m) && m@ == "Faile to check id"@)
            && e.error_type == AppErrorType::DataBaseError),
{
    if updated == 1 {
        Ok(())
    } else {
        Err(check_failed_error())
    }
}

/// The decision the create route applies to the INSERT's decoded result:
/// the created record is the returned row; an empty result — which a
/// correct RETURNING clause never produces — is the defensive
/// database-error condition.
pub fn created_row_outcome(rows: Vec<TodoList>) -> (r: Result<TodoList, AppError>)
    ensures
        rows@.len() > 0 ==> (r matches Ok(l) && l == rows@.last()),
        rows@.len() == 0 ==> (r matches Err(e) && (e.message matches Some(m) && m@
            == "Error creating todo list"@) && e.error_type == AppErrorType::DataBaseError),
{
    let mut rows = rows;
    match rows.pop() {
        Some(l) => Ok(l),
        None => Err(
            AppError {
                message: Some("Error creating todo list".to_string()),
                cause: None,
                error_type: AppErrorType::DataBaseError,
            },
        ),
    }
}

/// Listings come newest first: whatever the store already held, after
/// creating list `a` and then list `b`, the first list a listing returns
/// is `b`.
pub proof fn lemma_latest_created_first(lists: Seq<TodoList>, a: TodoList, b: TodoList)
    ensures
        todos_view(lists.push(a).push(b)).len() > 0,
        todos_view(lists.push(a).push(b))[0] == b,
{
}

/// A successful check cannot be repeated: once the item's flag is set,
/// the identical call no longer finds an unchecked item, so it fails.
pub proof fn lemma_check_item_once(items: Seq<TodoItem>, list_id: i32, item_id: i32)
    requires
        items_wf(items),
        can_check(items, list_id, item_id),
    ensures
        !can_check(checked_items(items, list_id, item_id), list_id, item_id),
{
    let j = check_index(items, list_id, item_id);
    assert(checkable_at(items, list_id, item_id, j));
    let post = checked_items(items, list_id, item_id);
    assert forall|k: int| !checkable_at(post, list_id, item_id, k) by {
        if checkable_at(post, list_id, item_id, k) {
            if k != j {
                assert(post[k] == items[k]);
                if k < j {
                    assert(items[k].id < items[j].id);
                } else {
                    assert(items[j].id < items[k].id);
                }
            }
        }
    }
}

/// A check against the wrong list never succeeds, even when an item with
/// the given id exists: item ids are unique, so the one item carrying
/// `item_id` fails the `list_id` test and no other item can match.
pub proof fn lemma_check_item_wrong_list(
    items: Seq<TodoItem>,
    list_id: i32,
    item_id: i32,
    j: int,
)
    requires
        items_wf(items),
        0 <= j < items.len(),
        items[j].id == item_id,
        items[j].list_id != list_id,
    ensures
        !can_check(items, list_id, item_id),
{
    assert forall|k: int| !checkable_at(items, list_id, item_id, k) by {
        if checkable_at(items, list_id, item_id, k) {
            if k < j {
                assert(items[k].id < items[j].id);
            } else if k > j {
                assert(items[j].id < items[k].id);
            }
        }
    }
}

/// An item listing keeps the table's ascending id order, and every
/// returned item is one of the stored items.
pub proof fn lemma_items_for_sorted(items: Seq<TodoItem>, list_id: i32)
    requires
        items_wf(items),
    ensures
        items_wf(items_for(items, list_id)),
        forall|k: int| 0 <= k < items_for(items, list_id).len() ==> items.contains(
            #[trigger] items_for(items, list_id)[k],
        ),
    decreases items.len(),
{
    if items.len() > 0 {
        let rest = items.drop_last();
        lemma_items_for_sorted(rest, list_id);
        let f_rest = items_for(rest, list_id);
        let f = items_for(items, list_id);
        assert forall|k: int| 0 <= k < f_rest.len() implies items.contains(
            #[trigger] f_rest[k],
        ) && f_rest[k].id < items.last().id by {
            assert(rest.contains(f_rest[k]));
            let i = choose|i: int| 0 <= i < rest.len() && rest[i] == f_rest[k];
            assert(items[i] == f_rest[k]);
            assert(items[i].id < items[items.len() - 1].id);
        }
        if items.last().list_id == list_id {
            assert(f == f_rest.push(items.last()));
            assert forall|a: int, b: int| 0 <= a < b < f.len() implies f[a].id < f[b].id by {
                if b < f_rest.len() {
                    assert(f_rest[a].id < f_rest[b].id);
                } else {
                    assert(f[b] == items.last());
                    assert(f[a] == f_rest[a]);
                }
            }
            assert forall|k: int| 0 <= k < f.len() implies items.contains(#[trigger] f[k]) by {
                if k < f_rest.len() {
                    assert(f[k] == f_rest[k]);
                } else {
                    let last: int = items.len() - 1;
                    assert(items[last] == f[k]);
                }
            }
        }
    }
}

/// A list with no items — an unknown list included — lists as empty.
pub proof fn lemma_items_for_absent_list(items: Seq<TodoItem>, list_id: i32)
    requires
        forall|j: int| 0 <= j < items.len() ==> (#[trigger] items[j]).list_id != list_id,
    ensures
        items_for(items, list_id) == Seq::<TodoItem>::empty(),
    decreases items.len(),
{
    if items.len() > 0 {
        lemma_items_for_absent_list(items.drop_last(), list_id);
    }
}

} // verus!
