use vstd::prelude::*;
use crate::model::{views, Completion, ItemView, TodoError, TodoItem};
use crate::store::{delete_rows, has_id, index_of, rows_ordered, toggle_rows, StoreView, TodoStore};
use crate::text::{blank, check_text};

verus! {

/// The table after a todo with `text` is added: a pending row with the next id at the end.
pub open spec fn after_add(s: StoreView, text: Seq<char>) -> StoreView {
    StoreView {
        rows: s.rows.push(ItemView { id: s.next_id, text, state: Completion::Pending }),
        next_id: (s.next_id + 1) as u64,
    }
}

/// Adds a todo with the label `raw`, stored as written, and returns its record: the
/// id the store gave it, and the pending state every todo starts in. A blank label is
/// refused, and so is any add once the store's ids are spent; neither changes the table.
pub fn add_todo(store: &mut TodoStore, raw: &str) -> (r: Result<TodoItem, TodoError>)
    requires
        old(store).wf(),
    ensures
        final(store).wf(),
        r is Ok <==> !blank(raw@) && old(store)@.next_id < u64::MAX,
        r matches Err(e) ==> final(store)@ == old(store)@ && (e == if blank(raw@) {
            TodoError::Validation
        } else {
            TodoError::Storage
        }),
        r matches Ok(item) ==> {
            &&& item@ == ItemView { id: old(store)@.next_id, text: raw@, state: Completion::Pending }
            &&& final(store)@ == after_add(old(store)@, raw@)
        },
{
    let text = match check_text(raw) {
        Ok(t) => t,
        Err(e) => return Err(e),
    };
    let label = text.clone();
    match store.insert(text) {
        Ok(id) => Ok(TodoItem { id, text: label, state: Completion::Pending }),
        Err(e) => Err(e),
    }
}

/// Flips the state of the todo `id` and returns the state it now has; `NotFound`
/// where no todo has that id, with nothing changed.
pub fn toggle_todo(store: &mut TodoStore, id: u64) -> (r: Result<Completion, TodoError>)
    requires
        old(store).wf(),
    ensures
        final(store).wf(),
        r is Err <==> !has_id(old(store)@.rows, id),
        r matches Err(e) ==> e == TodoError::NotFound,
        r matches Ok(c) ==> c == old(store)@.rows[index_of(old(store)@.rows, id)].state.spec_toggled(),
        final(store)@ == (StoreView { rows: toggle_rows(old(store)@.rows, id), next_id: old(store)@.next_id }),
{
    store.toggle(id)
}

/// Removes the todo `id`. It always succeeds: an id that is not there leaves the table as it is.
pub fn remove_todo(store: &mut TodoStore, id: u64)
    requires
        old(store).wf(),
    ensures
        final(store).wf(),
        final(store)@ == (StoreView { rows: delete_rows(old(store)@.rows, id), next_id: old(store)@.next_id }),
{
    store.delete(id)
}

/// What a toggle in the relational store came to, from the number of rows its single
/// update statement changed: none means no todo has the id.
pub fn update_outcome(rows_affected: u64) -> (r: Result<(), TodoError>)
    ensures
        r is Err <==> rows_affected == 0,
        r matches Err(e) ==> e == TodoError::NotFound,
{
    if rows_affected == 0 {
        Err(TodoError::NotFound)
    } else {
        Ok(())
    }
}

/// Every todo, in the order the store holds them.
pub fn list_todos(store: &TodoStore) -> (r: Vec<TodoItem>)
    requires
        store.wf(),
    ensures
        views(r@) == store@.rows,
{
    store.list_all()
}

/// After an add, the list holds exactly one todo that was not there before: the one
/// with the new label, pending. The todos that were there stay as they were.
pub proof fn lemma_add_then_list(s: StoreView, text: Seq<char>)
    requires
        rows_ordered(s.rows, s.next_id),
        !blank(text),
        s.next_id < u64::MAX,
    ensures
        ({
            let rows = after_add(s, text).rows;
            &&& rows.len() == s.rows.len() + 1
            &&& forall|i: int| 0 <= i < s.rows.len() ==> rows[i] == s.rows[i]
            &&& !has_id(s.rows, rows[s.rows.len() as int].id)
            &&& rows[s.rows.len() as int].text == text
            &&& rows[s.rows.len() as int].state == Completion::Pending
            &&& forall|i: int| 0 <= i < rows.len() && !has_id(s.rows, #[trigger] rows[i].id) ==> i == s.rows.len()
        }),
{
    let rows = after_add(s, text).rows;
    assert forall|i: int| 0 <= i < rows.len() && !has_id(s.rows, #[trigger] rows[i].id) implies i == s.rows.len() by {
        if i < s.rows.len() {
            assert(rows[i] == s.rows[i]);
        }
    }
}

/// Toggling the same todo twice gives back the table one started from.
pub proof fn lemma_toggle_twice(s: StoreView, id: u64)
    ensures
        toggle_rows(toggle_rows(s.rows, id), id) == s.rows,
        has_id(toggle_rows(s.rows, id), id) == has_id(s.rows, id),
{
    let once = toggle_rows(s.rows, id);
    assert(toggle_rows(once, id) =~= s.rows);
    if has_id(s.rows, id) {
        let i = choose|i: int| 0 <= i < s.rows.len() && (#[trigger] s.rows[i]).id == id;
        assert(once[i].id == id);
    }
    if has_id(once, id) {
        let i = choose|i: int| 0 <= i < once.len() && (#[trigger] once[i]).id == id;
        assert(s.rows[i].id == id);
    }
}

/// After a removal the id is gone from the list, and removing it once more changes nothing.
pub proof fn lemma_remove_then_list(s: StoreView, id: u64)
    requires
        rows_ordered(s.rows, s.next_id),
    ensures
        !has_id(delete_rows(s.rows, id), id),
        delete_rows(delete_rows(s.rows, id), id) == delete_rows(s.rows, id),
{
    let after = delete_rows(s.rows, id);
    if has_id(s.rows, id) {
        let k = index_of(s.rows, id);
        if has_id(after, id) {
            let j = choose|j: int| 0 <= j < after.len() && (#[trigger] after[j]).id == id;
            let j2 = if j < k { j } else { j + 1 };
            assert(after[j] == s.rows[j2]);
            crate::store::lemma_ids_unique(s.rows, s.next_id, j2, k);
        }
    }
}

} // verus!
