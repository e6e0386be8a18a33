use vstd::prelude::*;
use crate::model::{views, Completion, ItemView, TodoError, TodoItem};

verus! {

/// The table as the contracts see it: its rows in the order they were added,
/// and the id the next insert will take.
pub struct StoreView {
    pub rows: Seq<ItemView>,
    pub next_id: u64,
}

/// Whether some row carries `id`.
pub open spec fn has_id(rows: Seq<ItemView>, id: u64) -> bool {
    exists|i: int| 0 <= i < rows.len() && (#[trigger] rows[i]).id == id
}

/// The position of the row that carries `id`, where there is one.
pub open spec fn index_of(rows: Seq<ItemView>, id: u64) -> int {
    choose|i: int| 0 <= i < rows.len() && (#[trigger] rows[i]).id == id
}

/// The row after a toggle of `id`: flipped if it is that row, else as it was.
pub open spec fn toggle_row(r: ItemView, id: u64) -> ItemView {
    if r.id == id {
        ItemView { id: r.id, text: r.text, state: r.state.spec_toggled() }
    } else {
        r
    }
}

/// The rows after a toggle of `id`.
pub open spec fn toggle_rows(rows: Seq<ItemView>, id: u64) -> Seq<ItemView> {
    rows.map_values(|r: ItemView| toggle_row(r, id))
}

/// The rows after `id` is deleted: the row that carries it leaves, the others stay in order.
pub open spec fn delete_rows(rows: Seq<ItemView>, id: u64) -> Seq<ItemView> {
    if has_id(rows, id) {
        rows.remove(index_of(rows, id))
    } else {
        rows
    }
}

/// Ids rise strictly along the rows, and all lie below the next one to be given.
pub open spec fn rows_ordered(rows: Seq<ItemView>, next_id: u64) -> bool {
    &&& 1 <= next_id
    &&& forall|i: int, j: int| 0 <= i < j < rows.len() ==> (#[trigger] rows[i]).id < (#[trigger] rows[j]).id
    &&& forall|i: int| 0 <= i < rows.len() ==> 1 <= (#[trigger] rows[i]).id < next_id
}

/// In ordered rows no two rows share an id.
pub proof fn lemma_ids_unique(rows: Seq<ItemView>, next_id: u64, i: int, j: int)
    requires
        rows_ordered(rows, next_id),
        0 <= i < rows.len(),
        0 <= j < rows.len(),
        rows[i].id == rows[j].id,
    ensures
        i == j,
{
    if i < j {
        assert(rows[i].id < rows[j].id);
    } else if j < i {
        assert(rows[j].id < rows[i].id);
    }
}

/// A table of todos held in memory, with the rules of the relational table behind the
/// service: the store gives each new row the next id of a counter that never goes
/// back, so an id is never used twice, even after a delete.
pub struct TodoStore {
    rows: Vec<TodoItem>,
    next_id: u64,
}

impl View for TodoStore {
    type V = StoreView;

    closed spec fn view(&self) -> StoreView {
        StoreView { rows: views(self.rows@), next_id: self.next_id }
    }
}

impl TodoStore {
    /// The table is well formed: ids rise along the rows and stay below the next id.
    pub open spec fn wf(&self) -> bool {
        rows_ordered(self@.rows, self@.next_id)
    }

    /// An empty table whose first row will get id 1.
    pub fn new() -> (r: TodoStore)
        ensures
            r.wf(),
            r@.rows == Seq::<ItemView>::empty(),
            r@.next_id == 1,
    {
        let r = TodoStore { rows: Vec::new(), next_id: 1 };
        assert(r@.rows =~= Seq::<ItemView>::empty());
        r
    }

    /// Every row, in the order of the table.
    pub fn list_all(&self) -> (r: Vec<TodoItem>)
        requires
            self.wf(),
        ensures
            views(r@) == self@.rows,
    {
        let mut out: Vec<TodoItem> = Vec::new();
        let mut i: usize = 0;
        while i < self.rows.len()
            invariant
                i <= self.rows@.len(),
                out@.len() == i,
                forall|k: int| 0 <= k < i ==> (#[trigger] out@[k])@ == self.rows@[k]@,
            decreases self.rows@.len() - i,
        {
            out.push(self.rows[i].duplicate());
            i = i + 1;
        }
        assert(views(out@) =~= views(self.rows@));
        out
    }

    /// Adds a pending row with `text` and returns the id the store gave it. The store
    /// refuses when its ids are spent.
    pub fn insert(&mut self, text: String) -> (r: Result<u64, TodoError>)
        requires
            old(self).wf(),
        ensures
            final(self).wf(),
            r is Err <==> old(self)@.next_id == u64::MAX,
            r matches Err(e) ==> e == TodoError::Storage && final(self)@ == old(self)@,
            r matches Ok(id) ==> {
                &&& id == old(self)@.next_id
                &&& final(self)@.next_id == id + 1
                &&& final(self)@.rows == old(self)@.rows.push(
                    ItemView { id, text: text@, state: Completion::Pending },
                )
            },
    {
        if self.next_id == u64::MAX {
            return Err(TodoError::Storage);
        }
        let id = self.next_id;
        self.rows.push(TodoItem { id, text, state: Completion::Pending });
        self.next_id = id + 1;
        assert(self@.rows =~= old(self)@.rows.push(
            ItemView { id, text: text@, state: Completion::Pending },
        ));
        Ok(id)
    }

    /// The position of the row that carries `id`, if any.
    fn find(&self, id: u64) -> (r: Option<usize>)
        requires
            self.wf(),
        ensures
            r is None <==> !has_id(self@.rows, id),
            r matches Some(i) ==> i < self@.rows.len() && i == index_of(self@.rows, id),
    {
        let mut i: usize = 0;
        while i < self.rows.len()
            invariant
                i <= self.rows@.len(),
                self.wf(),
                self@.rows == views(self.rows@),
                forall|j: int| 0 <= j < i ==> (#[trigger] self@.rows[j]).id != id,
            decreases self.rows@.len() - i,
        {
            if self.rows[i].id == id {
                assert(self@.rows[i as int].id == id);
                proof {
                    let k = index_of(self@.rows, id);
                    lemma_ids_unique(self@.rows, self@.next_id, i as int, k);
                }
                return Some(i);
            }
            i = i + 1;
        }
        None
    }

    /// The row that carries `id`.
    pub fn fetch_one(&self, id: u64) -> (r: Result<TodoItem, TodoError>)
        requires
            self.wf(),
        ensures
            r is Err <==> !has_id(self@.rows, id),
            r matches Err(e) ==> e == TodoError::NotFound,
            r matches Ok(item) ==> item@ == self@.rows[index_of(self@.rows, id)],
    {
        match self.find(id) {
            Some(i) => Ok(self.rows[i].duplicate()),
            None => Err(TodoError::NotFound),
        }
    }

    /// Flips the state of the row that carries `id`, in one step. Where no row does,
    /// nothing changes and the answer is `NotFound`.
    pub fn toggle(&mut self, id: u64) -> (r: Result<Completion, TodoError>)
        requires
            old(self).wf(),
        ensures
            final(self).wf(),
            r is Err <==> !has_id(old(self)@.rows, id),
            r matches Err(e) ==> e == TodoError::NotFound,
            r matches Ok(c) ==> c == old(self)@.rows[index_of(old(self)@.rows, id)].state.spec_toggled(),
            final(self)@.rows == toggle_rows(old(self)@.rows, id),
            final(self)@.next_id == old(self)@.next_id,
    {
        match self.find(id) {
            Some(i) => {
                let c = self.rows[i].state.toggled();
                self.rows[i].state = c;
                proof {
                    let rows = old(self)@.rows;
                    assert forall|j: int| 0 <= j < rows.len() && j != i implies (#[trigger] rows[j]).id != id by {
                        if rows[j].id == id {
                            lemma_ids_unique(rows, old(self)@.next_id, i as int, j);
                        }
                    }
                    assert(self@.rows =~= toggle_rows(rows, id));
                }
                Ok(c)
            },
            None => {
                proof {
                    let rows = old(self)@.rows;
                    assert forall|j: int| 0 <= j < rows.len() implies (#[trigger] rows[j]).id != id by {
                        if rows[j].id == id {
                            assert(has_id(rows, id));
                        }
                    }
                    assert(self@.rows =~= toggle_rows(rows, id));
                }
                Err(TodoError::NotFound)
            },
        }
    }

    /// Removes the row that carries `id`, if there is one. Deleting an id that is not
    /// there is no error.
    pub fn delete(&mut self, id: u64)
        requires
            old(self).wf(),
        ensures
            final(self).wf(),
            final(self)@.rows == delete_rows(old(self)@.rows, id),
            final(self)@.next_id == old(self)@.next_id,
    {
        match self.find(id) {
            Some(i) => {
                let _removed = self.rows.remove(i);
                assert(self@.rows =~= old(self)@.rows.remove(i as int));
                proof {
                    let rows = old(self)@.rows;
                    let after = self@.rows;
                    assert forall|a: int, b: int| 0 <= a < b < after.len() implies (#[trigger] after[a]).id < (#[trigger] after[b]).id by {
                        let a2 = if a < i { a } else { a + 1 };
                        let b2 = if b < i { b } else { b + 1 };
                        assert(after[a] == rows[a2]);
                        assert(after[b] == rows[b2]);
                    }
                    assert forall|a: int| 0 <= a < after.len() implies 1 <= (#[trigger] after[a]).id < self@.next_id by {
                        let a2 = if a < i { a } else { a + 1 };
                        assert(after[a] == rows[a2]);
                    }
                }
            },
            None => {},
        }
    }
}

} // verus!
