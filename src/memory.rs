use crate::models::{Todo, TodoView};
use vstd::prelude::*;

verus! {

/// Why a storage operation did not complete.
#[derive(Clone, Copy, Debug, PartialEq, Eq, Structural)]
pub enum StoreError {
    /// A creation was asked for with an empty title.
    EmptyTitle,
    /// The backend could not complete the operation.
    Failure,
}

/// Whether the ids of `s` strictly increase from first to last.
pub open spec fn ids_ascending(s: Seq<TodoView>) -> bool {
    forall|i: int, j: int| 0 <= i < j < s.len() ==> s[i].id < s[j].id
}

/// Whether some record of `s` carries `id`.
pub open spec fn has_id(s: Seq<TodoView>, id: i64) -> bool {
    exists|i: int| 0 <= i < s.len() && s[i].id == id
}

/// The position of a record of `s` that carries `id`.
pub open spec fn position(s: Seq<TodoView>, id: i64) -> int {
    choose|i: int| 0 <= i < s.len() && s[i].id == id
}

/// The record of `s` that carries `id`, if any.
pub open spec fn lookup(s: Seq<TodoView>, id: i64) -> Option<TodoView> {
    if has_id(s, id) {
        Some(s[position(s, id)])
    } else {
        None
    }
}

/// `v` with its completion flag set to `done`.
pub open spec fn with_done(v: TodoView, done: bool) -> TodoView {
    TodoView { id: v.id, title: v.title, done }
}

/// In a sequence with ascending ids, the record at `k` is the one that
/// `lookup` finds for its id.
pub proof fn lemma_position(s: Seq<TodoView>, k: int)
    requires
        ids_ascending(s),
        0 <= k < s.len(),
    ensures
        has_id(s, s[k].id),
        position(s, s[k].id) == k,
        lookup(s, s[k].id) == Some(s[k]),
{
    let id = s[k].id;
    assert(0 <= k < s.len() && s[k].id == id);
    let j = position(s, id);
    if j < k {
        assert(s[j].id < s[k].id);
    } else if k < j {
        assert(s[k].id < s[j].id);
    }
}

/// The process-local storage backend: the live records in order of creation,
/// and the id that the next creation assigns. Ids come from a counter that
/// only grows, so an id is never handed out twice, even after a deletion.
pub struct TodoStore {
    todos: Vec<Todo>,
    next_id: i64,
    removed: Ghost<nat>,
}

impl View for TodoStore {
    type V = Seq<TodoView>;

    closed spec fn view(&self) -> Seq<TodoView> {
        self.todos@.map_values(|t: Todo| t@)
    }
}

impl TodoStore {
    /// The id that the next successful creation assigns.
    pub closed spec fn next_id(&self) -> i64 {
        self.next_id
    }

    /// How many records have been created so far.
    pub closed spec fn created(&self) -> nat {
        (self.next_id - 1) as nat
    }

    /// How many records have been deleted so far.
    pub closed spec fn removed(&self) -> nat {
        self.removed@
    }

    /// The record that a creation with `title` would add.
    pub open spec fn fresh(&self, title: Seq<char>) -> TodoView {
        TodoView { id: self.next_id(), title, done: false }
    }

    /// The store's invariant: ids are positive, below the counter and
    /// ascending, and every record created and not deleted is live.
    pub closed spec fn wf(&self) -> bool {
        &&& 1 <= self.next_id
        &&& ids_ascending(self@)
        &&& forall|i: int| 0 <= i < self@.len() ==> 1 <= #[trigger] self@[i].id < self.next_id
        &&& self@.len() + self.removed@ == self.next_id - 1
    }

    /// An empty store whose first record gets id 1.
    pub fn new() -> (r: TodoStore)
        ensures
            r.wf(),
            r@ == Seq::<TodoView>::empty(),
            r.next_id() == 1,
            r.created() == 0,
            r.removed() == 0,
    {
        let r = TodoStore { todos: Vec::new(), next_id: 1, removed: Ghost(0) };
        assert(r@ =~= Seq::<TodoView>::empty());
        r
    }

    /// Stores a new record with the next id, the given title and `done`
    /// unset, and returns it. An empty title is refused; so is a creation
    /// once the id counter is exhausted. A refused creation leaves no trace.
    pub fn create(&mut self, title: String) -> (r: Result<Todo, StoreError>)
        requires
            old(self).wf(),
        ensures
            final(self).wf(),
            title@.len() == 0 ==> r == Err::<Todo, StoreError>(StoreError::EmptyTitle),
            title@.len() > 0 && old(self).next_id() == i64::MAX ==> r == Err::<Todo, StoreError>(
                StoreError::Failure,
            ),
            title@.len() > 0 && old(self).next_id() < i64::MAX ==> r is Ok,
            match r {
                Ok(t) => {
                    &&& t@ == old(self).fresh(title@)
                    &&& final(self)@ == old(self)@.push(t@)
                    &&& final(self).next_id() == old(self).next_id() + 1
                    &&& final(self).removed() == old(self).removed()
                },
                Err(_) => *final(self) == *old(self),
            },
    {
        if title.as_str().is_empty() {
            return Err(StoreError::EmptyTitle);
        }
        if self.next_id == i64::MAX {
            return Err(StoreError::Failure);
        }
        let todo = Todo { id: self.next_id, title, done: false };
        let out = todo.duplicate();
        let ghost before = self@;
        self.todos.push(todo);
        self.next_id = self.next_id + 1;
        assert(self@ =~= before.push(out@));
        Ok(out)
    }

    /// The live record with id `id`, if any.
    pub fn get(&self, id: i64) -> (r: Option<Todo>)
        requires
            self.wf(),
        ensures
            match r {
                Some(t) => lookup(self@, id) == Some(t@),
                None => lookup(self@, id) is None,
            },
    {
        let mut i: usize = 0;
        while i < self.todos.len()
            invariant
                self.wf(),
                0 <= i <= self@.len(),
                self@.len() == self.todos@.len(),
                forall|k: int| 0 <= k < i ==> self@[k].id != id,
            decreases self.todos.len() - i,
        {
            if self.todos[i].id == id {
                proof {
                    lemma_position(self@, i as int);
                }
                return Some(self.todos[i].duplicate());
            }
            i = i + 1;
        }
        None
    }

    /// Sets the completion flag of the live record with id `id` and returns
    /// the updated record; nothing else of it changes. Without such a record
    /// the store is left as it was.
    pub fn update(&mut self, id: i64, done: bool) -> (r: Option<Todo>)
        requires
            old(self).wf(),
        ensures
            final(self).wf(),
            final(self).next_id() == old(self).next_id(),
            final(self).removed() == old(self).removed(),
            match lookup(old(self)@, id) {
                Some(v) => {
                    &&& r is Some
                    &&& r->Some_0@ == with_done(v, done)
                    &&& final(self)@ == old(self)@.update(position(old(self)@, id), with_done(v, done))
                },
                None => r is None && *final(self) == *old(self),
            },
    {
        let mut i: usize = 0;
        while i < self.todos.len()
            invariant
                self.wf(),
                *self == *old(self),
                0 <= i <= self@.len(),
                self@.len() == self.todos@.len(),
                forall|k: int| 0 <= k < i ==> self@[k].id != id,
            decreases self.todos.len() - i,
        {
            if self.todos[i].id == id {
                proof {
                    lemma_position(self@, i as int);
                }
                let ghost before = self@;
                let mut t = self.todos[i].duplicate();
                t.done = done;
                let out = t.duplicate();
                self.todos.set(i, t);
                assert(self@ =~= before.update(i as int, with_done(before[i as int], done)));
                assert forall|a: int, b: int| 0 <= a < b < self@.len() implies self@[a].id
                    < self@[b].id by {
                    assert(before[a].id < before[b].id);
                }
                assert forall|k: int| 0 <= k < self@.len() implies 1 <= #[trigger] self@[k].id
                    < self.next_id by {
                    assert(1 <= before[k].id < self.next_id);
                }
                return Some(out);
            }
            i = i + 1;
        }
        proof {
            assert(!has_id(self@, id));
        }
        None
    }

    /// Removes the live record with id `id`; says whether there was one.
    /// Without such a record the store is left as it was.
    pub fn delete(&mut self, id: i64) -> (r: bool)
        requires
            old(self).wf(),
        ensures
            final(self).wf(),
            final(self).next_id() == old(self).next_id(),
            r == (lookup(old(self)@, id) is Some),
            r ==> final(self)@ == old(self)@.remove(position(old(self)@, id)),
            r ==> final(self).removed() == old(self).removed() + 1,
            !r ==> *final(self) == *old(self),
    {
        let mut i: usize = 0;
        while i < self.todos.len()
            invariant
                self.wf(),
                *self == *old(self),
                0 <= i <= self@.len(),
                self@.len() == self.todos@.len(),
                forall|k: int| 0 <= k < i ==> self@[k].id != id,
            decreases self.todos.len() - i,
        {
            if self.todos[i].id == id {
                proof {
                    lemma_position(self@, i as int);
                }
                let ghost before = self@;
                self.todos.remove(i);
                self.removed = Ghost(self.removed@ + 1);
                assert(self@ =~= before.remove(i as int));
                assert forall|a: int, b: int| 0 <= a < b < self@.len() implies self@[a].id
                    < self@[b].id by {
                    if b < i {
                        assert(before[a].id < before[b].id);
                    } else if a < i {
                        assert(before[a].id < before[b + 1].id);
                    } else {
                        assert(before[a + 1].id < before[b + 1].id);
                    }
                }
                assert forall|k: int| 0 <= k < self@.len() implies 1 <= #[trigger] self@[k].id
                    < self.next_id by {
                    if k < i {
                        assert(1 <= before[k].id < self.next_id);
                    } else {
                        assert(1 <= before[k + 1].id < self.next_id);
                    }
                }
                return true;
            }
            i = i + 1;
        }
        proof {
            assert(!has_id(self@, id));
        }
        false
    }

    /// Every live record, in order of creation (so by ascending id).
    pub fn list(&self) -> (r: Vec<Todo>)
        requires
            self.wf(),
        ensures
            r@.map_values(|t: Todo| t@) == self@,
    {
        let mut out: Vec<Todo> = Vec::new();
        let mut i: usize = 0;
        while i < self.todos.len()
            invariant
                0 <= i <= self@.len(),
                self@.len() == self.todos@.len(),
                out@.len() == i,
                forall|k: int| 0 <= k < i ==> #[trigger] out@[k]@ == self@[k],
            decreases self.todos.len() - i,
        {
            out.push(self.todos[i].duplicate());
            i = i + 1;
        }
        assert(out@.map_values(|t: Todo| t@) =~= self@);
        out
    }
}

/// A record that was just created is found under its id, with the title it
/// was created with and `done` unset.
pub proof fn create_then_get(store: TodoStore, title: Seq<char>)
    requires
        store.wf(),
        store.next_id() < i64::MAX,
    ensures
        lookup(store@.push(store.fresh(title)), store.next_id()) == Some(store.fresh(title)),
        store.fresh(title).title == title,
        !store.fresh(title).done,
{
    let s = store@.push(store.fresh(title));
    assert forall|a: int, b: int| 0 <= a < b < s.len() implies s[a].id < s[b].id by {
        assert(1 <= store@[a].id < store.next_id);
        if b < store@.len() {
            assert(store@[a].id < store@[b].id);
        }
    }
    lemma_position(s, store@.len() as int);
}

/// Setting the flag of a live record and reading it back gives the new flag
/// and the old title.
pub proof fn update_then_get(store: TodoStore, id: i64, done: bool)
    requires
        store.wf(),
        lookup(store@, id) is Some,
    ensures
        ({
            let v = lookup(store@, id)->Some_0;
            let s = store@.update(position(store@, id), with_done(v, done));
            &&& lookup(s, id) == Some(with_done(v, done))
            &&& lookup(s, id)->Some_0.done == done
            &&& lookup(s, id)->Some_0.title == v.title
        }),
{
    let k = position(store@, id);
    let v = lookup(store@, id)->Some_0;
    let s = store@.update(k, with_done(v, done));
    assert forall|a: int, b: int| 0 <= a < b < s.len() implies s[a].id < s[b].id by {
        assert(store@[a].id < store@[b].id);
    }
    lemma_position(s, k);
}

/// Once a record is deleted its id is found no more.
pub proof fn delete_then_get(store: TodoStore, id: i64)
    requires
        store.wf(),
        lookup(store@, id) is Some,
    ensures
        lookup(store@.remove(position(store@, id)), id) is None,
{
    let k = position(store@, id);
    let s = store@.remove(k);
    if has_id(s, id) {
        let j = choose|j: int| 0 <= j < s.len() && s[j].id == id;
        if j < k {
            assert(store@[j].id < store@[k].id);
        } else {
            assert(store@[k].id < store@[j + 1].id);
        }
    }
}

/// The live records number those created less those deleted, and each
/// carries an id that creation handed out.
pub proof fn live_count(store: TodoStore)
    requires
        store.wf(),
    ensures
        store@.len() == store.created() - store.removed(),
        forall|i: int| 0 <= i < store@.len() ==> 1 <= #[trigger] store@[i].id <= store.created(),
{
}

/// No two live records share an id; they are kept in ascending id order.
pub proof fn ids_distinct(store: TodoStore)
    requires
        store.wf(),
    ensures
        ids_ascending(store@),
        forall|i: int, j: int|
            0 <= i < store@.len() && 0 <= j < store@.len() && i != j ==> store@[i].id
                != store@[j].id,
{
    assert forall|i: int, j: int|
        0 <= i < store@.len() && 0 <= j < store@.len() && i != j implies store@[i].id
        != store@[j].id by {
        if i < j {
            assert(store@[i].id < store@[j].id);
        } else {
            assert(store@[j].id < store@[i].id);
        }
    }
}

} // verus!
