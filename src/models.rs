use vstd::prelude::*;

verus! {

/// Body of a user-creation request.
#[derive(Clone, Debug, PartialEq, Eq)]
pub struct CreateUser {
    pub username: String,
}

/// A user record as returned to clients.
#[derive(Clone, Debug, PartialEq, Eq)]
pub struct User {
    pub id: i64,
    pub username: String,
}

/// Body of a todo-creation request.
#[derive(Clone, Debug, PartialEq, Eq)]
pub struct CreateTodo {
    pub title: String,
}

/// Body of a todo-update request: only the completion flag can change.
#[derive(Clone, Debug, PartialEq, Eq)]
pub struct UpdateTodo {
    pub done: bool,
}

/// A todo record.
#[derive(Clone, Debug, PartialEq, Eq)]
pub struct Todo {
    pub id: i64,
    pub title: String,
    pub done: bool,
}

/// The mathematical value of a todo record.
pub struct TodoView {
    pub id: i64,
    pub title: Seq<char>,
    pub done: bool,
}

impl View for Todo {
    type V = TodoView;

    open spec fn view(&self) -> TodoView {
        TodoView { id: self.id, title: self.title@, done: self.done }
    }
}

impl Todo {
    /// A copy of the record with the same id, title and flag.
    pub fn duplicate(&self) -> (r: Todo)
        ensures
            r@ == self@,
    {
        Todo { id: self.id, title: self.title.clone(), done: self.done }
    }
}

} // verus!
