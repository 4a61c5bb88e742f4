use crate::memory::{lookup, position, with_done, StoreError, TodoStore};
use crate::models::{CreateTodo, CreateUser, Todo, UpdateTodo, User};
use vstd::prelude::*;
use vstd::string::StringExecFns;

verus! {

/// The HTTP statuses that the handlers answer with.
#[derive(Clone, Copy, Debug, PartialEq, Eq, Structural)]
pub enum Status {
    Success,
    Created,
    NoContent,
    BadRequest,
    NotFound,
    InternalServerError,
    ServiceUnavailable,
}

impl Status {
    pub open spec fn spec_code(self) -> u16 {
        match self {
            Status::Success => 200,
            Status::Created => 201,
            Status::NoContent => 204,
            Status::BadRequest => 400,
            Status::NotFound => 404,
            Status::InternalServerError => 500,
            Status::ServiceUnavailable => 503,
        }
    }

    /// The numeric status code.
    pub fn code(&self) -> (r: u16)
        ensures
            r == self.spec_code(),
    {
        match self {
            Status::Success => 200,
            Status::Created => 201,
            Status::NoContent => 204,
            Status::BadRequest => 400,
            Status::NotFound => 404,
            Status::InternalServerError => 500,
            Status::ServiceUnavailable => 503,
        }
    }
}

/// The payload of a response.
#[derive(Debug, PartialEq, Eq)]
pub enum Body {
    /// No body at all.
    Empty,
    /// One todo record, as JSON.
    Record(Todo),
    /// A list of todo records, as JSON.
    Records(Vec<Todo>),
    /// A user record, as JSON.
    NewUser(User),
    /// Plain text.
    Text(String),
}

/// A status with its payload.
#[derive(Debug, PartialEq, Eq)]
pub struct Response {
    pub status: Status,
    pub body: Body,
}

/// A storage operation that did not complete; it carries no detail, since
/// none is shown to clients.
#[derive(Clone, Copy, Debug, PartialEq, Eq, Structural)]
pub struct StorageFailure;

/// The answer to any storage failure: a server error with no body.
pub open spec fn failure_response() -> Response {
    Response { status: Status::InternalServerError, body: Body::Empty }
}

/// The answer to a missing record: not found, with no body.
pub open spec fn not_found_response() -> Response {
    Response { status: Status::NotFound, body: Body::Empty }
}

pub open spec fn root_text() -> Seq<char> {
    "Hello, World!"@
}

/// The fixed greeting served at the root path.
pub fn root() -> (r: &'static str)
    ensures
        r@ == root_text(),
{
    "Hello, World!"
}

/// The id that every created user is given: users are not stored.
pub const USER_ID: i64 = 1337;

/// Echoes the requested user under the fixed id; nothing is stored.
pub fn create_user(payload: CreateUser) -> (r: Response)
    ensures
        r == (Response {
            status: Status::Created,
            body: Body::NewUser(User { id: USER_ID, username: payload.username }),
        }),
{
    Response {
        status: Status::Created,
        body: Body::NewUser(User { id: USER_ID, username: payload.username }),
    }
}

/// The answer to a storage failure.
pub fn storage_failure() -> (r: Response)
    ensures
        r == failure_response(),
{
    Response { status: Status::InternalServerError, body: Body::Empty }
}

/// The answer to a relational insertion: the inserted row, as created.
pub fn create_todo(outcome: Result<Todo, StorageFailure>) -> (r: Response)
    ensures
        match outcome {
            Ok(t) => r == (Response { status: Status::Created, body: Body::Record(t) }),
            Err(_) => r == failure_response(),
        },
{
    match outcome {
        Ok(t) => Response { status: Status::Created, body: Body::Record(t) },
        Err(_) => storage_failure(),
    }
}

/// The answer to a relational lookup by id: the row, or not found when no
/// row came back.
pub fn get_todo(outcome: Result<Option<Todo>, StorageFailure>) -> (r: Response)
    ensures
        match outcome {
            Ok(Some(t)) => r == (Response { status: Status::Success, body: Body::Record(t) }),
            Ok(None) => r == not_found_response(),
            Err(_) => r == failure_response(),
        },
{
    match outcome {
        Ok(Some(t)) => Response { status: Status::Success, body: Body::Record(t) },
        Ok(None) => Response { status: Status::NotFound, body: Body::Empty },
        Err(_) => storage_failure(),
    }
}

/// The answer to a relational update that returns the changed row: the
/// row, or not found when no row was changed.
pub fn update_todo(outcome: Result<Option<Todo>, StorageFailure>) -> (r: Response)
    ensures
        match outcome {
            Ok(Some(t)) => r == (Response { status: Status::Success, body: Body::Record(t) }),
            Ok(None) => r == not_found_response(),
            Err(_) => r == failure_response(),
        },
{
    get_todo(outcome)
}

/// The answer to a relational deletion, from the number of rows it removed:
/// no content when one was, not found when none was.
pub fn delete_todo(outcome: Result<u64, StorageFailure>) -> (r: Response)
    ensures
        match outcome {
            Ok(n) => if n > 0 {
                r == (Response { status: Status::NoContent, body: Body::Empty })
            } else {
                r == not_found_response()
            },
            Err(_) => r == failure_response(),
        },
{
    match outcome {
        Ok(n) => if n > 0 {
            Response { status: Status::NoContent, body: Body::Empty }
        } else {
            Response { status: Status::NotFound, body: Body::Empty }
        },
        Err(_) => storage_failure(),
    }
}

/// The answer to a relational select of all rows.
pub fn list_todo(outcome: Result<Vec<Todo>, StorageFailure>) -> (r: Response)
    ensures
        match outcome {
            Ok(v) => r == (Response { status: Status::Success, body: Body::Records(v) }),
            Err(_) => r == failure_response(),
        },
{
    match outcome {
        Ok(v) => Response { status: Status::Success, body: Body::Records(v) },
        Err(_) => storage_failure(),
    }
}

/// The health status: no content when the backend completed a trivial round
/// trip, service unavailable otherwise.
pub fn db_health(round_trip: Result<i32, StorageFailure>) -> (r: Status)
    ensures
        r == (if round_trip is Ok {
            Status::NoContent
        } else {
            Status::ServiceUnavailable
        }),
        (r.spec_code() == 204) == (round_trip is Ok),
{
    match round_trip {
        Ok(_) => Status::NoContent,
        Err(_) => Status::ServiceUnavailable,
    }
}

/// The text that refuses a creation with an empty title.
pub open spec fn empty_title_text() -> Seq<char> {
    "title must not be empty"@
}

/// The text that confirms a deletion from the in-memory store.
pub open spec fn deleted_text() -> Seq<char> {
    "Todo deleted"@
}

/// The text that answers the deletion of a missing record in the in-memory
/// store.
pub open spec fn missing_text() -> Seq<char> {
    "Todo not found"@
}

/// Creates a todo in the in-memory store. An empty title is a client error
/// and stores nothing.
pub fn create_todo_in_memory(store: &mut TodoStore, payload: CreateTodo) -> (r: Response)
    requires
        old(store).wf(),
    ensures
        final(store).wf(),
        payload.title@.len() == 0 ==> {
            &&& r.status == Status::BadRequest
            &&& r.body is Text
            &&& r.body->Text_0@ == empty_title_text()
            &&& *final(store) == *old(store)
        },
        payload.title@.len() > 0 && old(store).next_id() == i64::MAX ==> {
            &&& r == failure_response()
            &&& *final(store) == *old(store)
        },
        payload.title@.len() > 0 && old(store).next_id() < i64::MAX ==> {
            &&& r.status == Status::Created
            &&& r.body is Record
            &&& r.body->Record_0@ == old(store).fresh(payload.title@)
            &&& final(store)@ == old(store)@.push(old(store).fresh(payload.title@))
            &&& final(store).next_id() == old(store).next_id() + 1
            &&& final(store).removed() == old(store).removed()
        },
{
    match store.create(payload.title) {
        Ok(t) => create_todo(Ok(t)),
        Err(StoreError::EmptyTitle) => Response {
            status: Status::BadRequest,
            body: Body::Text(String::from_str("title must not be empty")),
        },
        Err(_) => storage_failure(),
    }
}

/// Reads a todo from the in-memory store.
pub fn get_todo_in_memory(store: &TodoStore, id: i64) -> (r: Response)
    requires
        store.wf(),
    ensures
        match lookup(store@, id) {
            Some(v) => r.status == Status::Success && r.body is Record && r.body->Record_0@ == v,
            None => r == not_found_response(),
        },
{
    get_todo(Ok(store.get(id)))
}

/// Sets the completion flag of a todo in the in-memory store.
pub fn update_todo_in_memory(store: &mut TodoStore, id: i64, payload: UpdateTodo) -> (r: Response)
    requires
        old(store).wf(),
    ensures
        final(store).wf(),
        final(store).next_id() == old(store).next_id(),
        final(store).removed() == old(store).removed(),
        match lookup(old(store)@, id) {
            Some(v) => {
                &&& r.status == Status::Success
                &&& r.body is Record
                &&& r.body->Record_0@ == with_done(v, payload.done)
                &&& final(store)@ == old(store)@.update(
                    position(old(store)@, id),
                    with_done(v, payload.done),
                )
            },
            None => r == not_found_response() && *final(store) == *old(store),
        },
{
    update_todo(Ok(store.update(id, payload.done)))
}

/// Deletes a todo from the in-memory store; either way the answer carries a
/// short text.
pub fn delete_todo_in_memory(store: &mut TodoStore, id: i64) -> (r: Response)
    requires
        old(store).wf(),
    ensures
        final(store).wf(),
        final(store).next_id() == old(store).next_id(),
        r.body is Text,
        match lookup(old(store)@, id) {
            Some(v) => {
                &&& r.status == Status::Success
                &&& r.body->Text_0@ == deleted_text()
                &&& final(store)@ == old(store)@.remove(position(old(store)@, id))
                &&& final(store).removed() == old(store).removed() + 1
            },
            None => {
                &&& r.status == Status::NotFound
                &&& r.body->Text_0@ == missing_text()
                &&& *final(store) == *old(store)
            },
        },
{
    if store.delete(id) {
        Response { status: Status::Success, body: Body::Text(String::from_str("Todo deleted")) }
    } else {
        Response { status: Status::NotFound, body: Body::Text(String::from_str("Todo not found")) }
    }
}

/// Lists every todo of the in-memory store, in order of creation.
pub fn list_todo_in_memory(store: &TodoStore) -> (r: Response)
    requires
        store.wf(),
    ensures
        r.status == Status::Success,
        r.body is Records,
        r.body->Records_0@.map_values(|t: Todo| t@) == store@,
{
    list_todo(Ok(store.list()))
}

} // verus!
