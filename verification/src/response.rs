//! The handler boundary: every operation outcome, whether from this crate's
//! in-memory store or from a backing database, is mapped here to an HTTP
//! status code and a response body. The error taxonomy is fixed: a rejected
//! write is a client error (400), a missing row is not-found (404), and any
//! other backend failure is a server error (500).

use vstd::prelude::*;

use crate::person::{Person, PersonFields};
use crate::store::{
    create_model, delete_model, get_model, rows_view, update_model, PersonStore, StoreError,
};

verus! {

pub const STATUS_OK: u16 = 200;

pub const STATUS_CREATED: u16 = 201;

pub const STATUS_BAD_REQUEST: u16 = 400;

pub const STATUS_NOT_FOUND: u16 = 404;

pub const STATUS_INTERNAL_ERROR: u16 = 500;

/// The error taxonomy at the handler boundary: a rejected or malformed write,
/// an operation targeting an id with no matching row, or any other failure of
/// the storage layer.
#[derive(Clone, Copy, Debug, PartialEq, Eq, Structural)]
pub enum ErrorKind {
    ClientError,
    NotFound,
    BackendFailure,
}

/// The status code each error kind surfaces as.
pub fn error_status(kind: ErrorKind) -> (s: u16)
    ensures
        kind == ErrorKind::ClientError ==> s == STATUS_BAD_REQUEST,
        kind == ErrorKind::NotFound ==> s == STATUS_NOT_FOUND,
        kind == ErrorKind::BackendFailure ==> s == STATUS_INTERNAL_ERROR,
{
    match kind {
        ErrorKind::ClientError => STATUS_BAD_REQUEST,
        ErrorKind::NotFound => STATUS_NOT_FOUND,
        ErrorKind::BackendFailure => STATUS_INTERNAL_ERROR,
    }
}

/// The body of a response: exactly one of the shapes the service emits.
pub enum ResponseBody {
    /// `{ "id": ... }` on a successful create.
    IdBody(i64),
    /// `{ "message": ... }` on a successful update or delete.
    MessageBody(String),
    /// `{ "error": ... }` on any failure.
    ErrorBody(String),
    /// A single person object on a successful get.
    PersonBody(Person),
    /// An array of person objects on a successful list.
    PersonListBody(Vec<Person>),
}

/// A complete response: status code and body.
pub struct HttpResponse {
    pub status: u16,
    pub body: ResponseBody,
}

/// The fixed not-found message.
pub fn not_found_message() -> (r: String)
    ensures
        r@ == "Person not found"@,
{
    "Person not found".to_owned()
}

/// The fixed message of a successful update.
pub fn updated_message() -> (r: String)
    ensures
        r@ == "Person updated"@,
{
    "Person updated".to_owned()
}

/// The fixed message of a successful delete.
pub fn deleted_message() -> (r: String)
    ensures
        r@ == "Person deleted"@,
{
    "Person deleted".to_owned()
}

/// The message reported for a rejected write: the uniqueness constraint on
/// the national id was violated.
pub fn duplicate_dni_message() -> (r: String)
    ensures
        r@ == "UNIQUE constraint failed: person.dni"@,
{
    "UNIQUE constraint failed: person.dni".to_owned()
}

/// Map the outcome of an insert to a response: a new id becomes 201 with the
/// id, and any failure becomes 400 with the error message.
pub fn create_response(outcome: Result<i64, String>) -> (resp: HttpResponse)
    ensures
        (match outcome {
            Ok(id) => resp.status == STATUS_CREATED && (resp.body matches ResponseBody::IdBody(i)
                && i == id),
            Err(m) => resp.status == STATUS_BAD_REQUEST && (resp.body
                matches ResponseBody::ErrorBody(e) && e@ == m@),
        }),
{
    match outcome {
        Ok(id) => HttpResponse { status: STATUS_CREATED, body: ResponseBody::IdBody(id) },
        Err(m) => HttpResponse {
            status: error_status(ErrorKind::ClientError),
            body: ResponseBody::ErrorBody(m),
        },
    }
}

/// Map the outcome of a read of all rows to a response: the rows become 200
/// with the array, and a backend failure becomes 500 with the error message.
pub fn list_response(outcome: Result<Vec<Person>, String>) -> (resp: HttpResponse)
    ensures
        (match outcome {
            Ok(persons) => resp.status == STATUS_OK && (resp.body
                matches ResponseBody::PersonListBody(v) && v@ == persons@),
            Err(m) => resp.status == STATUS_INTERNAL_ERROR && (resp.body
                matches ResponseBody::ErrorBody(e) && e@ == m@),
        }),
{
    match outcome {
        Ok(persons) => HttpResponse {
            status: STATUS_OK,
            body: ResponseBody::PersonListBody(persons),
        },
        Err(m) => HttpResponse {
            status: error_status(ErrorKind::BackendFailure),
            body: ResponseBody::ErrorBody(m),
        },
    }
}

/// Map the outcome of a read of one row to a response: a row becomes 200 with
/// the person, no row becomes 404, and a backend failure becomes 500.
pub fn get_response(outcome: Result<Option<Person>, String>) -> (resp: HttpResponse)
    ensures
        (match outcome {
            Ok(Some(p)) => resp.status == STATUS_OK && (resp.body matches ResponseBody::PersonBody(q)
                && q@ == p@),
            Ok(None) => resp.status == STATUS_NOT_FOUND && (resp.body
                matches ResponseBody::ErrorBody(e) && e@ == "Person not found"@),
            Err(m) => resp.status == STATUS_INTERNAL_ERROR && (resp.body
                matches ResponseBody::ErrorBody(e) && e@ == m@),
        }),
{
    match outcome {
        Ok(Some(p)) => HttpResponse { status: STATUS_OK, body: ResponseBody::PersonBody(p) },
        Ok(None) => HttpResponse {
            status: error_status(ErrorKind::NotFound),
            body: ResponseBody::ErrorBody(not_found_message()),
        },
        Err(m) => HttpResponse {
            status: error_status(ErrorKind::BackendFailure),
            body: ResponseBody::ErrorBody(m),
        },
    }
}

/// Map the outcome of an update statement to a response, deciding on the
/// affected row count: at least one row becomes 200, zero rows becomes 404,
/// and a rejected or failed statement becomes 400 with the error message.
pub fn update_response(outcome: Result<u64, String>) -> (resp: HttpResponse)
    ensures
        (match outcome {
            Ok(affected) => (affected > 0 ==> resp.status == STATUS_OK && (resp.body
                matches ResponseBody::MessageBody(msg) && msg@ == "Person updated"@)) && (affected
                == 0 ==> resp.status == STATUS_NOT_FOUND && (resp.body
                matches ResponseBody::ErrorBody(e) && e@ == "Person not found"@)),
            Err(m) => resp.status == STATUS_BAD_REQUEST && (resp.body
                matches ResponseBody::ErrorBody(e) && e@ == m@),
        }),
{
    match outcome {
        Ok(affected) => {
            if affected > 0 {
                HttpResponse {
                    status: STATUS_OK,
                    body: ResponseBody::MessageBody(updated_message()),
                }
            } else {
                HttpResponse {
                    status: error_status(ErrorKind::NotFound),
                    body: ResponseBody::ErrorBody(not_found_message()),
                }
            }
        },
        Err(m) => HttpResponse {
            status: error_status(ErrorKind::ClientError),
            body: ResponseBody::ErrorBody(m),
        },
    }
}

/// Map the outcome of a delete statement to a response, deciding on the
/// affected row count: at least one row becomes 200, zero rows becomes 404,
/// and a failed statement becomes 500 with the error message.
pub fn delete_response(outcome: Result<u64, String>) -> (resp: HttpResponse)
    ensures
        (match outcome {
            Ok(affected) => (affected > 0 ==> resp.status == STATUS_OK && (resp.body
                matches ResponseBody::MessageBody(msg) && msg@ == "Person deleted"@)) && (affected
                == 0 ==> resp.status == STATUS_NOT_FOUND && (resp.body
                matches ResponseBody::ErrorBody(e) && e@ == "Person not found"@)),
            Err(m) => resp.status == STATUS_INTERNAL_ERROR && (resp.body
                matches ResponseBody::ErrorBody(e) && e@ == m@),
        }),
{
    match outcome {
        Ok(affected) => {
            if affected > 0 {
                HttpResponse {
                    status: STATUS_OK,
                    body: ResponseBody::MessageBody(deleted_message()),
                }
            } else {
                HttpResponse {
                    status: error_status(ErrorKind::NotFound),
                    body: ResponseBody::ErrorBody(not_found_message()),
                }
            }
        },
        Err(m) => HttpResponse {
            status: error_status(ErrorKind::BackendFailure),
            body: ResponseBody::ErrorBody(m),
        },
    }
}

/// The create route against the in-memory store: insert, then map the outcome
/// exactly as `create_response` does.
pub fn handle_create(store: &mut PersonStore, fields: PersonFields) -> (resp: HttpResponse)
    requires
        old(store)@.wf(),
        old(store)@.next_id < i64::MAX as int,
    ensures
        final(store)@ == create_model(old(store)@, fields@).0,
        final(store)@.wf(),
        (match create_model(old(store)@, fields@).1 {
            Ok(id) => resp.status == STATUS_CREATED && (resp.body matches ResponseBody::IdBody(i)
                && i as int == id),
            Err(_) => resp.status == STATUS_BAD_REQUEST && (resp.body
                matches ResponseBody::ErrorBody(e) && e@ == "UNIQUE constraint failed: person.dni"@),
        }),
{
    match store.create(fields) {
        Ok(id) => create_response(Ok(id)),
        Err(_) => create_response(Err(duplicate_dni_message())),
    }
}

/// The list route against the in-memory store: every live row, status 200.
pub fn handle_list(store: &PersonStore) -> (resp: HttpResponse)
    ensures
        resp.status == STATUS_OK,
        (resp.body matches ResponseBody::PersonListBody(v) && rows_view(v@) == store@.rows),
{
    list_response(Ok(store.list()))
}

/// The get route against the in-memory store: the row carrying the id with
/// status 200, or not-found with status 404.
pub fn handle_get(store: &PersonStore, id: i64) -> (resp: HttpResponse)
    requires
        store@.wf(),
    ensures
        (match get_model(store@, id as int) {
            Some(row) => resp.status == STATUS_OK && (resp.body matches ResponseBody::PersonBody(p)
                && p@ == row),
            None => resp.status == STATUS_NOT_FOUND && (resp.body matches ResponseBody::ErrorBody(e)
                && e@ == "Person not found"@),
        }),
{
    get_response(Ok(store.get(id)))
}

/// The update route against the in-memory store: replace the four client
/// attributes with status 200, report 404 when the id is absent, and report
/// 400 when the new national id is carried by a different row.
pub fn handle_update(store: &mut PersonStore, id: i64, fields: PersonFields) -> (resp: HttpResponse)
    requires
        old(store)@.wf(),
    ensures
        final(store)@ == update_model(old(store)@, id as int, fields@).0,
        final(store)@.wf(),
        (match update_model(old(store)@, id as int, fields@).1 {
            Ok(_) => resp.status == STATUS_OK && (resp.body matches ResponseBody::MessageBody(m)
                && m@ == "Person updated"@),
            Err(StoreError::NotFound) => resp.status == STATUS_NOT_FOUND && (resp.body
                matches ResponseBody::ErrorBody(e) && e@ == "Person not found"@),
            Err(StoreError::DuplicateDni) => resp.status == STATUS_BAD_REQUEST && (resp.body
                matches ResponseBody::ErrorBody(e) && e@ == "UNIQUE constraint failed: person.dni"@),
        }),
{
    match store.update(id, fields) {
        Ok(_) => update_response(Ok(1)),
        Err(StoreError::NotFound) => update_response(Ok(0)),
        Err(StoreError::DuplicateDni) => update_response(Err(duplicate_dni_message())),
    }
}

/// The delete route against the in-memory store: remove the row with status
/// 200, or report 404 when the id is absent.
pub fn handle_delete(store: &mut PersonStore, id: i64) -> (resp: HttpResponse)
    requires
        old(store)@.wf(),
    ensures
        final(store)@ == delete_model(old(store)@, id as int).0,
        final(store)@.wf(),
        (match delete_model(old(store)@, id as int).1 {
            Ok(_) => resp.status == STATUS_OK && (resp.body matches ResponseBody::MessageBody(m)
                && m@ == "Person deleted"@),
            Err(_) => resp.status == STATUS_NOT_FOUND && (resp.body
                matches ResponseBody::ErrorBody(e) && e@ == "Person not found"@),
        }),
{
    match store.delete(id) {
        Ok(_) => delete_response(Ok(1)),
        Err(_) => delete_response(Ok(0)),
    }
}

} // verus!
