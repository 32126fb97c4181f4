//! From operation outcomes to HTTP responses.
//!
//! One function per route. Each takes the outcome of the storage
//! operation as a plain value — the unverified binary performs the actual
//! round-trip — and fixes the status code and the body to serialize.

use vstd::prelude::*;

use crate::models::AppError;
use crate::models::AppErrorHttpResponse;
use crate::models::AppErrorType;
use crate::models::ResultResponse;
use crate::models::Status;
use crate::models::TodoItem;
use crate::models::TodoList;

verus! {

/// The body of an HTTP response, one variant per payload the service
/// sends; matched exhaustively where the bytes are produced.
pub enum ResponseBody {
    Health(Status),
    Lists(Vec<TodoList>),
    Items(Vec<TodoItem>),
    Created(TodoList),
    Check(ResultResponse),
    Failure(AppErrorHttpResponse),
    Empty,
}

/// An HTTP response as the verified core determines it.
pub struct Response {
    pub code: u16,
    pub body: ResponseBody,
}

/// `GET /`: always 200 with `{"status":"Normal"}`. Takes nothing, so the
/// answer cannot depend on the database being reachable.
pub fn status() -> (r: Response)
    ensures
        r.code == 200,
        r.body matches ResponseBody::Health(s) && s.status@ == "Normal"@,
{
    Response { code: 200, body: ResponseBody::Health(Status { status: "Normal".to_string() }) }
}

/// The error recorded when no pooled connection could be had: no
/// client-facing message, the pool's own words as the cause, and the
/// database kind, which translates to status 500.
pub fn pool_error(cause: String) -> (e: AppError)
    ensures
        e.message is None,
        e.cause matches Some(c) && c == cause,
        e.error_type == AppErrorType::DataBaseError,
{
    AppError { message: None, cause: Some(cause), error_type: AppErrorType::DataBaseError }
}

/// `GET /todos`: 200 with the listing, or the error translated by the
/// uniform taxonomy (500 with a one-field body for a database failure,
/// 404 for the reserved not-found kind).
pub fn get_todos_response(outcome: Result<Vec<TodoList>, AppError>) -> (r: Response)
    ensures
        outcome matches Ok(v) ==> (r.body matches ResponseBody::Lists(w) && w == v && r.code
            == 200),
        outcome matches Err(e) ==> (r.body matches ResponseBody::Failure(b) && b.error@
            == e.message_spec() && r.code == e.status_code_spec()),
{
    match outcome {
        Ok(v) => Response { code: 200, body: ResponseBody::Lists(v) },
        Err(e) => {
            let (code, body) = e.error_response();
            Response { code: code, body: ResponseBody::Failure(body) }
        },
    }
}

/// `GET /todos/{list_id}/items`: 200 with the items (possibly an empty
/// array), 500 with an empty body for any failure.
pub fn get_items_response(outcome: Result<Vec<TodoItem>, AppError>) -> (r: Response)
    ensures
        outcome matches Ok(v) ==> (r.body matches ResponseBody::Items(w) && w == v && r.code
            == 200),
        outcome is Err ==> r.code == 500 && r.body is Empty,
{
    match outcome {
        Ok(v) => Response { code: 200, body: ResponseBody::Items(v) },
        Err(_) => Response { code: 500, body: ResponseBody::Empty },
    }
}

/// `POST /todos`: 200 with the created record, 500 with an empty body
/// for any failure.
pub fn create_todo_response(outcome: Result<TodoList, AppError>) -> (r: Response)
    ensures
        outcome matches Ok(l) ==> (r.body matches ResponseBody::Created(c) && c == l && r.code
            == 200),
        outcome is Err ==> r.code == 500 && r.body is Empty,
{
    match outcome {
        Ok(l) => Response { code: 200, body: ResponseBody::Created(l) },
        Err(_) => Response { code: 500, body: ResponseBody::Empty },
    }
}

/// The answer to a failure outside a route's stated outcomes — a failed
/// SQL round-trip on the item-check route, whose boolean body covers
/// only the conflict: status 500 with an empty body.
pub fn failure_response() -> (r: Response)
    ensures
        r.code == 500,
        r.body is Empty,
{
    Response { code: 500, body: ResponseBody::Empty }
}

/// `PUT /todos/{list_id}/items/{item_id}`: always 200; the body — not
/// the status — tells whether the check was applied. Callers must read
/// `success`, by design.
pub fn check_item_response(outcome: Result<(), AppError>) -> (r: Response)
    ensures
        r.code == 200,
        r.body matches ResponseBody::Check(c) && c.success == (outcome is Ok),
{
    match outcome {
        Ok(()) => Response {
            code: 200,
            body: ResponseBody::Check(ResultResponse { success: true }),
        },
        Err(_) => Response {
            code: 200,
            body: ResponseBody::Check(ResultResponse { success: false }),
        },
    }
}

} // verus!
