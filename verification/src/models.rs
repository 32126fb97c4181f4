//! Domain records and the error taxonomy.
//!
//! Plain records carried between the HTTP boundary and the store, and the
//! service's single error type with its translation to an HTTP status and
//! a one-field error body.

use vstd::prelude::*;

verus! {

/// Payload of the health endpoint: `{"status": "Normal"}`.
#[derive(Debug)]
#[verifier::ext_equal]
pub struct Status {
    pub status: String,
}

/// A todo list: a server-generated primary key and a title.
#[derive(Debug)]
#[verifier::ext_equal]
pub struct TodoList {
    pub id: i32,
    pub title: String,
}

/// An item of a todo list. `checked` only ever moves from `false` to
/// `true`; `list_id` refers to the owning `TodoList`.
#[derive(Debug)]
#[verifier::ext_equal]
pub struct TodoItem {
    pub id: i32,
    pub title: String,
    pub checked: bool,
    pub list_id: i32,
}

/// Body of the request that creates a todo list.
#[derive(Debug)]
#[verifier::ext_equal]
pub struct CreateTodoList {
    pub title: String,
}

/// Where the HTTP server should listen.
#[derive(Debug)]
#[verifier::ext_equal]
pub struct ServerConfig {
    pub host: String,
    pub port: i32,
}

/// Body of the item-check response: `{"success": bool}`.
#[derive(Debug)]
#[verifier::ext_equal]
pub struct ResultResponse {
    pub success: bool,
}

/// The two error kinds the service distinguishes.
#[derive(Clone, Copy, PartialEq, Eq, Structural, Debug)]
pub enum AppErrorType {
    DataBaseError,
    NotFoundError,
}

/// The service's uniform error: an optional client-facing message, an
/// optional cause, and a kind that fixes the HTTP status.
#[derive(Debug)]
#[verifier::ext_equal]
pub struct AppError {
    pub message: Option<String>,
    pub cause: Option<String>,
    pub error_type: AppErrorType,
}

/// The one-field JSON body sent with every error response.
#[derive(Debug)]
#[verifier::ext_equal]
pub struct AppErrorHttpResponse {
    pub error: String,
}

impl TodoList {
    /// A copy equal to `self`.
    pub fn duplicate(&self) -> (r: TodoList)
        ensures
            r == *self,
    {
        let r = TodoList { id: self.id, title: self.title.clone() };
        proof {
            assert(r =~= *self);
        }
        r
    }
}

impl TodoItem {
    /// A copy equal to `self`.
    pub fn duplicate(&self) -> (r: TodoItem)
        ensures
            r == *self,
    {
        let r = TodoItem {
            id: self.id,
            title: self.title.clone(),
            checked: self.checked,
            list_id: self.list_id,
        };
        proof {
            assert(r =~= *self);
        }
        r
    }
}

impl AppError {
    /// The message shown to the client: the stored one when present,
    /// otherwise a fixed text chosen by the error kind.
    pub open spec fn message_spec(&self) -> Seq<char> {
        match self.message {
            Some(m) => m@,
            None => match self.error_type {
                AppErrorType::NotFoundError => "The requested item was not found"@,
                AppErrorType::DataBaseError => "An unexpected error has occurred"@,
            },
        }
    }

    pub fn message(&self) -> (r: String)
        ensures
            r@ == self.message_spec(),
    {
        match &self.message {
            Some(m) => m.clone(),
            None => match self.error_type {
                AppErrorType::NotFoundError => "The requested item was not found".to_string(),
                AppErrorType::DataBaseError => "An unexpected error has occurred".to_string(),
            },
        }
    }

    /// The HTTP status that this error translates to.
    pub open spec fn status_code_spec(&self) -> u16 {
        match self.error_type {
            AppErrorType::DataBaseError => 500,
            AppErrorType::NotFoundError => 404,
        }
    }

    pub fn status_code(&self) -> (code: u16)
        ensures
            code == self.status_code_spec(),
    {
        match self.error_type {
            AppErrorType::DataBaseError => 500,
            AppErrorType::NotFoundError => 404,
        }
    }

    /// The full HTTP translation: the status and the one-field body.
    pub fn error_response(&self) -> (r: (u16, AppErrorHttpResponse))
        ensures
            r.0 == self.status_code_spec(),
            r.1.error@ == self.message_spec(),
    {
        (self.status_code(), AppErrorHttpResponse { error: self.message() })
    }
}

} // verus!
