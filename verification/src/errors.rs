//! The closed error taxonomy of the API and its mapping to HTTP responses.

use vstd::prelude::*;

verus! {

use vstd::string::StringExecFns;

/// Every failure an operation of this crate can report.
#[derive(Debug, PartialEq)]
pub enum AppError {
    /// An insert violated a uniqueness constraint (HTTP 400).
    RecordAlreadyExists,
    /// A lookup matched no row (HTTP 404).
    RecordNotFound,
    /// Any other storage fault, with a diagnostic (HTTP 500).
    DatabaseError(String),
    /// The offloaded unit of work never completed (HTTP 500).
    OperationCanceled,
}

/// The JSON error payload: a single human-readable message.
#[derive(Debug, PartialEq)]
pub struct ErrorResponse {
    pub err: String,
}

/// What std's Debug formatting makes of a string: the text quoted and
/// escaped. It is a function of the characters alone.
pub uninterp spec fn debug_of(s: Seq<char>) -> Seq<char>;

/// Relies on std's Debug formatting of `String` (one `format!("{:?}", ..)`
/// call): the diagnostic quoted and escaped, depending on its characters
/// alone.
#[verifier::external_body]
fn debug_render(s: &String) -> (r: String)
    ensures
        r@ == debug_of(s@),
{
    format!("{:?}", s)
}

impl AppError {
    /// The message text of this error. A database diagnostic appears in
    /// its Debug rendering, quoted and escaped.
    pub open spec fn message_spec(&self) -> Seq<char> {
        match self {
            AppError::RecordAlreadyExists => "This Record violates a unique constraint"@,
            AppError::RecordNotFound => "This record does not exist"@,
            AppError::DatabaseError(e) => "Database error: "@ + debug_of(e@),
            AppError::OperationCanceled => "The operation was cancelled"@,
        }
    }

    /// The HTTP status this error maps to: 400 for a uniqueness violation,
    /// 404 for an absent row, 500 for everything else.
    pub open spec fn status_code_spec(&self) -> u16 {
        match self {
            AppError::RecordAlreadyExists => 400,
            AppError::RecordNotFound => 404,
            AppError::DatabaseError(_) => 500,
            AppError::OperationCanceled => 500,
        }
    }

    /// The human-readable description of this error.
    pub fn message(&self) -> (r: String)
        ensures
            r@ == self.message_spec(),
    {
        match self {
            AppError::RecordAlreadyExists => {
                String::from_str("This Record violates a unique constraint")
            },
            AppError::RecordNotFound => String::from_str("This record does not exist"),
            AppError::DatabaseError(e) => {
                let rendered = debug_render(e);
                String::from_str("Database error: ").concat(rendered.as_str())
            },
            AppError::OperationCanceled => String::from_str("The operation was cancelled"),
        }
    }

    /// The HTTP status code of this error.
    pub fn status_code(&self) -> (code: u16)
        ensures
            code == self.status_code_spec(),
    {
        match self {
            AppError::RecordAlreadyExists => 400,
            AppError::RecordNotFound => 404,
            AppError::DatabaseError(_) => 500,
            AppError::OperationCanceled => 500,
        }
    }

    /// The full response this error maps to: its status code together with
    /// the JSON body carrying its message.
    pub fn error_response(&self) -> (r: (u16, ErrorResponse))
        ensures
            r.0 == self.status_code_spec(),
            r.1.err@ == self.message_spec(),
    {
        (self.status_code(), ErrorResponse { err: self.message() })
    }
}

} // verus!
