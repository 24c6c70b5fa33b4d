//! The ways a request can fail, and what the caller is told.

use vstd::prelude::*;
use vstd::string::*;

verus! {

/// Why a request was not carried out.
#[derive(Clone, Debug, PartialEq, Eq)]
pub enum AppError {
    /// A failure with a status code of its own and a description.
    HttpError(u16, String),
    /// An unexpected failure, with its description.
    Internal(String),
    /// No session, or none that resolves to a user.
    Unauthorized,
    /// The user is known but may not do this.
    Forbidden,
    /// The thing asked for does not exist.
    NotFound,
    /// The request makes no sense as it stands; the text says why.
    BadRequest(String),
    /// A failure of a collaborator; the text says which.
    InternalServerError(String),
}

impl AppError {
    /// The HTTP status code the error is answered with.
    pub open spec fn status(self) -> u16 {
        match self {
            AppError::HttpError(code, _) => code,
            AppError::Internal(_) => 500,
            AppError::Unauthorized => 401,
            AppError::Forbidden => 403,
            AppError::NotFound => 404,
            AppError::BadRequest(_) => 400,
            AppError::InternalServerError(_) => 500,
        }
    }

    /// The text the error is answered with.
    pub open spec fn body(self) -> Seq<char> {
        match self {
            AppError::HttpError(_, detail) => "Error: "@ + detail@,
            AppError::Internal(detail) => "Internal Server Error: "@ + detail@,
            AppError::Unauthorized => "Unauthorized"@,
            AppError::Forbidden => "Forbidden"@,
            AppError::NotFound => "Not Found"@,
            AppError::BadRequest(message) => message@,
            AppError::InternalServerError(message) => message@,
        }
    }

    /// Whether the error is a bad request that says `text`.
    pub open spec fn is_bad_request(self, text: Seq<char>) -> bool {
        self matches AppError::BadRequest(m) && m@ == text
    }

    /// Whether the error is a collaborator failure that says `text`.
    pub open spec fn is_server_error(self, text: Seq<char>) -> bool {
        self matches AppError::InternalServerError(m) && m@ == text
    }

    /// The status code and the text the error is answered with.
    pub fn into_response(self) -> (r: (u16, String))
        ensures
            r.0 == self.status(),
            r.1@ == self.body(),
    {
        match self {
            AppError::HttpError(code, detail) => {
                (code, String::from_str("Error: ").concat(detail.as_str()))
            },
            AppError::Internal(detail) => {
                (500, String::from_str("Internal Server Error: ").concat(detail.as_str()))
            },
            AppError::Unauthorized => (401, String::from_str("Unauthorized")),
            AppError::Forbidden => (403, String::from_str("Forbidden")),
            AppError::NotFound => (404, String::from_str("Not Found")),
            AppError::BadRequest(message) => (400, message),
            AppError::InternalServerError(message) => (500, message),
        }
    }
}

/// A bad request that says `text`.
pub fn bad_request(text: &str) -> (e: AppError)
    ensures
        e.is_bad_request(text@),
{
    AppError::BadRequest(String::from_str(text))
}

} // verus!
