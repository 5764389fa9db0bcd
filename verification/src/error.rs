//! The failures a request can end in, and how each is reported.

use vstd::prelude::*;

verus! {

/// Why a request was turned down.
#[derive(Debug, Clone, Copy, PartialEq, Eq, Structural)]
pub enum CustomError {
    /// The request itself is invalid, such as a todo without a title.
    BadRequest,
    /// No todo has the id that the request names.
    TodoNotFound,
    /// Another todo already has the title.
    TodoDuplicate,
    /// The storage failed or answered what no healthy storage answers.
    InternalServerError,
}

/// The body that reports a failure: one field, `error`, holding a fixed text.
#[derive(Debug)]
pub struct ErrorBody {
    pub error: String,
}

impl CustomError {
    /// The HTTP status that reports this failure.
    pub open spec fn status(self) -> u16 {
        match self {
            CustomError::BadRequest => 400,
            CustomError::TodoNotFound => 404,
            CustomError::TodoDuplicate => 409,
            CustomError::InternalServerError => 500,
        }
    }

    /// The fixed text that reports this failure.
    pub open spec fn text(self) -> Seq<char> {
        match self {
            CustomError::BadRequest => "Bad Request"@,
            CustomError::TodoNotFound => "Todo Not Found"@,
            CustomError::TodoDuplicate => "Todo Duplicated"@,
            CustomError::InternalServerError => "Internal Server Error"@,
        }
    }

    pub fn status_code(&self) -> (code: u16)
        ensures
            code == self.status(),
    {
        match self {
            CustomError::BadRequest => 400,
            CustomError::TodoNotFound => 404,
            CustomError::TodoDuplicate => 409,
            CustomError::InternalServerError => 500,
        }
    }

    pub fn message(&self) -> (text: &'static str)
        ensures
            text@ == self.text(),
    {
        match self {
            CustomError::BadRequest => "Bad Request",
            CustomError::TodoNotFound => "Todo Not Found",
            CustomError::TodoDuplicate => "Todo Duplicated",
            CustomError::InternalServerError => "Internal Server Error",
        }
    }

    /// The status and the body of the response that reports this failure.
    pub fn into_response(self) -> (response: (u16, ErrorBody))
        ensures
            response.0 == self.status(),
            response.1.error@ == self.text(),
    {
        let code = self.status_code();
        let error = self.message().to_owned();
        (code, ErrorBody { error })
    }
}

} // verus!
