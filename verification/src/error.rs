use vstd::prelude::*;

verus! {

/// A generic error carrying a human-readable message.
#[derive(Debug, Clone, PartialEq)]
pub struct ApplicationError {
    pub message: String,
}

impl ApplicationError {
    pub fn new(message: &str) -> (r: ApplicationError)
        ensures
            r.message@ == message@,
    {
        ApplicationError { message: message.to_owned() }
    }
}

/// A structured error decoded from a non-success API response body.
#[derive(Debug, Clone, PartialEq)]
pub struct ApiResultError {
    pub code: String,
    pub message: String,
}

impl ApiResultError {
    pub fn new(code: &str, message: &str) -> (r: ApiResultError)
        ensures
            r.code@ == code@,
            r.message@ == message@,
    {
        ApiResultError { code: code.to_owned(), message: message.to_owned() }
    }
}

} // verus!
