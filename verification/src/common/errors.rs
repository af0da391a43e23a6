//! The errors that are handed to a caller at the boundary.

use vstd::prelude::*;
use vstd::string::StringExecFns;

verus! {

/// An error with a status code as HTTP has them and a message.
#[derive(Debug, PartialEq, Eq)]
pub struct ApiError {
    code: u16,
    message: String,
}

impl ApiError {
    pub fn new(code: u16, message: String) -> (error: ApiError)
        ensures
            error.code() == code,
            error.message() == message@,
    {
        ApiError { code: code, message: message }
    }

    /// The status code.
    pub closed spec fn code(&self) -> u16 {
        self.code
    }

    /// The message.
    pub closed spec fn message(&self) -> Seq<char> {
        self.message@
    }

    /// The status code.
    pub fn status(&self) -> (code: u16)
        ensures
            code == self.code(),
    {
        self.code
    }

    /// The message.
    pub fn text(&self) -> (message: &String)
        ensures
            message@ == self.message(),
    {
        &self.message
    }
}

impl Clone for ApiError {
    fn clone(&self) -> (copy: ApiError)
        ensures
            copy.code() == self.code(),
            copy.message() == self.message(),
    {
        ApiError { code: self.code, message: self.message.clone() }
    }
}

/// An error inside the application: a fixed message.
#[derive(Debug)]
pub struct AppError {
    message: &'static str,
}

impl AppError {
    pub fn new(message: &'static str) -> (error: AppError)
        ensures
            error.message() == message@,
    {
        AppError { message }
    }

    /// The message.
    pub closed spec fn message(&self) -> Seq<char> {
        self.message@
    }

    /// The error as it is handed out: status 500 with the message.
    pub fn into_api_error(self) -> (error: ApiError)
        ensures
            error.code() == 500,
            error.message() == self.message(),
    {
        ApiError::new(500, String::from_str(self.message))
    }
}

} // verus!
