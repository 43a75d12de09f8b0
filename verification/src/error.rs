//! Error taxonomy for the library.
//!
//! No error is ever retried: every failure is surfaced to the immediate
//! caller. The variants separate missing credentials, non-success HTTP
//! responses, response bodies of the wrong shape, and invalid caller input.

use vstd::prelude::*;

verus! {

/// Errors produced by the library and reported by its callers.
#[derive(Debug)]
pub enum LangstarError {
    /// A required API key was absent at request-build time.
    AuthError(String),
    /// The API returned a non-success HTTP status; the message is the
    /// response body read as text.
    ApiError { status: u16, message: String },
    /// A response body or other document did not match the expected shape.
    DecodeError(String),
    /// Invalid caller-supplied input, such as an unparseable enum value or a
    /// missing required companion value.
    ConfigError(String),
    /// Anything else.
    Other(String),
}

impl LangstarError {
    /// A short label naming the variant.
    pub fn kind(&self) -> (r: &'static str)
        ensures
            self is AuthError ==> r@ == "authentication failed"@,
            self is ApiError ==> r@ == "API error"@,
            self is DecodeError ==> r@ == "decode error"@,
            self is ConfigError ==> r@ == "configuration error"@,
            self is Other ==> r@ == "error"@,
    {
        match self {
            LangstarError::AuthError(_) => "authentication failed",
            LangstarError::ApiError { .. } => "API error",
            LangstarError::DecodeError(_) => "decode error",
            LangstarError::ConfigError(_) => "configuration error",
            LangstarError::Other(_) => "error",
        }
    }

    /// The human-readable detail carried by the error. For an API error
    /// this is the response body; the status is reported separately.
    pub fn detail(&self) -> (r: &String)
        ensures
            self matches LangstarError::AuthError(m) ==> r == m,
            self matches LangstarError::ApiError { status, message } ==> r == message,
            self matches LangstarError::DecodeError(m) ==> r == m,
            self matches LangstarError::ConfigError(m) ==> r == m,
            self matches LangstarError::Other(m) ==> r == m,
    {
        match self {
            LangstarError::AuthError(m) => m,
            LangstarError::ApiError { status: _, message } => message,
            LangstarError::DecodeError(m) => m,
            LangstarError::ConfigError(m) => m,
            LangstarError::Other(m) => m,
        }
    }
}

} // verus!
