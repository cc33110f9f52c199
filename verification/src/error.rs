//! The domain failure type.

use vstd::prelude::*;
use crate::text::{chars_of, push_str, string_from_chars};

verus! {

/// Domain-level failure, independent of any infrastructure concern. Each
/// variant carries a descriptive message explaining the failure.
#[derive(Debug)]
pub enum DomainError {
    /// The caller is not authenticated (missing/invalid credentials, HTTP 401).
    Unauthenticated(String),
    /// A token has expired and could not be refreshed.
    TokenExpired(String),
    /// The requested resource does not exist (HTTP 404).
    NotFound(String),
    /// The input failed domain validation (empty message, empty chat id).
    Invalid(String),
    /// A transport-level failure occurred (timeout, DNS failure, other status).
    Transport(String),
    /// A storage read/write failure occurred (token/config persistence).
    Storage(String),
}

/// Convenience alias for domain results.
pub type DomainResult<T> = Result<T, DomainError>;

impl DomainError {
    /// The label that precedes the message when the error is displayed.
    pub open spec fn spec_prefix(&self) -> Seq<char> {
        match self {
            DomainError::Unauthenticated(_) => "unauthenticated: "@,
            DomainError::TokenExpired(_) => "token expired: "@,
            DomainError::NotFound(_) => "not found: "@,
            DomainError::Invalid(_) => "invalid input: "@,
            DomainError::Transport(_) => "transport failure: "@,
            DomainError::Storage(_) => "storage failure: "@,
        }
    }

    /// The message carried by the error.
    pub open spec fn spec_message(&self) -> Seq<char> {
        match self {
            DomainError::Unauthenticated(m) => m@,
            DomainError::TokenExpired(m) => m@,
            DomainError::NotFound(m) => m@,
            DomainError::Invalid(m) => m@,
            DomainError::Transport(m) => m@,
            DomainError::Storage(m) => m@,
        }
    }

    /// The displayed form: the variant's label followed by the message.
    pub open spec fn spec_display(&self) -> Seq<char> {
        self.spec_prefix() + self.spec_message()
    }

    /// Renders the error for display, e.g. `unauthenticated: no token`.
    pub fn to_string(&self) -> (r: String)
        ensures
            r@ == self.spec_display(),
    {
        let (prefix, message) = match self {
            DomainError::Unauthenticated(m) => ("unauthenticated: ", m),
            DomainError::TokenExpired(m) => ("token expired: ", m),
            DomainError::NotFound(m) => ("not found: ", m),
            DomainError::Invalid(m) => ("invalid input: ", m),
            DomainError::Transport(m) => ("transport failure: ", m),
            DomainError::Storage(m) => ("storage failure: ", m),
        };
        let mut v = chars_of(prefix);
        push_str(&mut v, message.as_str());
        string_from_chars(&v)
    }
}

} // verus!
