//! The HTTP layer's failure type and its classification into domain errors.

use vstd::prelude::*;
use crate::error::DomainError;
use crate::text::{chars_of, decimal, owned, push_decimal, push_str, string_from_chars};

verus! {

/// An HTTP failure carrying the raw status code, the URL that produced it and
/// the response body (empty when unavailable, and for 401, where the body is
/// not read).
#[derive(Debug)]
pub struct HttpStatusError {
    pub status: u16,
    pub url: String,
    pub body: String,
}

impl HttpStatusError {
    /// The displayed form of the failure.
    pub open spec fn spec_display(&self) -> Seq<char> {
        if self.status == 401 {
            "401 Unauthorized for "@ + self.url@ + ". Token may be invalid -- run 'teams-cli login'."@
        } else {
            "HTTP "@ + decimal(self.status as nat) + " for "@ + self.url@ + ": "@ + self.body@
        }
    }

    /// Renders the failure: `401 Unauthorized for {url}. Token may be invalid
    /// -- run 'teams-cli login'.` for 401, `HTTP {status} for {url}: {body}`
    /// otherwise.
    pub fn to_string(&self) -> (r: String)
        ensures
            r@ == self.spec_display(),
    {
        if self.status == 401 {
            let mut v = chars_of("401 Unauthorized for ");
            push_str(&mut v, self.url.as_str());
            push_str(&mut v, ". Token may be invalid -- run 'teams-cli login'.");
            string_from_chars(&v)
        } else {
            let mut v = chars_of("HTTP ");
            push_decimal(&mut v, self.status as u64);
            push_str(&mut v, " for ");
            push_str(&mut v, self.url.as_str());
            push_str(&mut v, ": ");
            push_str(&mut v, self.body.as_str());
            string_from_chars(&v)
        }
    }
}

/// A status of the success class (`200..=299`).
pub open spec fn is_success(status: u16) -> bool {
    200 <= status <= 299
}

/// Whether the body of a response with `status` is read to report it: only
/// for a failure other than 401.
pub fn body_needed(status: u16) -> (r: bool)
    ensures
        r == (status != 401 && !is_success(status)),
{
    status != 401 && !(200 <= status && status <= 299)
}

/// The failure a response with `status` from `url` reports, if any: 401
/// without a body (it is not read), any other status outside the success
/// class with the response `body`; none for a success.
pub fn response_failure(status: u16, url: &str, body: String) -> (r: Option<HttpStatusError>)
    ensures
        status == 401 ==> (r matches Some(e) && e.status == 401 && e.url@ == url@ && e.body@
            == Seq::<char>::empty()),
        status != 401 && !is_success(status) ==> (r matches Some(e) && e.status == status
            && e.url@ == url@ && e.body == body),
        is_success(status) ==> r is None,
{
    if status == 401 {
        Some(HttpStatusError { status: 401, url: owned(url), body: String::new() })
    } else if !(200 <= status && status <= 299) {
        Some(HttpStatusError { status, url: owned(url), body })
    } else {
        None
    }
}

/// An infrastructure failure as the adapters see it: the HTTP status found in
/// its chain of causes, if any, and its full message, each added context
/// followed by `": "` and the cause.
#[derive(Debug)]
pub struct InfraError {
    pub status: Option<u16>,
    pub message: String,
}

impl InfraError {
    /// The failure of an HTTP status.
    pub fn from_http(err: HttpStatusError) -> (r: InfraError)
        ensures
            r.status == Some(err.status),
            r.message@ == err.spec_display(),
    {
        let message = err.to_string();
        InfraError { status: Some(err.status), message }
    }

    /// A failure with no HTTP status (timeout, DNS failure, connection reset).
    pub fn msg(message: &str) -> (r: InfraError)
        ensures
            r.status is None,
            r.message@ == message@,
    {
        InfraError { status: None, message: owned(message) }
    }

    /// The same failure with `context` added in front of its message.
    pub fn context(self, context: &str) -> (r: InfraError)
        ensures
            r.status == self.status,
            r.message@ == context@ + ": "@ + self.message@,
    {
        let mut v = chars_of(context);
        push_str(&mut v, ": ");
        push_str(&mut v, self.message.as_str());
        InfraError { status: self.status, message: string_from_chars(&v) }
    }
}

/// The domain error of an HTTP status: 401 is `Unauthenticated`, 404 is
/// `NotFound`, any other status is `Transport`.
pub open spec fn status_error_spec(status: u16, e: DomainError) -> bool {
    if status == 401 {
        e is Unauthenticated
    } else if status == 404 {
        e is NotFound
    } else {
        e is Transport
    }
}

/// Map a raw HTTP status code to a [`DomainError`] carrying `message`.
pub fn status_to_domain(status: u16, message: String) -> (e: DomainError)
    ensures
        status_error_spec(status, e),
        e.spec_message() == message@,
{
    if status == 401 {
        DomainError::Unauthenticated(message)
    } else if status == 404 {
        DomainError::NotFound(message)
    } else {
        DomainError::Transport(message)
    }
}

/// `e` is the classification of a failure with HTTP status `status`.
pub open spec fn class_of(status: Option<u16>, e: DomainError) -> bool {
    match status {
        Some(code) => status_error_spec(code, e),
        None => e is Transport,
    }
}

/// The variant of a domain error, as a number.
pub open spec fn variant_of(e: DomainError) -> int {
    match e {
        DomainError::Unauthenticated(_) => 0,
        DomainError::TokenExpired(_) => 1,
        DomainError::NotFound(_) => 2,
        DomainError::Invalid(_) => 3,
        DomainError::Transport(_) => 4,
        DomainError::Storage(_) => 5,
    }
}

/// Adding context to a failure ([`InfraError::context`] keeps its status)
/// does not change the variant it is classified into by [`map_err`].
pub proof fn lemma_context_keeps_class(
    err: InfraError,
    with_context: InfraError,
    plain: DomainError,
    contextual: DomainError,
)
    requires
        with_context.status == err.status,
        class_of(err.status, plain),
        class_of(with_context.status, contextual),
    ensures
        variant_of(plain) == variant_of(contextual),
{
}

/// Classify an infrastructure failure into the precise [`DomainError`]
/// variant: an HTTP status in its chain decides (401 `Unauthenticated`, 404
/// `NotFound`, other `Transport`); without one it is `Transport`. The
/// message is kept whole.
pub fn map_err(err: InfraError) -> (e: DomainError)
    ensures
        e.spec_message() == err.message@,
        class_of(err.status, e),
{
    match err.status {
        Some(status) => status_to_domain(status, err.message),
        None => DomainError::Transport(err.message),
    }
}

} // verus!
