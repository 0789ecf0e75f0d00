//! What a refused request is answered.

use vstd::prelude::*;

verus! {

/// The request cannot be served as it stands.
pub const BAD_REQUEST: u16 = 400;

/// The request carries no valid bearer token.
pub const UNAUTHORIZED: u16 = 401;

/// The user may not use the server.
pub const FORBIDDEN: u16 = 403;

/// A limit of the server is reached.
pub const TOO_MANY_REQUESTS: u16 = 429;

/// The server failed.
pub const INTERNAL_SERVER_ERROR: u16 = 500;

/// An error in the form that OAuth gives it: a status, a code and a description.
#[derive(Debug, PartialEq, Eq)]
pub struct OAuthError {
    /// The HTTP status.
    pub status: u16,
    /// The error code.
    pub error: String,
    /// What is wrong, in words.
    pub description: String,
}

/// The view of an [`OAuthError`].
pub struct OAuthErrorView {
    /// The HTTP status.
    pub status: u16,
    /// The error code.
    pub error: Seq<char>,
    /// What is wrong, in words.
    pub description: Seq<char>,
}

impl View for OAuthError {
    type V = OAuthErrorView;

    open spec fn view(&self) -> OAuthErrorView {
        OAuthErrorView {
            status: self.status,
            error: self.error@,
            description: self.description@,
        }
    }
}

/// An error with a status and a text for the browser.
#[derive(Debug, PartialEq, Eq)]
pub struct HttpError {
    /// The HTTP status.
    pub status: u16,
    /// The text.
    pub message: String,
}

/// The view of an [`HttpError`].
pub struct HttpErrorView {
    /// The HTTP status.
    pub status: u16,
    /// The text.
    pub message: Seq<char>,
}

impl View for HttpError {
    type V = HttpErrorView;

    open spec fn view(&self) -> HttpErrorView {
        HttpErrorView { status: self.status, message: self.message@ }
    }
}

/// The view of an outcome, on either side.
pub open spec fn result_view<T: View, E: View>(r: Result<T, E>) -> Result<T::V, E::V> {
    match r {
        Ok(v) => Ok(v@),
        Err(e) => Err(e@),
    }
}

/// The view of an optional value.
pub open spec fn option_view<T: View>(o: Option<T>) -> Option<T::V> {
    match o {
        Some(v) => Some(v@),
        None => None,
    }
}

/// An error of the registration endpoint.
pub open spec fn oauth_error_view(
    status: u16,
    error: Seq<char>,
    description: Seq<char>,
) -> OAuthErrorView {
    OAuthErrorView { status, error, description }
}

/// An error of the token endpoint.
pub open spec fn token_error_view(error: Seq<char>, description: Seq<char>) -> OAuthErrorView {
    OAuthErrorView { status: BAD_REQUEST, error, description }
}

/// An error with a text.
pub open spec fn http_error_view(status: u16, message: Seq<char>) -> HttpErrorView {
    HttpErrorView { status, message }
}

/// An error with its status, code and description.
pub fn oauth_error(status: u16, error: &str, description: String) -> (r: OAuthError)
    ensures
        r@ == oauth_error_view(status, error@, description@),
{
    OAuthError { status, error: error.to_owned(), description }
}

/// An error of the token endpoint: always a bad request.
pub fn token_error(error: &str, description: &str) -> (r: OAuthError)
    ensures
        r@ == token_error_view(error@, description@),
{
    OAuthError {
        status: BAD_REQUEST,
        error: error.to_owned(),
        description: description.to_owned(),
    }
}

/// An error with a text.
pub fn http_error(status: u16, message: String) -> (r: HttpError)
    ensures
        r@ == http_error_view(status, message@),
{
    HttpError { status, message }
}

} // verus!
