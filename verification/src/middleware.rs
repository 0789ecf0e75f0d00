//! What stands before the MCP endpoint: bearer tokens and response headers.

use vstd::prelude::*;
use vstd::string::*;

use crate::errors::UNAUTHORIZED;
use crate::outside::current_time;
use crate::state::{ContextView, OAuthServerState, ServerView, UserContext};
use crate::text::join3;
use crate::time::Timestamp;
use crate::{errors, outside, state, text, url};

verus! {

// ---------------------------------------------------------------------------
// The refusal
// ---------------------------------------------------------------------------
/// The refusal of a request without a valid bearer token.
#[derive(Debug, PartialEq, Eq)]
pub struct Unauthorized {
    /// The HTTP status.
    pub status: u16,
    /// The value of the `WWW-Authenticate` header.
    pub www_authenticate: String,
    /// The text of the response.
    pub body: String,
}

/// The view of an [`Unauthorized`].
pub struct UnauthorizedView {
    /// The HTTP status.
    pub status: u16,
    /// The value of the `WWW-Authenticate` header.
    pub www_authenticate: Seq<char>,
    /// The text of the response.
    pub body: Seq<char>,
}

impl View for Unauthorized {
    type V = UnauthorizedView;

    open spec fn view(&self) -> UnauthorizedView {
        UnauthorizedView {
            status: self.status,
            www_authenticate: self.www_authenticate@,
            body: self.body@,
        }
    }
}

/// The refusal with an error code and a description, which tells the client where to find the
/// metadata of the MCP endpoint.
pub open spec fn unauthorized(
    s: ServerView,
    error: Seq<char>,
    description: Seq<char>,
) -> UnauthorizedView {
    UnauthorizedView {
        status: UNAUTHORIZED,
        www_authenticate: "Bearer resource_metadata=\""@ + url::resource_metadata_url(s.public_url)
            + "\", error=\""@ + error + "\", error_description=\""@ + description + "\""@,
        body: description,
    }
}

/// The refusal with an error code and a description.
pub fn unauthorized_response(state: &OAuthServerState, error: &str, description: &str) -> (r:
    Unauthorized)
    ensures
        r@ == unauthorized(state@, error@, description@),
{
    let metadata: String = state.public_url.resource_metadata();
    let first: String = join3("Bearer resource_metadata=\"", metadata.as_str(), "\", error=\"");
    let second: String = join3(first.as_str(), error, "\", error_description=\"");
    Unauthorized {
        status: UNAUTHORIZED,
        www_authenticate: join3(second.as_str(), description, "\""),
        body: description.to_owned(),
    }
}

// ---------------------------------------------------------------------------
// The bearer token
// ---------------------------------------------------------------------------
/// Whether a text begins with `bearer` and a space, in upper or lower case.
pub open spec fn names_bearer(h: Seq<char>) -> bool {
    &&& h.len() >= 7
    &&& h[0] == 'b' || h[0] == 'B'
    &&& h[1] == 'e' || h[1] == 'E'
    &&& h[2] == 'a' || h[2] == 'A'
    &&& h[3] == 'r' || h[3] == 'R'
    &&& h[4] == 'e' || h[4] == 'E'
    &&& h[5] == 'r' || h[5] == 'R'
    &&& h[6] == ' '
}

/// The token in the value of an `Authorization` header, if it is a bearer token.
pub open spec fn bearer_of(h: Seq<char>) -> Option<Seq<char>> {
    if h.len() > 7 && names_bearer(h) {
        Some(h.skip(7))
    } else {
        None
    }
}

fn is_either(c: char, lower: char, upper: char) -> (r: bool)
    ensures
        r == (c == lower || c == upper),
{
    c == lower || c == upper
}

/// The token in the value of an `Authorization` header, if it is a bearer token.
pub fn bearer_token(header: &str) -> (r: Option<&str>)
    ensures
        text::opt_str_chars(r) == bearer_of(header@),
{
    let n: usize = header.unicode_len();
    if n <= 7 {
        return None;
    }
    let named: bool = is_either(header.get_char(0), 'b', 'B') && is_either(
        header.get_char(1),
        'e',
        'E',
    ) && is_either(header.get_char(2), 'a', 'A') && is_either(header.get_char(3), 'r', 'R')
        && is_either(header.get_char(4), 'e', 'E') && is_either(header.get_char(5), 'r', 'R')
        && header.get_char(6) == ' ';
    if named {
        proof {
            assert(header@.subrange(7, n as int) =~= header@.skip(7));
        }
        Some(header.substring_char(7, n))
    } else {
        None
    }
}

/// What becomes of a request to the MCP endpoint: it goes on with the context of its user, or is
/// refused.
pub open spec fn authentication(s: ServerView, header: Option<Seq<char>>, now: Timestamp) -> Result<
    ContextView,
    UnauthorizedView,
> {
    match header {
        None => Err(unauthorized(s, "invalid_request"@, "Missing Authorization header"@)),
        Some(value) => match bearer_of(value) {
            None => Err(
                unauthorized(s, "invalid_request"@, "Invalid Authorization header format"@),
            ),
            Some(token) => match state::context_of(s, token, now) {
                None => Err(unauthorized(s, "invalid_token"@, "Invalid or expired token"@)),
                Some(context) => Ok(context),
            },
        },
    }
}

/// Decides about a request to the MCP endpoint at a point in time, from the value of its
/// `Authorization` header.
pub fn authenticate_at(state: &OAuthServerState, header: Option<&str>, now: &Timestamp) -> (r: Result<
    UserContext,
    Unauthorized,
>)
    ensures
        errors::result_view(r) == authentication(state@, text::opt_str_chars(header), *now),
{
    let value: &str = match header {
        Some(value) => value,
        None => return Err(
            unauthorized_response(state, "invalid_request", "Missing Authorization header"),
        ),
    };
    let token: &str = match bearer_token(value) {
        Some(token) => token,
        None => return Err(
            unauthorized_response(state, "invalid_request", "Invalid Authorization header format"),
        ),
    };
    match state.validate_token_at(token, now) {
        Some(context) => Ok(context),
        None => Err(unauthorized_response(state, "invalid_token", "Invalid or expired token")),
    }
}

/// Decides about a request to the MCP endpoint from the value of its `Authorization` header.
pub fn auth_middleware(state: &OAuthServerState, header: Option<&str>) -> (r: Result<
    UserContext,
    Unauthorized,
>)
    ensures
        exists|now: Timestamp|
            now.on_clock() && errors::result_view(r) == #[trigger] authentication(
                state@,
                text::opt_str_chars(header),
                now,
            ),
{
    let now: Timestamp = current_time();
    authenticate_at(state, header, &now)
}

// ---------------------------------------------------------------------------
// Response headers
// ---------------------------------------------------------------------------
/// The headers that every response carries.
pub open spec fn hardening_headers() -> Seq<(Seq<char>, Seq<char>)> {
    seq![
        ("cache-control"@, "no-store"@),
        ("x-content-type-options"@, "nosniff"@),
        ("x-frame-options"@, "DENY"@),
        ("referrer-policy"@, "no-referrer"@),
        ("content-security-policy"@, "default-src 'none'; frame-ancestors 'none'"@),
    ]
}

fn header(name: &str, value: &str) -> (r: (String, String))
    ensures
        r.0@ == name@,
        r.1@ == value@,
{
    (name.to_owned(), value.to_owned())
}

/// The headers that every response carries.
pub fn security_headers() -> (r: Vec<(String, String)>)
    ensures
        outside::pair_chars(r@) == hardening_headers(),
{
    let headers: Vec<(String, String)> = vec![
        header("cache-control", "no-store"),
        header("x-content-type-options", "nosniff"),
        header("x-frame-options", "DENY"),
        header("referrer-policy", "no-referrer"),
        header("content-security-policy", "default-src 'none'; frame-ancestors 'none'"),
    ];
    proof {
        assert(outside::pair_chars(headers@) =~= hardening_headers());
    }
    headers
}

} // verus!
