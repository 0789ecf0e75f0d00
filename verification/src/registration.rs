//! Dynamic client registration.

use vstd::prelude::*;

use crate::errors::{
    oauth_error, OAuthError, OAuthErrorView, BAD_REQUEST, INTERNAL_SERVER_ERROR,
    TOO_MANY_REQUESTS,
};
use crate::hex::random_hex;
use crate::records::{ClientView, RegisteredClient};
use crate::state::{OAuthServerState, ServerView};
use crate::text::{copy_list, join2, list_holds, same};
use crate::url::validate_redirect_uris;
use crate::{errors, hex, text, url};

verus! {

/// What a client asks for when it registers.
pub struct RegisterRequest {
    /// A name for display.
    pub client_name: Option<String>,
    /// Where the client wants to be sent back to.
    pub redirect_uris: Vec<String>,
    /// The grants that the client will use; empty for the usual ones.
    pub grant_types: Vec<String>,
    /// The response types that the client will use; empty for the usual one.
    pub response_types: Vec<String>,
    /// How the client will authenticate at the token endpoint; absent for not at all.
    pub token_endpoint_auth_method: Option<String>,
}

/// The view of a [`RegisterRequest`].
pub struct RegisterRequestView {
    /// A name for display.
    pub client_name: Option<Seq<char>>,
    /// Where the client wants to be sent back to.
    pub redirect_uris: Seq<Seq<char>>,
    /// The grants that the client will use; empty for the usual ones.
    pub grant_types: Seq<Seq<char>>,
    /// The response types that the client will use; empty for the usual one.
    pub response_types: Seq<Seq<char>>,
    /// How the client will authenticate at the token endpoint; absent for not at all.
    pub token_endpoint_auth_method: Option<Seq<char>>,
}

impl View for RegisterRequest {
    type V = RegisterRequestView;

    open spec fn view(&self) -> RegisterRequestView {
        RegisterRequestView {
            client_name: text::opt_chars(self.client_name),
            redirect_uris: text::all_chars(self.redirect_uris@),
            grant_types: text::all_chars(self.grant_types@),
            response_types: text::all_chars(self.response_types@),
            token_endpoint_auth_method: text::opt_chars(self.token_endpoint_auth_method),
        }
    }
}

/// What a registered client is told.
#[derive(Debug, PartialEq, Eq)]
pub struct RegisterResponse {
    /// The client's ID.
    pub client_id: String,
    /// The client's secret, if it has one.
    pub client_secret: Option<String>,
    /// When the secret expires: 0 for never.
    pub client_secret_expires_at: Option<u64>,
    /// The name that the client gave.
    pub client_name: Option<String>,
    /// Where the client may be sent back to.
    pub redirect_uris: Vec<String>,
    /// The grants that the client may use.
    pub grant_types: Vec<String>,
    /// The response types that the client may use.
    pub response_types: Vec<String>,
    /// How the client authenticates at the token endpoint.
    pub token_endpoint_auth_method: String,
}

/// The view of a [`RegisterResponse`].
pub struct RegisterResponseView {
    /// The client's ID.
    pub client_id: Seq<char>,
    /// The client's secret, if it has one.
    pub client_secret: Option<Seq<char>>,
    /// When the secret expires: 0 for never.
    pub client_secret_expires_at: Option<u64>,
    /// The name that the client gave.
    pub client_name: Option<Seq<char>>,
    /// Where the client may be sent back to.
    pub redirect_uris: Seq<Seq<char>>,
    /// The grants that the client may use.
    pub grant_types: Seq<Seq<char>>,
    /// The response types that the client may use.
    pub response_types: Seq<Seq<char>>,
    /// How the client authenticates at the token endpoint.
    pub token_endpoint_auth_method: Seq<char>,
}

impl View for RegisterResponse {
    type V = RegisterResponseView;

    open spec fn view(&self) -> RegisterResponseView {
        RegisterResponseView {
            client_id: self.client_id@,
            client_secret: text::opt_chars(self.client_secret),
            client_secret_expires_at: self.client_secret_expires_at,
            client_name: text::opt_chars(self.client_name),
            redirect_uris: text::all_chars(self.redirect_uris@),
            grant_types: text::all_chars(self.grant_types@),
            response_types: text::all_chars(self.response_types@),
            token_endpoint_auth_method: self.token_endpoint_auth_method@,
        }
    }
}

// ---------------------------------------------------------------------------
// What a client may ask for
// ---------------------------------------------------------------------------
/// The grants of this server.
pub open spec fn supported_grant_types() -> Seq<Seq<char>> {
    seq!["authorization_code"@, "refresh_token"@]
}

/// The response types of this server.
pub open spec fn supported_response_types() -> Seq<Seq<char>> {
    seq!["code"@]
}

/// The first entry of a list that is not among the supported ones.
pub open spec fn first_unsupported(list: Seq<Seq<char>>, supported: Seq<Seq<char>>) -> Option<
    Seq<char>,
>
    decreases list.len(),
{
    if list.len() == 0 {
        None
    } else if !supported.contains(list[0]) {
        Some(list[0])
    } else {
        first_unsupported(list.drop_first(), supported)
    }
}

/// The asked-for entries, or the default where none is asked for.
pub open spec fn or_default(list: Seq<Seq<char>>, default: Seq<Seq<char>>) -> Seq<Seq<char>> {
    if list.len() == 0 {
        default
    } else {
        list
    }
}

/// How a client authenticates at the token endpoint: not at all unless it asks for more.
pub open spec fn auth_method(req: RegisterRequestView) -> Seq<char> {
    match req.token_endpoint_auth_method {
        Some(method) => method,
        None => "none"@,
    }
}

/// An error that is about what the client asked for.
pub open spec fn metadata_error(description: Seq<char>) -> OAuthErrorView {
    errors::oauth_error_view(BAD_REQUEST, "invalid_client_metadata"@, description)
}

/// What is wrong with a registration request, if anything is, where `redirects` is what is wrong
/// with its redirect URIs.
pub open spec fn request_verdict(
    req: RegisterRequestView,
    redirects: Option<OAuthErrorView>,
) -> Option<OAuthErrorView> {
    if req.redirect_uris.len() == 0 {
        Some(metadata_error("redirect_uris must not be empty"@))
    } else if redirects is Some {
        redirects
    } else if first_unsupported(req.grant_types, supported_grant_types()) is Some {
        Some(
            metadata_error(
                "unsupported grant_type: "@ + first_unsupported(
                    req.grant_types,
                    supported_grant_types(),
                )->0,
            ),
        )
    } else if first_unsupported(req.response_types, supported_response_types()) is Some {
        Some(
            metadata_error(
                "unsupported response_type: "@ + first_unsupported(
                    req.response_types,
                    supported_response_types(),
                )->0,
            ),
        )
    } else if auth_method(req) != "none"@ && auth_method(req) != "client_secret_post"@ {
        Some(
            metadata_error("unsupported token_endpoint_auth_method: "@ + auth_method(req)),
        )
    } else {
        None
    }
}

/// What is wrong with a registration request, if anything is.
pub open spec fn request_error(req: RegisterRequestView) -> Option<OAuthErrorView> {
    request_verdict(req, url::redirects_error(req.redirect_uris))
}

// ---------------------------------------------------------------------------
// Registration
// ---------------------------------------------------------------------------
/// The secret of a client, if it authenticates with one.
pub open spec fn secret_for(req: RegisterRequestView, secret: Seq<char>) -> Option<Seq<char>> {
    if auth_method(req) == "client_secret_post"@ {
        Some(secret)
    } else {
        None
    }
}

/// The record of a client.
pub open spec fn client_record(
    req: RegisterRequestView,
    id: Seq<char>,
    secret: Seq<char>,
) -> ClientView {
    ClientView {
        client_id: id,
        client_secret: secret_for(req, secret),
        redirect_uris: req.redirect_uris,
        token_endpoint_auth_method: auth_method(req),
    }
}

/// What a registered client is told.
pub open spec fn register_response(
    req: RegisterRequestView,
    id: Seq<char>,
    secret: Seq<char>,
) -> RegisterResponseView {
    RegisterResponseView {
        client_id: id,
        client_secret: secret_for(req, secret),
        client_secret_expires_at: if auth_method(req) == "client_secret_post"@ {
            Some(0u64)
        } else {
            None
        },
        client_name: req.client_name,
        redirect_uris: req.redirect_uris,
        grant_types: or_default(req.grant_types, supported_grant_types()),
        response_types: or_default(req.response_types, supported_response_types()),
        token_endpoint_auth_method: auth_method(req),
    }
}

/// What a registration does, where `redirects` is what is wrong with its redirect URIs: a
/// well-formed request is granted while there is room, and nothing else changes the state.
pub open spec fn register_outcome(
    s: ServerView,
    req: RegisterRequestView,
    redirects: Option<OAuthErrorView>,
    id: Seq<char>,
    secret: Seq<char>,
) -> (ServerView, Result<RegisterResponseView, OAuthErrorView>) {
    if request_verdict(req, redirects) is Some {
        (s, Err(request_verdict(req, redirects)->0))
    } else if s.clients.dom().len() >= s.max_registered_clients {
        (
            s,
            Err(
                errors::oauth_error_view(
                    TOO_MANY_REQUESTS,
                    "temporarily_unavailable"@,
                    "dynamic client registration capacity reached"@,
                ),
            ),
        )
    } else {
        (
            ServerView { clients: s.clients.insert(id, client_record(req, id, secret)), ..s },
            Ok(register_response(req, id, secret)),
        )
    }
}

/// What a registration does.
pub open spec fn register_step(
    s: ServerView,
    req: RegisterRequestView,
    id: Seq<char>,
    secret: Seq<char>,
) -> (ServerView, Result<RegisterResponseView, OAuthErrorView>) {
    register_outcome(s, req, url::redirects_error(req.redirect_uris), id, secret)
}

fn grant_types() -> (r: Vec<String>)
    ensures
        text::all_chars(r@) == supported_grant_types(),
{
    let list: Vec<String> = vec!["authorization_code".to_owned(), "refresh_token".to_owned()];
    proof {
        assert(text::all_chars(list@) =~= supported_grant_types());
    }
    list
}

fn response_types() -> (r: Vec<String>)
    ensures
        text::all_chars(r@) == supported_response_types(),
{
    let list: Vec<String> = vec!["code".to_owned()];
    proof {
        assert(text::all_chars(list@) =~= supported_response_types());
    }
    list
}

fn find_unsupported(list: &Vec<String>, supported: &Vec<String>) -> (r: Option<String>)
    ensures
        text::opt_chars(r) == first_unsupported(
            text::all_chars(list@),
            text::all_chars(supported@),
        ),
{
    let mut i: usize = 0;
    let ghost all = text::all_chars(list@);
    let ghost known = text::all_chars(supported@);
    proof {
        assert(all.skip(0) =~= all);
    }
    while i < list.len()
        invariant
            i <= list@.len(),
            all == text::all_chars(list@),
            known == text::all_chars(supported@),
            first_unsupported(all, known) == first_unsupported(all.skip(i as int), known),
        decreases list@.len() - i,
    {
        proof {
            assert(all.skip(i as int)[0] == list@[i as int]@);
            assert(all.skip(i as int).drop_first() =~= all.skip(i + 1));
        }
        if !list_holds(supported, list[i].as_str()) {
            return Some(list[i].clone());
        }
        i = i + 1;
    }
    None
}

fn invalid_metadata(description: String) -> (r: OAuthError)
    ensures
        r@ == metadata_error(description@),
{
    oauth_error(BAD_REQUEST, "invalid_client_metadata", description)
}

fn or_default_list(list: Vec<String>, default: Vec<String>) -> (r: Vec<String>)
    ensures
        text::all_chars(r@) == or_default(text::all_chars(list@), text::all_chars(default@)),
{
    if list.len() == 0 {
        default
    } else {
        list
    }
}

/// What is wrong according to a check, if anything is.
pub open spec fn check_error(r: Result<(), OAuthError>) -> Option<OAuthErrorView> {
    match r {
        Ok(_) => None,
        Err(e) => Some(e@),
    }
}

fn check_request(req: &RegisterRequest, redirects: Result<(), OAuthError>, method: &str) -> (r:
    Result<(), OAuthError>)
    requires
        method@ == auth_method(req@),
    ensures
        check_error(r) == request_verdict(req@, check_error(redirects)),
{
    if req.redirect_uris.len() == 0 {
        return Err(invalid_metadata("redirect_uris must not be empty".to_owned()));
    }
    if let Err(error) = redirects {
        return Err(error);
    }
    if let Some(grant) = find_unsupported(&req.grant_types, &grant_types()) {
        return Err(invalid_metadata(join2("unsupported grant_type: ", grant.as_str())));
    }
    if let Some(response) = find_unsupported(&req.response_types, &response_types()) {
        return Err(invalid_metadata(join2("unsupported response_type: ", response.as_str())));
    }
    if !same(method, "none") && !same(method, "client_secret_post") {
        return Err(invalid_metadata(join2("unsupported token_endpoint_auth_method: ", method)));
    }
    Ok(())
}

/// Registers a client whose redirect URIs were judged, under a given ID, with a given secret if it
/// authenticates with one.
pub fn register_judged_client(
    state: &mut OAuthServerState,
    req: RegisterRequest,
    redirects: Result<(), OAuthError>,
    client_id: String,
    secret: String,
) -> (r: Result<RegisterResponse, OAuthError>)
    ensures
        (final(state)@, errors::result_view(r)) == register_outcome(
            old(state)@,
            req@,
            check_error(redirects),
            client_id@,
            secret@,
        ),
{
    let method: String = match &req.token_endpoint_auth_method {
        Some(method) => method.clone(),
        None => "none".to_owned(),
    };
    if let Err(error) = check_request(&req, redirects, method.as_str()) {
        return Err(error);
    }
    if state.clients.len() >= state.max_registered_clients {
        return Err(
            oauth_error(
                TOO_MANY_REQUESTS,
                "temporarily_unavailable",
                "dynamic client registration capacity reached".to_owned(),
            ),
        );
    }
    let confidential: bool = same(method.as_str(), "client_secret_post");
    let record: RegisteredClient = RegisteredClient {
        client_id: client_id.clone(),
        client_secret: if confidential {
            Some(secret.clone())
        } else {
            None
        },
        redirect_uris: copy_list(&req.redirect_uris),
        token_endpoint_auth_method: method.clone(),
    };
    state.clients.insert(client_id.clone(), record);
    Ok(
        RegisterResponse {
            client_id,
            client_secret: if confidential {
                Some(secret)
            } else {
                None
            },
            client_secret_expires_at: if confidential {
                Some(0)
            } else {
                None
            },
            client_name: req.client_name,
            redirect_uris: req.redirect_uris,
            grant_types: or_default_list(req.grant_types, grant_types()),
            response_types: or_default_list(req.response_types, response_types()),
            token_endpoint_auth_method: method,
        },
    )
}

/// Registers a client under a given ID, with a given secret if it authenticates with one.
pub fn register_client_with(
    state: &mut OAuthServerState,
    req: RegisterRequest,
    client_id: String,
    secret: String,
) -> (r: Result<RegisterResponse, OAuthError>)
    ensures
        (final(state)@, errors::result_view(r)) == register_step(
            old(state)@,
            req@,
            client_id@,
            secret@,
        ),
{
    let redirects: Result<(), OAuthError> = validate_redirect_uris(&req.redirect_uris);
    register_judged_client(state, req, redirects, client_id, secret)
}

/// Registers a client under a random ID, with a random secret if it authenticates with one. The
/// registration stands once [`settle_registration`] is told that the state was saved.
pub fn register_client(state: &mut OAuthServerState, req: RegisterRequest) -> (r: Result<
    RegisterResponse,
    OAuthError,
>)
    ensures
        exists|id: Seq<char>, secret: Seq<char>|
            hex::is_hex_of(id, 16) && hex::is_hex_of(secret, 32) && (
                final(state)@,
                errors::result_view(r),
            ) == #[trigger] register_step(old(state)@, req@, id, secret),
{
    let client_id: String = random_hex(16);
    let secret: String = random_hex(32);
    register_client_with(state, req, client_id, secret)
}

/// The server without a client.
pub open spec fn without_client(s: ServerView, id: Seq<char>) -> ServerView {
    ServerView { clients: s.clients.remove(id), ..s }
}

/// What becomes in the end of a client that was registered: it stays once it is saved.
pub open spec fn settled(s: ServerView, response: RegisterResponseView, saved: bool) -> (
    ServerView,
    Result<RegisterResponseView, OAuthErrorView>,
) {
    if saved {
        (s, Ok(response))
    } else {
        (
            without_client(s, response.client_id),
            Err(
                errors::oauth_error_view(
                    INTERNAL_SERVER_ERROR,
                    "server_error"@,
                    "failed to persist client registration"@,
                ),
            ),
        )
    }
}

/// Ends a registration: where the state could not be saved, the client is taken out again.
pub fn settle_registration(
    state: &mut OAuthServerState,
    response: RegisterResponse,
    saved: bool,
) -> (r: Result<RegisterResponse, OAuthError>)
    ensures
        (final(state)@, errors::result_view(r)) == settled(old(state)@, response@, saved),
        saved ==> r == Ok::<RegisterResponse, OAuthError>(response) && final(state)@
            == old(state)@,
        !saved ==> (r matches Err(e) && e@ == errors::oauth_error_view(
            INTERNAL_SERVER_ERROR,
            "server_error"@,
            "failed to persist client registration"@,
        )) && final(state)@ == without_client(old(state)@, response.client_id@),
{
    if saved {
        Ok(response)
    } else {
        let _gone: Option<RegisteredClient> = state.clients.remove(response.client_id.as_str());
        Err(
            oauth_error(
                INTERNAL_SERVER_ERROR,
                "server_error",
                "failed to persist client registration".to_owned(),
            ),
        )
    }
}

} // verus!
