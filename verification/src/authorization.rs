//! The authorization endpoint: from the MCP client on to Onshape.

use vstd::prelude::*;
use vstd::string::*;

use crate::errors::{
    http_error, HttpError, HttpErrorView, BAD_REQUEST, INTERNAL_SERVER_ERROR, TOO_MANY_REQUESTS,
};
use crate::outside::{authorization_url, current_time, random_csrf_token, random_pkce_verifier};
use crate::records::{PendingAuth, PendingView, Secret};
use crate::state::{OAuthServerState, ServerView, PENDING_AUTH_TTL_SECS};
use crate::text::{is_text, join2, list_holds, same};
use crate::time::Timestamp;
use crate::{errors, outside, table, text, url};

verus! {

/// Where Onshape authorizes.
pub const ONSHAPE_AUTHORIZE_URL: &'static str = "https://oauth.onshape.com/oauth/authorize";

/// The query parameters of an authorization request.
pub struct AuthorizeParams {
    /// What the client wants to get.
    pub response_type: String,
    /// The client.
    pub client_id: String,
    /// Where the client wants to be sent back to.
    pub redirect_uri: String,
    /// The client's own state.
    pub state: Option<String>,
    /// The client's PKCE challenge.
    pub code_challenge: Option<String>,
    /// How the challenge was made.
    pub code_challenge_method: Option<String>,
    /// The resource that the client wants to use.
    pub resource: Option<String>,
    /// The scope that the client asks for, which is ignored.
    pub scope: Option<String>,
}

/// The view of [`AuthorizeParams`].
pub struct AuthorizeView {
    /// What the client wants to get.
    pub response_type: Seq<char>,
    /// The client.
    pub client_id: Seq<char>,
    /// Where the client wants to be sent back to.
    pub redirect_uri: Seq<char>,
    /// The client's own state.
    pub state: Option<Seq<char>>,
    /// The client's PKCE challenge.
    pub code_challenge: Option<Seq<char>>,
    /// How the challenge was made.
    pub code_challenge_method: Option<Seq<char>>,
    /// The resource that the client wants to use.
    pub resource: Option<Seq<char>>,
}

impl View for AuthorizeParams {
    type V = AuthorizeView;

    open spec fn view(&self) -> AuthorizeView {
        AuthorizeView {
            response_type: self.response_type@,
            client_id: self.client_id@,
            redirect_uri: self.redirect_uri@,
            state: text::opt_chars(self.state),
            code_challenge: text::opt_chars(self.code_challenge),
            code_challenge_method: text::opt_chars(self.code_challenge_method),
            resource: text::opt_chars(self.resource),
        }
    }
}

/// What is wrong with an authorization request, if anything is: it must ask for a code for the MCP
/// endpoint, on behalf of a registered client, to one of the client's redirect URIs, with a PKCE
/// challenge made by S256.
pub open spec fn authorize_error(s: ServerView, p: AuthorizeView) -> Option<HttpErrorView> {
    if p.response_type != "code"@ {
        Some(errors::http_error_view(BAD_REQUEST, "unsupported response_type"@))
    } else if p.resource != Some(s.resource()) {
        Some(errors::http_error_view(BAD_REQUEST, "resource must be "@ + s.resource()))
    } else if !s.clients.dom().contains(p.client_id) {
        Some(errors::http_error_view(BAD_REQUEST, "unknown client_id"@))
    } else if !s.clients[p.client_id].redirect_uris.contains(p.redirect_uri) {
        Some(errors::http_error_view(BAD_REQUEST, "redirect_uri not registered"@))
    } else if p.code_challenge is None {
        Some(errors::http_error_view(BAD_REQUEST, "code_challenge is required (PKCE S256)"@))
    } else if p.code_challenge_method != Some("S256"@) {
        Some(errors::http_error_view(BAD_REQUEST, "code_challenge_method must be S256"@))
    } else {
        None
    }
}

/// The pending flows that have not run out of time.
pub open spec fn unexpired(pending: Map<Seq<char>, PendingView>, now: Timestamp) -> Map<
    Seq<char>,
    PendingView,
> {
    table::kept(
        pending,
        |k: Seq<char>, a: PendingView| now.within(a.created_at, PENDING_AUTH_TTL_SECS as int),
    )
}

/// What is kept of a flow while the browser is with Onshape.
pub open spec fn pending_record(
    s: ServerView,
    p: AuthorizeView,
    verifier: Seq<char>,
    now: Timestamp,
) -> PendingView {
    PendingView {
        client_id: p.client_id,
        redirect_uri: p.redirect_uri,
        pkce_code_challenge: p.code_challenge,
        mcp_state: p.state,
        resource: s.resource(),
        onshape_pkce_verifier: verifier,
        created_at: now,
    }
}

/// The scopes that are asked for at Onshape.
pub open spec fn onshape_scopes() -> Seq<Seq<char>> {
    seq!["OAuth2Read"@, "OAuth2Write"@]
}

/// The further parameters of the request to Onshape: the company, if one is configured.
pub open spec fn onshape_extra(s: ServerView) -> Seq<(Seq<char>, Seq<char>)> {
    match s.onshape_company_id {
        Some(company) => seq![("company_id"@, company)],
        None => Seq::empty(),
    }
}

/// The answer with which the browser is sent to Onshape, or the error where it cannot be.
pub open spec fn redirect_answer(target: Result<Seq<char>, Seq<char>>) -> Result<
    Seq<char>,
    HttpErrorView,
> {
    match target {
        Ok(target) => Ok(target),
        Err(reason) => Err(
            errors::http_error_view(INTERNAL_SERVER_ERROR, "invalid callback URL: "@ + reason),
        ),
    }
}

/// Where the browser is sent to authorize with Onshape.
pub open spec fn onshape_redirect(
    s: ServerView,
    verifier: Seq<char>,
    csrf: Seq<char>,
) -> Result<Seq<char>, HttpErrorView> {
    redirect_answer(
        outside::authorization_request_url(
            ONSHAPE_AUTHORIZE_URL@,
            s.onshape_client_id,
            url::oauth_url(s.public_url, "callback"@),
            csrf,
            verifier,
            onshape_scopes(),
            onshape_extra(s),
        ),
    )
}

/// What an authorization request does: flows that have run out of time are dropped, and a
/// well-formed request opens a flow while there is room.
pub open spec fn authorize_step(
    s: ServerView,
    p: AuthorizeView,
    verifier: Seq<char>,
    csrf: Seq<char>,
    now: Timestamp,
) -> (ServerView, Result<Seq<char>, HttpErrorView>) {
    let left = unexpired(s.pending_auth, now);
    if authorize_error(s, p) is Some {
        (s, Err(authorize_error(s, p)->0))
    } else if left.dom().len() >= s.max_pending_authorizations {
        (
            ServerView { pending_auth: left, ..s },
            Err(
                errors::http_error_view(
                    TOO_MANY_REQUESTS,
                    "too many pending authorization flows; retry later"@,
                ),
            ),
        )
    } else {
        (
            ServerView {
                pending_auth: left.insert(csrf, pending_record(s, p, verifier, now)),
                ..s
            },
            onshape_redirect(s, verifier, csrf),
        )
    }
}

/// Whether an authorization request opens a flow: it is well-formed and there is room.
pub open spec fn opens_flow(s: ServerView, p: AuthorizeView, now: Timestamp) -> bool {
    authorize_error(s, p) is None && unexpired(s.pending_auth, now).dom().len()
        < s.max_pending_authorizations
}

fn bad_request(message: &str) -> (r: HttpError)
    ensures
        r@ == errors::http_error_view(BAD_REQUEST, message@),
{
    http_error(BAD_REQUEST, message.to_owned())
}

fn check_params(state: &OAuthServerState, params: &AuthorizeParams, resource: &str) -> (r: Result<
    (),
    HttpError,
>)
    requires
        resource@ == state@.resource(),
    ensures
        r is Ok <==> authorize_error(state@, params@) is None,
        r matches Err(e) ==> authorize_error(state@, params@) == Some(e@),
{
    if !same(params.response_type.as_str(), "code") {
        return Err(bad_request("unsupported response_type"));
    }
    if !is_text(&params.resource, resource) {
        return Err(http_error(BAD_REQUEST, join2("resource must be ", resource)));
    }
    match state.clients.get(params.client_id.as_str()) {
        None => {
            return Err(bad_request("unknown client_id"));
        },
        Some(client) => if !list_holds(&client.redirect_uris, params.redirect_uri.as_str()) {
            return Err(bad_request("redirect_uri not registered"));
        },
    }
    if params.code_challenge.is_none() {
        return Err(bad_request("code_challenge is required (PKCE S256)"));
    }
    if !is_text(&params.code_challenge_method, "S256") {
        return Err(bad_request("code_challenge_method must be S256"));
    }
    Ok(())
}

fn sweep(state: &mut OAuthServerState, now: &Timestamp)
    ensures
        final(state)@ == (ServerView {
            pending_auth: unexpired(old(state)@.pending_auth, *now),
            ..old(state)@
        }),
{
    let ghost p = |k: Seq<char>, a: PendingView|
        now.within(a.created_at, PENDING_AUTH_TTL_SECS as int);
    let keep = |k: &String, a: &PendingAuth| -> (b: bool)
        ensures
            b == now.within(a@.created_at, PENDING_AUTH_TTL_SECS as int),
    {
        now.is_within(&a.created_at, PENDING_AUTH_TTL_SECS)
    };
    state.pending_auth.retain(keep, Ghost(p));
}

/// The answer with which the browser is sent to Onshape, or the error where it cannot be.
pub fn answer_redirect(target: Result<String, String>) -> (r: Result<String, HttpError>)
    ensures
        errors::result_view(r) == redirect_answer(outside::outcome(target)),
{
    match target {
        Ok(target) => Ok(target),
        Err(reason) => Err(
            http_error(INTERNAL_SERVER_ERROR, join2("invalid callback URL: ", reason.as_str())),
        ),
    }
}

fn onshape_url(state: &OAuthServerState, verifier: &str, csrf: &str) -> (r: Result<
    String,
    HttpError,
>)
    requires
        43 <= vstd::utf8::encode_utf8(verifier@).len() <= 128,
    ensures
        errors::result_view(r) == onshape_redirect(state@, verifier@, csrf@),
        r is Ok <==> outside::url_parts(ONSHAPE_AUTHORIZE_URL@) is Some,
{
    let scopes: Vec<String> = vec!["OAuth2Read".to_owned(), "OAuth2Write".to_owned()];
    let extra: Vec<(String, String)> = match &state.onshape_company_id {
        Some(company) => vec![("company_id".to_owned(), company.clone())],
        None => Vec::new(),
    };
    proof {
        reveal_strlit("https://oauth.onshape.com/oauth/authorize");
        assert(!ONSHAPE_AUTHORIZE_URL@.contains('#'));
        assert(text::all_chars(scopes@) =~= onshape_scopes());
        assert(outside::pair_chars(extra@) =~= onshape_extra(state@));
    }
    let callback: String = state.public_url.callback();
    answer_redirect(
        authorization_url(
            ONSHAPE_AUTHORIZE_URL,
            state.onshape_client_id.as_str(),
            callback.as_str(),
            csrf,
            verifier,
            &scopes,
            &extra,
        ),
    )
}

/// Answers an authorization request at a point in time, with a given PKCE verifier and a given
/// state for the Onshape leg.
pub fn authorize_with(
    state: &mut OAuthServerState,
    params: AuthorizeParams,
    verifier: String,
    csrf: String,
    now: Timestamp,
) -> (r: Result<String, HttpError>)
    requires
        43 <= vstd::utf8::encode_utf8(verifier@).len() <= 128,
    ensures
        (final(state)@, errors::result_view(r)) == authorize_step(
            old(state)@,
            params@,
            verifier@,
            csrf@,
            now,
        ),
        opens_flow(old(state)@, params@, now) ==> (r is Ok <==> outside::url_parts(
            ONSHAPE_AUTHORIZE_URL@,
        ) is Some),
{
    let resource: String = state.public_url.mcp();
    if let Err(error) = check_params(state, &params, resource.as_str()) {
        return Err(error);
    }
    sweep(state, &now);
    if state.pending_auth.len() >= state.max_pending_authorizations {
        return Err(
            http_error(
                TOO_MANY_REQUESTS,
                "too many pending authorization flows; retry later".to_owned(),
            ),
        );
    }
    let pending: PendingAuth = PendingAuth {
        client_id: params.client_id,
        redirect_uri: params.redirect_uri,
        pkce_code_challenge: params.code_challenge,
        mcp_state: params.state,
        resource,
        onshape_pkce_verifier: Secret::new(verifier.clone()),
        created_at: now,
    };
    state.pending_auth.insert(csrf.clone(), pending);
    onshape_url(state, verifier.as_str(), csrf.as_str())
}

/// Answers an authorization request: where the browser is sent, or what is wrong.
pub fn authorize(state: &mut OAuthServerState, params: AuthorizeParams) -> (r: Result<
    String,
    HttpError,
>)
    ensures
        exists|verifier: Seq<char>, csrf: Seq<char>, now: Timestamp|
            {
                &&& verifier.len() == 43
                &&& csrf.len() == 22
                &&& now.on_clock()
                &&& (final(state)@, errors::result_view(r)) == #[trigger] authorize_step(
                    old(state)@,
                    params@,
                    verifier,
                    csrf,
                    now,
                )
                &&& opens_flow(old(state)@, params@, now) ==> (r is Ok <==> outside::url_parts(
                    ONSHAPE_AUTHORIZE_URL@,
                ) is Some)
            },
{
    let verifier: String = random_pkce_verifier();
    let csrf: String = random_csrf_token();
    let now: Timestamp = current_time();
    authorize_with(state, params, verifier, csrf, now)
}

} // verus!
