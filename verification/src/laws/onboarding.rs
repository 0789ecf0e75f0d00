//! From the registration of a client to its first request.

use vstd::prelude::*;

use crate::authorization::AuthorizeView;
use crate::callback::{CallbackParamsView, GrantView};
use crate::registration::RegisterRequestView;
use crate::state::{ServerView, AUTH_CODE_TTL_SECS, PENDING_AUTH_TTL_SECS, TOKEN_LIFETIME_SECS};
use crate::time::Timestamp;
use crate::token::TokenRequestView;
use crate::{authorization, callback, middleware, outside, registration, token};

verus! {

/// Whether an authorization request is the one of a client that registered under an ID, whose PKCE
/// verifier is given.
pub open spec fn asks_for(
    s: ServerView,
    p: AuthorizeView,
    id: Seq<char>,
    reg: RegisterRequestView,
    verifier: Seq<char>,
) -> bool {
    &&& p.response_type == "code"@
    &&& p.resource == Some(s.resource())
    &&& p.client_id == id
    &&& reg.redirect_uris.contains(p.redirect_uri)
    &&& p.code_challenge == Some(token::s256(verifier))
    &&& p.code_challenge_method == Some("S256"@)
}

/// The token request of a client that follows its authorization request.
pub open spec fn follow_up(
    p: AuthorizeView,
    reg: RegisterRequestView,
    secret: Seq<char>,
    code: Seq<char>,
    verifier: Seq<char>,
) -> TokenRequestView {
    TokenRequestView {
        grant_type: "authorization_code"@,
        code: Some(code),
        redirect_uri: Some(p.redirect_uri),
        client_id: Some(p.client_id),
        client_secret: registration::secret_for(reg, secret),
        code_verifier: Some(verifier),
        refresh_token: None,
        resource: p.resource,
    }
}

/// A client that registers and asks for authorization opens a flow.
pub proof fn law_registered_client_opens_flow(
    s0: ServerView,
    reg: RegisterRequestView,
    id: Seq<char>,
    secret: Seq<char>,
    p: AuthorizeView,
    verifier: Seq<char>,
    onshape_verifier: Seq<char>,
    csrf: Seq<char>,
    now: Timestamp,
)
    requires
        registration::request_error(reg) is None,
        s0.clients.dom().len() < s0.max_registered_clients,
        authorization::unexpired(s0.pending_auth, now).dom().len()
            < s0.max_pending_authorizations,
        asks_for(s0, p, id, reg, verifier),
    ensures
        ({
            let s1 = registration::register_step(s0, reg, id, secret).0;
            let s2 = authorization::authorize_step(s1, p, onshape_verifier, csrf, now).0;
            &&& registration::register_step(s0, reg, id, secret).1 is Ok
            &&& s2.pending_auth.dom().contains(csrf)
            &&& s2.pending_auth[csrf] == authorization::pending_record(s1, p, onshape_verifier, now)
            &&& s2.clients[id] == registration::client_record(reg, id, secret)
        }),
{
}

/// A user who comes back from Onshape in time and is let in gets a code for the client.
pub proof fn law_returning_user_gets_code(
    s2: ServerView,
    csrf: Seq<char>,
    onshape_code: Seq<char>,
    back: Timestamp,
    user: Seq<char>,
    grant: GrantView,
    kept: Timestamp,
    code: Seq<char>,
    issued: Timestamp,
)
    requires
        s2.pending_auth.dom().contains(csrf),
        back.within(s2.pending_auth[csrf].created_at, PENDING_AUTH_TTL_SECS as int),
        s2.access_of(user) is Some,
    ensures
        ({
            let params = CallbackParamsView {
                code: Some(onshape_code),
                state: Some(csrf),
                error: None,
            };
            let flow = s2.pending_auth[csrf];
            let (s3, begun) = callback::begin_step(s2, params, back);
            let s4 = callback::accept_step(s3, user, grant, kept);
            let (s5, outcome) = callback::issue_step(s4, flow, user, true, code, issued);
            &&& begun is Ok
            &&& begun->Ok_0.pending == flow
            &&& outcome is Ok
            &&& s5.auth_codes.dom().contains(code)
            &&& s5.auth_codes[code] == callback::code_record(flow, user, issued)
            &&& s5.user_credentials.tokens_of(user) == Some(callback::granted_tokens(grant, kept))
        }),
{
}

/// The whole way: a client registers and asks for authorization, the user authorizes at Onshape and
/// comes back in time, the browser is sent back to the client with the code, the client exchanges it
/// in time, and its access token lets the user in, with the tokens that Onshape granted.
pub proof fn law_onboarding(
    s0: ServerView,
    reg: RegisterRequestView,
    id: Seq<char>,
    secret: Seq<char>,
    p: AuthorizeView,
    verifier: Seq<char>,
    onshape_verifier: Seq<char>,
    csrf: Seq<char>,
    asked: Timestamp,
    onshape_code: Seq<char>,
    back: Timestamp,
    user: Seq<char>,
    grant: GrantView,
    kept: Timestamp,
    code: Seq<char>,
    issued: Timestamp,
    access: Seq<char>,
    refresh: Seq<char>,
    exchanged: Timestamp,
    header: Seq<char>,
    used: Timestamp,
)
    requires
        registration::request_error(reg) is None,
        s0.clients.dom().len() < s0.max_registered_clients,
        authorization::unexpired(s0.pending_auth, asked).dom().len()
            < s0.max_pending_authorizations,
        asks_for(s0, p, id, reg, verifier),
        back.within(asked, PENDING_AUTH_TTL_SECS as int),
        s0.access_of(user) is Some,
        !exchanged.beyond(issued, AUTH_CODE_TTL_SECS as int),
        exchanged.secs <= crate::time::LAST_SECOND,
        middleware::bearer_of(header) == Some(access),
        !used.beyond(exchanged, TOKEN_LIFETIME_SECS as int),
    ensures
        ({
            let s1 = registration::register_step(s0, reg, id, secret).0;
            let s2 = authorization::authorize_step(s1, p, onshape_verifier, csrf, asked).0;
            let params = CallbackParamsView {
                code: Some(onshape_code),
                state: Some(csrf),
                error: None,
            };
            let flow = s2.pending_auth[csrf];
            let s3 = callback::begin_step(s2, params, back).0;
            let s4 = callback::accept_step(s3, user, grant, kept);
            let s5 = callback::issue_step(s4, flow, user, true, code, issued).0;
            let (s6, answer) = token::token_step(
                s5,
                follow_up(p, reg, secret, code, verifier),
                access,
                refresh,
                exchanged,
            );
            let outcome = middleware::authentication(s6, Some(header), used);
            let sent = callback::finish_result(flow, code, true);
            &&& sent is Ok
            &&& sent->Ok_0 == outside::url_with_query(
                p.redirect_uri,
                match p.state {
                    Some(state) => seq![("code"@, code), ("state"@, state)],
                    None => seq![("code"@, code)],
                },
            )->Ok_0
            &&& answer is Ok
            &&& answer->Ok_0 == token::token_response(access, refresh)
            &&& outcome is Ok
            &&& outcome->Ok_0.user_id == user
            &&& outcome->Ok_0.onshape_tokens == callback::granted_tokens(grant, kept)
            &&& Some(outcome->Ok_0.access) == s0.access_of(user)
        }),
{
    let s1 = registration::register_step(s0, reg, id, secret).0;
    law_registered_client_opens_flow(
        s0,
        reg,
        id,
        secret,
        p,
        verifier,
        onshape_verifier,
        csrf,
        asked,
    );
    let s2 = authorization::authorize_step(s1, p, onshape_verifier, csrf, asked).0;
    law_returning_user_gets_code(
        s2,
        csrf,
        onshape_code,
        back,
        user,
        grant,
        kept,
        code,
        issued,
    );
    let flow = s2.pending_auth[csrf];
    super::upkeep::law_redirects_are_accepted_if_safe(reg.redirect_uris);
    let at = choose|at: int|
        0 <= at < reg.redirect_uris.len() && reg.redirect_uris[at] == p.redirect_uri;
    assert(super::upkeep::is_safe_target(reg.redirect_uris[at]));
    let params = CallbackParamsView { code: Some(onshape_code), state: Some(csrf), error: None };
    let s3 = callback::begin_step(s2, params, back).0;
    let s4 = callback::accept_step(s3, user, grant, kept);
    let s5 = callback::issue_step(s4, flow, user, true, code, issued).0;
    let req = follow_up(p, reg, secret, code, verifier);
    assert(s5.clients == s1.clients);
    assert(s5.clients[id] == registration::client_record(reg, id, secret));
    assert(token::client_auth_error(s5.clients[id], req.client_secret) is None) by {
        reveal_strlit("none");
        reveal_strlit("client_secret_post");
        assert("none"@.len() != "client_secret_post"@.len());
    }
    assert(token::auth_code_error(s5, req, exchanged) is None);
    let s6 = token::token_step(s5, req, access, refresh, exchanged).0;
    assert(s6.tokens.dom().contains(access));
}

} // verus!
