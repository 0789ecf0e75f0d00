//! Codes, tokens and who they let in.

use vstd::prelude::*;

use crate::callback::CallbackParamsView;
use crate::records::TokenView;
use crate::registration::RegisterRequestView;
use crate::state::{
    ServerView, AUTH_CODE_TTL_SECS, PENDING_AUTH_TTL_SECS, REFRESH_TOKEN_LIFETIME_SECS,
    TOKEN_LIFETIME_SECS,
};
use crate::time::Timestamp;
use crate::token::TokenRequestView;
use crate::{authorization, callback, errors, middleware, registration, state, token};

verus! {

/// A refused token request changes nothing: neither a code nor a token is used up by it.
pub proof fn law_refused_token_request_changes_nothing(
    s: ServerView,
    req: TokenRequestView,
    access: Seq<char>,
    refresh: Seq<char>,
    now: Timestamp,
)
    requires
        token::token_step(s, req, access, refresh, now).1 is Err,
    ensures
        token::token_step(s, req, access, refresh, now).0 == s,
{
}

/// A refused registration changes nothing.
pub proof fn law_refused_registration_changes_nothing(
    s: ServerView,
    req: RegisterRequestView,
    id: Seq<char>,
    secret: Seq<char>,
)
    requires
        registration::register_step(s, req, id, secret).1 is Err,
    ensures
        registration::register_step(s, req, id, secret).0 == s,
{
}

/// A registration that cannot be saved leaves the server as it was.
pub proof fn law_unsaved_registration_is_undone(
    s: ServerView,
    req: RegisterRequestView,
    id: Seq<char>,
    secret: Seq<char>,
)
    requires
        !s.clients.dom().contains(id),
        registration::register_step(s, req, id, secret).1 is Ok,
    ensures
        registration::without_client(registration::register_step(s, req, id, secret).0, id) == s,
{
    let after = registration::without_client(
        registration::register_step(s, req, id, secret).0,
        id,
    );
    assert(after.clients =~= s.clients);
}

/// An authorization code is good for one grant: whoever brings it again, and whenever, is refused.
pub proof fn law_code_is_single_use(
    s: ServerView,
    req: TokenRequestView,
    access: Seq<char>,
    refresh: Seq<char>,
    now: Timestamp,
    again: TokenRequestView,
    access2: Seq<char>,
    refresh2: Seq<char>,
    later: Timestamp,
)
    requires
        token::auth_code_step(s, req, access, refresh, now).1 is Ok,
        again.code == req.code,
    ensures
        ({
            let after = token::auth_code_step(s, req, access, refresh, now).0;
            token::auth_code_step(after, again, access2, refresh2, later) == (
                after,
                Err::<token::TokenResponseView, errors::OAuthErrorView>(
                    errors::token_error_view("invalid_grant"@, "unknown or expired code"@),
                ),
            )
        }),
{
}

/// A refresh token is good for one grant: it is gone after it, unless the new one has the same
/// text.
pub proof fn law_refresh_token_is_single_use(
    s: ServerView,
    req: TokenRequestView,
    access: Seq<char>,
    refresh: Seq<char>,
    now: Timestamp,
    again: TokenRequestView,
    access2: Seq<char>,
    refresh2: Seq<char>,
    later: Timestamp,
)
    requires
        token::refresh_step(s, req, access, refresh, now).1 is Ok,
        refresh != req.refresh_token->0,
        again.refresh_token == req.refresh_token,
    ensures
        ({
            let after = token::refresh_step(s, req, access, refresh, now).0;
            let second = token::refresh_step(after, again, access2, refresh2, later);
            !after.refresh_tokens.dom().contains(req.refresh_token->0) && second.1 is Err
                && second.0 == after
        }),
{
}

/// Whether no client has two tokens for the same user.
pub open spec fn one_per_pair(tokens: Map<Seq<char>, TokenView>) -> bool {
    forall|j: Seq<char>, k: Seq<char>|
        #![trigger tokens.dom().contains(j), tokens.dom().contains(k)]
        tokens.dom().contains(j) && tokens.dom().contains(k) && state::is_for(
            tokens[j],
            tokens[k].user_id,
            tokens[k].client_id,
        ) ==> j == k
}

/// A new token is the only one that its client has for its user, whatever there was before.
pub proof fn law_new_token_is_the_only_one(
    tokens: Map<Seq<char>, TokenView>,
    key: Seq<char>,
    token: TokenView,
)
    ensures
        forall|k: Seq<char>|
            state::replaced(tokens, key, token).dom().contains(k) && state::is_for(
                #[trigger] state::replaced(tokens, key, token)[k],
                token.user_id,
                token.client_id,
            ) ==> k == key,
        state::replaced(tokens, key, token).dom().contains(key),
        state::replaced(tokens, key, token)[key] == token,
        one_per_pair(tokens) ==> one_per_pair(state::replaced(tokens, key, token)),
{
}

/// A new token touches no token of another user or another client, but for one with its own text.
pub proof fn law_new_token_leaves_others_alone(
    tokens: Map<Seq<char>, TokenView>,
    key: Seq<char>,
    token: TokenView,
    other: Seq<char>,
)
    requires
        other != key,
        tokens.dom().contains(other),
        !state::is_for(tokens[other], token.user_id, token.client_id),
    ensures
        state::replaced(tokens, key, token).dom().contains(other),
        state::replaced(tokens, key, token)[other] == tokens[other],
{
}

/// After a grant the access and refresh tokens that the client had for the user before are
/// revoked, and the new ones are there.
pub proof fn law_grant_revokes_earlier_tokens(
    s: ServerView,
    req: TokenRequestView,
    access: Seq<char>,
    refresh: Seq<char>,
    now: Timestamp,
    earlier: Seq<char>,
)
    requires
        token::token_step(s, req, access, refresh, now).1 is Ok,
    ensures
        ({
            let after = token::token_step(s, req, access, refresh, now).0;
            let held = after.tokens[access];
            &&& after.tokens.dom().contains(access)
            &&& after.refresh_tokens.dom().contains(refresh)
            &&& earlier != access && s.tokens.dom().contains(earlier) && state::is_for(
                s.tokens[earlier],
                held.user_id,
                held.client_id,
            ) ==> !after.tokens.dom().contains(earlier)
            &&& earlier != refresh && s.refresh_tokens.dom().contains(earlier) && state::is_for(
                s.refresh_tokens[earlier],
                held.user_id,
                held.client_id,
            ) ==> !after.refresh_tokens.dom().contains(earlier)
        }),
{
}

/// A refresh token is not accepted as a bearer token, unless it has the text of an access token.
pub proof fn law_refresh_token_is_no_bearer_token(
    s: ServerView,
    req: TokenRequestView,
    access: Seq<char>,
    refresh: Seq<char>,
    now: Timestamp,
    later: Timestamp,
)
    requires
        token::token_step(s, req, access, refresh, now).1 is Ok,
        refresh != access,
        !s.tokens.dom().contains(refresh),
    ensures
        state::context_of(
            token::token_step(s, req, access, refresh, now).0,
            refresh,
            later,
        ) is None,
{
}

/// What is not among the access tokens lets nobody in.
pub proof fn law_unknown_token_lets_nobody_in(s: ServerView, text: Seq<char>, now: Timestamp)
    requires
        !s.tokens.dom().contains(text),
    ensures
        state::context_of(s, text, now) is None,
{
}

/// Whoever is let in has a token that was issued for this very server, is on the list of users if
/// there is one, and gets the access listed there; without a list every user has full access.
pub proof fn law_who_is_let_in(s: ServerView, text: Seq<char>, now: Timestamp)
    requires
        state::context_of(s, text, now) is Some,
    ensures
        s.tokens.dom().contains(text),
        s.tokens[text].resource == s.resource(),
        !now.later_than(s.tokens[text].expires_at),
        ({
            let context = state::context_of(s, text, now)->0;
            &&& context.user_id == s.tokens[text].user_id
            &&& match s.allowed_users {
                Some(listed) => listed.dom().contains(context.user_id) && context.access
                    == listed[context.user_id],
                None => context.access == crate::records::AccessLevel::Full,
            }
        }),
{
}

/// A user who is not on the list is turned away when coming back from Onshape, and is told so.
pub proof fn law_unlisted_user_is_turned_away(
    s: ServerView,
    flow: callback::CallbackGrantView,
    session: callback::SessionInfo,
)
    requires
        s.allowed_users matches Some(listed) && !listed.dom().contains(session.id@),
    ensures
        callback::identity_result(s, flow, callback::IdentityOutcome::Session(session)) == Err::<
            callback::CallbackUserView,
            errors::HttpErrorView,
        >(
            errors::http_error_view(
                errors::FORBIDDEN,
                callback::not_authorized_text(session.id@),
            ),
        ),
{
}

/// Without a list, every user who authorizes with Onshape is let in, with the same full access.
pub proof fn law_everybody_is_let_in_without_list(
    s: ServerView,
    flow: callback::CallbackGrantView,
    session: callback::SessionInfo,
)
    requires
        s.allowed_users is None,
    ensures
        callback::identity_result(
            s,
            flow,
            callback::IdentityOutcome::Session(session),
        ) is Ok,
        s.access_of(session.id@) == Some(crate::records::AccessLevel::Full),
{
}

/// An access token lets its user in for an hour, and no longer.
pub proof fn law_access_token_lifetime(
    s: ServerView,
    req: TokenRequestView,
    access: Seq<char>,
    refresh: Seq<char>,
    now: Timestamp,
    later: Timestamp,
)
    requires
        now.secs <= crate::time::LAST_SECOND,
        token::token_step(s, req, access, refresh, now).1 is Ok,
    ensures
        ({
            let after = token::token_step(s, req, access, refresh, now).0;
            let held = after.tokens[access];
            state::context_of(after, access, later) is Some <==> {
                &&& !later.beyond(now, TOKEN_LIFETIME_SECS as int)
                &&& held.resource == s.resource()
                &&& s.access_of(held.user_id) is Some
                &&& s.user_credentials.tokens_of(held.user_id) is Some
            }
        }),
{
}

/// A refresh token is refused after thirty days.
pub proof fn law_refresh_token_lifetime(
    s: ServerView,
    req: TokenRequestView,
    access: Seq<char>,
    refresh: Seq<char>,
    now: Timestamp,
    later_req: TokenRequestView,
    later: Timestamp,
)
    requires
        now.secs <= crate::time::LAST_SECOND,
        token::token_step(s, req, access, refresh, now).1 is Ok,
        later_req.refresh_token == Some(refresh),
        later.beyond(now, REFRESH_TOKEN_LIFETIME_SECS as int),
    ensures
        token::refresh_error(
            token::token_step(s, req, access, refresh, now).0,
            later_req,
            later,
        ) is Some,
{
}

/// An authorization code is refused after ten minutes.
pub proof fn law_code_expires(s: ServerView, req: TokenRequestView, now: Timestamp)
    requires
        req.code matches Some(code) && s.auth_codes.dom().contains(code) && now.beyond(
            s.auth_codes[code].created_at,
            AUTH_CODE_TTL_SECS as int,
        ),
    ensures
        token::auth_code_error(s, req, now) == Some(
            errors::token_error_view("invalid_grant"@, "unknown or expired code"@),
        ),
{
}

/// A flow that comes back from Onshape is consumed whatever comes of it, and a second return is
/// refused.
pub proof fn law_flow_is_single_use(
    s: ServerView,
    p: CallbackParamsView,
    now: Timestamp,
    again: CallbackParamsView,
    later: Timestamp,
)
    requires
        callback::params_error(p) is None,
        again.state == p.state,
    ensures
        !callback::begin_step(s, p, now).0.pending_auth.dom().contains(p.state->0),
        callback::begin_step(callback::begin_step(s, p, now).0, again, later).1 is Err,
{
}

/// A flow that comes back after ten minutes is refused.
pub proof fn law_flow_expires(s: ServerView, p: CallbackParamsView, now: Timestamp)
    requires
        callback::params_error(p) is None,
        s.pending_auth.dom().contains(p.state->0),
        !now.within(s.pending_auth[p.state->0].created_at, PENDING_AUTH_TTL_SECS as int),
    ensures
        callback::begin_step(s, p, now).1 == Err::<
            callback::CallbackStartView,
            errors::HttpErrorView,
        >(errors::http_error_view(errors::BAD_REQUEST, "unknown or expired state"@)),
{
}

/// An authorization without a PKCE challenge made by S256 is refused, and so is one for another
/// resource, or to a redirect URI that the client did not register.
pub proof fn law_authorization_is_bound(
    s: ServerView,
    p: authorization::AuthorizeView,
    verifier: Seq<char>,
    csrf: Seq<char>,
    now: Timestamp,
)
    requires
        authorization::authorize_step(s, p, verifier, csrf, now).1 is Ok,
    ensures
        p.code_challenge is Some,
        p.code_challenge_method == Some("S256"@),
        p.resource == Some(s.resource()),
        s.clients.dom().contains(p.client_id),
        s.clients[p.client_id].redirect_uris.contains(p.redirect_uri),
{
}

/// A code is exchanged only by the client that it was issued to, which authenticates the way it
/// registered, names the same redirect URI and resource, and proves by PKCE that it began the flow
/// if the code carries a challenge.
pub proof fn law_code_is_bound(
    s: ServerView,
    req: TokenRequestView,
    access: Seq<char>,
    refresh: Seq<char>,
    now: Timestamp,
)
    requires
        token::auth_code_step(s, req, access, refresh, now).1 is Ok,
    ensures
        ({
            let code = s.auth_codes[req.code->0];
            &&& s.auth_codes.dom().contains(req.code->0)
            &&& req.client_id == Some(code.client_id)
            &&& s.clients.dom().contains(code.client_id)
            &&& token::client_auth_error(s.clients[code.client_id], req.client_secret) is None
            &&& req.redirect_uri == Some(code.redirect_uri)
            &&& req.resource == Some(code.resource)
            &&& code.pkce_code_challenge matches Some(challenge) ==> req.code_verifier is Some
                && token::s256(req.code_verifier->0) == challenge
        }),
{
}

/// A client that authenticates with a secret cannot get tokens without it; a public one cannot
/// pass for one that has a secret.
pub proof fn law_secret_is_required(
    client: crate::records::ClientView,
    provided: Option<Seq<char>>,
)
    requires
        token::client_auth_error(client, provided) is None,
    ensures
        client.token_endpoint_auth_method == "client_secret_post"@ && client.client_secret is Some
            && provided == client.client_secret || client.token_endpoint_auth_method == "none"@ && (
        provided is None || provided->0.len() == 0),
{
}

/// A refused request is told where the metadata of the MCP endpoint are, with status 401.
pub proof fn law_refusal_names_metadata(s: ServerView, header: Option<Seq<char>>, now: Timestamp)
    requires
        middleware::authentication(s, header, now) is Err,
    ensures
        ({
            let refusal = middleware::authentication(s, header, now)->Err_0;
            let head = "Bearer resource_metadata=\""@ + crate::url::resource_metadata_url(
                s.public_url,
            );
            refusal.status == 401 && head.is_prefix_of(refusal.www_authenticate)
        }),
{
    let refusal = middleware::authentication(s, header, now)->Err_0;
    let head = "Bearer resource_metadata=\""@ + crate::url::resource_metadata_url(s.public_url);
    assert(refusal.www_authenticate.take(head.len() as int) =~= head);
}

} // verus!
