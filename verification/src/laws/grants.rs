//! When codes and refresh tokens are exchanged for tokens, and for which.

use vstd::prelude::*;

use super::terms;
use crate::errors::OAuthErrorView;
use crate::records::{CodeView, TokenView};
use crate::state::ServerView;
use crate::time::Timestamp;
use crate::token::{TokenRequestView, TokenResponseView};
use crate::{encoding, outside, token};

verus! {

/// Whether a token request was refused, with an error code and a description.
pub open spec fn refused(
    answer: Result<TokenResponseView, OAuthErrorView>,
    error: Seq<char>,
    description: Seq<char>,
) -> bool {
    answer matches Err(e) && e.status == 400 && e.error == error && e.description == description
}

/// Whether a request brings the verifier of a code's PKCE challenge, if the code has one.
pub open spec fn brings_verifier(code: CodeView, req: TokenRequestView) -> bool {
    code.pkce_code_challenge matches Some(challenge) ==> (req.code_verifier matches Some(verifier)
        && encoding::base64url_text(outside::sha256_digest(vstd::utf8::encode_utf8(verifier)))
        == challenge)
}

/// Whether a client has an answer that tells it of new tokens, good for an hour.
pub open spec fn is_told(
    answer: Result<TokenResponseView, OAuthErrorView>,
    access: Seq<char>,
    refresh: Seq<char>,
) -> bool {
    answer matches Ok(told) && told.access_token == access && told.refresh_token == Some(refresh)
        && told.token_type == "Bearer"@ && told.expires_in == 3600
}

/// A code is exchanged exactly if it was issued at most ten minutes ago, to the client that brings
/// it, which proves itself, names the code's redirect URI and resource, and brings the verifier.
pub proof fn law_code_is_exchanged_exactly_if(
    s: ServerView,
    req: TokenRequestView,
    access: Seq<char>,
    refresh: Seq<char>,
    now: Timestamp,
)
    requires
        req.grant_type == "authorization_code"@,
    ensures
        ({
            let code = s.auth_codes[req.code->0];
            token::token_step(s, req, access, refresh, now).1 is Ok <==> {
                &&& req.code is Some
                &&& s.auth_codes.dom().contains(req.code->0)
                &&& !terms::past(now, code.created_at, 600)
                &&& req.client_id == Some(code.client_id)
                &&& s.clients.dom().contains(code.client_id)
                &&& terms::proves_itself(s.clients[code.client_id], req.client_secret)
                &&& req.resource == Some(code.resource)
                &&& req.redirect_uri == Some(code.redirect_uri)
                &&& brings_verifier(code, req)
            }
        }),
{
    reveal_strlit("none");
    reveal_strlit("client_secret_post");
    assert("none"@.len() != "client_secret_post"@.len());
}

/// Whoever exchanges a code gets an access token for an hour and a refresh token for thirty days, both
/// for the user and the resource of the code, in place of the ones that the client had for the user.
/// The code is used up, and nothing else changes.
pub proof fn law_code_is_exchanged_for_tokens(
    s: ServerView,
    req: TokenRequestView,
    access: Seq<char>,
    refresh: Seq<char>,
    now: Timestamp,
)
    requires
        req.grant_type == "authorization_code"@,
        now.secs <= 8_210_266_876_799,
        token::token_step(s, req, access, refresh, now).1 is Ok,
    ensures
        ({
            let (after, answer) = token::token_step(s, req, access, refresh, now);
            let code = s.auth_codes[req.code->0];
            let user = code.user_id;
            let client = code.client_id;
            let resource = code.resource;
            &&& is_told(answer, access, refresh)
            &&& terms::is_new_token(after.tokens[access], user, client, resource, now, 3600)
            &&& terms::is_new_token(
                after.refresh_tokens[refresh],
                user,
                client,
                resource,
                now,
                2_592_000,
            )
            &&& terms::took_the_place(s.tokens, after.tokens, access)
            &&& terms::took_the_place(s.refresh_tokens, after.refresh_tokens, refresh)
            &&& after.auth_codes == s.auth_codes.remove(req.code->0)
            &&& after == (ServerView {
                auth_codes: after.auth_codes,
                tokens: after.tokens,
                refresh_tokens: after.refresh_tokens,
                ..s
            })
        }),
{
}

/// A refresh token is exchanged exactly if it was issued to the client that brings it, which proves
/// itself and names the token's resource, and has not run out.
pub proof fn law_refresh_token_is_exchanged_exactly_if(
    s: ServerView,
    req: TokenRequestView,
    access: Seq<char>,
    refresh: Seq<char>,
    now: Timestamp,
)
    requires
        req.grant_type == "refresh_token"@,
    ensures
        ({
            let held = s.refresh_tokens[req.refresh_token->0];
            token::token_step(s, req, access, refresh, now).1 is Ok <==> {
                &&& req.refresh_token is Some
                &&& s.refresh_tokens.dom().contains(req.refresh_token->0)
                &&& !terms::past(now, held.expires_at, 0)
                &&& req.client_id == Some(held.client_id)
                &&& s.clients.dom().contains(held.client_id)
                &&& terms::proves_itself(s.clients[held.client_id], req.client_secret)
                &&& req.resource == Some(held.resource)
            }
        }),
{
    lemma_grant_names();
    reveal_strlit("none");
    reveal_strlit("client_secret_post");
    assert("none"@.len() != "client_secret_post"@.len());
}

/// Whoever exchanges a refresh token gets new tokens, for an hour and for thirty days, for the same
/// user, client and resource, in place of the earlier ones. Nothing else changes.
pub proof fn law_refresh_token_is_exchanged_for_tokens(
    s: ServerView,
    req: TokenRequestView,
    access: Seq<char>,
    refresh: Seq<char>,
    now: Timestamp,
)
    requires
        req.grant_type == "refresh_token"@,
        now.secs <= 8_210_266_876_799,
        token::token_step(s, req, access, refresh, now).1 is Ok,
    ensures
        ({
            let (after, answer) = token::token_step(s, req, access, refresh, now);
            let old = req.refresh_token->0;
            let held = s.refresh_tokens[old];
            let user = held.user_id;
            let client = held.client_id;
            let resource = held.resource;
            &&& is_told(answer, access, refresh)
            &&& terms::is_new_token(after.tokens[access], user, client, resource, now, 3600)
            &&& terms::is_new_token(
                after.refresh_tokens[refresh],
                user,
                client,
                resource,
                now,
                2_592_000,
            )
            &&& terms::took_the_place(s.tokens, after.tokens, access)
            &&& terms::took_the_place(s.refresh_tokens, after.refresh_tokens, refresh)
            &&& old != refresh ==> !after.refresh_tokens.dom().contains(old)
            &&& after == (ServerView {
                tokens: after.tokens,
                refresh_tokens: after.refresh_tokens,
                ..s
            })
        }),
{
    lemma_grant_names();
}

/// A refresh token is good for its whole life: at any time within thirty days of the grant that it
/// came from, the client that got it gets new tokens for it, for the same user, if it proves itself
/// as it did then and names the same resource.
pub proof fn law_refresh_token_stays_good(
    s: ServerView,
    req: TokenRequestView,
    access: Seq<char>,
    refresh: Seq<char>,
    now: Timestamp,
    later_req: TokenRequestView,
    access2: Seq<char>,
    refresh2: Seq<char>,
    later: Timestamp,
)
    requires
        now.secs <= 8_210_266_876_799,
        later.secs <= 8_210_266_876_799,
        token::token_step(s, req, access, refresh, now).1 is Ok,
        !terms::past(later, now, 2_592_000),
        later_req.grant_type == "refresh_token"@,
        later_req.refresh_token == Some(refresh),
        later_req.client_id == req.client_id,
        terms::proves_itself(s.clients[req.client_id->0], later_req.client_secret),
        later_req.resource == req.resource,
    ensures
        ({
            let first = token::token_step(s, req, access, refresh, now).0;
            let (second, answer) = token::token_step(
                first,
                later_req,
                access2,
                refresh2,
                later,
            );
            let user = first.tokens[access].user_id;
            &&& is_told(answer, access2, refresh2)
            &&& terms::is_new_token(
                second.tokens[access2],
                user,
                req.client_id->0,
                req.resource->0,
                later,
                3600,
            )
            &&& terms::is_new_token(
                second.refresh_tokens[refresh2],
                user,
                req.client_id->0,
                req.resource->0,
                later,
                2_592_000,
            )
        }),
{
    lemma_grant_names();
    let first = token::token_step(s, req, access, refresh, now).0;
    if req.grant_type == "authorization_code"@ {
        law_code_is_exchanged_exactly_if(s, req, access, refresh, now);
        law_code_is_exchanged_for_tokens(s, req, access, refresh, now);
    } else {
        assert(req.grant_type == "refresh_token"@);
        law_refresh_token_is_exchanged_exactly_if(s, req, access, refresh, now);
        law_refresh_token_is_exchanged_for_tokens(s, req, access, refresh, now);
    }
    law_refresh_token_is_exchanged_exactly_if(first, later_req, access2, refresh2, later);
    law_refresh_token_is_exchanged_for_tokens(first, later_req, access2, refresh2, later);
}

/// An access token is good for its whole life: whoever got it is let in with it within an hour, as
/// the user of the grant, if the user is let in and has Onshape tokens.
pub proof fn law_access_token_stays_good(
    s: ServerView,
    req: TokenRequestView,
    access: Seq<char>,
    refresh: Seq<char>,
    now: Timestamp,
    later: Timestamp,
)
    requires
        now.secs <= 8_210_266_876_799,
        token::token_step(s, req, access, refresh, now).1 is Ok,
        !terms::past(later, now, 3600),
        req.resource == Some(terms::at_path(s.public_url, "/mcp"@)),
        ({
            let user = token::token_step(s, req, access, refresh, now).0.tokens[access].user_id;
            &&& s.allowed_users matches Some(listed) ==> listed.dom().contains(user)
            &&& s.user_credentials.users.dom().contains(user)
            &&& s.user_credentials.users[user].tokens is Some
        }),
    ensures
        ({
            let after = token::token_step(s, req, access, refresh, now).0;
            let context = crate::state::context_of(after, access, later);
            &&& context is Some
            &&& context->0.user_id == after.tokens[access].user_id
        }),
{
    lemma_grant_names();
    terms::lemma_own_urls(s.public_url);
    if req.grant_type == "authorization_code"@ {
        law_code_is_exchanged_exactly_if(s, req, access, refresh, now);
        law_code_is_exchanged_for_tokens(s, req, access, refresh, now);
    } else {
        assert(req.grant_type == "refresh_token"@);
        law_refresh_token_is_exchanged_exactly_if(s, req, access, refresh, now);
        law_refresh_token_is_exchanged_for_tokens(s, req, access, refresh, now);
    }
}

proof fn lemma_grant_names()
    ensures
        "authorization_code"@ != "refresh_token"@,
{
    reveal_strlit("authorization_code");
    reveal_strlit("refresh_token");
    assert("authorization_code"@.len() != "refresh_token"@.len());
}

/// A client that does not prove itself is told why.
pub open spec fn identity_refused(
    answer: Result<TokenResponseView, OAuthErrorView>,
    client: crate::records::ClientView,
    secret: Option<Seq<char>>,
) -> bool {
    let method = client.token_endpoint_auth_method;
    if method == "none"@ {
        refused(answer, "invalid_client"@, "public client must not send client_secret"@)
    } else if method != "client_secret_post"@ {
        refused(
            answer,
            "invalid_client"@,
            "unsupported registered client authentication method"@,
        )
    } else if client.client_secret is None {
        refused(answer, "invalid_client"@, "client secret is unavailable"@)
    } else if secret is None {
        refused(answer, "invalid_client"@, "missing client_secret"@)
    } else {
        refused(answer, "invalid_client"@, "invalid client_secret"@)
    }
}

/// A client whose code is refused is told why, the first reason that there is. A grant of another
/// kind is refused, whatever the request brings.
pub proof fn law_refused_code_is_explained(
    s: ServerView,
    req: TokenRequestView,
    access: Seq<char>,
    refresh: Seq<char>,
    now: Timestamp,
)
    ensures
        ({
            let (after, answer) = token::token_step(s, req, access, refresh, now);
            let code: CodeView = s.auth_codes[req.code->0];
            let known = req.code is Some && s.auth_codes.dom().contains(req.code->0)
                && !terms::past(now, code.created_at, 600);
            let own = known && req.client_id == Some(code.client_id);
            let registered = own && s.clients.dom().contains(code.client_id);
            let proven = registered && terms::proves_itself(
                s.clients[code.client_id],
                req.client_secret,
            );
            let aimed = proven && req.resource == Some(code.resource);
            let returned = aimed && req.redirect_uri == Some(code.redirect_uri);
            &&& answer is Err ==> after == s
            &&& req.grant_type != "authorization_code"@ && req.grant_type != "refresh_token"@
                ==> refused(
                answer,
                "unsupported_grant_type"@,
                "Only authorization_code and refresh_token are supported"@,
            )
            &&& req.grant_type == "authorization_code"@ ==> {
                &&& req.code is None ==> refused(answer, "invalid_request"@, "missing code"@)
                &&& req.code is Some && !known ==> refused(
                    answer,
                    "invalid_grant"@,
                    "unknown or expired code"@,
                )
                &&& known && !own ==> refused(answer, "invalid_client"@, "client_id mismatch"@)
                &&& own && !registered ==> refused(
                    answer,
                    "invalid_client"@,
                    "unknown client_id"@,
                )
                &&& registered && !proven ==> identity_refused(
                    answer,
                    s.clients[code.client_id],
                    req.client_secret,
                )
                &&& proven && !aimed ==> refused(
                    answer,
                    "invalid_target"@,
                    "resource mismatch"@,
                )
                &&& aimed && !returned ==> refused(
                    answer,
                    "invalid_grant"@,
                    "redirect_uri mismatch"@,
                )
                &&& returned && code.pkce_code_challenge is Some && req.code_verifier is None
                    ==> refused(answer, "invalid_grant"@, "missing code_verifier"@)
                &&& returned && req.code_verifier is Some && !brings_verifier(code, req)
                    ==> refused(answer, "invalid_grant"@, "PKCE verification failed"@)
            }
        }),
{
    reveal_strlit("none");
    reveal_strlit("client_secret_post");
    assert("none"@.len() != "client_secret_post"@.len());
}

/// A client whose refresh token is refused is told why, the first reason that there is.
pub proof fn law_refused_refresh_token_is_explained(
    s: ServerView,
    req: TokenRequestView,
    access: Seq<char>,
    refresh: Seq<char>,
    now: Timestamp,
)
    requires
        req.grant_type == "refresh_token"@,
    ensures
        ({
            let answer = token::token_step(s, req, access, refresh, now).1;
            let held: TokenView = s.refresh_tokens[req.refresh_token->0];
            let named = req.refresh_token is Some && req.client_id is Some;
            let registered = named && s.clients.dom().contains(req.client_id->0);
            let proven = registered && terms::proves_itself(
                s.clients[req.client_id->0],
                req.client_secret,
            );
            let known = proven && s.refresh_tokens.dom().contains(req.refresh_token->0);
            let alive = known && !terms::past(now, held.expires_at, 0);
            let own = alive && req.client_id == Some(held.client_id);
            &&& req.refresh_token is None ==> refused(
                answer,
                "invalid_request"@,
                "missing refresh_token"@,
            )
            &&& req.refresh_token is Some && req.client_id is None ==> refused(
                answer,
                "invalid_client"@,
                "missing client_id"@,
            )
            &&& named && !registered ==> refused(answer, "invalid_client"@, "unknown client_id"@)
            &&& registered && !proven ==> identity_refused(
                answer,
                s.clients[req.client_id->0],
                req.client_secret,
            )
            &&& proven && !known ==> refused(
                answer,
                "invalid_grant"@,
                "unknown or expired refresh_token"@,
            )
            &&& known && !alive ==> refused(answer, "invalid_grant"@, "refresh_token expired"@)
            &&& alive && !own ==> refused(
                answer,
                "invalid_grant"@,
                "refresh_token not bound to this client"@,
            )
            &&& own && req.resource != Some(held.resource) ==> refused(
                answer,
                "invalid_target"@,
                "resource mismatch"@,
            )
        }),
{
    lemma_grant_names();
    reveal_strlit("none");
    reveal_strlit("client_secret_post");
    assert("none"@.len() != "client_secret_post"@.len());
}

/// A client gets its tokens exactly if they were saved, and gets them as they were granted.
pub proof fn law_tokens_count_once_saved(
    grant_type: Seq<char>,
    response: TokenResponseView,
    saved: bool,
)
    ensures
        ({
            let answer = token::settled(grant_type, response, saved);
            &&& saved ==> answer == Ok::<TokenResponseView, OAuthErrorView>(response)
            &&& !saved && grant_type == "refresh_token"@ ==> refused(
                answer,
                "server_error"@,
                "failed to persist refreshed token"@,
            )
            &&& !saved && grant_type != "refresh_token"@ ==> refused(
                answer,
                "server_error"@,
                "failed to persist issued token"@,
            )
        }),
{
}

} // verus!
