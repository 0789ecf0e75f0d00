//! Which clients are registered, and with what.

use vstd::prelude::*;

use super::terms;
use crate::errors::OAuthErrorView;
use crate::records::ClientView;
use crate::registration::{RegisterRequestView, RegisterResponseView};
use crate::state::ServerView;
use crate::{endpoints, outside, registration, url};

verus! {

/// Whether a registration asks for nothing that the server does not offer: it names at least one
/// redirect URI, all of which clients may be sent back to, no grants but the authorization code and
/// the refresh token, no response type but the code, and no way to authenticate but a posted secret
/// or none.
pub open spec fn is_acceptable(req: RegisterRequestView) -> bool {
    &&& req.redirect_uris.len() > 0
    &&& forall|i: int|
        0 <= i < req.redirect_uris.len() ==> terms::may_be_sent_to(#[trigger] req.redirect_uris[i])
    &&& forall|i: int|
        0 <= i < req.grant_types.len() ==> #[trigger] req.grant_types[i] == "authorization_code"@
            || req.grant_types[i] == "refresh_token"@
    &&& forall|i: int|
        0 <= i < req.response_types.len() ==> #[trigger] req.response_types[i] == "code"@
    &&& req.token_endpoint_auth_method matches Some(method) ==> method == "none"@ || method
        == "client_secret_post"@
}

/// Whether an entry is the first of a list that is not among the supported ones.
pub open spec fn is_first_odd(list: Seq<Seq<char>>, supported: Seq<Seq<char>>, at: int) -> bool {
    &&& 0 <= at < list.len()
    &&& !supported.contains(list[at])
    &&& forall|j: int| 0 <= j < at ==> supported.contains(#[trigger] list[j])
}

/// The URL of a loopback host or of `https` is what keeps secrets, and nothing else is.
pub proof fn law_confidential_urls(parts: outside::UrlParts)
    ensures
        url::is_confidential(parts) <==> terms::keeps_secrets(parts),
{
}

proof fn lemma_unsupported(list: Seq<Seq<char>>, supported: Seq<Seq<char>>)
    ensures
        registration::first_unsupported(list, supported) is None <==> forall|i: int|
            0 <= i < list.len() ==> supported.contains(#[trigger] list[i]),
    decreases list.len(),
{
    if list.len() > 0 {
        let rest = list.drop_first();
        lemma_unsupported(rest, supported);
        if registration::first_unsupported(list, supported) is None {
            assert forall|i: int| 0 <= i < list.len() implies supported.contains(
                #[trigger] list[i],
            ) by {
                if i > 0 {
                    assert(rest[i - 1] == list[i]);
                }
            }
        }
        if forall|i: int| 0 <= i < list.len() ==> supported.contains(#[trigger] list[i]) {
            assert(supported.contains(list[0]));
            assert forall|i: int| 0 <= i < rest.len() implies supported.contains(
                #[trigger] rest[i],
            ) by {
                assert(rest[i] == list[i + 1]);
            }
        }
    }
}

proof fn lemma_first_odd(list: Seq<Seq<char>>, supported: Seq<Seq<char>>, at: int)
    requires
        is_first_odd(list, supported, at),
    ensures
        registration::first_unsupported(list, supported) == Some(list[at]),
    decreases list.len(),
{
    if at > 0 {
        let rest = list.drop_first();
        assert(supported.contains(list[0]));
        assert forall|j: int| 0 <= j < at - 1 implies supported.contains(#[trigger] rest[j]) by {
            assert(rest[j] == list[j + 1]);
        }
        assert(rest[at - 1] == list[at]);
        lemma_first_odd(rest, supported, at - 1);
    }
}

proof fn lemma_first_bad_redirect(uris: Seq<Seq<char>>, at: int)
    requires
        0 <= at < uris.len(),
        !terms::may_be_sent_to(uris[at]),
        forall|j: int| 0 <= j < at ==> terms::may_be_sent_to(#[trigger] uris[j]),
    ensures
        url::redirects_error(uris) == url::redirect_error(uris[at]),
        url::redirect_error(uris[at]) is Some,
    decreases uris.len(),
{
    if at > 0 {
        let rest = uris.drop_first();
        assert(terms::may_be_sent_to(uris[0]));
        assert forall|j: int| 0 <= j < at - 1 implies terms::may_be_sent_to(#[trigger] rest[j]) by {
            assert(rest[j] == uris[j + 1]);
        }
        assert(rest[at - 1] == uris[at]);
        lemma_first_bad_redirect(rest, at - 1);
    }
}

proof fn lemma_redirects(uris: Seq<Seq<char>>)
    ensures
        url::redirects_error(uris) is None <==> forall|i: int|
            0 <= i < uris.len() ==> terms::may_be_sent_to(#[trigger] uris[i]),
{
    super::upkeep::law_redirects_are_accepted_if_safe(uris);
    if url::redirects_error(uris) is None {
        assert forall|i: int| 0 <= i < uris.len() implies terms::may_be_sent_to(
            #[trigger] uris[i],
        ) by {
            assert(super::upkeep::is_safe_target(uris[i]));
        }
    }
    if forall|i: int| 0 <= i < uris.len() ==> terms::may_be_sent_to(#[trigger] uris[i]) {
        assert forall|i: int| 0 <= i < uris.len() implies super::upkeep::is_safe_target(
            #[trigger] uris[i],
        ) by {
            assert(terms::may_be_sent_to(uris[i]));
        }
    }
}

proof fn lemma_grants(list: Seq<Seq<char>>)
    ensures
        registration::first_unsupported(list, registration::supported_grant_types()) is None
            <==> forall|i: int|
            0 <= i < list.len() ==> #[trigger] list[i] == "authorization_code"@ || list[i]
                == "refresh_token"@,
        registration::first_unsupported(list, registration::supported_response_types()) is None
            <==> forall|i: int| 0 <= i < list.len() ==> #[trigger] list[i] == "code"@,
{
    let grants = registration::supported_grant_types();
    let responses = registration::supported_response_types();
    lemma_unsupported(list, grants);
    lemma_unsupported(list, responses);
    assert(grants[0] == "authorization_code"@ && grants[1] == "refresh_token"@);
    assert(responses[0] == "code"@);
    assert forall|i: int| 0 <= i < list.len() implies (grants.contains(list[i]) <==> (
    #[trigger] list[i] == "authorization_code"@ || list[i] == "refresh_token"@)) by {}
    assert forall|i: int| 0 <= i < list.len() implies (responses.contains(list[i]) <==> #[trigger]
    list[i] == "code"@) by {}
}

/// A registration is accepted exactly if it asks for nothing that the server does not offer.
pub proof fn law_registration_is_accepted_exactly_if(req: RegisterRequestView)
    ensures
        registration::request_error(req) is None <==> is_acceptable(req),
{
    lemma_redirects(req.redirect_uris);
    lemma_grants(req.grant_types);
    lemma_grants(req.response_types);
}

/// A client is registered exactly if its request is acceptable and there is room, and then it is kept
/// with what it asked for and told so: with a secret exactly if it authenticates with one, which
/// never expires. Nothing else changes.
pub proof fn law_registered_client_gets_what_it_asked_for(
    s: ServerView,
    req: RegisterRequestView,
    id: Seq<char>,
    secret: Seq<char>,
)
    ensures
        ({
            let (after, answer) = registration::register_step(s, req, id, secret);
            let posts = req.token_endpoint_auth_method == Some("client_secret_post"@);
            let method = match req.token_endpoint_auth_method {
                Some(method) => method,
                None => "none"@,
            };
            &&& answer is Ok <==> is_acceptable(req) && s.clients.dom().len()
                < s.max_registered_clients
            &&& answer is Err ==> after == s
            &&& answer is Ok ==> {
                let told: RegisterResponseView = answer->Ok_0;
                let kept: ClientView = after.clients[id];
                &&& after == (ServerView { clients: after.clients, ..s })
                &&& after.clients == s.clients.insert(id, kept)
                &&& kept.client_id == id && told.client_id == id
                &&& kept.redirect_uris == req.redirect_uris && told.redirect_uris
                    == req.redirect_uris
                &&& kept.token_endpoint_auth_method == method && told.token_endpoint_auth_method
                    == method
                &&& posts ==> kept.client_secret == Some(secret) && told.client_secret == Some(
                    secret,
                ) && told.client_secret_expires_at == Some(0u64)
                &&& !posts ==> kept.client_secret is None && told.client_secret is None
                    && told.client_secret_expires_at is None
                &&& told.client_name == req.client_name
                &&& req.grant_types.len() > 0 ==> told.grant_types == req.grant_types
                &&& req.grant_types.len() == 0 ==> told.grant_types == seq![
                    "authorization_code"@,
                    "refresh_token"@,
                ]
                &&& req.response_types.len() > 0 ==> told.response_types == req.response_types
                &&& req.response_types.len() == 0 ==> told.response_types == seq!["code"@]
            }
        }),
{
    law_registration_is_accepted_exactly_if(req);
    reveal_strlit("none");
    reveal_strlit("client_secret_post");
    assert("none"@.len() != "client_secret_post"@.len());
}

/// A client that is refused is told why: what is wrong with its request, the first such thing, or that
/// the server is full.
pub proof fn law_refused_client_is_told_why(
    s: ServerView,
    req: RegisterRequestView,
    id: Seq<char>,
    secret: Seq<char>,
    at: int,
)
    ensures
        ({
            let answer = registration::register_step(s, req, id, secret).1;
            let uris = req.redirect_uris;
            let grants = req.grant_types;
            let responses = req.response_types;
            let safe = forall|i: int|
                0 <= i < uris.len() ==> terms::may_be_sent_to(#[trigger] uris[i]);
            let granted = forall|i: int|
                0 <= i < grants.len() ==> #[trigger] grants[i] == "authorization_code"@
                    || grants[i] == "refresh_token"@;
            let answered = forall|i: int|
                0 <= i < responses.len() ==> #[trigger] responses[i] == "code"@;
            &&& uris.len() == 0 ==> refused_for(answer, "redirect_uris must not be empty"@)
            &&& 0 <= at < uris.len() && !terms::may_be_sent_to(uris[at]) && (forall|j: int|
                0 <= j < at ==> terms::may_be_sent_to(#[trigger] uris[j])) ==> refused_for(
                answer,
                if outside::url_parts(uris[at]) is None {
                    "invalid redirect_uri: "@ + uris[at]
                } else {
                    "redirect_uri must use https:// or http:// with a loopback host: "@ + uris[at]
                },
            )
            &&& uris.len() > 0 && safe && is_first_odd(
                grants,
                seq!["authorization_code"@, "refresh_token"@],
                at,
            ) ==> refused_for(answer, "unsupported grant_type: "@ + grants[at])
            &&& uris.len() > 0 && safe && granted && is_first_odd(responses, seq!["code"@], at)
                ==> refused_for(answer, "unsupported response_type: "@ + responses[at])
            &&& uris.len() > 0 && safe && granted && answered && !is_acceptable(req)
                ==> refused_for(
                answer,
                "unsupported token_endpoint_auth_method: "@ + req.token_endpoint_auth_method->0,
            )
            &&& is_acceptable(req) && s.clients.dom().len() >= s.max_registered_clients ==> answer
                == Err::<RegisterResponseView, OAuthErrorView>(
                OAuthErrorView {
                    status: 429,
                    error: "temporarily_unavailable"@,
                    description: "dynamic client registration capacity reached"@,
                },
            )
        }),
{
    let uris = req.redirect_uris;
    law_registration_is_accepted_exactly_if(req);
    lemma_redirects(uris);
    lemma_grants(req.grant_types);
    lemma_grants(req.response_types);
    if 0 <= at < uris.len() && !terms::may_be_sent_to(uris[at]) && (forall|j: int|
        0 <= j < at ==> terms::may_be_sent_to(#[trigger] uris[j])) {
        lemma_first_bad_redirect(uris, at);
    }
    assert(registration::supported_grant_types() =~= seq![
        "authorization_code"@,
        "refresh_token"@,
    ]);
    assert(registration::supported_response_types() =~= seq!["code"@]);
    if is_first_odd(req.grant_types, registration::supported_grant_types(), at) {
        lemma_first_odd(req.grant_types, registration::supported_grant_types(), at);
    }
    if is_first_odd(req.response_types, registration::supported_response_types(), at) {
        lemma_first_odd(req.response_types, registration::supported_response_types(), at);
    }
}

/// Whether a client was refused for what it asked for.
pub open spec fn refused_for(
    answer: Result<RegisterResponseView, OAuthErrorView>,
    description: Seq<char>,
) -> bool {
    answer matches Err(e) && e.status == 400 && e.error == "invalid_client_metadata"@
        && e.description == description
}

/// What the server advertises is what it does: its endpoints are where they are served, the resource is
/// the one that tokens are for, and a client may register for every grant, every response type and
/// every way to authenticate that is named, and for no other.
pub proof fn law_metadata_tell_the_truth(s: ServerView, req: RegisterRequestView)
    ensures
        ({
            let server = endpoints::server_metadata_of(s);
            let resource = endpoints::resource_metadata_of(s);
            &&& server.issuer == s.public_url
            &&& server.authorization_endpoint == terms::at_path(s.public_url, "/oauth/authorize"@)
            &&& server.token_endpoint == terms::at_path(s.public_url, "/oauth/token"@)
            &&& server.registration_endpoint == terms::at_path(s.public_url, "/oauth/register"@)
            &&& server.code_challenge_methods_supported == seq!["S256"@]
            &&& server.scopes_supported.len() == 0
            &&& resource.resource == terms::at_path(s.public_url, "/mcp"@)
            &&& resource.authorization_servers == seq![s.public_url]
            &&& resource.bearer_methods_supported == seq!["header"@]
            &&& registration::request_error(req) is None <==> {
                &&& req.redirect_uris.len() > 0
                &&& forall|i: int|
                    0 <= i < req.redirect_uris.len() ==> terms::may_be_sent_to(
                        #[trigger] req.redirect_uris[i],
                    )
                &&& forall|i: int|
                    0 <= i < req.grant_types.len() ==> server.grant_types_supported.contains(
                        #[trigger] req.grant_types[i],
                    )
                &&& forall|i: int|
                    0 <= i < req.response_types.len() ==> server.response_types_supported.contains(
                        #[trigger] req.response_types[i],
                    )
                &&& req.token_endpoint_auth_method matches Some(method)
                    ==> server.token_endpoint_auth_methods_supported.contains(method)
            }
            &&& server.grant_types_supported == seq!["authorization_code"@, "refresh_token"@]
            &&& server.response_types_supported == seq!["code"@]
            &&& server.token_endpoint_auth_methods_supported == seq![
                "none"@,
                "client_secret_post"@,
            ]
        }),
{
    terms::lemma_own_urls(s.public_url);
    let server = endpoints::server_metadata_of(s);
    let methods = server.token_endpoint_auth_methods_supported;
    assert(methods[0] == "none"@ && methods[1] == "client_secret_post"@);
    lemma_redirects(req.redirect_uris);
    lemma_unsupported(req.grant_types, registration::supported_grant_types());
    lemma_unsupported(req.response_types, registration::supported_response_types());
}

/// A registration stands exactly if it was saved. Where it was not, the client is gone, the others
/// stay, and the client is told that the server failed.
pub proof fn law_registration_stands_once_saved(
    s: ServerView,
    response: RegisterResponseView,
    saved: bool,
    other: Seq<char>,
)
    requires
        other != response.client_id,
    ensures
        ({
            let (after, answer) = registration::settled(s, response, saved);
            &&& answer is Ok <==> saved
            &&& saved ==> after == s && answer->Ok_0 == response
            &&& !saved ==> {
                &&& !after.clients.dom().contains(response.client_id)
                &&& after.clients.dom().contains(other) <==> s.clients.dom().contains(other)
                &&& s.clients.dom().contains(other) ==> after.clients[other] == s.clients[other]
                &&& after == (ServerView { clients: after.clients, ..s })
                &&& answer->Err_0.status == 500
                &&& answer->Err_0.error == "server_error"@
                &&& answer->Err_0.description == "failed to persist client registration"@
            }
        }),
{
}

} // verus!
