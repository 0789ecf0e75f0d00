//! What requests, answers and records are read as: what stands in them, field by field.

use vstd::prelude::*;

use crate::authorization::AuthorizeParams;
use crate::callback::{CallbackParams, OnshapeGrant};
use crate::endpoints::{AuthorizationServerMetadata, Endpoint, ProtectedResourceMetadata};
use crate::errors::{HttpError, OAuthError};
use crate::middleware::Unauthorized;
use crate::persistence::PersistedOAuthState;
use crate::records::{
    AllowedUser, IssuedAuthCode, IssuedToken, PendingAuth, RegisteredClient,
};
use crate::registration::{RegisterRequest, RegisterResponse};
use crate::state::{OAuthServerState, UserContext};
use crate::token::{TokenRequest, TokenResponseBody};
use crate::{config, endpoints};

verus! {

/// Whether an optional text is read as it stands.
pub open spec fn reads(field: Option<String>, view: Option<Seq<char>>) -> bool {
    match field {
        Some(text) => view == Some(text@),
        None => view is None,
    }
}

/// Whether a list of texts is read as it stands.
pub open spec fn reads_list(field: Seq<String>, view: Seq<Seq<char>>) -> bool {
    view.len() == field.len() && forall|i: int|
        0 <= i < field.len() ==> #[trigger] view[i] == field[i]@
}

/// A registration is read as it was sent, and answered as it reads.
pub proof fn law_registrations_are_read_as_sent(req: RegisterRequest, told: RegisterResponse)
    ensures
        reads(req.client_name, req@.client_name),
        reads_list(req.redirect_uris@, req@.redirect_uris),
        reads_list(req.grant_types@, req@.grant_types),
        reads_list(req.response_types@, req@.response_types),
        reads(req.token_endpoint_auth_method, req@.token_endpoint_auth_method),
        told@.client_id == told.client_id@,
        reads(told.client_secret, told@.client_secret),
        told@.client_secret_expires_at == told.client_secret_expires_at,
        reads(told.client_name, told@.client_name),
        reads_list(told.redirect_uris@, told@.redirect_uris),
        reads_list(told.grant_types@, told@.grant_types),
        reads_list(told.response_types@, told@.response_types),
        told@.token_endpoint_auth_method == told.token_endpoint_auth_method@,
{
}

/// An authorization request, and a return from Onshape, are read as they were sent.
pub proof fn law_visits_are_read_as_sent(
    p: AuthorizeParams,
    back: CallbackParams,
    grant: OnshapeGrant,
)
    ensures
        p@.response_type == p.response_type@,
        p@.client_id == p.client_id@,
        p@.redirect_uri == p.redirect_uri@,
        reads(p.state, p@.state),
        reads(p.code_challenge, p@.code_challenge),
        reads(p.code_challenge_method, p@.code_challenge_method),
        reads(p.resource, p@.resource),
        reads(back.code, back@.code),
        reads(back.state, back@.state),
        reads(back.error, back@.error),
        grant@.access_token == grant.access_token@,
        grant@.refresh_token is Some <==> grant.refresh_token is Some,
        grant.refresh_token matches Some(token) ==> grant@.refresh_token == Some(token@),
        grant@.expires_in == grant.expires_in,
{
}

/// A token request is read as it was sent, and answered as it reads.
pub proof fn law_token_requests_are_read_as_sent(req: TokenRequest, told: TokenResponseBody)
    ensures
        req@.grant_type == req.grant_type@,
        reads(req.code, req@.code),
        reads(req.redirect_uri, req@.redirect_uri),
        reads(req.client_id, req@.client_id),
        reads(req.client_secret, req@.client_secret),
        reads(req.code_verifier, req@.code_verifier),
        reads(req.refresh_token, req@.refresh_token),
        reads(req.resource, req@.resource),
        told@.access_token == told.access_token@,
        told@.token_type == told.token_type@,
        told@.expires_in == told.expires_in,
        reads(told.refresh_token, told@.refresh_token),
{
}

/// A refusal reads as it is sent.
pub proof fn law_refusals_read_as_sent(oauth: OAuthError, http: HttpError, bearer: Unauthorized)
    ensures
        oauth@.status == oauth.status,
        oauth@.error == oauth.error@,
        oauth@.description == oauth.description@,
        http@.status == http.status,
        http@.message == http.message@,
        bearer@.status == bearer.status,
        bearer@.www_authenticate == bearer.www_authenticate@,
        bearer@.body == bearer.body@,
{
}

/// The metadata read as they are sent.
pub proof fn law_metadata_read_as_sent(
    resource: ProtectedResourceMetadata,
    server: AuthorizationServerMetadata,
)
    ensures
        resource@.resource == resource.resource@,
        reads_list(resource.authorization_servers@, resource@.authorization_servers),
        reads_list(resource.bearer_methods_supported@, resource@.bearer_methods_supported),
        server@.issuer == server.issuer@,
        server@.authorization_endpoint == server.authorization_endpoint@,
        server@.token_endpoint == server.token_endpoint@,
        server@.registration_endpoint == server.registration_endpoint@,
        reads_list(server.response_types_supported@, server@.response_types_supported),
        reads_list(server.grant_types_supported@, server@.grant_types_supported),
        reads_list(
            server.token_endpoint_auth_methods_supported@,
            server@.token_endpoint_auth_methods_supported,
        ),
        reads_list(
            server.code_challenge_methods_supported@,
            server@.code_challenge_methods_supported,
        ),
        reads_list(server.scopes_supported@, server@.scopes_supported),
{
}

/// What is kept reads as it stands.
pub proof fn law_records_read_as_kept(
    client: RegisteredClient,
    flow: PendingAuth,
    code: IssuedAuthCode,
    token: IssuedToken,
    user: AllowedUser,
    context: UserContext,
)
    ensures
        client@.client_id == client.client_id@,
        reads(client.client_secret, client@.client_secret),
        reads_list(client.redirect_uris@, client@.redirect_uris),
        client@.token_endpoint_auth_method == client.token_endpoint_auth_method@,
        flow@.client_id == flow.client_id@,
        flow@.redirect_uri == flow.redirect_uri@,
        reads(flow.pkce_code_challenge, flow@.pkce_code_challenge),
        reads(flow.mcp_state, flow@.mcp_state),
        flow@.resource == flow.resource@,
        flow@.onshape_pkce_verifier == flow.onshape_pkce_verifier@,
        flow@.created_at == flow.created_at,
        code@.client_id == code.client_id@,
        code@.redirect_uri == code.redirect_uri@,
        reads(code.pkce_code_challenge, code@.pkce_code_challenge),
        code@.user_id == code.user_id@,
        code@.resource == code.resource@,
        code@.created_at == code.created_at,
        token@.user_id == token.user_id@,
        token@.client_id == token.client_id@,
        token@.resource == token.resource@,
        token@.issued_at == token.issued_at,
        token@.expires_at == token.expires_at,
        user@.id == user.id@,
        reads(user.name, user@.name),
        user@.access == user.access,
        context@.user_id == context.user_id@,
        context@.onshape_tokens == context.onshape_tokens@,
        context@.validation == context.validation,
        context@.access == context.access,
{
}

/// The state reads as it stands, and so does what is saved of it.
pub proof fn law_state_reads_as_kept(state: OAuthServerState, saved: PersistedOAuthState)
    ensures
        state@.clients == state.clients@,
        state@.pending_auth == state.pending_auth@,
        state@.auth_codes == state.auth_codes@,
        state@.tokens == state.tokens@,
        state@.refresh_tokens == state.refresh_tokens@,
        state@.user_credentials == state.user_credentials@,
        state@.refresh_locks == state.refresh_locks@,
        state@.allowed_users is Some <==> state.allowed_users is Some,
        state.allowed_users matches Some(listed) ==> state@.allowed_users == Some(listed@),
        state@.onshape_client_id == state.onshape_client_id@,
        state@.onshape_client_secret == state.onshape_client_secret@,
        reads(state.onshape_company_id, state@.onshape_company_id),
        state@.public_url == state.public_url@,
        state@.persistence is Some <==> state.persistence is Some,
        state.persistence matches Some(store) ==> state@.persistence == Some(store@),
        state@.max_registered_clients == state.max_registered_clients,
        state@.max_pending_authorizations == state.max_pending_authorizations,
        saved@.version == saved.version,
        saved@.clients == saved.clients@,
        saved@.auth_codes == saved.auth_codes@,
        saved@.tokens == saved.tokens@,
        saved@.refresh_tokens == saved.refresh_tokens@,
        saved@.user_tokens == saved.user_tokens@,
{
}

/// Clients post their registrations and token requests. Scripts of other origins may do so too, and may
/// fetch the metadata, but nothing else.
pub proof fn law_who_reaches_which_endpoint(e: Endpoint)
    ensures
        endpoints::is_posted(e) <==> endpoints::path_of(e) == "/oauth/register"@
            || endpoints::path_of(e) == "/oauth/token"@,
        endpoints::is_cross_origin(e) <==> endpoints::is_posted(e) || endpoints::path_of(e)
            == "/.well-known/oauth-protected-resource/mcp"@ || endpoints::path_of(e)
            == "/.well-known/oauth-protected-resource"@ || endpoints::path_of(e)
            == "/.well-known/oauth-authorization-server"@,
        endpoints::path_of(Endpoint::Health) == "/health"@,
        endpoints::path_of(Endpoint::Ready) == "/ready"@,
        endpoints::path_of(Endpoint::ResourceMetadataMcp)
            == "/.well-known/oauth-protected-resource/mcp"@,
        endpoints::path_of(Endpoint::ResourceMetadata) == "/.well-known/oauth-protected-resource"@,
        endpoints::path_of(Endpoint::ServerMetadata)
            == "/.well-known/oauth-authorization-server"@,
        endpoints::path_of(Endpoint::Register) == "/oauth/register"@,
        endpoints::path_of(Endpoint::Authorize) == "/oauth/authorize"@,
        endpoints::path_of(Endpoint::Callback) == "/oauth/callback"@,
        endpoints::path_of(Endpoint::Token) == "/oauth/token"@,
{
    if endpoints::path_of(e) == "/oauth/register"@ {
        endpoints::law_paths_are_distinct(e, Endpoint::Register);
    }
    if endpoints::path_of(e) == "/oauth/token"@ {
        endpoints::law_paths_are_distinct(e, Endpoint::Token);
    }
    if endpoints::path_of(e) == "/.well-known/oauth-protected-resource/mcp"@ {
        endpoints::law_paths_are_distinct(e, Endpoint::ResourceMetadataMcp);
    }
    if endpoints::path_of(e) == "/.well-known/oauth-protected-resource"@ {
        endpoints::law_paths_are_distinct(e, Endpoint::ResourceMetadata);
    }
    if endpoints::path_of(e) == "/.well-known/oauth-authorization-server"@ {
        endpoints::law_paths_are_distinct(e, Endpoint::ServerMetadata);
    }
}

/// Whoever configures nothing is served on the machine itself, on port 8080, without production checks,
/// with requests of 16 MiB at most, a thousand clients and 256 flows; credentials are validated every
/// five minutes, and Onshape has half a minute to answer.
pub proof fn law_defaults(c: config::HttpTransportConfig)
    requires
        c.is_default(),
    ensures
        !c.production,
        c.host@ == "127.0.0.1"@,
        c.port == 8080,
        c.public_url is None && c.onshape_client_id is None && c.onshape_client_secret is None,
        c.onshape_company_id is None && c.state_file is None && c.state_encryption_key is None,
        c.max_request_body_bytes == 16 * 1024 * 1024,
        c.max_registered_clients == 1000,
        c.max_pending_authorizations == 256,
        config::DEFAULT_CHECK_INTERVAL_SECS == 300,
        config::MIN_CHECK_INTERVAL_SECS == 15,
        config::DEFAULT_HTTP_TIMEOUT_SECS == 30,
{
}

} // verus!
