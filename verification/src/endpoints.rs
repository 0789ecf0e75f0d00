//! The endpoints of the authorization server, and what its metadata say.

use vstd::prelude::*;
use vstd::string::*;

use crate::state::{OAuthServerState, ServerView};
use crate::text::same;
use crate::{outside, text, url};

verus! {

// ---------------------------------------------------------------------------
// Endpoints
// ---------------------------------------------------------------------------
/// The endpoints of the authorization server.
#[derive(Clone, Copy, Debug, PartialEq, Eq, Structural)]
pub enum Endpoint {
    /// Whether the server runs.
    Health,
    /// Whether the server is ready.
    Ready,
    /// The metadata of the MCP endpoint, below its own path.
    ResourceMetadataMcp,
    /// The metadata of the MCP endpoint.
    ResourceMetadata,
    /// The metadata of the authorization server.
    ServerMetadata,
    /// Dynamic client registration.
    Register,
    /// Authorization.
    Authorize,
    /// The return from Onshape.
    Callback,
    /// Tokens.
    Token,
}

/// The path of an endpoint.
pub open spec fn path_of(e: Endpoint) -> Seq<char> {
    match e {
        Endpoint::Health => "/health"@,
        Endpoint::Ready => "/ready"@,
        Endpoint::ResourceMetadataMcp => "/.well-known/oauth-protected-resource/mcp"@,
        Endpoint::ResourceMetadata => "/.well-known/oauth-protected-resource"@,
        Endpoint::ServerMetadata => "/.well-known/oauth-authorization-server"@,
        Endpoint::Register => "/oauth/register"@,
        Endpoint::Authorize => "/oauth/authorize"@,
        Endpoint::Callback => "/oauth/callback"@,
        Endpoint::Token => "/oauth/token"@,
    }
}

/// Whether an endpoint is posted to; the others are fetched.
pub open spec fn is_posted(e: Endpoint) -> bool {
    e == Endpoint::Register || e == Endpoint::Token
}

/// Whether an endpoint is open to scripts of other origins: those that clients in a browser fetch
/// themselves. The browser goes to the others by navigation, or operators do.
pub open spec fn is_cross_origin(e: Endpoint) -> bool {
    match e {
        Endpoint::ResourceMetadataMcp => true,
        Endpoint::ResourceMetadata => true,
        Endpoint::ServerMetadata => true,
        Endpoint::Register => true,
        Endpoint::Token => true,
        Endpoint::Health => false,
        Endpoint::Ready => false,
        Endpoint::Authorize => false,
        Endpoint::Callback => false,
    }
}

/// No two endpoints have the same path.
pub proof fn law_paths_are_distinct(a: Endpoint, b: Endpoint)
    requires
        path_of(a) == path_of(b),
    ensures
        a == b,
{
    reveal_strlit("/health");
    reveal_strlit("/ready");
    reveal_strlit("/.well-known/oauth-protected-resource/mcp");
    reveal_strlit("/.well-known/oauth-protected-resource");
    reveal_strlit("/.well-known/oauth-authorization-server");
    reveal_strlit("/oauth/register");
    reveal_strlit("/oauth/authorize");
    reveal_strlit("/oauth/callback");
    reveal_strlit("/oauth/token");
    let p = path_of(a);
    assert(p.len() == 7 || p.len() == 6 || p.len() == 41 || p.len() == 37 || p.len() == 39
        || p.len() == 15 || p.len() == 16 || p.len() == 12);
    assert("/oauth/register"@[7] != "/oauth/callback"@[7]);
}

proof fn lemma_slashed_pair(a: Seq<char>, b: Seq<char>)
    ensures
        outside::slashed(seq![a, b]) == seq!['/'] + a + seq!['/'] + b,
        outside::slashed(seq![a]) == seq!['/'] + a,
{
    assert(seq![a, b].drop_last() =~= seq![a]);
    assert(seq![a].drop_last() =~= Seq::<Seq<char>>::empty());
    reveal_with_fuel(outside::slashed, 3);
    assert(Seq::<char>::empty() + seq!['/'] =~= seq!['/']);
}

/// What the metadata advertise is what is served: the URL of each endpoint is the public URL,
/// followed by the path of the endpoint.
pub proof fn law_advertised_endpoints_are_served(base: Seq<char>)
    ensures
        url::oauth_url(base, "authorize"@) == outside::without_slash(base) + path_of(
            Endpoint::Authorize,
        ),
        url::oauth_url(base, "callback"@) == outside::without_slash(base) + path_of(
            Endpoint::Callback,
        ),
        url::oauth_url(base, "token"@) == outside::without_slash(base) + path_of(Endpoint::Token),
        url::oauth_url(base, "register"@) == outside::without_slash(base) + path_of(
            Endpoint::Register,
        ),
        url::resource_metadata_url(base) == outside::without_slash(base) + path_of(
            Endpoint::ResourceMetadataMcp,
        ),
{
    reveal_strlit("oauth");
    reveal_strlit("authorize");
    reveal_strlit("callback");
    reveal_strlit("token");
    reveal_strlit("register");
    reveal_strlit(".well-known");
    reveal_strlit("oauth-protected-resource");
    reveal_strlit("mcp");
    reveal_strlit("/oauth/authorize");
    reveal_strlit("/oauth/callback");
    reveal_strlit("/oauth/token");
    reveal_strlit("/oauth/register");
    reveal_strlit("/.well-known/oauth-protected-resource/mcp");
    lemma_slashed_pair("oauth"@, "authorize"@);
    lemma_slashed_pair("oauth"@, "callback"@);
    lemma_slashed_pair("oauth"@, "token"@);
    lemma_slashed_pair("oauth"@, "register"@);
    assert(outside::slashed(seq!["oauth"@, "authorize"@]) =~= path_of(Endpoint::Authorize));
    assert(outside::slashed(seq!["oauth"@, "callback"@]) =~= path_of(Endpoint::Callback));
    assert(outside::slashed(seq!["oauth"@, "token"@]) =~= path_of(Endpoint::Token));
    assert(outside::slashed(seq!["oauth"@, "register"@]) =~= path_of(Endpoint::Register));
    let segments = seq![".well-known"@, "oauth-protected-resource"@, "mcp"@];
    lemma_slashed_pair(".well-known"@, "oauth-protected-resource"@);
    assert(segments.drop_last() =~= seq![".well-known"@, "oauth-protected-resource"@]);
    assert(outside::slashed(segments) =~= path_of(Endpoint::ResourceMetadataMcp));
}

impl Endpoint {
    /// The path of the endpoint.
    pub fn path(self) -> (r: &'static str)
        ensures
            r@ == path_of(self),
    {
        match self {
            Endpoint::Health => "/health",
            Endpoint::Ready => "/ready",
            Endpoint::ResourceMetadataMcp => "/.well-known/oauth-protected-resource/mcp",
            Endpoint::ResourceMetadata => "/.well-known/oauth-protected-resource",
            Endpoint::ServerMetadata => "/.well-known/oauth-authorization-server",
            Endpoint::Register => "/oauth/register",
            Endpoint::Authorize => "/oauth/authorize",
            Endpoint::Callback => "/oauth/callback",
            Endpoint::Token => "/oauth/token",
        }
    }

    /// Whether the endpoint is posted to.
    pub fn posted(self) -> (r: bool)
        ensures
            r == is_posted(self),
    {
        match self {
            Endpoint::Register => true,
            Endpoint::Token => true,
            _ => false,
        }
    }

    /// Whether the endpoint is open to scripts of other origins.
    pub fn cross_origin(self) -> (r: bool)
        ensures
            r == is_cross_origin(self),
    {
        match self {
            Endpoint::Health => false,
            Endpoint::Ready => false,
            Endpoint::Authorize => false,
            Endpoint::Callback => false,
            _ => true,
        }
    }
}

/// All endpoints.
pub fn oauth_router() -> (r: Vec<Endpoint>)
    ensures
        forall|e: Endpoint| #[trigger] r@.contains(e),
        r@.no_duplicates(),
{
    let all: Vec<Endpoint> = vec![
        Endpoint::ResourceMetadataMcp,
        Endpoint::ResourceMetadata,
        Endpoint::ServerMetadata,
        Endpoint::Register,
        Endpoint::Token,
        Endpoint::Health,
        Endpoint::Ready,
        Endpoint::Authorize,
        Endpoint::Callback,
    ];
    proof {
        assert forall|e: Endpoint| #[trigger] all@.contains(e) by {
            assert(all@[0] == Endpoint::ResourceMetadataMcp);
            assert(all@[1] == Endpoint::ResourceMetadata);
            assert(all@[2] == Endpoint::ServerMetadata);
            assert(all@[3] == Endpoint::Register);
            assert(all@[4] == Endpoint::Token);
            assert(all@[5] == Endpoint::Health);
            assert(all@[6] == Endpoint::Ready);
            assert(all@[7] == Endpoint::Authorize);
            assert(all@[8] == Endpoint::Callback);
        }
    }
    all
}

/// The endpoint at a path, if there is one.
pub fn endpoint_at(path: &str) -> (r: Option<Endpoint>)
    ensures
        forall|e: Endpoint| r == Some(e) <==> #[trigger] path_of(e) == path@,
{
    let all: Vec<Endpoint> = oauth_router();
    let mut i: usize = 0;
    while i < all.len()
        invariant
            i <= all@.len(),
            forall|k: int| 0 <= k < i ==> path_of(#[trigger] all@[k]) != path@,
        decreases all@.len() - i,
    {
        if same(all[i].path(), path) {
            proof {
                assert forall|e: Endpoint| #[trigger] path_of(e) == path@ implies e
                    == all@[i as int] by {
                    law_paths_are_distinct(e, all@[i as int]);
                }
            }
            return Some(all[i]);
        }
        i = i + 1;
    }
    proof {
        assert forall|e: Endpoint| #[trigger] path_of(e) != path@ by {
            assert(all@.contains(e));
        }
    }
    None
}

// ---------------------------------------------------------------------------
// Metadata
// ---------------------------------------------------------------------------
/// Whether the server runs.
#[derive(Debug, PartialEq, Eq)]
pub struct Health {
    /// Always `ok`.
    pub status: String,
}

/// Whether the server is ready, and whether its state survives a restart.
#[derive(Debug, PartialEq, Eq)]
pub struct Readiness {
    /// Always `ready`.
    pub status: String,
    /// Whether the state survives a restart.
    pub durable_oauth_state: bool,
}

/// The metadata of the MCP endpoint.
#[derive(Debug, PartialEq, Eq)]
pub struct ProtectedResourceMetadata {
    /// The resource that tokens are issued for.
    pub resource: String,
    /// Who issues them.
    pub authorization_servers: Vec<String>,
    /// How they are sent.
    pub bearer_methods_supported: Vec<String>,
}

/// The metadata of the authorization server.
#[derive(Debug, PartialEq, Eq)]
pub struct AuthorizationServerMetadata {
    /// The server.
    pub issuer: String,
    /// Where it authorizes.
    pub authorization_endpoint: String,
    /// Where it issues tokens.
    pub token_endpoint: String,
    /// Where it registers clients.
    pub registration_endpoint: String,
    /// What an authorization request may ask for.
    pub response_types_supported: Vec<String>,
    /// What a token request may bring.
    pub grant_types_supported: Vec<String>,
    /// How a client may authenticate.
    pub token_endpoint_auth_methods_supported: Vec<String>,
    /// How a PKCE challenge may be made.
    pub code_challenge_methods_supported: Vec<String>,
    /// The scopes, of which there are none.
    pub scopes_supported: Vec<String>,
}

/// The view of [`ProtectedResourceMetadata`].
pub struct ResourceMetadataView {
    /// The resource that tokens are issued for.
    pub resource: Seq<char>,
    /// Who issues them.
    pub authorization_servers: Seq<Seq<char>>,
    /// How they are sent.
    pub bearer_methods_supported: Seq<Seq<char>>,
}

impl View for ProtectedResourceMetadata {
    type V = ResourceMetadataView;

    open spec fn view(&self) -> ResourceMetadataView {
        ResourceMetadataView {
            resource: self.resource@,
            authorization_servers: text::all_chars(self.authorization_servers@),
            bearer_methods_supported: text::all_chars(self.bearer_methods_supported@),
        }
    }
}

/// The metadata of the MCP endpoint of a server.
pub open spec fn resource_metadata_of(s: ServerView) -> ResourceMetadataView {
    ResourceMetadataView {
        resource: s.resource(),
        authorization_servers: seq![s.public_url],
        bearer_methods_supported: seq!["header"@],
    }
}

/// The view of [`AuthorizationServerMetadata`].
pub struct ServerMetadataView {
    /// The server.
    pub issuer: Seq<char>,
    /// Where it authorizes.
    pub authorization_endpoint: Seq<char>,
    /// Where it issues tokens.
    pub token_endpoint: Seq<char>,
    /// Where it registers clients.
    pub registration_endpoint: Seq<char>,
    /// What an authorization request may ask for.
    pub response_types_supported: Seq<Seq<char>>,
    /// What a token request may bring.
    pub grant_types_supported: Seq<Seq<char>>,
    /// How a client may authenticate.
    pub token_endpoint_auth_methods_supported: Seq<Seq<char>>,
    /// How a PKCE challenge may be made.
    pub code_challenge_methods_supported: Seq<Seq<char>>,
    /// The scopes, of which there are none.
    pub scopes_supported: Seq<Seq<char>>,
}

impl View for AuthorizationServerMetadata {
    type V = ServerMetadataView;

    open spec fn view(&self) -> ServerMetadataView {
        ServerMetadataView {
            issuer: self.issuer@,
            authorization_endpoint: self.authorization_endpoint@,
            token_endpoint: self.token_endpoint@,
            registration_endpoint: self.registration_endpoint@,
            response_types_supported: text::all_chars(self.response_types_supported@),
            grant_types_supported: text::all_chars(self.grant_types_supported@),
            token_endpoint_auth_methods_supported: text::all_chars(
                self.token_endpoint_auth_methods_supported@,
            ),
            code_challenge_methods_supported: text::all_chars(
                self.code_challenge_methods_supported@,
            ),
            scopes_supported: text::all_chars(self.scopes_supported@),
        }
    }
}

/// The metadata of a server.
pub open spec fn server_metadata_of(s: ServerView) -> ServerMetadataView {
    ServerMetadataView {
        issuer: s.public_url,
        authorization_endpoint: url::oauth_url(s.public_url, "authorize"@),
        token_endpoint: url::oauth_url(s.public_url, "token"@),
        registration_endpoint: url::oauth_url(s.public_url, "register"@),
        response_types_supported: seq!["code"@],
        grant_types_supported: seq!["authorization_code"@, "refresh_token"@],
        token_endpoint_auth_methods_supported: seq!["none"@, "client_secret_post"@],
        code_challenge_methods_supported: seq!["S256"@],
        scopes_supported: Seq::empty(),
    }
}

/// Whether the server runs.
pub fn health() -> (r: Health)
    ensures
        r.status@ == "ok"@,
{
    Health { status: "ok".to_owned() }
}

/// Whether the server is ready.
pub fn ready(state: &OAuthServerState) -> (r: Readiness)
    ensures
        r.status@ == "ready"@,
        r.durable_oauth_state == (state@.persistence is Some),
{
    Readiness {
        status: "ready".to_owned(),
        durable_oauth_state: state.persistence.is_some(),
    }
}

fn none() -> (r: Vec<String>)
    ensures
        r@.len() == 0,
        text::all_chars(r@) == Seq::<Seq<char>>::empty(),
{
    let list: Vec<String> = Vec::new();
    proof {
        assert(text::all_chars(list@) =~= Seq::<Seq<char>>::empty());
    }
    list
}

fn one(a: &str) -> (r: Vec<String>)
    ensures
        text::all_chars(r@) == seq![a@],
{
    let list: Vec<String> = vec![a.to_owned()];
    proof {
        assert(text::all_chars(list@) =~= seq![a@]);
    }
    list
}

fn two(a: &str, b: &str) -> (r: Vec<String>)
    ensures
        text::all_chars(r@) == seq![a@, b@],
{
    let list: Vec<String> = vec![a.to_owned(), b.to_owned()];
    proof {
        assert(text::all_chars(list@) =~= seq![a@, b@]);
    }
    list
}

/// The metadata of the MCP endpoint.
pub fn protected_resource_metadata(state: &OAuthServerState) -> (r: ProtectedResourceMetadata)
    ensures
        r@ == resource_metadata_of(state@),
        r.resource@ == state@.resource(),
        text::all_chars(r.authorization_servers@) == seq![state@.public_url],
        text::all_chars(r.bearer_methods_supported@) == seq!["header"@],
{
    ProtectedResourceMetadata {
        resource: state.public_url.mcp(),
        authorization_servers: one(state.public_url.as_str()),
        bearer_methods_supported: one("header"),
    }
}

/// The metadata of the authorization server.
pub fn authorization_server_metadata(state: &OAuthServerState) -> (r: AuthorizationServerMetadata)
    ensures
        r@ == server_metadata_of(state@),
        r.issuer@ == state@.public_url,
        r.authorization_endpoint@ == url::oauth_url(state@.public_url, "authorize"@),
        r.token_endpoint@ == url::oauth_url(state@.public_url, "token"@),
        r.registration_endpoint@ == url::oauth_url(state@.public_url, "register"@),
        text::all_chars(r.response_types_supported@) == seq!["code"@],
        text::all_chars(r.grant_types_supported@) == seq!["authorization_code"@, "refresh_token"@],
        text::all_chars(r.token_endpoint_auth_methods_supported@) == seq![
            "none"@,
            "client_secret_post"@,
        ],
        text::all_chars(r.code_challenge_methods_supported@) == seq!["S256"@],
        r.scopes_supported@.len() == 0,
{
    AuthorizationServerMetadata {
        issuer: state.public_url.as_str().to_owned(),
        authorization_endpoint: state.public_url.authorize(),
        token_endpoint: state.public_url.token(),
        registration_endpoint: state.public_url.register(),
        response_types_supported: one("code"),
        grant_types_supported: two("authorization_code", "refresh_token"),
        token_endpoint_auth_methods_supported: two("none", "client_secret_post"),
        code_challenge_methods_supported: one("S256"),
        scopes_supported: none(),
    }
}

} // verus!
