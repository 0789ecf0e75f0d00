//! What the authorization server keeps: clients, pending flows, codes, tokens, users.

use vstd::prelude::*;

use crate::table::Duplicate;
use crate::text;
use crate::text::{copy_list, copy_opt};
use crate::time::Timestamp;

verus! {

/// A text that must not be shown.
pub struct Secret {
    text: String,
}

impl View for Secret {
    type V = Seq<char>;

    closed spec fn view(&self) -> Seq<char> {
        self.text@
    }
}

impl Secret {
    /// Takes a text for a secret.
    pub fn new(text: String) -> (r: Secret)
        ensures
            r@ == text@,
    {
        Secret { text }
    }

    /// The text.
    pub fn expose(&self) -> (r: &str)
        ensures
            r@ == self@,
    {
        self.text.as_str()
    }
}

impl Duplicate for Secret {
    fn duplicate(&self) -> (r: Secret) {
        Secret { text: self.text.clone() }
    }
}

/// How much of the Onshape API a user may reach.
#[derive(Clone, Copy, Debug, PartialEq, Eq, Structural)]
pub enum AccessLevel {
    /// Reads only.
    Read,
    /// Reads and writes.
    Write,
    /// Everything.
    Full,
}

impl View for AccessLevel {
    type V = AccessLevel;

    open spec fn view(&self) -> AccessLevel {
        *self
    }
}

/// A user that an operator lets in.
#[derive(Debug, PartialEq, Eq)]
pub struct AllowedUser {
    /// The Onshape user ID.
    pub id: String,
    /// A name for the operator's own use.
    pub name: Option<String>,
    /// How much of the Onshape API the user may reach.
    pub access: AccessLevel,
}

// ---------------------------------------------------------------------------
// Registered clients
// ---------------------------------------------------------------------------
/// A dynamically registered MCP client.
#[derive(Debug, PartialEq, Eq)]
pub struct RegisteredClient {
    /// The ID that the server gave it.
    pub client_id: String,
    /// Its secret, if it has one.
    pub client_secret: Option<String>,
    /// Where it may be sent back to.
    pub redirect_uris: Vec<String>,
    /// How it authenticates at the token endpoint.
    pub token_endpoint_auth_method: String,
}

/// The view of a [`RegisteredClient`].
pub struct ClientView {
    /// The ID that the server gave it.
    pub client_id: Seq<char>,
    /// Its secret, if it has one.
    pub client_secret: Option<Seq<char>>,
    /// Where it may be sent back to.
    pub redirect_uris: Seq<Seq<char>>,
    /// How it authenticates at the token endpoint.
    pub token_endpoint_auth_method: Seq<char>,
}

impl View for RegisteredClient {
    type V = ClientView;

    open spec fn view(&self) -> ClientView {
        ClientView {
            client_id: self.client_id@,
            client_secret: text::opt_chars(self.client_secret),
            redirect_uris: text::all_chars(self.redirect_uris@),
            token_endpoint_auth_method: self.token_endpoint_auth_method@,
        }
    }
}

impl Duplicate for RegisteredClient {
    fn duplicate(&self) -> (r: RegisteredClient) {
        RegisteredClient {
            client_id: self.client_id.clone(),
            client_secret: copy_opt(&self.client_secret),
            redirect_uris: copy_list(&self.redirect_uris),
            token_endpoint_auth_method: self.token_endpoint_auth_method.clone(),
        }
    }
}

// ---------------------------------------------------------------------------
// Pending authorizations
// ---------------------------------------------------------------------------
/// An authorization between the visit to `/oauth/authorize` and the return from Onshape.
pub struct PendingAuth {
    /// The MCP client.
    pub client_id: String,
    /// Where the client is sent back to.
    pub redirect_uri: String,
    /// The client's PKCE challenge.
    pub pkce_code_challenge: Option<String>,
    /// The client's own state, if it sent one.
    pub mcp_state: Option<String>,
    /// The resource that the client asked for.
    pub resource: String,
    /// The PKCE verifier of the Onshape leg.
    pub onshape_pkce_verifier: Secret,
    /// When the flow began.
    pub created_at: Timestamp,
}

/// The view of a [`PendingAuth`].
pub struct PendingView {
    /// The MCP client.
    pub client_id: Seq<char>,
    /// Where the client is sent back to.
    pub redirect_uri: Seq<char>,
    /// The client's PKCE challenge.
    pub pkce_code_challenge: Option<Seq<char>>,
    /// The client's own state, if it sent one.
    pub mcp_state: Option<Seq<char>>,
    /// The resource that the client asked for.
    pub resource: Seq<char>,
    /// The PKCE verifier of the Onshape leg.
    pub onshape_pkce_verifier: Seq<char>,
    /// When the flow began.
    pub created_at: Timestamp,
}

impl View for PendingAuth {
    type V = PendingView;

    open spec fn view(&self) -> PendingView {
        PendingView {
            client_id: self.client_id@,
            redirect_uri: self.redirect_uri@,
            pkce_code_challenge: text::opt_chars(self.pkce_code_challenge),
            mcp_state: text::opt_chars(self.mcp_state),
            resource: self.resource@,
            onshape_pkce_verifier: self.onshape_pkce_verifier@,
            created_at: self.created_at,
        }
    }
}

// ---------------------------------------------------------------------------
// Authorization codes
// ---------------------------------------------------------------------------
/// An issued MCP authorization code.
#[derive(Debug, PartialEq, Eq)]
pub struct IssuedAuthCode {
    /// The client that the code was issued for.
    pub client_id: String,
    /// The redirect URI of the authorization request.
    pub redirect_uri: String,
    /// The client's PKCE challenge.
    pub pkce_code_challenge: Option<String>,
    /// The Onshape user.
    pub user_id: String,
    /// The resource that the code is valid for.
    pub resource: String,
    /// When the code was issued.
    pub created_at: Timestamp,
}

/// The view of an [`IssuedAuthCode`].
pub struct CodeView {
    /// The client that the code was issued for.
    pub client_id: Seq<char>,
    /// The redirect URI of the authorization request.
    pub redirect_uri: Seq<char>,
    /// The client's PKCE challenge.
    pub pkce_code_challenge: Option<Seq<char>>,
    /// The Onshape user.
    pub user_id: Seq<char>,
    /// The resource that the code is valid for.
    pub resource: Seq<char>,
    /// When the code was issued.
    pub created_at: Timestamp,
}

impl View for IssuedAuthCode {
    type V = CodeView;

    open spec fn view(&self) -> CodeView {
        CodeView {
            client_id: self.client_id@,
            redirect_uri: self.redirect_uri@,
            pkce_code_challenge: text::opt_chars(self.pkce_code_challenge),
            user_id: self.user_id@,
            resource: self.resource@,
            created_at: self.created_at,
        }
    }
}

impl Duplicate for IssuedAuthCode {
    fn duplicate(&self) -> (r: IssuedAuthCode) {
        IssuedAuthCode {
            client_id: self.client_id.clone(),
            redirect_uri: self.redirect_uri.clone(),
            pkce_code_challenge: copy_opt(&self.pkce_code_challenge),
            user_id: self.user_id.clone(),
            resource: self.resource.clone(),
            created_at: self.created_at,
        }
    }
}

// ---------------------------------------------------------------------------
// Issued tokens
// ---------------------------------------------------------------------------
/// Whom an issued MCP token, access or refresh, stands for.
#[derive(Debug, PartialEq, Eq)]
pub struct IssuedToken {
    /// The Onshape user.
    pub user_id: String,
    /// The client that the token was issued to.
    pub client_id: String,
    /// The resource that the token is valid for.
    pub resource: String,
    /// When the token was issued.
    pub issued_at: Timestamp,
    /// When the token expires.
    pub expires_at: Timestamp,
}

/// The view of an [`IssuedToken`].
pub struct TokenView {
    /// The Onshape user.
    pub user_id: Seq<char>,
    /// The client that the token was issued to.
    pub client_id: Seq<char>,
    /// The resource that the token is valid for.
    pub resource: Seq<char>,
    /// When the token was issued.
    pub issued_at: Timestamp,
    /// When the token expires.
    pub expires_at: Timestamp,
}

impl View for IssuedToken {
    type V = TokenView;

    open spec fn view(&self) -> TokenView {
        TokenView {
            user_id: self.user_id@,
            client_id: self.client_id@,
            resource: self.resource@,
            issued_at: self.issued_at,
            expires_at: self.expires_at,
        }
    }
}

impl Duplicate for IssuedToken {
    fn duplicate(&self) -> (r: IssuedToken) {
        IssuedToken {
            user_id: self.user_id.clone(),
            client_id: self.client_id.clone(),
            resource: self.resource.clone(),
            issued_at: self.issued_at,
            expires_at: self.expires_at,
        }
    }
}

// ---------------------------------------------------------------------------
// Onshape tokens of a user
// ---------------------------------------------------------------------------
/// The Onshape tokens of an authenticated user.
pub struct UserOnshapeTokens {
    access_token: Secret,
    refresh_token: Secret,
    expires_at: Option<Timestamp>,
}

/// The view of [`UserOnshapeTokens`].
pub struct UserTokensView {
    /// The access token.
    pub access_token: Seq<char>,
    /// The refresh token.
    pub refresh_token: Seq<char>,
    /// When the access token expires, if that is known.
    pub expires_at: Option<Timestamp>,
}

impl View for UserOnshapeTokens {
    type V = UserTokensView;

    closed spec fn view(&self) -> UserTokensView {
        UserTokensView {
            access_token: self.access_token@,
            refresh_token: self.refresh_token@,
            expires_at: self.expires_at,
        }
    }
}

impl UserOnshapeTokens {
    /// Puts the tokens together.
    pub fn new(
        access_token: Secret,
        refresh_token: Secret,
        expires_at: Option<Timestamp>,
    ) -> (r: UserOnshapeTokens)
        ensures
            r@ == (UserTokensView {
                access_token: access_token@,
                refresh_token: refresh_token@,
                expires_at,
            }),
    {
        UserOnshapeTokens { access_token, refresh_token, expires_at }
    }

    /// The access token.
    pub fn access_token(&self) -> (r: &Secret)
        ensures
            r@ == self@.access_token,
    {
        &self.access_token
    }

    /// The refresh token.
    pub fn refresh_token(&self) -> (r: &Secret)
        ensures
            r@ == self@.refresh_token,
    {
        &self.refresh_token
    }

    /// When the access token expires, if that is known.
    pub fn expires_at(&self) -> (r: Option<Timestamp>)
        ensures
            r == self@.expires_at,
    {
        self.expires_at
    }
}

impl Duplicate for UserOnshapeTokens {
    fn duplicate(&self) -> (r: UserOnshapeTokens) {
        UserOnshapeTokens {
            access_token: self.access_token.duplicate(),
            refresh_token: self.refresh_token.duplicate(),
            expires_at: self.expires_at,
        }
    }
}

} // verus!
