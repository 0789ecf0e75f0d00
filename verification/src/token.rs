//! The token endpoint: from codes and refresh tokens to access tokens.

use vstd::prelude::*;
use vstd::string::*;

use crate::errors::{token_error, OAuthError, OAuthErrorView};
use crate::hex::random_hex;
use crate::outside::{base64url, bytes_differ, current_time, sha256};
use crate::records::{ClientView, CodeView, IssuedAuthCode, IssuedToken, RegisteredClient, TokenView};
use crate::state::{
    replace_token, OAuthServerState, ServerView, AUTH_CODE_TTL_SECS, REFRESH_TOKEN_LIFETIME_SECS,
    TOKEN_LIFETIME_SECS,
};
use crate::table::Duplicate;
use crate::text::{is_text, same};
use crate::time::{Timestamp, LAST_SECOND};
use crate::{encoding, errors, hex, outside, state, text};

verus! {

// ---------------------------------------------------------------------------
// Requests and responses
// ---------------------------------------------------------------------------
/// The form fields of a token request.
pub struct TokenRequest {
    /// The kind of grant.
    pub grant_type: String,
    /// The authorization code.
    pub code: Option<String>,
    /// The redirect URI of the authorization request.
    pub redirect_uri: Option<String>,
    /// The client.
    pub client_id: Option<String>,
    /// The client's secret.
    pub client_secret: Option<String>,
    /// The PKCE verifier.
    pub code_verifier: Option<String>,
    /// The refresh token.
    pub refresh_token: Option<String>,
    /// The resource that the token is for.
    pub resource: Option<String>,
}

/// The view of a [`TokenRequest`].
pub struct TokenRequestView {
    /// The kind of grant.
    pub grant_type: Seq<char>,
    /// The authorization code.
    pub code: Option<Seq<char>>,
    /// The redirect URI of the authorization request.
    pub redirect_uri: Option<Seq<char>>,
    /// The client.
    pub client_id: Option<Seq<char>>,
    /// The client's secret.
    pub client_secret: Option<Seq<char>>,
    /// The PKCE verifier.
    pub code_verifier: Option<Seq<char>>,
    /// The refresh token.
    pub refresh_token: Option<Seq<char>>,
    /// The resource that the token is for.
    pub resource: Option<Seq<char>>,
}

impl View for TokenRequest {
    type V = TokenRequestView;

    open spec fn view(&self) -> TokenRequestView {
        TokenRequestView {
            grant_type: self.grant_type@,
            code: text::opt_chars(self.code),
            redirect_uri: text::opt_chars(self.redirect_uri),
            client_id: text::opt_chars(self.client_id),
            client_secret: text::opt_chars(self.client_secret),
            code_verifier: text::opt_chars(self.code_verifier),
            refresh_token: text::opt_chars(self.refresh_token),
            resource: text::opt_chars(self.resource),
        }
    }
}

/// The answer to a token request.
#[derive(Debug, PartialEq, Eq)]
pub struct TokenResponseBody {
    /// The access token.
    pub access_token: String,
    /// The kind of token.
    pub token_type: String,
    /// For how many seconds the access token is valid.
    pub expires_in: i64,
    /// The refresh token.
    pub refresh_token: Option<String>,
}

/// The view of a [`TokenResponseBody`].
pub struct TokenResponseView {
    /// The access token.
    pub access_token: Seq<char>,
    /// The kind of token.
    pub token_type: Seq<char>,
    /// For how many seconds the access token is valid.
    pub expires_in: i64,
    /// The refresh token.
    pub refresh_token: Option<Seq<char>>,
}

impl View for TokenResponseBody {
    type V = TokenResponseView;

    open spec fn view(&self) -> TokenResponseView {
        TokenResponseView {
            access_token: self.access_token@,
            token_type: self.token_type@,
            expires_in: self.expires_in,
            refresh_token: text::opt_chars(self.refresh_token),
        }
    }
}

// ---------------------------------------------------------------------------
// Client authentication
// ---------------------------------------------------------------------------
/// What is wrong with the way a client authenticates, if anything is: a public client sends no
/// secret, a confidential one sends its own.
pub open spec fn client_auth_error(client: ClientView, provided: Option<Seq<char>>) -> Option<
    OAuthErrorView,
> {
    if client.token_endpoint_auth_method == "none"@ {
        if provided is Some && provided->0.len() > 0 {
            Some(
                errors::token_error_view(
                    "invalid_client"@,
                    "public client must not send client_secret"@,
                ),
            )
        } else {
            None
        }
    } else if client.token_endpoint_auth_method == "client_secret_post"@ {
        if client.client_secret is None {
            Some(errors::token_error_view("invalid_client"@, "client secret is unavailable"@))
        } else if provided is None {
            Some(errors::token_error_view("invalid_client"@, "missing client_secret"@))
        } else if provided != client.client_secret {
            Some(errors::token_error_view("invalid_client"@, "invalid client_secret"@))
        } else {
            None
        }
    } else {
        Some(
            errors::token_error_view(
                "invalid_client"@,
                "unsupported registered client authentication method"@,
            ),
        )
    }
}

/// Whether two texts differ, decided in a time that does not depend on where.
fn secrets_differ(a: &str, b: &str) -> (r: bool)
    ensures
        r == (a@ != b@),
{
    proof {
        vstd::utf8::encode_utf8_decode_utf8(a@);
        vstd::utf8::encode_utf8_decode_utf8(b@);
    }
    bytes_differ(a.as_bytes(), b.as_bytes())
}

/// Checks that a client authenticates the way it registered.
pub fn validate_client_auth(registered: &RegisteredClient, provided_secret: Option<&str>) -> (r:
    Result<(), OAuthError>)
    ensures
        r is Ok <==> client_auth_error(
            registered@,
            text::opt_str_chars(provided_secret),
        ) is None,
        r matches Err(e) ==> client_auth_error(
            registered@,
            text::opt_str_chars(provided_secret),
        ) == Some(e@),
{
    let method: &str = registered.token_endpoint_auth_method.as_str();
    if same(method, "none") {
        return match provided_secret {
            Some(secret) => if secret.unicode_len() > 0 {
                Err(token_error("invalid_client", "public client must not send client_secret"))
            } else {
                Ok(())
            },
            None => Ok(()),
        };
    }
    if same(method, "client_secret_post") {
        return match &registered.client_secret {
            None => Err(token_error("invalid_client", "client secret is unavailable")),
            Some(expected) => match provided_secret {
                None => Err(token_error("invalid_client", "missing client_secret")),
                Some(provided) => if secrets_differ(provided, expected.as_str()) {
                    Err(token_error("invalid_client", "invalid client_secret"))
                } else {
                    Ok(())
                },
            },
        };
    }
    Err(token_error("invalid_client", "unsupported registered client authentication method"))
}

fn check_client_auth(registered: &RegisteredClient, provided: &Option<String>) -> (r: Result<
    (),
    OAuthError,
>)
    ensures
        r is Ok <==> client_auth_error(registered@, text::opt_chars(*provided)) is None,
        r matches Err(e) ==> client_auth_error(registered@, text::opt_chars(*provided)) == Some(
            e@,
        ),
{
    match provided {
        Some(secret) => validate_client_auth(registered, Some(secret.as_str())),
        None => validate_client_auth(registered, None),
    }
}

// ---------------------------------------------------------------------------
// Issuing tokens
// ---------------------------------------------------------------------------
/// The record of a token.
pub open spec fn token_record(
    user: Seq<char>,
    client: Seq<char>,
    resource: Seq<char>,
    now: Timestamp,
    lifetime: int,
) -> TokenView {
    TokenView {
        user_id: user,
        client_id: client,
        resource,
        issued_at: now,
        expires_at: now.plus_spec(lifetime),
    }
}

/// The state after a client got a new pair of tokens for a user, in place of the earlier ones.
pub open spec fn with_tokens(
    s: ServerView,
    user: Seq<char>,
    client: Seq<char>,
    resource: Seq<char>,
    access: Seq<char>,
    refresh: Seq<char>,
    now: Timestamp,
) -> ServerView {
    ServerView {
        tokens: state::replaced(
            s.tokens,
            access,
            token_record(user, client, resource, now, TOKEN_LIFETIME_SECS as int),
        ),
        refresh_tokens: state::replaced(
            s.refresh_tokens,
            refresh,
            token_record(user, client, resource, now, REFRESH_TOKEN_LIFETIME_SECS as int),
        ),
        ..s
    }
}

/// What a client is told that got a new pair of tokens.
pub open spec fn token_response(access: Seq<char>, refresh: Seq<char>) -> TokenResponseView {
    TokenResponseView {
        access_token: access,
        token_type: "Bearer"@,
        expires_in: TOKEN_LIFETIME_SECS,
        refresh_token: Some(refresh),
    }
}

fn issue_tokens(
    state: &mut OAuthServerState,
    user: &str,
    client: &str,
    resource: &str,
    access: String,
    refresh: String,
    now: &Timestamp,
) -> (r: TokenResponseBody)
    requires
        now.secs <= LAST_SECOND,
    ensures
        final(state)@ == with_tokens(
            old(state)@,
            user@,
            client@,
            resource@,
            access@,
            refresh@,
            *now,
        ),
        r@ == token_response(access@, refresh@),
{
    replace_token(
        &mut state.tokens,
        access.clone(),
        IssuedToken {
            user_id: user.to_owned(),
            client_id: client.to_owned(),
            resource: resource.to_owned(),
            issued_at: *now,
            expires_at: now.plus(TOKEN_LIFETIME_SECS),
        },
    );
    replace_token(
        &mut state.refresh_tokens,
        refresh.clone(),
        IssuedToken {
            user_id: user.to_owned(),
            client_id: client.to_owned(),
            resource: resource.to_owned(),
            issued_at: *now,
            expires_at: now.plus(REFRESH_TOKEN_LIFETIME_SECS),
        },
    );
    TokenResponseBody {
        access_token: access,
        token_type: "Bearer".to_owned(),
        expires_in: TOKEN_LIFETIME_SECS,
        refresh_token: Some(refresh),
    }
}

// ---------------------------------------------------------------------------
// The authorization code grant
// ---------------------------------------------------------------------------
/// The S256 challenge of a PKCE verifier.
pub open spec fn s256(verifier: Seq<char>) -> Seq<char> {
    encoding::base64url_text(outside::sha256_digest(vstd::utf8::encode_utf8(verifier)))
}

/// The S256 challenge of a PKCE verifier.
pub fn code_challenge(verifier: &str) -> (r: String)
    ensures
        r@ == s256(verifier@),
{
    let digest: Vec<u8> = sha256(verifier.as_bytes());
    base64url(digest.as_slice())
}

/// What is wrong with the proof that the client began the flow, if anything is, where `computed` is
/// the challenge of the verifier that the client sent, if it sent one.
pub open spec fn pkce_verdict(challenge: Option<Seq<char>>, computed: Option<Seq<char>>) -> Option<
    OAuthErrorView,
> {
    if challenge is None {
        None
    } else if computed is None {
        Some(errors::token_error_view("invalid_grant"@, "missing code_verifier"@))
    } else if computed != challenge {
        Some(errors::token_error_view("invalid_grant"@, "PKCE verification failed"@))
    } else {
        None
    }
}

/// The challenge of the verifier that the client sent, if it sent one.
pub open spec fn computed_challenge(req: TokenRequestView) -> Option<Seq<char>> {
    match req.code_verifier {
        Some(verifier) => Some(s256(verifier)),
        None => None,
    }
}

/// What is wrong with the use of a known code, if anything is.
pub open spec fn code_use_verdict(
    s: ServerView,
    code: CodeView,
    req: TokenRequestView,
    computed: Option<Seq<char>>,
    now: Timestamp,
) -> Option<OAuthErrorView> {
    if now.beyond(code.created_at, AUTH_CODE_TTL_SECS as int) {
        Some(errors::token_error_view("invalid_grant"@, "unknown or expired code"@))
    } else if req.client_id != Some(code.client_id) {
        Some(errors::token_error_view("invalid_client"@, "client_id mismatch"@))
    } else if !s.clients.dom().contains(code.client_id) {
        Some(errors::token_error_view("invalid_client"@, "unknown client_id"@))
    } else if client_auth_error(s.clients[code.client_id], req.client_secret) is Some {
        client_auth_error(s.clients[code.client_id], req.client_secret)
    } else if req.resource != Some(code.resource) {
        Some(errors::token_error_view("invalid_target"@, "resource mismatch"@))
    } else if req.redirect_uri != Some(code.redirect_uri) {
        Some(errors::token_error_view("invalid_grant"@, "redirect_uri mismatch"@))
    } else {
        pkce_verdict(code.pkce_code_challenge, computed)
    }
}

/// What is wrong with a request for the authorization code grant, if anything is, where `computed`
/// is the challenge of the verifier that the client sent.
pub open spec fn auth_code_verdict(
    s: ServerView,
    req: TokenRequestView,
    computed: Option<Seq<char>>,
    now: Timestamp,
) -> Option<OAuthErrorView> {
    if req.code is None {
        Some(errors::token_error_view("invalid_request"@, "missing code"@))
    } else if !s.auth_codes.dom().contains(req.code->0) {
        Some(errors::token_error_view("invalid_grant"@, "unknown or expired code"@))
    } else {
        code_use_verdict(s, s.auth_codes[req.code->0], req, computed, now)
    }
}

/// What is wrong with a request for the authorization code grant, if anything is.
pub open spec fn auth_code_error(s: ServerView, req: TokenRequestView, now: Timestamp) -> Option<
    OAuthErrorView,
> {
    auth_code_verdict(s, req, computed_challenge(req), now)
}

/// What the authorization code grant does, where `computed` is the challenge of the verifier that
/// the client sent: a code that everything fits is consumed for a pair of tokens, and nothing else
/// changes the state.
pub open spec fn auth_code_outcome(
    s: ServerView,
    req: TokenRequestView,
    computed: Option<Seq<char>>,
    access: Seq<char>,
    refresh: Seq<char>,
    now: Timestamp,
) -> (ServerView, Result<TokenResponseView, OAuthErrorView>) {
    if auth_code_verdict(s, req, computed, now) is Some {
        (s, Err(auth_code_verdict(s, req, computed, now)->0))
    } else {
        let code = s.auth_codes[req.code->0];
        let consumed = ServerView { auth_codes: s.auth_codes.remove(req.code->0), ..s };
        (
            with_tokens(
                consumed,
                code.user_id,
                code.client_id,
                code.resource,
                access,
                refresh,
                now,
            ),
            Ok(token_response(access, refresh)),
        )
    }
}

/// What the authorization code grant does.
pub open spec fn auth_code_step(
    s: ServerView,
    req: TokenRequestView,
    access: Seq<char>,
    refresh: Seq<char>,
    now: Timestamp,
) -> (ServerView, Result<TokenResponseView, OAuthErrorView>) {
    auth_code_outcome(s, req, computed_challenge(req), access, refresh, now)
}

fn check_pkce(challenge: &Option<String>, computed: &Option<String>) -> (r: Result<(), OAuthError>)
    ensures
        r is Ok <==> pkce_verdict(text::opt_chars(*challenge), text::opt_chars(*computed)) is None,
        r matches Err(e) ==> pkce_verdict(text::opt_chars(*challenge), text::opt_chars(*computed))
            == Some(e@),
{
    match challenge {
        None => Ok(()),
        Some(challenge) => match computed {
            None => Err(token_error("invalid_grant", "missing code_verifier")),
            Some(computed) => if same(computed.as_str(), challenge.as_str()) {
                Ok(())
            } else {
                Err(token_error("invalid_grant", "PKCE verification failed"))
            },
        },
    }
}

fn check_code_use(
    state: &OAuthServerState,
    code: &IssuedAuthCode,
    req: &TokenRequest,
    computed: &Option<String>,
    now: &Timestamp,
) -> (r: Result<(), OAuthError>)
    ensures
        r is Ok <==> code_use_verdict(
            state@,
            code@,
            req@,
            text::opt_chars(*computed),
            *now,
        ) is None,
        r matches Err(e) ==> code_use_verdict(
            state@,
            code@,
            req@,
            text::opt_chars(*computed),
            *now,
        ) == Some(e@),
{
    if now.is_beyond(&code.created_at, AUTH_CODE_TTL_SECS) {
        return Err(token_error("invalid_grant", "unknown or expired code"));
    }
    if !is_text(&req.client_id, code.client_id.as_str()) {
        return Err(token_error("invalid_client", "client_id mismatch"));
    }
    let registered: &RegisteredClient = match state.clients.get(code.client_id.as_str()) {
        Some(registered) => registered,
        None => return Err(token_error("invalid_client", "unknown client_id")),
    };
    if let Err(error) = check_client_auth(registered, &req.client_secret) {
        return Err(error);
    }
    if !is_text(&req.resource, code.resource.as_str()) {
        return Err(token_error("invalid_target", "resource mismatch"));
    }
    if !is_text(&req.redirect_uri, code.redirect_uri.as_str()) {
        return Err(token_error("invalid_grant", "redirect_uri mismatch"));
    }
    check_pkce(&code.pkce_code_challenge, computed)
}

/// Answers a request for the authorization code grant at a point in time, with given tokens, where
/// `computed` is the challenge of the verifier that the client sent, if it sent one.
pub fn grant_auth_code(
    state: &mut OAuthServerState,
    req: &TokenRequest,
    computed: &Option<String>,
    access: String,
    refresh: String,
    now: Timestamp,
) -> (r: Result<TokenResponseBody, OAuthError>)
    requires
        now.secs <= LAST_SECOND,
    ensures
        (final(state)@, errors::result_view(r)) == auth_code_outcome(
            old(state)@,
            req@,
            text::opt_chars(*computed),
            access@,
            refresh@,
            now,
        ),
{
    let key: &String = match &req.code {
        Some(key) => key,
        None => return Err(token_error("invalid_request", "missing code")),
    };
    let code: IssuedAuthCode = match state.auth_codes.get(key.as_str()) {
        Some(code) => code.duplicate(),
        None => return Err(token_error("invalid_grant", "unknown or expired code")),
    };
    if let Err(error) = check_code_use(state, &code, req, computed, &now) {
        return Err(error);
    }
    let _consumed: Option<IssuedAuthCode> = state.auth_codes.remove(key.as_str());
    Ok(
        issue_tokens(
            state,
            code.user_id.as_str(),
            code.client_id.as_str(),
            code.resource.as_str(),
            access,
            refresh,
            &now,
        ),
    )
}

/// Answers a request for the authorization code grant at a point in time, with given tokens.
pub fn handle_auth_code_grant_with(
    state: &mut OAuthServerState,
    req: &TokenRequest,
    access: String,
    refresh: String,
    now: Timestamp,
) -> (r: Result<TokenResponseBody, OAuthError>)
    requires
        now.secs <= LAST_SECOND,
    ensures
        (final(state)@, errors::result_view(r)) == auth_code_step(
            old(state)@,
            req@,
            access@,
            refresh@,
            now,
        ),
{
    let computed: Option<String> = match &req.code_verifier {
        Some(verifier) => Some(code_challenge(verifier.as_str())),
        None => None,
    };
    grant_auth_code(state, req, &computed, access, refresh, now)
}

/// Answers a request for the authorization code grant with random tokens.
pub fn handle_auth_code_grant(state: &mut OAuthServerState, req: &TokenRequest) -> (r: Result<
    TokenResponseBody,
    OAuthError,
>)
    ensures
        exists|access: Seq<char>, refresh: Seq<char>, now: Timestamp|
            hex::is_hex_of(access, 32) && hex::is_hex_of(refresh, 32) && now.on_clock()
                && (final(state)@, errors::result_view(r)) == #[trigger] auth_code_step(
                old(state)@,
                req@,
                access,
                refresh,
                now,
            ),
{
    let access: String = random_hex(32);
    let refresh: String = random_hex(32);
    let now: Timestamp = current_time();
    handle_auth_code_grant_with(state, req, access, refresh, now)
}

// ---------------------------------------------------------------------------
// The refresh token grant
// ---------------------------------------------------------------------------
/// What is wrong with the use of a known refresh token, if anything is.
pub open spec fn refresh_use_error(
    token: TokenView,
    client: Seq<char>,
    resource: Option<Seq<char>>,
    now: Timestamp,
) -> Option<OAuthErrorView> {
    if now.later_than(token.expires_at) {
        Some(errors::token_error_view("invalid_grant"@, "refresh_token expired"@))
    } else if client != token.client_id {
        Some(
            errors::token_error_view(
                "invalid_grant"@,
                "refresh_token not bound to this client"@,
            ),
        )
    } else if resource != Some(token.resource) {
        Some(errors::token_error_view("invalid_target"@, "resource mismatch"@))
    } else {
        None
    }
}

/// What is wrong with a request for the refresh token grant, if anything is.
pub open spec fn refresh_error(s: ServerView, req: TokenRequestView, now: Timestamp) -> Option<
    OAuthErrorView,
> {
    if req.refresh_token is None {
        Some(errors::token_error_view("invalid_request"@, "missing refresh_token"@))
    } else if req.client_id is None {
        Some(errors::token_error_view("invalid_client"@, "missing client_id"@))
    } else if !s.clients.dom().contains(req.client_id->0) {
        Some(errors::token_error_view("invalid_client"@, "unknown client_id"@))
    } else if client_auth_error(s.clients[req.client_id->0], req.client_secret) is Some {
        client_auth_error(s.clients[req.client_id->0], req.client_secret)
    } else if !s.refresh_tokens.dom().contains(req.refresh_token->0) {
        Some(errors::token_error_view("invalid_grant"@, "unknown or expired refresh_token"@))
    } else {
        refresh_use_error(
            s.refresh_tokens[req.refresh_token->0],
            req.client_id->0,
            req.resource,
            now,
        )
    }
}

/// What the refresh token grant does: a refresh token that everything fits is consumed for a new
/// pair of tokens, and nothing else changes the state.
pub open spec fn refresh_step(
    s: ServerView,
    req: TokenRequestView,
    access: Seq<char>,
    refresh: Seq<char>,
    now: Timestamp,
) -> (ServerView, Result<TokenResponseView, OAuthErrorView>) {
    if refresh_error(s, req, now) is Some {
        (s, Err(refresh_error(s, req, now)->0))
    } else {
        let token = s.refresh_tokens[req.refresh_token->0];
        let consumed = ServerView {
            refresh_tokens: s.refresh_tokens.remove(req.refresh_token->0),
            ..s
        };
        (
            with_tokens(
                consumed,
                token.user_id,
                req.client_id->0,
                token.resource,
                access,
                refresh,
                now,
            ),
            Ok(token_response(access, refresh)),
        )
    }
}

fn check_refresh_use(
    token: &IssuedToken,
    client: &str,
    resource: &Option<String>,
    now: &Timestamp,
) -> (r: Result<(), OAuthError>)
    ensures
        r is Ok <==> refresh_use_error(
            token@,
            client@,
            text::opt_chars(*resource),
            *now,
        ) is None,
        r matches Err(e) ==> refresh_use_error(token@, client@, text::opt_chars(*resource), *now)
            == Some(e@),
{
    if now.is_later(&token.expires_at) {
        return Err(token_error("invalid_grant", "refresh_token expired"));
    }
    if !same(client, token.client_id.as_str()) {
        return Err(token_error("invalid_grant", "refresh_token not bound to this client"));
    }
    if !is_text(resource, token.resource.as_str()) {
        return Err(token_error("invalid_target", "resource mismatch"));
    }
    Ok(())
}

/// Answers a request for the refresh token grant at a point in time, with given tokens.
pub fn handle_refresh_token_grant_with(
    state: &mut OAuthServerState,
    req: &TokenRequest,
    access: String,
    refresh: String,
    now: Timestamp,
) -> (r: Result<TokenResponseBody, OAuthError>)
    requires
        now.secs <= LAST_SECOND,
    ensures
        (final(state)@, errors::result_view(r)) == refresh_step(
            old(state)@,
            req@,
            access@,
            refresh@,
            now,
        ),
{
    let key: &String = match &req.refresh_token {
        Some(key) => key,
        None => return Err(token_error("invalid_request", "missing refresh_token")),
    };
    let client: &String = match &req.client_id {
        Some(client) => client,
        None => return Err(token_error("invalid_client", "missing client_id")),
    };
    match state.clients.get(client.as_str()) {
        Some(registered) => {
            if let Err(error) = check_client_auth(registered, &req.client_secret) {
                return Err(error);
            }
        },
        None => return Err(token_error("invalid_client", "unknown client_id")),
    }
    let token: IssuedToken = match state.refresh_tokens.get(key.as_str()) {
        Some(token) => token.duplicate(),
        None => return Err(token_error("invalid_grant", "unknown or expired refresh_token")),
    };
    if let Err(error) = check_refresh_use(&token, client.as_str(), &req.resource, &now) {
        return Err(error);
    }
    let _consumed: Option<IssuedToken> = state.refresh_tokens.remove(key.as_str());
    Ok(
        issue_tokens(
            state,
            token.user_id.as_str(),
            client.as_str(),
            token.resource.as_str(),
            access,
            refresh,
            &now,
        ),
    )
}

/// Answers a request for the refresh token grant with random tokens.
pub fn handle_refresh_token_grant(state: &mut OAuthServerState, req: &TokenRequest) -> (r: Result<
    TokenResponseBody,
    OAuthError,
>)
    ensures
        exists|access: Seq<char>, refresh: Seq<char>, now: Timestamp|
            hex::is_hex_of(access, 32) && hex::is_hex_of(refresh, 32) && now.on_clock()
                && (final(state)@, errors::result_view(r)) == #[trigger] refresh_step(
                old(state)@,
                req@,
                access,
                refresh,
                now,
            ),
{
    let access: String = random_hex(32);
    let refresh: String = random_hex(32);
    let now: Timestamp = current_time();
    handle_refresh_token_grant_with(state, req, access, refresh, now)
}

// ---------------------------------------------------------------------------
// The endpoint
// ---------------------------------------------------------------------------
/// What a token request does, by the kind of grant.
pub open spec fn token_step(
    s: ServerView,
    req: TokenRequestView,
    access: Seq<char>,
    refresh: Seq<char>,
    now: Timestamp,
) -> (ServerView, Result<TokenResponseView, OAuthErrorView>) {
    if req.grant_type == "authorization_code"@ {
        auth_code_step(s, req, access, refresh, now)
    } else if req.grant_type == "refresh_token"@ {
        refresh_step(s, req, access, refresh, now)
    } else {
        (
            s,
            Err(
                errors::token_error_view(
                    "unsupported_grant_type"@,
                    "Only authorization_code and refresh_token are supported"@,
                ),
            ),
        )
    }
}

/// Answers a token request at a point in time, with given tokens.
pub fn token_endpoint_with(
    state: &mut OAuthServerState,
    req: &TokenRequest,
    access: String,
    refresh: String,
    now: Timestamp,
) -> (r: Result<TokenResponseBody, OAuthError>)
    requires
        now.secs <= LAST_SECOND,
    ensures
        (final(state)@, errors::result_view(r)) == token_step(
            old(state)@,
            req@,
            access@,
            refresh@,
            now,
        ),
{
    if same(req.grant_type.as_str(), "authorization_code") {
        handle_auth_code_grant_with(state, req, access, refresh, now)
    } else if same(req.grant_type.as_str(), "refresh_token") {
        handle_refresh_token_grant_with(state, req, access, refresh, now)
    } else {
        Err(
            token_error(
                "unsupported_grant_type",
                "Only authorization_code and refresh_token are supported",
            ),
        )
    }
}

/// Answers a token request. The answer stands once [`settle_token`] is told that the state was
/// saved.
pub fn token_endpoint(state: &mut OAuthServerState, req: &TokenRequest) -> (r: Result<
    TokenResponseBody,
    OAuthError,
>)
    ensures
        exists|access: Seq<char>, refresh: Seq<char>, now: Timestamp|
            hex::is_hex_of(access, 32) && hex::is_hex_of(refresh, 32) && now.on_clock()
                && (final(state)@, errors::result_view(r)) == #[trigger] token_step(
                old(state)@,
                req@,
                access,
                refresh,
                now,
            ),
{
    let access: String = random_hex(32);
    let refresh: String = random_hex(32);
    let now: Timestamp = current_time();
    token_endpoint_with(state, req, access, refresh, now)
}

/// What a client is answered in the end that was granted tokens: they count once they are saved.
pub open spec fn settled(grant_type: Seq<char>, response: TokenResponseView, saved: bool) -> Result<
    TokenResponseView,
    OAuthErrorView,
> {
    if saved {
        Ok(response)
    } else if grant_type == "refresh_token"@ {
        Err(errors::token_error_view("server_error"@, "failed to persist refreshed token"@))
    } else {
        Err(errors::token_error_view("server_error"@, "failed to persist issued token"@))
    }
}

/// Ends a token request: where the state could not be saved, the client gets no tokens.
pub fn settle_token(grant_type: &str, response: TokenResponseBody, saved: bool) -> (r: Result<
    TokenResponseBody,
    OAuthError,
>)
    ensures
        errors::result_view(r) == settled(grant_type@, response@, saved),
        saved ==> r == Ok::<TokenResponseBody, OAuthError>(response),
        !saved ==> (r matches Err(e) && e@ == errors::token_error_view(
            "server_error"@,
            if grant_type@ == "refresh_token"@ {
                "failed to persist refreshed token"@
            } else {
                "failed to persist issued token"@
            },
        )),
{
    if saved {
        Ok(response)
    } else if same(grant_type, "refresh_token") {
        Err(token_error("server_error", "failed to persist refreshed token"))
    } else {
        Err(token_error("server_error", "failed to persist issued token"))
    }
}

} // verus!
