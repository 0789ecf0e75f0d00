//! Tests of the authorization server: clients, codes, tokens, users.

use base64::Engine;
use sha2::Digest;

use onshape_mcp::authorization::{answer_redirect, authorize, authorize_with, AuthorizeParams};
use onshape_mcp::callback::answer_back;
use onshape_mcp::cli::check_proxy;
use onshape_mcp::credentials::{ValidationState, ValidationStatus};
use onshape_mcp::errors::{HttpError, OAuthError};
use onshape_mcp::hex::{hex_encode, random_hex};
use onshape_mcp::records::{
    AccessLevel, AllowedUser, IssuedAuthCode, IssuedToken, RegisteredClient, Secret,
    UserOnshapeTokens,
};
use onshape_mcp::outside::{ParsedUrl, UrlHost};
use onshape_mcp::registration::{
    register_client, register_client_with, register_judged_client, settle_registration,
    RegisterRequest,
};
use onshape_mcp::state::{OAuthServerState, AUTH_CODE_TTL_SECS, TOKEN_LIFETIME_SECS};
use onshape_mcp::time::Timestamp;
use onshape_mcp::token::{
    code_challenge, grant_auth_code, handle_auth_code_grant, handle_auth_code_grant_with,
    handle_refresh_token_grant, settle_token, token_endpoint, validate_client_auth, TokenRequest,
    TokenResponseBody,
};
use onshape_mcp::url::{check_base, check_redirect, confidential, stripped, PublicUrl};

const HOUR: i64 = 3600;
const DAY: i64 = 86_400;

fn now() -> Timestamp {
    let now = chrono::Utc::now();
    Timestamp { secs: now.timestamp(), nanos: now.timestamp_subsec_nanos() }
}

fn shifted(at: Timestamp, secs: i64) -> Timestamp {
    Timestamp { secs: at.secs + secs, nanos: at.nanos }
}

fn test_state_with(public_url: &str, users: Option<Vec<AllowedUser>>) -> OAuthServerState {
    OAuthServerState::new(
        PublicUrl::parse(public_url).expect("valid test URL"),
        "onshape-client-id".to_string(),
        Secret::new("onshape-client-secret".to_string()),
        None,
        users,
        100,
        100,
    )
}

fn listed() -> Option<Vec<AllowedUser>> {
    Some(vec![
        AllowedUser {
            id: "allowed-user-1".to_string(),
            name: Some("Allowed User".to_string()),
            access: AccessLevel::Full,
        },
        AllowedUser {
            id: "allowed-user-2".to_string(),
            name: Some("Second Allowed User".to_string()),
            access: AccessLevel::Read,
        },
    ])
}

fn test_state() -> OAuthServerState {
    test_state_with("https://example.com", listed())
}

fn onshape_tokens(access: &str, refresh: &str, expires: Option<Timestamp>) -> UserOnshapeTokens {
    UserOnshapeTokens::new(
        Secret::new(access.to_string()),
        Secret::new(refresh.to_string()),
        expires,
    )
}

fn register_test_client(state: &mut OAuthServerState) -> (String, String) {
    let client_id = random_hex(16);
    let client_secret = random_hex(32);
    state.clients.insert(
        client_id.clone(),
        RegisteredClient {
            client_id: client_id.clone(),
            client_secret: Some(client_secret.clone()),
            redirect_uris: vec!["https://example.com/callback".to_string()],
            token_endpoint_auth_method: "client_secret_post".to_string(),
        },
    );
    (client_id, client_secret)
}

fn issued(state: &OAuthServerState, user: &str, client: &str, at: Timestamp, ttl: i64) -> IssuedToken {
    IssuedToken {
        user_id: user.to_string(),
        client_id: client.to_string(),
        resource: state.public_url.mcp(),
        issued_at: at,
        expires_at: shifted(at, ttl),
    }
}

fn insert_access_token(state: &mut OAuthServerState, user: &str, client: &str) -> String {
    let token = random_hex(32);
    let at = now();
    let record = issued(state, user, client, at, TOKEN_LIFETIME_SECS);
    state.tokens.insert(token.clone(), record);
    state.store_refreshed_user_tokens(
        user,
        onshape_tokens(
            "onshape-access-token",
            "onshape-refresh-token",
            Some(shifted(at, HOUR)),
        ),
    );
    token
}

fn insert_code(
    state: &mut OAuthServerState,
    client: &str,
    challenge: Option<String>,
    created_at: Timestamp,
) -> String {
    let code = random_hex(32);
    let resource = state.public_url.mcp();
    state.auth_codes.insert(
        code.clone(),
        IssuedAuthCode {
            client_id: client.to_string(),
            redirect_uri: "https://example.com/callback".to_string(),
            pkce_code_challenge: challenge,
            user_id: "allowed-user-1".to_string(),
            resource,
            created_at,
        },
    );
    code
}

fn challenge_of(verifier: &str) -> String {
    base64::engine::general_purpose::URL_SAFE_NO_PAD
        .encode(sha2::Sha256::digest(verifier.as_bytes()))
}

fn code_request(
    state: &OAuthServerState,
    code: &str,
    client: &str,
    secret: Option<&str>,
    verifier: Option<&str>,
) -> TokenRequest {
    TokenRequest {
        grant_type: "authorization_code".to_string(),
        code: Some(code.to_string()),
        redirect_uri: Some("https://example.com/callback".to_string()),
        client_id: Some(client.to_string()),
        client_secret: secret.map(String::from),
        code_verifier: verifier.map(String::from),
        refresh_token: None,
        resource: Some(state.public_url.mcp()),
    }
}

fn refresh_request(
    state: &OAuthServerState,
    refresh: &str,
    client: Option<&str>,
    secret: Option<&str>,
) -> TokenRequest {
    TokenRequest {
        grant_type: "refresh_token".to_string(),
        code: None,
        redirect_uri: None,
        client_id: client.map(String::from),
        client_secret: secret.map(String::from),
        code_verifier: None,
        refresh_token: Some(refresh.to_string()),
        resource: Some(state.public_url.mcp()),
    }
}

fn token_count(
    tokens: &onshape_mcp::table::Table<IssuedToken>,
    user: &str,
    client: &str,
) -> usize {
    (0..tokens.len())
        .filter(|i| {
            let token = tokens.value_at(*i);
            token.user_id == user && token.client_id == client
        })
        .count()
}

fn oauth_error(error: OAuthError) -> (u16, String, String) {
    (error.status, error.error, error.description)
}

fn http_error(error: HttpError) -> (u16, String) {
    (error.status, error.message)
}

fn registration(uris: &[&str]) -> RegisterRequest {
    RegisterRequest {
        client_name: None,
        redirect_uris: uris.iter().map(|u| u.to_string()).collect(),
        grant_types: vec![],
        response_types: vec![],
        token_endpoint_auth_method: None,
    }
}

// ---------------------------------------------------------------------------
// Bearer tokens
// ---------------------------------------------------------------------------

#[test]
fn validate_token_accepts_valid_access_token() {
    let mut state = test_state();
    let (client_id, _) = register_test_client(&mut state);
    let token = insert_access_token(&mut state, "allowed-user-1", &client_id);

    let result = state.validate_token(&token);
    assert!(result.is_some());
    let ctx = result.expect("should be Some");
    assert_eq!(ctx.user_id, "allowed-user-1");
    assert_eq!(ctx.access, AccessLevel::Full);
    assert_eq!(ctx.onshape_tokens.access_token().expose(), "onshape-access-token");
    assert_eq!(ctx.onshape_tokens.refresh_token().expose(), "onshape-refresh-token");
}

#[test]
fn reauthorizing_user_tokens_resets_cached_validation() {
    let mut state = test_state();
    let validation = state.validation_for_user("allowed-user-1");
    assert!(state.user_credentials.set_validation(
        validation,
        ValidationState {
            status: ValidationStatus::Invalid,
            last_check: Some(now()),
            message: Some("old credentials were rejected".to_string()),
        },
    ));

    let expires = shifted(now(), HOUR);
    state.replace_reauthorized_user_tokens(
        "allowed-user-1",
        onshape_tokens("new-access-token", "new-refresh-token", Some(expires)),
    );

    let replacement = state.validation_for_user("allowed-user-1");
    assert_ne!(validation, replacement);
    assert_eq!(
        *state.user_credentials.validation(replacement).expect("slot"),
        ValidationState::default()
    );
}

#[test]
fn refreshing_user_tokens_preserves_active_validation_slot() {
    let mut state = test_state();
    let active_validation = state.validation_for_user("allowed-user-1");
    assert!(state.user_credentials.set_validation(
        active_validation,
        ValidationState {
            status: ValidationStatus::Invalid,
            last_check: Some(now()),
            message: Some("credentials required refresh".to_string()),
        },
    ));

    let expires = shifted(now(), HOUR);
    state.store_refreshed_user_tokens(
        "allowed-user-1",
        onshape_tokens("refreshed-access-token", "refreshed-refresh-token", Some(expires)),
    );

    assert!(state.user_credentials.set_validation(
        active_validation,
        ValidationState {
            status: ValidationStatus::Valid,
            last_check: Some(now()),
            message: Some("refreshed credentials validated".to_string()),
        },
    ));

    let next_request_validation = state.validation_for_user("allowed-user-1");
    assert_eq!(active_validation, next_request_validation);
    assert_eq!(
        state.user_credentials.validation(next_request_validation).expect("slot").status,
        ValidationStatus::Valid
    );
}

#[test]
fn reauthorization_waits_for_active_refresh_and_wins() {
    let state = std::sync::Arc::new(std::sync::Mutex::new(test_state()));
    state.lock().unwrap().store_refreshed_user_tokens(
        "allowed-user-1",
        onshape_tokens("old-access-token", "old-refresh-token", None),
    );

    let runtime = tokio::runtime::Builder::new_current_thread().build().unwrap();
    runtime.block_on(async {
        let refresh_lock = state.lock().unwrap().get_user_refresh_lock("allowed-user-1");
        let locks =
            std::sync::Arc::new(vec![std::sync::Arc::new(tokio::sync::Mutex::new(()))]);
        let refresh_guard = locks[refresh_lock].lock().await;
        let reauthorizing_state = std::sync::Arc::clone(&state);
        let reauthorizing_locks = std::sync::Arc::clone(&locks);
        let reauthorization = tokio::spawn(async move {
            let lock = reauthorizing_state.lock().unwrap().get_user_refresh_lock("allowed-user-1");
            let _guard = reauthorizing_locks[lock].lock().await;
            reauthorizing_state.lock().unwrap().replace_reauthorized_user_tokens(
                "allowed-user-1",
                onshape_tokens("reauthorized-access-token", "reauthorized-refresh-token", None),
            );
        });

        tokio::task::yield_now().await;
        assert!(!reauthorization.is_finished());
        state.lock().unwrap().store_refreshed_user_tokens(
            "allowed-user-1",
            onshape_tokens("stale-refreshed-access-token", "stale-refreshed-refresh-token", None),
        );
        drop(refresh_guard);
        reauthorization.await.expect("reauthorization task should complete");
    });

    let state = state.lock().unwrap();
    let held = state.user_credentials.get("allowed-user-1").expect("user");
    assert_eq!(
        held.tokens.as_ref().expect("reauthorized tokens should be stored").access_token().expose(),
        "reauthorized-access-token"
    );
}

#[test]
fn stale_request_cannot_update_reauthorized_validation() {
    let mut state = test_state();
    let token = insert_access_token(&mut state, "allowed-user-1", "client-1");
    let stale_context =
        state.validate_token(&token).expect("initial credentials should authenticate");

    state.replace_reauthorized_user_tokens(
        "allowed-user-1",
        onshape_tokens("reauthorized-access-token", "reauthorized-refresh-token", None),
    );
    let current_context =
        state.validate_token(&token).expect("reauthorized credentials should authenticate");
    assert_ne!(stale_context.validation, current_context.validation);

    assert!(state.user_credentials.set_validation(
        stale_context.validation,
        ValidationState {
            status: ValidationStatus::Invalid,
            last_check: Some(now()),
            message: Some("stale request completed after reauthorization".to_string()),
        },
    ));

    assert_eq!(
        *state.user_credentials.validation(current_context.validation).expect("slot"),
        ValidationState::default()
    );
    assert_eq!(
        state.user_credentials.validation(stale_context.validation).expect("slot").status,
        ValidationStatus::Invalid
    );
    assert!(state.user_credentials.validation(99).is_none());
    assert!(!state.user_credentials.set_validation(99, ValidationState::default()));
}

#[test]
fn validate_token_rejects_expired_token() {
    let mut state = test_state();
    let token = random_hex(32);
    let at = now();
    let record = IssuedToken {
        issued_at: shifted(at, -2 * HOUR),
        expires_at: shifted(at, -HOUR),
        ..issued(&state, "allowed-user-1", "some-client", at, 0)
    };
    state.tokens.insert(token.clone(), record);
    state.store_refreshed_user_tokens("allowed-user-1", onshape_tokens("at", "rt", None));

    let result = state.validate_token(&token);
    assert!(result.is_none());
}

#[test]
fn validate_token_rejects_unknown_token() {
    let state = test_state();
    let result = state.validate_token("nonexistent-token");
    assert!(result.is_none());
}

#[test]
fn validate_token_rejects_refresh_token() {
    let mut state = test_state();
    let refresh_token = random_hex(32);
    let record = issued(&state, "allowed-user-1", "some-client", now(), 30 * DAY);
    state.refresh_tokens.insert(refresh_token.clone(), record);
    state.store_refreshed_user_tokens("allowed-user-1", onshape_tokens("at", "rt", None));

    let result = state.validate_token(&refresh_token);
    assert!(result.is_none());

    let prefixed = format!("refresh:{refresh_token}");
    let result = state.validate_token(&prefixed);
    assert!(result.is_none());
}

#[test]
fn validate_token_needs_resource_user_and_tokens() {
    let mut state = test_state();
    let at = Timestamp { secs: 1_000, nanos: 7 };
    let record = issued(&state, "allowed-user-2", "c", at, 60);
    state.tokens.insert("good".to_string(), record);
    assert!(state.validate_token_at("good", &at).is_none());
    let slot = state.validation_for_user("allowed-user-2");
    assert!(state.validate_token_at("good", &at).is_none());
    state.store_refreshed_user_tokens("allowed-user-2", onshape_tokens("a", "r", None));
    let context = state.validate_token_at("good", &at).expect("complete");
    assert_eq!(context.access, AccessLevel::Read);
    assert_eq!(context.validation, slot);
    assert!(state.validate_token_at("good", &shifted(at, 60)).is_some());
    let late = Timestamp { secs: 1_060, nanos: 8 };
    assert!(state.validate_token_at("good", &late).is_none());

    let elsewhere = IssuedToken {
        resource: "https://other.example/mcp".to_string(),
        ..issued(&state, "allowed-user-2", "c", at, 60)
    };
    state.tokens.insert("elsewhere".to_string(), elsewhere);
    assert!(state.validate_token_at("elsewhere", &at).is_none());

    let stranger = issued(&state, "stranger", "c", at, 60);
    state.tokens.insert("stranger".to_string(), stranger);
    state.store_refreshed_user_tokens("stranger", onshape_tokens("a", "r", None));
    assert!(state.validate_token_at("stranger", &at).is_none());
}

#[test]
fn without_list_every_user_has_full_access() {
    let mut state = test_state_with("https://example.com", None);
    let token = insert_access_token(&mut state, "anybody", "client");
    let context = state.validate_token(&token).expect("everybody is let in");
    assert_eq!(context.user_id, "anybody");
    assert_eq!(context.access, AccessLevel::Full);
}

#[test]
fn last_entry_of_a_user_counts() {
    let user = |access| AllowedUser { id: "u".to_string(), name: None, access };
    let state = test_state_with(
        "https://example.com",
        Some(vec![user(AccessLevel::Full), user(AccessLevel::Read)]),
    );
    assert_eq!(state.access_of("u"), Some(AccessLevel::Read));
    assert_eq!(state.access_of("v"), None);
}

// ---------------------------------------------------------------------------
// Dynamic client registration
// ---------------------------------------------------------------------------

#[test]
fn dcr_rejects_empty_redirect_uris() {
    let mut state = test_state();
    let req =
        RegisterRequest { client_name: Some("test".to_string()), ..registration(&[]) };

    let result = register_client(&mut state, req);
    assert_eq!(
        oauth_error(result.expect_err("empty")),
        (
            400,
            "invalid_client_metadata".to_string(),
            "redirect_uris must not be empty".to_string()
        )
    );
}

#[test]
fn dcr_rejects_invalid_redirect_uri_syntax() {
    let mut state = test_state();
    let result = register_client(&mut state, registration(&["not a url"]));
    let error = result.expect_err("should reject invalid redirect URI");
    assert_eq!(error.status, 400);
    assert_eq!(error.error, "invalid_client_metadata");
    assert_eq!(error.description, "invalid redirect_uri: not a url");
}

#[test]
fn dcr_rejects_mixed_valid_and_invalid_redirect_uris() {
    let mut state = test_state();
    let result =
        register_client(&mut state, registration(&["https://example.com/cb", "://broken"]));
    let error = result.expect_err("should reject mixed valid/invalid redirect URIs");
    assert_eq!(error.status, 400);
    assert_eq!(error.error, "invalid_client_metadata");
    assert_eq!(state.clients.len(), 0);
}

#[test]
fn dcr_rejects_http_non_localhost_redirect_uri() {
    let mut state = test_state();
    let result = register_client(&mut state, registration(&["http://example.com/cb"]));
    let error = result.expect_err("should reject http:// to non-localhost");
    assert_eq!(error.status, 400);
    assert_eq!(error.error, "invalid_client_metadata");
    assert_eq!(
        error.description,
        "redirect_uri must use https:// or http:// with a loopback host: http://example.com/cb"
    );
}

#[test]
fn dcr_rejects_ftp_redirect_uri() {
    let mut state = test_state();
    let result = register_client(&mut state, registration(&["ftp://example.com/cb"]));
    let error = result.expect_err("should reject ftp:// redirect URI");
    assert_eq!(error.status, 400);
    assert_eq!(error.error, "invalid_client_metadata");
}

#[test]
fn dcr_accepts_http_localhost_redirect_uri() {
    let mut state = test_state();
    let result = register_client(&mut state, registration(&["http://localhost:8080/cb"]));
    let _ = result.expect("http://localhost should be accepted");
}

#[test]
fn dcr_accepts_http_127_0_0_1_redirect_uri() {
    let mut state = test_state();
    let result = register_client(&mut state, registration(&["http://127.0.0.1:8080/cb"]));
    let _ = result.expect("http://127.0.0.1 should be accepted");
}

#[test]
fn dcr_accepts_http_alternate_ipv4_loopback_redirect_uri() {
    let mut state = test_state();
    let result = register_client(&mut state, registration(&["http://127.0.0.2:8080/cb"]));
    let _ = result.expect("http://127.0.0.2 (loopback) should be accepted");
}

#[test]
fn dcr_accepts_http_ipv6_loopback_redirect_uri() {
    let mut state = test_state();
    let result = register_client(&mut state, registration(&["http://[::1]:8080/cb"]));
    let _ = result.expect("http://[::1] should be accepted");
}

#[test]
fn dcr_rejects_unsupported_grant_type() {
    let mut state = test_state();
    let req = RegisterRequest {
        grant_types: vec!["implicit".to_string()],
        ..registration(&["https://example.com/cb"])
    };

    let result = register_client(&mut state, req);
    assert_eq!(result.expect_err("implicit").description, "unsupported grant_type: implicit");
}

#[test]
fn dcr_rejects_unsupported_response_type() {
    let mut state = test_state();
    let req = RegisterRequest {
        response_types: vec!["token".to_string()],
        ..registration(&["https://example.com/cb"])
    };

    let result = register_client(&mut state, req);
    assert_eq!(result.expect_err("token").description, "unsupported response_type: token");
}

#[test]
fn dcr_rejects_unsupported_auth_method() {
    let mut state = test_state();
    let req = RegisterRequest {
        token_endpoint_auth_method: Some("client_secret_basic".to_string()),
        ..registration(&["https://example.com/cb"])
    };
    assert_eq!(
        register_client(&mut state, req).expect_err("basic").description,
        "unsupported token_endpoint_auth_method: client_secret_basic"
    );
}

#[test]
fn dcr_accepts_valid_registration() {
    let mut state = test_state();
    let req = RegisterRequest {
        client_name: Some("My App".to_string()),
        redirect_uris: vec!["https://example.com/cb".to_string()],
        grant_types: vec!["authorization_code".to_string()],
        response_types: vec!["code".to_string()],
        token_endpoint_auth_method: Some("client_secret_post".to_string()),
    };

    let result = register_client(&mut state, req);
    assert!(result.is_ok());

    let response = result.expect("should be Ok");
    assert!(!response.client_id.is_empty());
    assert!(response.client_secret.is_some());
    assert_eq!(response.token_endpoint_auth_method, "client_secret_post");
    assert_eq!(response.client_id.len(), 32);
    assert_eq!(response.client_secret.as_ref().unwrap().len(), 64);
    assert_eq!(response.client_secret_expires_at, Some(0));
    assert_eq!(response.grant_types, vec!["authorization_code".to_string()]);
    let client = state.clients.get(&response.client_id).expect("stored");
    assert_eq!(client.client_secret, response.client_secret);
    assert_eq!(client.redirect_uris, vec!["https://example.com/cb".to_string()]);
}

#[test]
fn dcr_accepts_public_client_without_secret() {
    let mut state = test_state();
    let req = RegisterRequest {
        client_name: Some("Public MCP Client".to_string()),
        redirect_uris: vec!["https://example.com/cb".to_string()],
        grant_types: vec!["authorization_code".to_string()],
        response_types: vec!["code".to_string()],
        token_endpoint_auth_method: Some("none".to_string()),
    };

    let response =
        register_client(&mut state, req).expect("public client registration should succeed");
    assert!(response.client_secret.is_none());
    assert_eq!(response.token_endpoint_auth_method, "none");
    assert_eq!(response.client_secret_expires_at, None);
}

#[test]
fn dcr_fills_in_defaults() {
    let mut state = test_state();
    let response = register_client_with(
        &mut state,
        registration(&["https://example.com/cb"]),
        "id".to_string(),
        "secret".to_string(),
    )
    .unwrap();
    assert_eq!(response.client_id, "id");
    assert_eq!(response.client_secret, None);
    assert_eq!(
        response.grant_types,
        vec!["authorization_code".to_string(), "refresh_token".to_string()]
    );
    assert_eq!(response.response_types, vec!["code".to_string()]);
    assert_eq!(response.token_endpoint_auth_method, "none");
}

#[test]
fn dcr_stops_at_capacity_and_undoes_what_is_not_saved() {
    let mut state = test_state();
    state.max_registered_clients = 1;
    let first = register_client(&mut state, registration(&["https://example.com/cb"])).unwrap();
    let error =
        register_client(&mut state, registration(&["https://example.com/cb"])).unwrap_err();
    assert_eq!(
        oauth_error(error),
        (
            429,
            "temporarily_unavailable".to_string(),
            "dynamic client registration capacity reached".to_string()
        )
    );
    let id = first.client_id.clone();
    let kept = settle_registration(&mut state, first, true).unwrap();
    assert!(state.clients.contains_key(&id));
    let error = settle_registration(&mut state, kept, false).unwrap_err();
    assert_eq!(
        oauth_error(error),
        (
            500,
            "server_error".to_string(),
            "failed to persist client registration".to_string()
        )
    );
    assert!(!state.clients.contains_key(&id));
}

// ---------------------------------------------------------------------------
// The authorization code grant
// ---------------------------------------------------------------------------

#[test]
fn public_client_can_exchange_code_with_pkce_and_no_secret() {
    let mut state = test_state();
    let client_id = "public-client".to_string();
    state.clients.insert(
        client_id.clone(),
        RegisteredClient {
            client_id: client_id.clone(),
            client_secret: None,
            redirect_uris: vec!["https://example.com/callback".to_string()],
            token_endpoint_auth_method: "none".to_string(),
        },
    );
    state.store_refreshed_user_tokens(
        "allowed-user-1",
        onshape_tokens("onshape-at", "onshape-rt", None),
    );
    let verifier = "public-client-pkce-verifier";
    let code = insert_code(&mut state, &client_id, Some(challenge_of(verifier)), now());
    let request = code_request(&state, &code, &client_id, None, Some(verifier));

    assert!(handle_auth_code_grant(&mut state, &request).is_ok());
}

#[test]
fn auth_code_grant_rejects_wrong_resource_without_consuming_code() {
    let mut state = test_state();
    let (client_id, client_secret) = register_test_client(&mut state);
    let code = insert_code(&mut state, &client_id, None, now());
    let request = TokenRequest {
        resource: Some("https://other.example/mcp".to_string()),
        ..code_request(&state, &code, &client_id, Some(&client_secret), None)
    };

    let result = handle_auth_code_grant(&mut state, &request);
    assert_eq!(
        oauth_error(result.expect_err("resource")),
        (400, "invalid_target".to_string(), "resource mismatch".to_string())
    );
    assert!(state.auth_codes.contains_key(&code));
}

#[test]
fn auth_code_grant_rejects_missing_client_secret() {
    let mut state = test_state();
    let (client_id, _client_secret) = register_test_client(&mut state);
    let verifier = "test-verifier-for-missing-secret";
    let code = insert_code(&mut state, &client_id, Some(challenge_of(verifier)), now());
    let req = code_request(&state, &code, &client_id, None, Some(verifier));

    let result = handle_auth_code_grant(&mut state, &req);
    let error = result.expect_err("should be Err");
    assert_eq!(error.status, 400);
    assert_eq!(error.error, "invalid_client");
    assert_eq!(error.description, "missing client_secret");
}

#[test]
fn auth_code_grant_rejects_wrong_client_secret() {
    let mut state = test_state();
    let (client_id, _client_secret) = register_test_client(&mut state);
    let verifier = "test-verifier-for-wrong-secret";
    let code = insert_code(&mut state, &client_id, Some(challenge_of(verifier)), now());
    let req = code_request(&state, &code, &client_id, Some("wrong-secret"), Some(verifier));

    let result = handle_auth_code_grant(&mut state, &req);
    assert_eq!(result.expect_err("should be Err").description, "invalid client_secret");
}

#[test]
fn auth_code_grant_validates_pkce_s256() {
    let mut state = test_state();
    let (client_id, client_secret) = register_test_client(&mut state);
    let verifier = "dBjftJeZ4CVP-mB92K27uhbUJU1p1r_wW1gFWFOEjXk";
    let code = insert_code(&mut state, &client_id, Some(challenge_of(verifier)), now());
    state.store_refreshed_user_tokens(
        "allowed-user-1",
        onshape_tokens("onshape-at", "onshape-rt", None),
    );
    let req = code_request(&state, &code, &client_id, Some(&client_secret), Some(verifier));

    let result = handle_auth_code_grant(&mut state, &req);
    assert!(result.is_ok());
    let body = result.expect("should be Ok");
    assert_eq!(body.token_type, "Bearer");
    assert!(!body.access_token.is_empty());
    assert!(body.refresh_token.is_some());
    assert_eq!(body.expires_in, 3600);
    assert!(state.validate_token(&body.access_token).is_some());

    let again = handle_auth_code_grant(&mut state, &req).expect_err("single use");
    assert_eq!(
        oauth_error(again),
        (400, "invalid_grant".to_string(), "unknown or expired code".to_string())
    );
}

#[test]
fn auth_code_grant_rejects_wrong_pkce_verifier() {
    let mut state = test_state();
    let (client_id, client_secret) = register_test_client(&mut state);
    let code = insert_code(&mut state, &client_id, Some(challenge_of("correct-verifier")), now());
    let req =
        code_request(&state, &code, &client_id, Some(&client_secret), Some("wrong-verifier"));

    let result = handle_auth_code_grant(&mut state, &req);
    assert_eq!(result.expect_err("should be Err").description, "PKCE verification failed");
    assert!(state.auth_codes.contains_key(&code));
}

#[test]
fn auth_code_grant_rejects_expired_code() {
    let mut state = test_state();
    let (client_id, client_secret) = register_test_client(&mut state);
    let verifier = "test-verifier-for-expired-code";
    let created = shifted(now(), -(AUTH_CODE_TTL_SECS + 1));
    let code = insert_code(&mut state, &client_id, Some(challenge_of(verifier)), created);
    let req = code_request(&state, &code, &client_id, Some(&client_secret), Some(verifier));

    let result = handle_auth_code_grant(&mut state, &req);
    let error = result.expect_err("should be Err");
    assert_eq!(error.status, 400);
    assert_eq!(error.error, "invalid_grant");
}

#[test]
fn auth_code_grant_names_what_is_wrong() {
    let mut state = test_state();
    let (client_id, secret) = register_test_client(&mut state);
    let at = Timestamp { secs: 5_000, nanos: 1 };
    let code = insert_code(&mut state, &client_id, Some(challenge_of("v")), at);
    let good = |state: &OAuthServerState| {
        code_request(state, &code, &client_id, Some(&secret), Some("v"))
    };
    let attempt = |state: &mut OAuthServerState, req: &TokenRequest, at: Timestamp| {
        let error = handle_auth_code_grant_with(
            state,
            req,
            "access".to_string(),
            "refresh".to_string(),
            at,
        )
        .expect_err("must be refused");
        (error.error, error.description)
    };
    let pair = |a: &str, b: &str| (a.to_string(), b.to_string());

    let req = TokenRequest { code: None, ..good(&state) };
    assert_eq!(attempt(&mut state, &req, at), pair("invalid_request", "missing code"));
    let req = TokenRequest { code: Some("other".to_string()), ..good(&state) };
    assert_eq!(attempt(&mut state, &req, at), pair("invalid_grant", "unknown or expired code"));
    let req = TokenRequest { client_id: None, ..good(&state) };
    assert_eq!(attempt(&mut state, &req, at), pair("invalid_client", "client_id mismatch"));
    let req = TokenRequest { redirect_uri: None, ..good(&state) };
    assert_eq!(attempt(&mut state, &req, at), pair("invalid_grant", "redirect_uri mismatch"));
    let req = TokenRequest { code_verifier: None, ..good(&state) };
    assert_eq!(attempt(&mut state, &req, at), pair("invalid_grant", "missing code_verifier"));
    let late = Timestamp { secs: 5_600, nanos: 2 };
    let req = good(&state);
    assert_eq!(attempt(&mut state, &req, late), pair("invalid_grant", "unknown or expired code"));

    let gone = insert_code(&mut state, "unregistered", None, at);
    let req = code_request(&state, &gone, "unregistered", None, None);
    assert_eq!(attempt(&mut state, &req, at), pair("invalid_client", "unknown client_id"));

    let last_moment = shifted(at, 600);
    let req = good(&state);
    let body = handle_auth_code_grant_with(
        &mut state,
        &req,
        "access".to_string(),
        "refresh".to_string(),
        last_moment,
    )
    .expect("in time");
    assert_eq!(
        body,
        TokenResponseBody {
            access_token: "access".to_string(),
            token_type: "Bearer".to_string(),
            expires_in: 3600,
            refresh_token: Some("refresh".to_string()),
        }
    );
    assert_eq!(state.tokens.get("access").unwrap().expires_at, shifted(last_moment, 3600));
    assert_eq!(
        state.refresh_tokens.get("refresh").unwrap().expires_at,
        shifted(last_moment, 2_592_000)
    );
}

#[test]
fn client_authentication_follows_registration() {
    let client = |method: &str, secret: Option<&str>| RegisteredClient {
        client_id: "c".to_string(),
        client_secret: secret.map(String::from),
        redirect_uris: vec![],
        token_endpoint_auth_method: method.to_string(),
    };
    let outcome = |c: &RegisteredClient, s: Option<&str>| {
        validate_client_auth(c, s).map_err(|e| e.description)
    };
    let public = client("none", None);
    assert_eq!(outcome(&public, None), Ok(()));
    assert_eq!(outcome(&public, Some("")), Ok(()));
    assert_eq!(
        outcome(&public, Some("x")),
        Err("public client must not send client_secret".to_string())
    );
    let closed = client("client_secret_post", Some("s\u{e9}cret"));
    assert_eq!(outcome(&closed, Some("s\u{e9}cret")), Ok(()));
    assert_eq!(outcome(&closed, Some("secret")), Err("invalid client_secret".to_string()));
    assert_eq!(outcome(&closed, Some("s\u{e9}cre")), Err("invalid client_secret".to_string()));
    assert_eq!(outcome(&closed, None), Err("missing client_secret".to_string()));
    assert_eq!(
        outcome(&client("client_secret_post", None), Some("x")),
        Err("client secret is unavailable".to_string())
    );
    assert_eq!(
        outcome(&client("private_key_jwt", None), None),
        Err("unsupported registered client authentication method".to_string())
    );
}

#[test]
fn code_challenge_is_s256() {
    assert_eq!(
        code_challenge("dBjftJeZ4CVP-mB92K27uhbUJU1p1r_wW1gFWFOEjXk"),
        "E9Melhoa2OwvFrEMTJguCHaoeK1t8URWbuGJSstw-cM"
    );
}

// ---------------------------------------------------------------------------
// The authorization endpoint
// ---------------------------------------------------------------------------

fn authorize_params(state: &OAuthServerState, client_id: &str) -> AuthorizeParams {
    AuthorizeParams {
        response_type: "code".to_string(),
        client_id: client_id.to_string(),
        redirect_uri: "https://example.com/callback".to_string(),
        state: Some("test-state".to_string()),
        code_challenge: Some("test-challenge".to_string()),
        code_challenge_method: Some("S256".to_string()),
        resource: Some(state.public_url.mcp()),
        scope: None,
    }
}

#[test]
fn authorize_rejects_missing_code_challenge() {
    let mut state = test_state();
    let (client_id, _) = register_test_client(&mut state);
    let params = AuthorizeParams {
        code_challenge: None,
        code_challenge_method: None,
        ..authorize_params(&state, &client_id)
    };

    let result = authorize(&mut state, params);
    let error = result.expect_err("should reject missing code_challenge");
    assert_eq!(error.status, 400);
    assert!(
        error.message.contains("code_challenge is required"),
        "unexpected error message: {}",
        error.message
    );
}

#[test]
fn authorize_includes_configured_enterprise_company_id() {
    let mut state = test_state();
    state.onshape_company_id = Some("company-123".to_string());
    let (client_id, _) = register_test_client(&mut state);
    let params = authorize_params(&state, &client_id);

    let location = authorize(&mut state, params).expect("authorization should redirect");
    assert!(location.contains("company_id=company-123"));
}

#[test]
fn authorize_sends_the_browser_to_onshape() {
    let mut state = test_state();
    let (client_id, _) = register_test_client(&mut state);
    let params = authorize_params(&state, &client_id);
    let verifier = "dBjftJeZ4CVP-mB92K27uhbUJU1p1r_wW1gFWFOEjXk".to_string();
    let at = Timestamp { secs: 100, nanos: 0 };
    let location =
        authorize_with(&mut state, params, verifier.clone(), "csrf".to_string(), at).unwrap();
    let parsed = url::Url::parse(&location).unwrap();
    assert!(location.starts_with("https://oauth.onshape.com/oauth/authorize?"));
    let query: std::collections::HashMap<String, String> =
        parsed.query_pairs().into_owned().collect();
    assert_eq!(query["response_type"], "code");
    assert_eq!(query["client_id"], "onshape-client-id");
    assert_eq!(query["state"], "csrf");
    assert_eq!(query["code_challenge"], "E9Melhoa2OwvFrEMTJguCHaoeK1t8URWbuGJSstw-cM");
    assert_eq!(query["code_challenge_method"], "S256");
    assert_eq!(query["redirect_uri"], "https://example.com/oauth/callback");
    assert_eq!(query["scope"], "OAuth2Read OAuth2Write");
    assert!(!query.contains_key("company_id"));
    assert_eq!(
        location,
        "https://oauth.onshape.com/oauth/authorize?response_type=code\
         &client_id=onshape-client-id&state=csrf\
         &code_challenge=E9Melhoa2OwvFrEMTJguCHaoeK1t8URWbuGJSstw-cM&code_challenge_method=S256\
         &redirect_uri=https%3A%2F%2Fexample.com%2Foauth%2Fcallback&scope=OAuth2Read+OAuth2Write"
    );
    let pending = state.pending_auth.get("csrf").expect("stored");
    assert_eq!(pending.client_id, client_id);
    assert_eq!(pending.pkce_code_challenge.as_deref(), Some("test-challenge"));
    assert_eq!(pending.mcp_state.as_deref(), Some("test-state"));
    assert_eq!(pending.resource, "https://example.com/mcp");
    assert_eq!(pending.onshape_pkce_verifier.expose(), verifier);
    assert_eq!(pending.created_at, at);
}

#[test]
fn authorize_draws_fresh_values() {
    let mut state = test_state();
    let (client_id, _) = register_test_client(&mut state);
    let params = authorize_params(&state, &client_id);
    let first = authorize(&mut state, params).unwrap();
    let params = authorize_params(&state, &client_id);
    let second = authorize(&mut state, params).unwrap();
    assert_ne!(first, second);
    assert_eq!(state.pending_auth.len(), 2);
    assert_eq!(state.pending_auth.key_at(0).len(), 22);
    assert_eq!(state.pending_auth.value_at(0).onshape_pkce_verifier.expose().len(), 43);
}

#[test]
fn authorize_names_what_is_wrong() {
    let mut state = test_state();
    let (client_id, _) = register_test_client(&mut state);
    let attempt = |state: &mut OAuthServerState, params: AuthorizeParams| {
        http_error(authorize(state, params).expect_err("must be refused"))
    };
    let bad = |text: &str| (400, text.to_string());

    let params =
        AuthorizeParams { response_type: "token".to_string(), ..authorize_params(&state, &client_id) };
    assert_eq!(attempt(&mut state, params), bad("unsupported response_type"));
    let params = AuthorizeParams { resource: None, ..authorize_params(&state, &client_id) };
    assert_eq!(attempt(&mut state, params), bad("resource must be https://example.com/mcp"));
    let params = authorize_params(&state, "nobody");
    assert_eq!(attempt(&mut state, params), bad("unknown client_id"));
    let params = AuthorizeParams {
        redirect_uri: "https://evil.example/".to_string(),
        ..authorize_params(&state, &client_id)
    };
    assert_eq!(attempt(&mut state, params), bad("redirect_uri not registered"));
    let params = AuthorizeParams {
        code_challenge_method: Some("plain".to_string()),
        ..authorize_params(&state, &client_id)
    };
    assert_eq!(attempt(&mut state, params), bad("code_challenge_method must be S256"));
    assert_eq!(state.pending_auth.len(), 0);
}

#[test]
fn authorize_drops_expired_flows_and_stops_at_capacity() {
    let mut state = test_state();
    state.max_pending_authorizations = 1;
    let (client_id, _) = register_test_client(&mut state);
    let verifier = "dBjftJeZ4CVP-mB92K27uhbUJU1p1r_wW1gFWFOEjXk".to_string();
    let start = Timestamp { secs: 1_000, nanos: 500 };
    let step = |state: &mut OAuthServerState, csrf: &str, at: Timestamp| {
        let params = authorize_params(state, &client_id);
        authorize_with(state, params, verifier.clone(), csrf.to_string(), at)
    };
    step(&mut state, "first", start).unwrap();
    let almost = Timestamp { secs: 1_600, nanos: 499 };
    assert_eq!(
        http_error(step(&mut state, "second", almost).unwrap_err()),
        (429, "too many pending authorization flows; retry later".to_string())
    );
    assert!(state.pending_auth.contains_key("first"));
    let over = Timestamp { secs: 1_600, nanos: 500 };
    step(&mut state, "second", over).unwrap();
    assert!(!state.pending_auth.contains_key("first"));
    assert!(state.pending_auth.contains_key("second"));
}

// ---------------------------------------------------------------------------
// The refresh token grant
// ---------------------------------------------------------------------------

#[test]
fn refresh_grant_rejects_missing_client_credentials() {
    let mut state = test_state();
    let req = refresh_request(&state, "some-refresh-token", None, None);

    let result = handle_refresh_token_grant(&mut state, &req);
    assert_eq!(result.expect_err("missing").description, "missing client_id");
}

#[test]
fn refresh_grant_rejects_wrong_client_binding() {
    let mut state = test_state();
    let (client_a_id, _client_a_secret) = register_test_client(&mut state);
    let (client_b_id, client_b_secret) = register_test_client(&mut state);

    let refresh_token = random_hex(32);
    let record = issued(&state, "allowed-user-1", &client_a_id, now(), 30 * DAY);
    state.refresh_tokens.insert(refresh_token.clone(), record);
    state.store_refreshed_user_tokens("allowed-user-1", onshape_tokens("at", "rt", None));

    let req = refresh_request(&state, &refresh_token, Some(&client_b_id), Some(&client_b_secret));

    let result = handle_refresh_token_grant(&mut state, &req);
    assert_eq!(
        result.expect_err("other client").description,
        "refresh_token not bound to this client"
    );
    assert!(state.refresh_tokens.contains_key(&refresh_token));
}

#[test]
fn refresh_grant_succeeds_with_correct_client() {
    let mut state = test_state();
    let (client_id, client_secret) = register_test_client(&mut state);

    let refresh_token = random_hex(32);
    let record = issued(&state, "allowed-user-1", &client_id, now(), 30 * DAY);
    state.refresh_tokens.insert(refresh_token.clone(), record);
    state.store_refreshed_user_tokens("allowed-user-1", onshape_tokens("at", "rt", None));

    let req = refresh_request(&state, &refresh_token, Some(&client_id), Some(&client_secret));

    let result = handle_refresh_token_grant(&mut state, &req);
    assert!(result.is_ok());

    assert!(!state.refresh_tokens.contains_key(&refresh_token));
    assert_eq!(
        handle_refresh_token_grant(&mut state, &req).expect_err("single use").description,
        "unknown or expired refresh_token"
    );
}

#[test]
fn refresh_grant_revokes_old_access_token() {
    let mut state = test_state();
    let (client_id, client_secret) = register_test_client(&mut state);
    let old_access = insert_access_token(&mut state, "allowed-user-1", &client_id);

    let refresh_token = random_hex(32);
    let record = issued(&state, "allowed-user-1", &client_id, now(), 30 * DAY);
    state.refresh_tokens.insert(refresh_token.clone(), record);

    let req = refresh_request(&state, &refresh_token, Some(&client_id), Some(&client_secret));

    let result = handle_refresh_token_grant(&mut state, &req);
    assert!(result.is_ok());

    assert!(
        !state.tokens.contains_key(&old_access),
        "old access token should be revoked after refresh"
    );
    assert_eq!(
        token_count(&state.tokens, "allowed-user-1", &client_id),
        1,
        "exactly one access token should exist after refresh"
    );
}

#[test]
fn refresh_grant_names_what_is_wrong() {
    let mut state = test_state();
    let (client_id, secret) = register_test_client(&mut state);
    let expired = issued(&state, "allowed-user-1", &client_id, shifted(now(), -40 * DAY), 30 * DAY);
    state.refresh_tokens.insert("expired".to_string(), expired);
    let fresh = issued(&state, "allowed-user-1", &client_id, now(), 30 * DAY);
    state.refresh_tokens.insert("fresh".to_string(), fresh);
    let attempt = |state: &mut OAuthServerState, req: &TokenRequest| {
        let error = token_endpoint(state, req).expect_err("must be refused");
        (error.error, error.description)
    };
    let pair = |a: &str, b: &str| (a.to_string(), b.to_string());

    let req = TokenRequest {
        refresh_token: None,
        ..refresh_request(&state, "fresh", Some(&client_id), Some(&secret))
    };
    assert_eq!(attempt(&mut state, &req), pair("invalid_request", "missing refresh_token"));
    let req = refresh_request(&state, "fresh", Some("nobody"), None);
    assert_eq!(attempt(&mut state, &req), pair("invalid_client", "unknown client_id"));
    let req = refresh_request(&state, "fresh", Some(&client_id), None);
    assert_eq!(attempt(&mut state, &req), pair("invalid_client", "missing client_secret"));
    let req = refresh_request(&state, "expired", Some(&client_id), Some(&secret));
    assert_eq!(attempt(&mut state, &req), pair("invalid_grant", "refresh_token expired"));
    let req = TokenRequest {
        resource: None,
        ..refresh_request(&state, "fresh", Some(&client_id), Some(&secret))
    };
    assert_eq!(attempt(&mut state, &req), pair("invalid_target", "resource mismatch"));
    let req = TokenRequest {
        grant_type: "password".to_string(),
        ..refresh_request(&state, "fresh", Some(&client_id), Some(&secret))
    };
    assert_eq!(
        attempt(&mut state, &req),
        pair(
            "unsupported_grant_type",
            "Only authorization_code and refresh_token are supported"
        )
    );
    let req = refresh_request(&state, "fresh", Some(&client_id), Some(&secret));
    assert!(token_endpoint(&mut state, &req).is_ok());
}

#[test]
fn unsaved_tokens_are_not_handed_out() {
    let body = || TokenResponseBody {
        access_token: "a".to_string(),
        token_type: "Bearer".to_string(),
        expires_in: 3600,
        refresh_token: None,
    };
    assert_eq!(settle_token("refresh_token", body(), true), Ok(body()));
    assert_eq!(
        oauth_error(settle_token("refresh_token", body(), false).unwrap_err()),
        (
            400,
            "server_error".to_string(),
            "failed to persist refreshed token".to_string()
        )
    );
    assert_eq!(
        settle_token("authorization_code", body(), false).unwrap_err().description,
        "failed to persist issued token"
    );
}

#[test]
fn auth_code_grant_revokes_old_tokens_for_same_client() {
    let mut state = test_state();
    let (client_id, client_secret) = register_test_client(&mut state);
    state.store_refreshed_user_tokens(
        "allowed-user-1",
        onshape_tokens("onshape-at", "onshape-rt", None),
    );
    let bystander = insert_access_token(&mut state, "allowed-user-2", &client_id);

    let code1 = insert_code(&mut state, &client_id, None, now());
    let req1 = code_request(&state, &code1, &client_id, Some(&client_secret), None);
    let body1 = handle_auth_code_grant(&mut state, &req1).expect("first grant should succeed");
    let first_access = body1.access_token.clone();
    let first_refresh = body1.refresh_token.clone().expect("should have refresh token");

    assert!(state.tokens.contains_key(&first_access));
    assert!(state.refresh_tokens.contains_key(&first_refresh));

    let code2 = insert_code(&mut state, &client_id, None, now());
    let req2 = code_request(&state, &code2, &client_id, Some(&client_secret), None);
    let result2 = handle_auth_code_grant(&mut state, &req2);
    assert!(result2.is_ok());

    assert!(
        !state.tokens.contains_key(&first_access),
        "first access token should be revoked after re-auth"
    );
    assert!(
        !state.refresh_tokens.contains_key(&first_refresh),
        "first refresh token should be revoked after re-auth"
    );
    assert_eq!(
        token_count(&state.tokens, "allowed-user-1", &client_id),
        1,
        "exactly one access token after re-auth"
    );
    assert_eq!(
        token_count(&state.refresh_tokens, "allowed-user-1", &client_id),
        1,
        "exactly one refresh token after re-auth"
    );
    assert!(state.tokens.contains_key(&bystander));
}

// ---------------------------------------------------------------------------
// Hexadecimal text
// ---------------------------------------------------------------------------

#[test]
fn hex_is_lower_case_and_complete() {
    assert_eq!(hex_encode(&[]), "");
    assert_eq!(hex_encode(&[0x00, 0x0f, 0xa9, 0xff]), "000fa9ff");
    assert_ne!(random_hex(16), random_hex(16));
    assert_eq!(random_hex(16).len(), 32);
    assert!(random_hex(32).chars().all(|c| c.is_ascii_hexdigit()));
}

// ---------------------------------------------------------------------------
// Decisions on given results
// ---------------------------------------------------------------------------

fn parts(scheme: &str, host: UrlHost, path: &str) -> ParsedUrl {
    ParsedUrl {
        text: format!("{scheme}://host{path}"),
        scheme: scheme.to_string(),
        host,
        path: path.to_string(),
    }
}

#[test]
fn urls_are_judged_by_their_parts() {
    let domain = |name: &str| UrlHost::Domain(name.to_string());
    assert!(confidential(&parts("https", domain("anywhere"), "/")));
    assert!(confidential(&parts("http", domain("localhost"), "/")));
    assert!(!confidential(&parts("http", domain("localhost.example"), "/")));
    assert!(confidential(&parts("http", UrlHost::Ipv4(0x7f00_0001), "/")));
    assert!(confidential(&parts("http", UrlHost::Ipv4(0x7fff_ffff), "/")));
    assert!(!confidential(&parts("http", UrlHost::Ipv4(0x8000_0000), "/")));
    assert!(confidential(&parts("http", UrlHost::Ipv6(1), "/")));
    assert!(!confidential(&parts("http", UrlHost::Ipv6(2), "/")));
    assert!(!confidential(&parts("ftp", domain("localhost"), "/")));
    assert!(!confidential(&parts("http", UrlHost::Missing, "/")));

    assert!(check_redirect("x", Some(parts("https", domain("a"), "/"))).is_none());
    assert_eq!(
        check_redirect("x", None).unwrap().description,
        "invalid redirect_uri: x"
    );
    assert_eq!(
        check_redirect("x", Some(parts("http", domain("a"), "/"))).unwrap().description,
        "redirect_uri must use https:// or http:// with a loopback host: x"
    );
    assert_eq!(check_proxy("x", Some(parts("https", domain("a"), "/"))), Ok("x".to_string()));
    assert!(check_proxy(" ", Some(parts("https", domain("a"), "/"))).is_err());
    assert!(check_proxy("x", None).is_err());

    assert_eq!(stripped("http://host/a//", "/a//"), "http://host/a");
    assert_eq!(stripped("http://host//", "//"), "http://host/");
    assert!(check_base("http://host/", Some(parts("http", domain("host"), "/"))));
    assert!(check_base("http://host/a", Some(parts("http", domain("host"), "/a"))));
    assert!(!check_base("http://host/a/", Some(parts("http", domain("host"), "/a/"))));
    assert!(!check_base("http://host/b", Some(parts("http", domain("host"), "/a"))));
    assert!(!check_base("http://host/a?", Some(parts("http", domain("host"), "/a?"))));
    assert!(!check_base("http://host/", Some(parts("http", UrlHost::Missing, "/"))));
    assert!(!check_base("http://host/", None));
}

#[test]
fn registration_follows_the_verdict_on_redirects() {
    let mut state = test_state();
    let verdict = check_redirect("bad", None).unwrap();
    let error = register_judged_client(
        &mut state,
        registration(&["bad"]),
        Err(verdict),
        "id".to_string(),
        "secret".to_string(),
    )
    .unwrap_err();
    assert_eq!(error.description, "invalid redirect_uri: bad");
    let response = register_judged_client(
        &mut state,
        registration(&["anything"]),
        Ok(()),
        "id".to_string(),
        "secret".to_string(),
    )
    .unwrap();
    assert_eq!(response.redirect_uris, vec!["anything".to_string()]);
    assert!(state.clients.contains_key("id"));
}

#[test]
fn grant_follows_the_computed_challenge() {
    let mut state = test_state();
    let (client_id, secret) = register_test_client(&mut state);
    let at = Timestamp { secs: 50, nanos: 0 };
    let code = insert_code(&mut state, &client_id, Some("challenge".to_string()), at);
    let req = code_request(&state, &code, &client_id, Some(&secret), Some("ignored"));
    let mut attempt = |computed: Option<&str>| {
        grant_auth_code(
            &mut state,
            &req,
            &computed.map(String::from),
            "a".to_string(),
            "r".to_string(),
            at,
        )
        .map_err(|e| e.description)
    };
    assert_eq!(attempt(None), Err("missing code_verifier".to_string()));
    assert_eq!(attempt(Some("other")), Err("PKCE verification failed".to_string()));
    assert!(attempt(Some("challenge")).is_ok());
}

#[test]
fn targets_that_cannot_be_built_are_server_errors() {
    assert_eq!(answer_redirect(Ok("t".to_string())), Ok("t".to_string()));
    assert_eq!(
        http_error(answer_redirect(Err("e".to_string())).unwrap_err()),
        (500, "invalid callback URL: e".to_string())
    );
    assert_eq!(answer_back(Ok("t".to_string())), Ok("t".to_string()));
    assert_eq!(
        http_error(answer_back(Err("e".to_string())).unwrap_err()),
        (500, "invalid redirect URI: e".to_string())
    );
}
