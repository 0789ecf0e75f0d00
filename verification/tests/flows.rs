//! Tests of the ways through the server: the return from Onshape, refreshes, restarts, requests.

use aes_gcm::aead::{Aead, Payload};
use aes_gcm::KeyInit;
use base64::Engine;

use onshape_mcp::authorization::{authorize_with, AuthorizeParams};
use onshape_mcp::callback::{
    accept_user, accept_user_at, accept_user_on, can_redirect, check_room, exchange_onshape_code,
    fetch_and_verify_user, finish_callback, finish_callback_within, issue_code, issue_code_with, onshape_callback, onshape_callback_at,
    CallbackParams, ExchangeOutcome, IdentityOutcome, OnshapeGrant, SessionInfo,
};
use onshape_mcp::credentials::{ValidationState, ValidationStatus};
use onshape_mcp::endpoints::{
    authorization_server_metadata, endpoint_at, health, oauth_router,
    protected_resource_metadata, ready, Endpoint,
};
use onshape_mcp::middleware::{
    auth_middleware, authenticate_at, bearer_token, security_headers, unauthorized_response,
};
use onshape_mcp::persistence::{accept_saved, PersistedOAuthState};
use onshape_mcp::records::{
    AccessLevel, AllowedUser, PendingAuth, RegisteredClient, Secret, UserOnshapeTokens,
};
use onshape_mcp::refresh::{
    complete_refresh, complete_refresh_at, complete_refresh_on, is_permanent_refresh_failure,
    prepare_refresh,
    refresh_user_onshape_tokens, settle_refresh, RefreshOutcome, RefreshPlan,
    UserTokenRefreshError,
};
use onshape_mcp::registration::{register_client, RegisterRequest};
use onshape_mcp::state::OAuthServerState;
use onshape_mcp::store::{
    is_owner_only, join_frame, key_from, retry_replacement, split_frame, EncryptedStateStore,
    FileProbe, StateStoreError,
};
use onshape_mcp::table::{Duplicate, Table};
use onshape_mcp::time::{can_show_expiry, Timestamp};
use onshape_mcp::token::{
    code_challenge, handle_refresh_token_grant, token_endpoint, TokenRequest,
};
use onshape_mcp::url::PublicUrl;

const VERIFIER: &str = "dBjftJeZ4CVP-mB92K27uhbUJU1p1r_wW1gFWFOEjXk";

fn moment() -> Timestamp {
    let now = chrono::Utc::now();
    Timestamp { secs: now.timestamp(), nanos: now.timestamp_subsec_nanos() }
}

fn later(at: Timestamp, secs: i64) -> Timestamp {
    Timestamp { secs: at.secs + secs, nanos: at.nanos }
}

fn server(public_url: &str, users: Option<&[(&str, AccessLevel)]>) -> OAuthServerState {
    OAuthServerState::new(
        PublicUrl::parse(public_url).expect("a public URL"),
        "onshape-client-id".to_string(),
        Secret::new("onshape-client-secret".to_string()),
        None,
        users.map(|users| {
            users
                .iter()
                .map(|(id, access)| AllowedUser {
                    id: id.to_string(),
                    name: None,
                    access: *access,
                })
                .collect()
        }),
        100,
        100,
    )
}

fn standard() -> OAuthServerState {
    server(
        "https://example.com",
        Some(&[("allowed-user-1", AccessLevel::Full), ("allowed-user-2", AccessLevel::Read)]),
    )
}

fn pending(at: Timestamp, state: Option<&str>, redirect: &str) -> PendingAuth {
    PendingAuth {
        client_id: "client".to_string(),
        redirect_uri: redirect.to_string(),
        pkce_code_challenge: Some(code_challenge(VERIFIER)),
        mcp_state: state.map(String::from),
        resource: "https://example.com/mcp".to_string(),
        onshape_pkce_verifier: Secret::new("onshape-verifier".to_string()),
        created_at: at,
    }
}

fn params(code: Option<&str>, state: Option<&str>, error: Option<&str>) -> CallbackParams {
    CallbackParams {
        code: code.map(String::from),
        state: state.map(String::from),
        error: error.map(String::from),
    }
}

fn grant(refresh: Option<&str>, expires_in: Option<u64>) -> OnshapeGrant {
    OnshapeGrant {
        access_token: Secret::new("onshape-access".to_string()),
        refresh_token: refresh.map(|text| Secret::new(text.to_string())),
        expires_in,
    }
}

fn session(id: &str) -> IdentityOutcome {
    IdentityOutcome::Session(SessionInfo { id: id.to_string(), name: None })
}

fn tokens(access: &str, refresh: &str, expires: Option<Timestamp>) -> UserOnshapeTokens {
    UserOnshapeTokens::new(
        Secret::new(access.to_string()),
        Secret::new(refresh.to_string()),
        expires,
    )
}

// ---------------------------------------------------------------------------
// The return from Onshape
// ---------------------------------------------------------------------------

#[test]
fn callback_refuses_bad_parameters() {
    let mut state = standard();
    let mut attempt = |p: CallbackParams| {
        let error = onshape_callback(&mut state, p).err().expect("must be refused");
        (error.status, error.message)
    };
    assert_eq!(
        attempt(params(Some("c"), Some("s"), Some("access_denied"))),
        (403, "Onshape authorization denied: access_denied".to_string())
    );
    assert_eq!(
        attempt(params(None, Some("s"), None)),
        (400, "missing authorization code".to_string())
    );
    assert_eq!(
        attempt(params(Some("c"), None, None)),
        (400, "missing state parameter".to_string())
    );
    assert_eq!(
        attempt(params(Some("c"), Some("s"), None)),
        (400, "unknown or expired state".to_string())
    );
}

#[test]
fn callback_consumes_the_flow_in_time_or_late() {
    let mut state = standard();
    let at = Timestamp { secs: 1_000, nanos: 10 };
    for csrf in ["in-time", "late"] {
        state
            .pending_auth
            .insert(csrf.to_string(), pending(at, None, "https://client.example/cb"));
    }
    let just_in_time = Timestamp { secs: 1_600, nanos: 9 };
    let start = onshape_callback_at(
        &mut state,
        params(Some("onshape-code"), Some("in-time"), None),
        just_in_time,
    )
    .ok()
    .expect("in time");
    assert_eq!(start.onshape_code(), "onshape-code");
    assert_eq!(start.callback_url(), "https://example.com/oauth/callback");
    assert_eq!(start.pkce_verifier(), "onshape-verifier");
    let error = onshape_callback_at(
        &mut state,
        params(Some("onshape-code"), Some("late"), None),
        later(at, 600),
    )
    .err()
    .expect("late");
    assert_eq!((error.status, error.message.as_str()), (400, "unknown or expired state"));
    assert_eq!(state.pending_auth.len(), 0);
    let again = onshape_callback_at(
        &mut state,
        params(Some("onshape-code"), Some("in-time"), None),
        just_in_time,
    );
    assert_eq!(again.err().expect("consumed").message, "unknown or expired state");
}

#[test]
fn users_do_not_touch_each_other() {
    let mut state = standard();
    state.store_refreshed_user_tokens("allowed-user-1", tokens("a1", "r1", None));
    state.store_refreshed_user_tokens("allowed-user-2", tokens("a2", "r2", None));
    let one = state.validation_for_user("allowed-user-1");
    let two = state.validation_for_user("allowed-user-2");
    assert_ne!(one, two);
    state.user_credentials.set_validation(
        one,
        ValidationState {
            status: ValidationStatus::Invalid,
            last_check: None,
            message: Some("rejected".to_string()),
        },
    );
    state.replace_reauthorized_user_tokens("allowed-user-1", tokens("a3", "r3", None));
    assert_eq!(state.validation_for_user("allowed-user-2"), two);
    assert_eq!(
        *state.user_credentials.validation(two).unwrap(),
        ValidationState::default()
    );
    let held = state.user_credentials.get("allowed-user-2").unwrap();
    assert_eq!(held.tokens.as_ref().unwrap().access_token().expose(), "a2");
}

fn started(state: &mut OAuthServerState, mcp_state: Option<&str>, redirect: &str)
    -> onshape_mcp::callback::CallbackStart {
    let at = moment();
    state.pending_auth.insert("csrf".to_string(), pending(at, mcp_state, redirect));
    onshape_callback(state, params(Some("onshape-code"), Some("csrf"), None))
        .ok()
        .expect("the flow is pending")
}

#[test]
fn callback_reports_what_onshape_says() {
    let mut state = standard();
    let outcomes = [
        (ExchangeOutcome::BadCallback("b".to_string()), "invalid callback URL: b"),
        (ExchangeOutcome::NoClient("n".to_string()), "failed to build HTTP client: n"),
        (ExchangeOutcome::Failed("f".to_string()), "token exchange failed: f"),
    ];
    for (outcome, message) in outcomes {
        let start = started(&mut state, None, "https://client.example/cb");
        let error = exchange_onshape_code(start, outcome).err().expect("failed");
        assert_eq!((error.status, error.message.as_str()), (500, message));
    }
    let identities = [
        (IdentityOutcome::FetchFailed("x".to_string()), 500, "failed to fetch user info: x"),
        (IdentityOutcome::ParseFailed("y".to_string()), 500, "failed to parse user info: y"),
        (
            session("stranger"),
            403,
            "User stranger is not authorized to use this server. Send this ID to the server administrator to request access. You can also find your Onshape user ID at https://cad.onshape.com/api/v10/users/sessioninfo",
        ),
    ];
    for (identity, status, message) in identities {
        let start = started(&mut state, None, "https://client.example/cb");
        let flow = exchange_onshape_code(start, ExchangeOutcome::Granted(grant(None, None)))
            .ok()
            .expect("granted");
        assert_eq!(flow.access_token(), "onshape-access");
        let error = fetch_and_verify_user(&state, flow, identity).err().expect("refused");
        assert_eq!((error.status, error.message.as_str()), (status, message));
    }
    assert!(state.user_credentials.get("stranger").is_none());
}

#[test]
fn callback_ends_with_code_and_state() {
    let mut state = standard();
    let start = started(&mut state, Some("client state"), "https://client.example/cb?x=1");
    let flow =
        exchange_onshape_code(start, ExchangeOutcome::Granted(grant(Some("rt"), Some(7200))))
            .ok()
            .unwrap();
    let flow = fetch_and_verify_user(&state, flow, session("allowed-user-2")).ok().unwrap();
    assert_eq!(flow.user_id(), "allowed-user-2");
    let at = Timestamp { secs: 50_000, nanos: 3 };
    let flow = accept_user_at(&mut state, flow, &at);
    let held = state.user_credentials.get("allowed-user-2").unwrap();
    let stored = held.tokens.as_ref().unwrap();
    assert_eq!(stored.access_token().expose(), "onshape-access");
    assert_eq!(stored.refresh_token().expose(), "rt");
    assert_eq!(stored.expires_at(), Some(later(at, 7200)));
    let flow =
        issue_code_with(&mut state, flow, true, "mcp code".to_string(), at).ok().unwrap();
    let record = state.auth_codes.get("mcp code").unwrap();
    assert_eq!(record.client_id, "client");
    assert_eq!(record.user_id, "allowed-user-2");
    assert_eq!(record.pkce_code_challenge, Some(code_challenge(VERIFIER)));
    assert_eq!(record.created_at, at);
    assert!(can_redirect(&flow));
    assert_eq!(
        finish_callback(&flow, true).unwrap(),
        "https://client.example/cb?x=1&code=mcp+code&state=client+state"
    );
    let error = finish_callback(&flow, false).unwrap_err();
    assert_eq!(
        (error.status, error.message.as_str()),
        (500, "failed to persist authorization state")
    );
}

#[test]
fn callback_without_refresh_token_and_state() {
    let mut state = server("https://example.com", None);
    let start = started(&mut state, None, "http://localhost:9/cb");
    let flow =
        exchange_onshape_code(start, ExchangeOutcome::Granted(grant(None, None))).ok().unwrap();
    let flow = fetch_and_verify_user(&state, flow, session("anybody")).ok().unwrap();
    let flow = accept_user(&mut state, flow).expect("no expiry to show");
    let stored = state.user_credentials.get("anybody").unwrap().tokens.as_ref().unwrap();
    assert_eq!(stored.refresh_token().expose(), "");
    assert_eq!(stored.expires_at(), None);
    let flow = issue_code(&mut state, flow, true).ok().unwrap();
    let location = finish_callback(&flow, true).unwrap();
    assert!(location.starts_with("http://localhost:9/cb?code="));
    assert_eq!(location.len(), "http://localhost:9/cb?code=".len() + 64);
}

#[test]
fn callback_issues_no_code_for_unsaved_tokens_or_bad_redirects() {
    let mut state = server("https://example.com", None);
    let start = started(&mut state, None, "https://client.example/cb");
    let flow =
        exchange_onshape_code(start, ExchangeOutcome::Granted(grant(None, None))).ok().unwrap();
    let flow = fetch_and_verify_user(&state, flow, session("anybody")).ok().unwrap();
    let flow = accept_user(&mut state, flow).unwrap();
    let error = issue_code(&mut state, flow, false).err().expect("not saved");
    assert_eq!(
        (error.status, error.message.as_str()),
        (500, "failed to persist authorization state")
    );
    assert_eq!(state.auth_codes.len(), 0);

    let start = started(&mut state, None, "not a url");
    let flow =
        exchange_onshape_code(start, ExchangeOutcome::Granted(grant(None, None))).ok().unwrap();
    let flow = fetch_and_verify_user(&state, flow, session("anybody")).ok().unwrap();
    let flow = accept_user(&mut state, flow).unwrap();
    let flow = issue_code(&mut state, flow, true).ok().unwrap();
    let error = finish_callback(&flow, true).unwrap_err();
    assert_eq!(error.status, 500);
    assert_eq!(error.message, "invalid redirect URI: relative URL without a base");
}

#[test]
fn redirects_keep_their_fragment_behind_the_query() {
    let mut state = server("https://example.com", None);
    let start = started(&mut state, Some("a b&\u{e9}"), "https://client.example/cb?#part");
    let flow =
        exchange_onshape_code(start, ExchangeOutcome::Granted(grant(None, None))).ok().unwrap();
    let flow = fetch_and_verify_user(&state, flow, session("anybody")).ok().unwrap();
    let flow = accept_user(&mut state, flow).unwrap();
    let at = moment();
    let flow = issue_code_with(&mut state, flow, true, "mcp".to_string(), at).ok().unwrap();
    assert!(can_redirect(&flow));
    assert!(check_room(&flow, &None));
    let target = "https://client.example/cb?code=mcp&state=a+b%26%C3%A9#part";
    assert_eq!(finish_callback_within(&flow, true).unwrap().unwrap(), target);
    assert_eq!(finish_callback(&flow, true).unwrap(), target);
    assert_eq!(
        finish_callback_within(&flow, false).unwrap().unwrap_err().message,
        "failed to persist authorization state"
    );
}

#[test]
fn expiries_out_of_range() {
    let mut state = server("https://example.com", None);
    let at = Timestamp { secs: 1_700_000_000, nanos: 0 };
    assert!(!can_show_expiry(&at, Some(9_000_000_000_000)));
    assert!(can_show_expiry(&at, Some(u64::MAX)));
    for (expires_in, kept) in [(Some(9_000_000_000_000), false), (Some(u64::MAX), true)] {
        let start = started(&mut state, None, "https://client.example/cb");
        let flow = exchange_onshape_code(start, ExchangeOutcome::Granted(grant(None, expires_in)))
            .ok()
            .unwrap();
        let flow = fetch_and_verify_user(&state, flow, session("u")).ok().unwrap();
        assert_eq!(accept_user(&mut state, flow).is_some(), kept);
    }
    let held = state.user_credentials.get("u").unwrap();
    assert_eq!(held.tokens.as_ref().unwrap().expires_at(), None);
}

#[test]
fn tokens_are_kept_while_the_calendar_shows_their_expiry() {
    // The last second of the year 262142.
    let last = 8_210_266_876_799;
    let cases = [
        (last - 60, Some(60), Some(Some(last))),
        (last - 60, Some(61), None),
        (last - 60, Some(u64::MAX), Some(None)),
        (last, None, Some(None)),
    ];
    for (secs, expires_in, kept) in cases {
        let at = Timestamp { secs, nanos: 7 };
        let mut state = server("https://example.com", None);
        let start = started(&mut state, None, "https://client.example/cb");
        let flow = exchange_onshape_code(start, ExchangeOutcome::Granted(grant(None, expires_in)))
            .ok()
            .unwrap();
        let flow = fetch_and_verify_user(&state, flow, session("u")).ok().unwrap();
        let accepted = accept_user_on(&mut state, flow, &at);
        assert_eq!(accepted.is_some(), kept.is_some());
        let expiry = state
            .user_credentials
            .get("u")
            .map(|held| held.tokens.as_ref().unwrap().expires_at().map(|t| t.secs));
        assert_eq!(expiry, kept);

        let mut state = server("https://example.com", None);
        let current = tokens("a", "r", None);
        let granted = RefreshOutcome::Granted(grant(None, expires_in));
        let done = complete_refresh_on(&mut state, "u", &current, granted, &at);
        let fresh = done.map(|tokens| tokens.ok().unwrap().expires_at().map(|t| t.secs));
        assert_eq!(fresh, kept);
        assert_eq!(state.user_credentials.get("u").is_some(), kept.is_some());
        let failed = RefreshOutcome::Failed("timeout".to_string());
        let done = complete_refresh_on(&mut state, "u", &current, failed, &at);
        assert_eq!(
            done.unwrap().err(),
            Some(UserTokenRefreshError::Exchange("timeout".to_string()))
        );
    }
}

#[test]
fn onboarding_from_registration_to_first_request() {
    let mut state = standard();
    let client = register_client(
        &mut state,
        RegisterRequest {
            client_name: Some("Client".to_string()),
            redirect_uris: vec!["https://client.example/cb".to_string()],
            grant_types: vec![],
            response_types: vec![],
            token_endpoint_auth_method: Some("client_secret_post".to_string()),
        },
    )
    .unwrap();
    let resource = state.public_url.mcp();
    authorize_with(
        &mut state,
        AuthorizeParams {
            response_type: "code".to_string(),
            client_id: client.client_id.clone(),
            redirect_uri: "https://client.example/cb".to_string(),
            state: Some("xyz".to_string()),
            code_challenge: Some(code_challenge(VERIFIER)),
            code_challenge_method: Some("S256".to_string()),
            resource: Some(resource.clone()),
            scope: None,
        },
        VERIFIER.to_string(),
        "csrf".to_string(),
        moment(),
    )
    .unwrap();
    let start = onshape_callback(&mut state, params(Some("oc"), Some("csrf"), None)).ok().unwrap();
    let flow =
        exchange_onshape_code(start, ExchangeOutcome::Granted(grant(Some("rt"), Some(3600))))
            .ok()
            .unwrap();
    let flow = fetch_and_verify_user(&state, flow, session("allowed-user-1")).ok().unwrap();
    let flow = accept_user(&mut state, flow).unwrap();
    let flow = issue_code(&mut state, flow, true).ok().unwrap();
    let location = finish_callback(&flow, true).unwrap();
    let code = url::Url::parse(&location)
        .unwrap()
        .query_pairs()
        .find(|(name, _)| name == "code")
        .unwrap()
        .1
        .into_owned();
    let answer = token_endpoint(
        &mut state,
        &TokenRequest {
            grant_type: "authorization_code".to_string(),
            code: Some(code),
            redirect_uri: Some("https://client.example/cb".to_string()),
            client_id: Some(client.client_id.clone()),
            client_secret: client.client_secret.clone(),
            code_verifier: Some(VERIFIER.to_string()),
            refresh_token: None,
            resource: Some(resource),
        },
    )
    .unwrap();
    let header = format!("Bearer {}", answer.access_token);
    let context = auth_middleware(&state, Some(&header)).ok().expect("authenticated");
    assert_eq!(context.user_id, "allowed-user-1");
    assert_eq!(context.onshape_tokens.access_token().expose(), "onshape-access");
    let header = format!("Bearer {}", answer.refresh_token.unwrap());
    assert!(auth_middleware(&state, Some(&header)).is_err());
}

// ---------------------------------------------------------------------------
// Refreshes of Onshape tokens
// ---------------------------------------------------------------------------

#[test]
fn refresh_is_planned_by_expiry() {
    let mut state = standard();
    let at = Timestamp { secs: 100, nanos: 0 };
    assert!(matches!(
        refresh_user_onshape_tokens(&state, "allowed-user-1", None),
        Err(UserTokenRefreshError::UserNotFound)
    ));
    state.validation_for_user("allowed-user-1");
    assert!(matches!(
        refresh_user_onshape_tokens(&state, "allowed-user-1", None),
        Err(UserTokenRefreshError::UserNotFound)
    ));
    state.store_refreshed_user_tokens("allowed-user-1", tokens("a", "r", Some(at)));
    let plan = |stale: Option<Timestamp>| {
        refresh_user_onshape_tokens(&state, "allowed-user-1", stale).ok().unwrap()
    };
    assert!(matches!(plan(None), RefreshPlan::Refresh(_)));
    assert!(matches!(plan(Some(at)), RefreshPlan::Refresh(_)));
    let before = Timestamp { secs: 99, nanos: 999_999_999 };
    match plan(Some(before)) {
        RefreshPlan::Keep(kept) => assert_eq!(kept.access_token().expose(), "a"),
        RefreshPlan::Refresh(_) => panic!("the tokens are fresh"),
    }
}

#[test]
fn refresh_needs_client_and_token() {
    let held = tokens("a", "r", None);
    assert_eq!(prepare_refresh(Ok(()), &held).ok().unwrap().expose(), "r");
    assert_eq!(
        prepare_refresh(Err("no TLS".to_string()), &tokens("a", "", None)).err(),
        Some(UserTokenRefreshError::HttpClient("no TLS".to_string()))
    );
    assert_eq!(
        prepare_refresh(Ok(()), &tokens("a", "", None)).err(),
        Some(UserTokenRefreshError::PermanentExchange(
            "no refresh token is stored for this user; re-authentication is required".to_string()
        ))
    );
}

#[test]
fn refresh_failures_are_classified() {
    assert!(is_permanent_refresh_failure("server says: invalid_grant"));
    assert!(is_permanent_refresh_failure("unauthorized_client!"));
    assert!(!is_permanent_refresh_failure("invalid_gran"));
    assert!(!is_permanent_refresh_failure(""));
    let mut state = standard();
    let current = tokens("a", "r", None);
    let at = Timestamp { secs: 10, nanos: 0 };
    let mut fail = |message: &str| {
        complete_refresh_at(
            &mut state,
            "allowed-user-1",
            &current,
            RefreshOutcome::Failed(message.to_string()),
            &at,
        )
        .err()
        .unwrap()
    };
    assert_eq!(
        fail("invalid_grant"),
        UserTokenRefreshError::PermanentExchange("invalid_grant".to_string())
    );
    assert_eq!(fail("timeout"), UserTokenRefreshError::Exchange("timeout".to_string()));
    assert!(state.user_credentials.get("allowed-user-1").is_none());
}

#[test]
fn refresh_keeps_slot_and_old_refresh_token() {
    let mut state = standard();
    state.store_refreshed_user_tokens("allowed-user-1", tokens("a", "r", None));
    let slot = state.validation_for_user("allowed-user-1");
    let current = tokens("a", "r", None);
    let at = Timestamp { secs: 10, nanos: 4 };
    let fresh = complete_refresh_at(
        &mut state,
        "allowed-user-1",
        &current,
        RefreshOutcome::Granted(grant(None, Some(90))),
        &at,
    )
    .ok()
    .unwrap();
    assert_eq!(fresh.access_token().expose(), "onshape-access");
    assert_eq!(fresh.refresh_token().expose(), "r");
    assert_eq!(fresh.expires_at(), Some(Timestamp { secs: 100, nanos: 4 }));
    assert_eq!(state.validation_for_user("allowed-user-1"), slot);
    let stored = state.user_credentials.get("allowed-user-1").unwrap();
    assert_eq!(stored.tokens.as_ref().unwrap().refresh_token().expose(), "r");

    let done = complete_refresh(
        &mut state,
        "allowed-user-1",
        &fresh,
        RefreshOutcome::Granted(grant(Some("r2"), None)),
    );
    let newer = done.expect("no expiry to show").ok().unwrap();
    assert_eq!(newer.refresh_token().expose(), "r2");
    assert!(complete_refresh(
        &mut state,
        "allowed-user-1",
        &newer,
        RefreshOutcome::Granted(grant(None, Some(9_000_000_000_000))),
    )
    .is_none());
    assert_eq!(settle_refresh(newer.duplicate(), Ok(())).ok().unwrap().refresh_token().expose(), "r2");
    assert_eq!(
        settle_refresh(newer, Err("disk full".to_string())).err().unwrap().message(),
        "token refresh request failed: disk full"
    );
    assert_eq!(
        UserTokenRefreshError::UserNotFound.message(),
        "user not found in token store"
    );
    assert_eq!(
        UserTokenRefreshError::HttpClient("x".to_string()).message(),
        "failed to build HTTP client: x"
    );
    assert_eq!(
        UserTokenRefreshError::PermanentExchange("x".to_string()).message(),
        "token refresh permanently failed: x"
    );
}

#[test]
fn locks_belong_to_users() {
    let mut state = standard();
    let one = state.get_user_refresh_lock("allowed-user-1");
    let two = state.get_user_refresh_lock("allowed-user-2");
    assert_ne!(one, two);
    assert_eq!(state.get_user_refresh_lock("allowed-user-1"), one);
    assert_eq!((one, two), (0, 1));
}

// ---------------------------------------------------------------------------
// Restarts
// ---------------------------------------------------------------------------

fn key() -> String {
    base64::engine::general_purpose::STANDARD.encode([7_u8; 32])
}

fn store() -> EncryptedStateStore {
    EncryptedStateStore::new("oauth-state.enc".to_string(), &key()).expect("a good key")
}

fn holds(bytes: &[u8], part: &[u8]) -> bool {
    bytes.windows(part.len()).any(|window| window == part)
}

#[test]
fn encrypted_state_survives_restart_without_plaintext_tokens() {
    let mut state = standard();
    state.with_encrypted_persistence(store(), None);
    state.clients.insert(
        "client-id".to_string(),
        RegisteredClient {
            client_id: "client-id".to_string(),
            client_secret: None,
            redirect_uris: vec!["https://example.com/callback".to_string()],
            token_endpoint_auth_method: "none".to_string(),
        },
    );
    let at = moment();
    let access_token = onshape_mcp::hex::random_hex(32);
    let resource = state.public_url.mcp();
    state.tokens.insert(
        access_token.clone(),
        onshape_mcp::records::IssuedToken {
            user_id: "allowed-user-1".to_string(),
            client_id: "client-id".to_string(),
            resource: resource.clone(),
            issued_at: at,
            expires_at: later(at, 3600),
        },
    );
    state.refresh_tokens.insert(
        "refresh".to_string(),
        onshape_mcp::records::IssuedToken {
            user_id: "allowed-user-1".to_string(),
            client_id: "client-id".to_string(),
            resource: resource.clone(),
            issued_at: at,
            expires_at: later(at, 2_592_000),
        },
    );
    state.store_refreshed_user_tokens(
        "allowed-user-1",
        tokens("onshape-access-token", "onshape-refresh-token", Some(later(at, 3600))),
    );
    let slot = state.validation_for_user("allowed-user-1");
    state.user_credentials.set_validation(
        slot,
        ValidationState {
            status: ValidationStatus::Invalid,
            last_check: None,
            message: None,
        },
    );

    let snapshot = state.snapshot().expect("durable");
    let plaintext = format!("{access_token} onshape-access-token").into_bytes();
    let encrypted = store().save(Ok(plaintext.clone())).expect("sealed");
    assert!(encrypted.starts_with(b"OSMCP1\0"));
    assert_eq!(encrypted.len(), 7 + 12 + plaintext.len() + 16);
    assert!(!holds(&encrypted, access_token.as_bytes()));
    assert!(!holds(&encrypted, b"onshape-access-token"));
    assert_ne!(encrypted, store().save(Ok(plaintext.clone())).expect("sealed"));
    let loaded = store().load(FileProbe::Content(encrypted)).expect("opened");
    assert_eq!(loaded, Some(plaintext));

    let mut reloaded = standard();
    let saved = accept_saved(&store(), Ok(snapshot)).ok().expect("the right version");
    reloaded.with_encrypted_persistence(store(), Some(saved));
    assert!(reloaded.clients.contains_key("client-id"));
    let context = reloaded.validate_token(&access_token).expect("the session survives");
    assert_eq!(context.user_id, "allowed-user-1");
    assert_eq!(
        *reloaded.user_credentials.validation(context.validation).unwrap(),
        ValidationState::default()
    );
    assert!(handle_refresh_token_grant(
        &mut reloaded,
        &TokenRequest {
            grant_type: "refresh_token".to_string(),
            code: None,
            redirect_uri: None,
            client_id: Some("client-id".to_string()),
            client_secret: None,
            code_verifier: None,
            refresh_token: Some("refresh".to_string()),
            resource: Some(resource),
        },
    )
    .is_ok());
}

#[test]
fn restart_leaves_behind_what_expired_and_who_left() {
    let at = Timestamp { secs: 10_000, nanos: 0 };
    let token = |user: &str, expires: Timestamp| onshape_mcp::records::IssuedToken {
        user_id: user.to_string(),
        client_id: "c".to_string(),
        resource: "https://example.com/mcp".to_string(),
        issued_at: at,
        expires_at: expires,
    };
    let code = |created: Timestamp| onshape_mcp::records::IssuedAuthCode {
        client_id: "c".to_string(),
        redirect_uri: "https://example.com/cb".to_string(),
        pkce_code_challenge: None,
        user_id: "allowed-user-1".to_string(),
        resource: "https://example.com/mcp".to_string(),
        created_at: created,
    };
    let mut saved = PersistedOAuthState {
        version: 1,
        clients: Table::new(),
        auth_codes: Table::new(),
        tokens: Table::new(),
        refresh_tokens: Table::new(),
        user_tokens: Table::new(),
    };
    saved.tokens.insert("live".to_string(), token("allowed-user-1", later(at, 1)));
    saved.tokens.insert("expired".to_string(), token("allowed-user-1", at));
    saved.tokens.insert("left".to_string(), token("stranger", later(at, 1)));
    saved.refresh_tokens.insert("r".to_string(), token("allowed-user-2", later(at, 1)));
    saved.refresh_tokens.insert("s".to_string(), token("stranger", later(at, 1)));
    saved.auth_codes.insert("live".to_string(), code(later(at, -599)));
    saved.auth_codes.insert("expired".to_string(), code(later(at, -600)));
    saved.user_tokens.insert("allowed-user-1".to_string(), tokens("a", "b", None));
    saved.user_tokens.insert("stranger".to_string(), tokens("c", "d", None));
    let mut state = standard();
    state.with_encrypted_persistence_at(store(), Some(saved), &at);
    assert!(state.tokens.contains_key("live"));
    assert!(!state.tokens.contains_key("expired"));
    assert!(!state.tokens.contains_key("left"));
    assert_eq!(state.refresh_tokens.len(), 1);
    assert!(state.auth_codes.contains_key("live"));
    assert!(!state.auth_codes.contains_key("expired"));
    assert!(state.user_credentials.get("allowed-user-1").is_some());
    assert!(state.user_credentials.get("stranger").is_none());
    assert!(ready(&state).durable_oauth_state);
}

#[test]
fn snapshot_needs_a_store() {
    let mut state = standard();
    assert!(state.snapshot().is_none());
    state.validation_for_user("no tokens");
    state.with_encrypted_persistence(store(), None);
    let saved = state.snapshot().expect("durable");
    assert_eq!(saved.version, 1);
    assert_eq!(saved.user_tokens.len(), 0);
}

#[test]
fn state_key_must_be_32_bytes() {
    for bad in ["", "AAAA", "not base64 at all"] {
        assert_eq!(
            EncryptedStateStore::new("f".to_string(), bad).err(),
            Some(StateStoreError::InvalidKey)
        );
    }
    // Without padding, with bits left over, and in the alphabet for URLs.
    let zeros = format!("{}A", "A".repeat(42));
    assert!(EncryptedStateStore::new("f".to_string(), &format!("{zeros}=")).is_ok());
    for bad in [
        zeros.clone(),
        format!("{zeros}=="),
        format!("{}B=", "A".repeat(42)),
        format!("_{}=", "A".repeat(42)),
        format!("{zeros}= ="),
    ] {
        assert!(EncryptedStateStore::new("f".to_string(), &bad).is_err());
    }
    let padded = format!("  {}\n", key());
    let store = EncryptedStateStore::new("f".to_string(), &padded).ok().expect("trimmed");
    assert_eq!(store.path(), "f");
}

#[test]
fn state_file_errors() {
    let store = store();
    let path = "oauth-state.enc".to_string();
    assert_eq!(store.load(FileProbe::Absent), Ok(None));
    assert_eq!(
        store.load(FileProbe::Exposed("0644".to_string())),
        Err(StateStoreError::Permissions("0644".to_string()))
    );
    assert_eq!(
        store.load(FileProbe::Unreadable("gone".to_string())),
        Err(StateStoreError::Read { path: path.clone(), source: "gone".to_string() })
    );
    assert_eq!(
        store.load(FileProbe::Content(b"OSMCP1\0123456789012".to_vec())),
        Err(StateStoreError::InvalidFormat { path: path.clone() })
    );
    let sealed = store.seal_with(&[9; 12], &b"state".to_vec()).unwrap();
    assert_eq!(&sealed[..19], b"OSMCP1\0\x09\x09\x09\x09\x09\x09\x09\x09\x09\x09\x09\x09");
    assert_eq!(store.read(&sealed), Ok(b"state".to_vec()));
    let mut wrong = sealed.clone();
    wrong[0] = b'X';
    assert_eq!(
        store.read(&wrong),
        Err(StateStoreError::InvalidFormat { path: path.clone() })
    );
    let mut wrong = sealed.clone();
    let last = wrong.len() - 1;
    wrong[last] ^= 1;
    assert_eq!(store.read(&wrong), Err(StateStoreError::Decrypt { path: path.clone() }));
    let other_key = base64::engine::general_purpose::STANDARD.encode([8_u8; 32]);
    let other = EncryptedStateStore::new(path.clone(), &other_key).ok().unwrap();
    assert_eq!(other.read(&sealed), Err(StateStoreError::Decrypt { path: path.clone() }));
    assert_eq!(
        store.save(Err("cycle".to_string())),
        Err(StateStoreError::Serialize("cycle".to_string()))
    );
    assert_eq!(
        accept_saved(&store, Err("eof".to_string())).err(),
        Some(StateStoreError::Parse { path: path.clone(), source: "eof".to_string() })
    );
    let old = PersistedOAuthState {
        version: 2,
        clients: Table::new(),
        auth_codes: Table::new(),
        tokens: Table::new(),
        refresh_tokens: Table::new(),
        user_tokens: Table::new(),
    };
    assert_eq!(
        accept_saved(&store, Ok(old)).err(),
        Some(StateStoreError::InvalidFormat { path })
    );
}

#[test]
fn key_text_stands_for_its_bytes() {
    let bytes: Vec<u8> = (0..32u8).map(|i| i.wrapping_mul(37)).collect();
    let text = base64::engine::general_purpose::STANDARD.encode(&bytes);
    let store = EncryptedStateStore::new("f".to_string(), &text).ok().unwrap();
    let sealed = store.seal_with(&[3; 12], &b"state".to_vec()).unwrap();
    let opened = aes_gcm::Aes256Gcm::new_from_slice(&bytes)
        .unwrap()
        .decrypt(
            aes_gcm::Nonce::from_slice(&[3; 12]),
            Payload { msg: &sealed[19..], aad: b"onshape-mcp-oauth-state-v1" },
        )
        .unwrap();
    assert_eq!(opened, b"state");
}

#[test]
fn replacement_is_tried_again_in_time() {
    assert!(retry_replacement(true, true));
    assert!(!retry_replacement(true, false));
    assert!(!retry_replacement(false, true));
    assert!(!retry_replacement(false, false));
}

#[test]
fn state_file_parts() {
    assert_eq!(key_from(None), Err(StateStoreError::InvalidKey));
    assert_eq!(key_from(Some(vec![1; 31])), Err(StateStoreError::InvalidKey));
    assert_eq!(key_from(Some(vec![1; 32])), Ok([1; 32]));
    let content = join_frame(&[2; 12], vec![3, 4]);
    assert_eq!(content.len(), 21);
    assert_eq!(split_frame(&content), Some(([2; 12], &[3u8, 4][..])));
    assert_eq!(split_frame(&content[..19].to_vec()), None);
    assert_eq!(split_frame(&vec![0; 40]), None);
    assert!(is_owner_only(0o100600));
    assert!(!is_owner_only(0o100640));
    assert!(!is_owner_only(0o100604));
}

#[test]
fn state_errors_in_words() {
    let path = || "f".to_string();
    let source = || "why".to_string();
    let cases = [
        (
            StateStoreError::InvalidKey,
            "state encryption key must be standard base64 encoding of exactly 32 bytes",
        ),
        (
            StateStoreError::Read { path: path(), source: source() },
            "failed to read encrypted OAuth state f: why",
        ),
        (
            StateStoreError::InvalidFormat { path: path() },
            "encrypted OAuth state f has an invalid format",
        ),
        (
            StateStoreError::Decrypt { path: path() },
            "failed to decrypt encrypted OAuth state f; verify the configured key",
        ),
        (
            StateStoreError::Parse { path: path(), source: source() },
            "failed to parse encrypted OAuth state f: why",
        ),
        (StateStoreError::Serialize(source()), "failed to serialize OAuth state: why"),
        (StateStoreError::Encrypt, "failed to encrypt OAuth state"),
        (
            StateStoreError::Write { path: path(), source: source() },
            "failed to write encrypted OAuth state f: why",
        ),
        (
            StateStoreError::Permissions(source()),
            "encrypted OAuth state file permission check failed: why",
        ),
    ];
    for (error, text) in cases {
        assert_eq!(error.message(), text);
    }
}

// ---------------------------------------------------------------------------
// Requests
// ---------------------------------------------------------------------------

#[test]
fn bearer_scheme_is_read_in_any_case() {
    assert_eq!(bearer_token("Bearer abc"), Some("abc"));
    assert_eq!(bearer_token("bEaReR  abc"), Some(" abc"));
    assert_eq!(bearer_token("Bearer "), None);
    assert_eq!(bearer_token("Basic abcdef"), None);
    assert_eq!(bearer_token("Bearerabcdef"), None);
    assert_eq!(bearer_token(""), None);
}

#[test]
fn refusals_name_the_metadata() {
    let state = standard();
    let refusal = unauthorized_response(&state, "invalid_token", "Invalid or expired token");
    assert_eq!(refusal.status, 401);
    assert_eq!(
        refusal.www_authenticate,
        "Bearer resource_metadata=\"https://example.com/.well-known/oauth-protected-resource/mcp\", error=\"invalid_token\", error_description=\"Invalid or expired token\""
    );
    assert_eq!(refusal.body, "Invalid or expired token");
    let at = Timestamp { secs: 0, nanos: 0 };
    let body = |header: Option<&str>| {
        authenticate_at(&state, header, &at).err().expect("refused").body
    };
    assert_eq!(body(None), "Missing Authorization header");
    assert_eq!(body(Some("Basic xyz")), "Invalid Authorization header format");
    assert_eq!(body(Some("Bearer unknown")), "Invalid or expired token");
    assert_eq!(auth_middleware(&state, Some("Bearer unknown")).err(), Some(refusal));
}

#[test]
fn responses_are_hardened() {
    let headers = security_headers();
    let value = |name: &str| {
        headers.iter().find(|(n, _)| n == name).map(|(_, v)| v.as_str()).expect("present")
    };
    assert_eq!(headers.len(), 5);
    assert_eq!(value("cache-control"), "no-store");
    assert_eq!(value("x-content-type-options"), "nosniff");
    assert_eq!(value("x-frame-options"), "DENY");
    assert_eq!(value("referrer-policy"), "no-referrer");
    assert_eq!(
        value("content-security-policy"),
        "default-src 'none'; frame-ancestors 'none'"
    );
}

#[test]
fn endpoints_and_origins() {
    assert_eq!(oauth_router().len(), 9);
    let open = [
        "/.well-known/oauth-protected-resource",
        "/.well-known/oauth-protected-resource/mcp",
        "/.well-known/oauth-authorization-server",
        "/oauth/token",
        "/oauth/register",
    ];
    for path in open {
        let endpoint = endpoint_at(path).expect("an endpoint");
        assert_eq!(endpoint.path(), path);
        assert!(endpoint.cross_origin(), "{path}");
    }
    for path in ["/health", "/ready", "/oauth/authorize", "/oauth/callback"] {
        let endpoint = endpoint_at(path).expect("an endpoint");
        assert!(!endpoint.cross_origin(), "{path}");
        assert!(!endpoint.posted());
    }
    assert!(Endpoint::Token.posted());
    assert!(Endpoint::Register.posted());
    assert_eq!(endpoint_at("/mcp"), None);
    assert_eq!(health().status, "ok");
    assert_eq!(ready(&standard()).status, "ready");
    assert!(!ready(&standard()).durable_oauth_state);
}

#[test]
fn metadata_name_the_endpoints() {
    let state = server("https://mcp.example.com/base/", None);
    let resource = protected_resource_metadata(&state);
    assert_eq!(resource.resource, "https://mcp.example.com/base/mcp");
    assert_eq!(resource.authorization_servers, vec!["https://mcp.example.com/base".to_string()]);
    assert_eq!(resource.bearer_methods_supported, vec!["header".to_string()]);
    let server = authorization_server_metadata(&state);
    assert_eq!(server.issuer, "https://mcp.example.com/base");
    assert_eq!(server.authorization_endpoint, "https://mcp.example.com/base/oauth/authorize");
    assert_eq!(server.token_endpoint, "https://mcp.example.com/base/oauth/token");
    assert_eq!(server.registration_endpoint, "https://mcp.example.com/base/oauth/register");
    assert_eq!(server.response_types_supported, vec!["code".to_string()]);
    assert_eq!(server.grant_types_supported.len(), 2);
    assert_eq!(
        server.token_endpoint_auth_methods_supported,
        vec!["none".to_string(), "client_secret_post".to_string()]
    );
    assert_eq!(server.code_challenge_methods_supported, vec!["S256".to_string()]);
    assert!(server.scopes_supported.is_empty());
}

#[test]
fn long_public_urls_are_taken() {
    let long = format!("https://example.com/{}", "a".repeat(0x0400_0000));
    let url = PublicUrl::parse(&long).expect("an ordinary URL but for its length");
    assert_eq!(url.as_str().len(), long.len());
    assert!(url.mcp().ends_with("aaa/mcp"));
}

#[test]
fn public_urls_are_normalized() {
    let form = |text: &str| PublicUrl::parse(text).map(|url| url.as_str().to_string());
    assert_eq!(form("https://Example.com"), Some("https://example.com/".to_string()));
    assert_eq!(form("https://example.com///"), Some("https://example.com/".to_string()));
    assert_eq!(form("http://127.0.0.1:8080/a//"), Some("http://127.0.0.1:8080/a".to_string()));
    assert_eq!(
        PublicUrl::parse("https://example.com:8443").unwrap().duplicate().mcp(),
        "https://example.com:8443/mcp"
    );
    for bad in [
        "example.com",
        "ftp://example.com",
        "mailto:someone@example.com",
        "https://example.com/?q",
        "https://example.com/#f",
        "data:text/plain,x",
    ] {
        assert_eq!(form(bad), None, "{bad}");
    }
}
