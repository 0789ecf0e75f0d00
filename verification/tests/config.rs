//! Tests of the configuration and of the credentials it leads to.

use onshape_mcp::config::{
    default_auth_method, default_check_interval, default_http_timeout,
    default_max_pending_authorizations, default_max_registered_clients,
    default_max_request_body_bytes, default_transport_host, default_transport_port,
    min_check_interval, not_configured_detail, resolve_auth, ApiConfig, AppConfig, AuthConfig,
    AuthInventory, AuthMethod, HttpTransportConfig, ResolvedAuth, TokenStatus,
    DEFAULT_MAX_REQUEST_BODY_BYTES, DEFAULT_TRANSPORT_HOST, DEFAULT_TRANSPORT_PORT,
};
use onshape_mcp::duration::{deserialize_duration, parse_duration_str, DurationValue};
use onshape_mcp::records::Secret;
use onshape_mcp::time::{Duration, Timestamp};

fn secret(text: &str) -> Secret {
    Secret::new(text.to_string())
}

fn inventory_nothing() -> AuthInventory {
    AuthInventory {
        has_access_key: false,
        has_secret_key: false,
        has_client_id: false,
        has_client_secret: false,
        has_proxy_url: false,
        token_status: TokenStatus::Absent,
    }
}

fn inventory_basic() -> AuthInventory {
    AuthInventory { has_access_key: true, has_secret_key: true, ..inventory_nothing() }
}

fn present() -> TokenStatus {
    TokenStatus::Present { expires_at: None, proxy_url: None }
}

fn inventory_oauth_with_tokens() -> AuthInventory {
    AuthInventory {
        has_client_id: true,
        has_client_secret: true,
        token_status: present(),
        ..inventory_nothing()
    }
}

fn inventory_oauth_no_tokens() -> AuthInventory {
    AuthInventory {
        has_client_id: true,
        has_client_secret: true,
        token_status: TokenStatus::Absent,
        ..inventory_nothing()
    }
}

fn inventory_proxy_with_tokens() -> AuthInventory {
    AuthInventory {
        has_proxy_url: true,
        token_status: TokenStatus::Present {
            expires_at: None,
            proxy_url: Some("https://proxy.example.com".into()),
        },
        ..inventory_nothing()
    }
}

fn inventory_proxy_no_tokens() -> AuthInventory {
    AuthInventory {
        has_proxy_url: true,
        token_status: TokenStatus::Absent,
        ..inventory_nothing()
    }
}

#[test]
fn auto_with_nothing_returns_not_configured() {
    let result = resolve_auth(AuthMethod::Auto, &inventory_nothing());
    assert!(matches!(result, ResolvedAuth::NotConfigured { .. }));
}

#[test]
fn auto_with_basic_keys_returns_basic() {
    let result = resolve_auth(AuthMethod::Auto, &inventory_basic());
    assert_eq!(result, ResolvedAuth::Basic);
}

#[test]
fn auto_with_oauth_tokens_returns_oauth_ready() {
    let result = resolve_auth(AuthMethod::Auto, &inventory_oauth_with_tokens());
    assert!(matches!(result, ResolvedAuth::OAuthReady { .. }));
}

#[test]
fn auto_with_oauth_no_tokens_returns_pending() {
    let result = resolve_auth(AuthMethod::Auto, &inventory_oauth_no_tokens());
    assert_eq!(result, ResolvedAuth::OAuthPending);
}

#[test]
fn auto_oauth_wins_over_basic_when_tokens_present() {
    let inv = AuthInventory {
        has_access_key: true,
        has_secret_key: true,
        has_client_id: true,
        has_client_secret: true,
        has_proxy_url: false,
        token_status: present(),
    };
    let result = resolve_auth(AuthMethod::Auto, &inv);
    assert!(matches!(result, ResolvedAuth::OAuthReady { .. }));
}

#[test]
fn auto_basic_wins_over_oauth_pending() {
    let inv = AuthInventory {
        has_access_key: true,
        has_secret_key: true,
        has_client_id: true,
        has_client_secret: true,
        has_proxy_url: false,
        token_status: TokenStatus::Absent,
    };
    let result = resolve_auth(AuthMethod::Auto, &inv);
    assert_eq!(result, ResolvedAuth::Basic);
}

#[test]
fn auto_partial_basic_falls_through_to_not_configured() {
    let inv =
        AuthInventory { has_access_key: true, has_secret_key: false, ..inventory_nothing() };
    let result = resolve_auth(AuthMethod::Auto, &inv);
    assert!(matches!(result, ResolvedAuth::NotConfigured { .. }));
}

#[test]
fn auto_partial_oauth_falls_through_to_not_configured() {
    let inv =
        AuthInventory { has_client_id: true, has_client_secret: false, ..inventory_nothing() };
    let result = resolve_auth(AuthMethod::Auto, &inv);
    assert!(matches!(result, ResolvedAuth::NotConfigured { .. }));
}

#[test]
fn basic_with_keys_returns_basic() {
    let result = resolve_auth(AuthMethod::Basic, &inventory_basic());
    assert_eq!(result, ResolvedAuth::Basic);
}

#[test]
fn basic_without_keys_returns_not_configured() {
    let result = resolve_auth(AuthMethod::Basic, &inventory_nothing());
    assert!(matches!(
        result,
        ResolvedAuth::NotConfigured { configured_method: AuthMethod::Basic, .. }
    ));
}

#[test]
fn basic_missing_secret_key_reports_it() {
    let inv = AuthInventory { has_access_key: true, ..inventory_nothing() };
    let result = resolve_auth(AuthMethod::Basic, &inv);
    match result {
        ResolvedAuth::NotConfigured { detail, .. } => {
            assert!(detail.contains("secret_key"));
        }
        other => panic!("expected NotConfigured, got {other:?}"),
    }
}

#[test]
fn basic_missing_access_key_reports_it() {
    let inv = AuthInventory { has_secret_key: true, ..inventory_nothing() };
    let result = resolve_auth(AuthMethod::Basic, &inv);
    match result {
        ResolvedAuth::NotConfigured { detail, .. } => {
            assert!(detail.contains("access_key"));
        }
        other => panic!("expected NotConfigured, got {other:?}"),
    }
}

#[test]
fn oauth_with_tokens_returns_ready() {
    let result = resolve_auth(AuthMethod::OAuth, &inventory_oauth_with_tokens());
    assert!(matches!(result, ResolvedAuth::OAuthReady { .. }));
}

#[test]
fn oauth_without_tokens_returns_pending() {
    let result = resolve_auth(AuthMethod::OAuth, &inventory_oauth_no_tokens());
    assert_eq!(result, ResolvedAuth::OAuthPending);
}

#[test]
fn oauth_without_client_creds_returns_not_configured() {
    let result = resolve_auth(AuthMethod::OAuth, &inventory_nothing());
    let ResolvedAuth::NotConfigured { configured_method: AuthMethod::OAuth, detail } = result
    else {
        panic!("expected OAuth NotConfigured");
    };
    assert!(detail.contains("client_id + client_secret"));
    assert!(detail.contains("onshape-mcp auth login"));
    assert!(detail.contains("self-hosted proxy"));
}

#[test]
fn oauth_missing_client_secret_reports_it() {
    let inv = AuthInventory { has_client_id: true, ..inventory_nothing() };
    let result = resolve_auth(AuthMethod::OAuth, &inv);
    match result {
        ResolvedAuth::NotConfigured { detail, .. } => {
            assert!(detail.contains("client_secret"));
        }
        other => panic!("expected NotConfigured, got {other:?}"),
    }
}

#[test]
fn oauth_missing_client_id_reports_it() {
    let inv = AuthInventory { has_client_secret: true, ..inventory_nothing() };
    let result = resolve_auth(AuthMethod::OAuth, &inv);
    match result {
        ResolvedAuth::NotConfigured { detail, .. } => {
            assert!(detail.contains("client_id"));
        }
        other => panic!("expected NotConfigured, got {other:?}"),
    }
}

#[test]
fn default_auth_config() {
    let config = AuthConfig::default();
    assert!(config.access_key.is_none());
    assert!(config.secret_key.is_none());
    assert_eq!(config.method, AuthMethod::Auto);
    assert_eq!(config.check_interval, Duration::from_secs(300));
}

#[test]
fn parse_duration_seconds_integer() {
    assert_eq!(parse_duration_str("300").expect("should parse"), Duration::from_secs(300));
}

#[test]
fn parse_duration_seconds_suffix() {
    assert_eq!(parse_duration_str("300s").expect("should parse"), Duration::from_secs(300));
}

#[test]
fn parse_duration_minutes() {
    assert_eq!(parse_duration_str("5m").expect("should parse"), Duration::from_secs(300));
}

#[test]
fn parse_duration_hours() {
    assert_eq!(parse_duration_str("1h").expect("should parse"), Duration::from_secs(3600));
}

#[test]
fn parse_duration_empty_fails() {
    assert!(parse_duration_str("").is_err());
}

#[test]
fn parse_duration_invalid_suffix_fails() {
    assert!(parse_duration_str("5x").is_err());
}

#[test]
fn parse_duration_not_a_number_fails() {
    assert!(parse_duration_str("abcm").is_err());
}

#[test]
fn parse_duration_overflow_fails() {
    assert!(parse_duration_str("5124095576030432h").is_err());
}

#[test]
fn parse_duration_edges() {
    assert_eq!(parse_duration_str("  7 m ").unwrap(), Duration::from_secs(420));
    assert_eq!(parse_duration_str("+7").unwrap(), Duration::from_secs(7));
    assert_eq!(parse_duration_str("\u{2003}2h\u{a0}").unwrap(), Duration::from_secs(7200));
    assert_eq!(
        parse_duration_str("18446744073709551615").unwrap(),
        Duration::from_secs(u64::MAX)
    );
    assert_eq!(
        parse_duration_str("5124095576030431h").unwrap(),
        Duration::from_secs(5_124_095_576_030_431 * 3600)
    );
    assert_eq!(parse_duration_str(" ").unwrap_err(), "empty duration string");
    assert_eq!(
        parse_duration_str(" 5x ").unwrap_err(),
        "invalid duration \"5x\": expected a number with optional suffix (s, m, h)"
    );
    assert_eq!(
        parse_duration_str("abcm").unwrap_err(),
        "invalid duration \"abcm\": numeric part is not a valid integer"
    );
    assert_eq!(
        parse_duration_str("5124095576030432h").unwrap_err(),
        "invalid duration \"5124095576030432h\": value overflows"
    );
    assert_eq!(
        parse_duration_str("18446744073709551616").unwrap_err(),
        "invalid duration \"18446744073709551616\": expected a number with optional suffix (s, m, h)"
    );
    assert!(parse_duration_str("-5").is_err());
    assert!(parse_duration_str("+").is_err());
    assert!(parse_duration_str("s").is_err());
}

#[test]
fn deserialize_negative_integer_interval_fails() {
    let result = deserialize_duration(DurationValue::Signed(-5));
    assert!(result.is_err());
}

#[test]
fn deserialize_duration_takes_numbers_and_texts() {
    assert_eq!(
        deserialize_duration(DurationValue::Unsigned(120)).unwrap(),
        Duration::from_secs(120)
    );
    assert_eq!(deserialize_duration(DurationValue::Signed(45)).unwrap(), Duration::from_secs(45));
    assert_eq!(
        deserialize_duration(DurationValue::Signed(-5)).unwrap_err(),
        "duration must be non-negative"
    );
    assert_eq!(
        deserialize_duration(DurationValue::Text("10m".to_string())).unwrap(),
        Duration::from_secs(600)
    );
    assert!(deserialize_duration(DurationValue::Text("".to_string())).is_err());
}

#[test]
fn clamp_check_interval_below_minimum() {
    let mut config =
        AuthConfig { check_interval: Duration::from_secs(0), ..AuthConfig::default() };
    let original = config.clamp_check_interval();
    assert_eq!(original, Some(Duration::from_secs(0)));
    assert_eq!(config.check_interval, min_check_interval());
}

#[test]
fn clamp_check_interval_just_below_minimum() {
    let mut config =
        AuthConfig { check_interval: Duration::from_secs(14), ..AuthConfig::default() };
    let original = config.clamp_check_interval();
    assert_eq!(original, Some(Duration::from_secs(14)));
    assert_eq!(config.check_interval, min_check_interval());
}

#[test]
fn clamp_check_interval_at_minimum_unchanged() {
    let mut config =
        AuthConfig { check_interval: min_check_interval(), ..AuthConfig::default() };
    let original = config.clamp_check_interval();
    assert_eq!(original, None);
    assert_eq!(config.check_interval, min_check_interval());
}

#[test]
fn clamp_check_interval_above_minimum_unchanged() {
    let mut config =
        AuthConfig { check_interval: Duration::from_secs(300), ..AuthConfig::default() };
    let original = config.clamp_check_interval();
    assert_eq!(original, None);
    assert_eq!(config.check_interval, Duration::from_secs(300));
}

#[test]
fn clamp_counts_nanoseconds() {
    let mut config = AuthConfig {
        check_interval: Duration { secs: 14, nanos: 999_999_999 },
        ..AuthConfig::default()
    };
    assert_eq!(config.clamp_check_interval(), Some(Duration { secs: 14, nanos: 999_999_999 }));
    assert_eq!(config.check_interval, Duration::from_secs(15));
    assert_eq!(config.clamp_check_interval(), None);
}

#[test]
fn default_api_config() {
    let config = ApiConfig::default();
    assert_eq!(config.timeout, Duration::from_secs(30));
}

#[test]
fn default_http_transport_config() {
    let config = HttpTransportConfig::default();
    assert_eq!(config.host, DEFAULT_TRANSPORT_HOST);
    assert_eq!(config.port, DEFAULT_TRANSPORT_PORT);
    assert!(config.public_url.is_none());
    assert!(config.onshape_client_id.is_none());
    assert!(config.onshape_client_secret.is_none());
    assert!(!config.production);
    assert_eq!(config.max_request_body_bytes, DEFAULT_MAX_REQUEST_BODY_BYTES);
}

#[test]
fn defaults_have_their_values() {
    assert_eq!(default_max_request_body_bytes(), 16 * 1024 * 1024);
    assert_eq!(default_max_registered_clients(), 1_000);
    assert_eq!(default_max_pending_authorizations(), 256);
    assert_eq!(default_auth_method(), AuthMethod::Auto);
    assert_eq!(default_check_interval(), Duration::from_secs(300));
    assert_eq!(default_http_timeout(), Duration::from_secs(30));
    assert_eq!(default_transport_host(), "127.0.0.1");
    assert_eq!(default_transport_port(), 8080);
    let config = AppConfig::default();
    assert_eq!(config.auth.method, AuthMethod::Auto);
    assert_eq!(config.api.timeout, Duration::from_secs(30));
    assert_eq!(config.http.host, "127.0.0.1");
    let inv = AuthInventory::from_config(&config.auth, TokenStatus::Absent);
    assert!(matches!(
        resolve_auth(config.auth.method, &inv),
        ResolvedAuth::NotConfigured { .. }
    ));
}

#[test]
fn inventory_from_config_with_basic_keys() {
    let config = AuthConfig {
        access_key: Some(secret("ak")),
        secret_key: Some(secret("sk")),
        ..AuthConfig::default()
    };
    let inv = AuthInventory::from_config(&config, TokenStatus::Absent);
    assert!(inv.has_access_key);
    assert!(inv.has_secret_key);
    assert!(!inv.has_client_id);
    assert!(!inv.has_client_secret);
    assert_eq!(inv.token_status, TokenStatus::Absent);
}

#[test]
fn inventory_from_config_with_oauth_creds() {
    let config = AuthConfig {
        client_id: Some("cid".into()),
        client_secret: Some(secret("cs")),
        method: AuthMethod::OAuth,
        ..AuthConfig::default()
    };
    let inv = AuthInventory::from_config(&config, present());
    assert!(!inv.has_access_key);
    assert!(!inv.has_secret_key);
    assert!(inv.has_client_id);
    assert!(inv.has_client_secret);
    assert!(matches!(inv.token_status, TokenStatus::Present { .. }));
}

#[test]
fn auto_proxy_with_tokens_returns_oauth_ready() {
    let result = resolve_auth(AuthMethod::Auto, &inventory_proxy_with_tokens());
    assert!(matches!(result, ResolvedAuth::OAuthReady { .. }));
}

#[test]
fn auto_proxy_without_tokens_returns_pending() {
    let result = resolve_auth(AuthMethod::Auto, &inventory_proxy_no_tokens());
    assert_eq!(result, ResolvedAuth::OAuthPending);
}

#[test]
fn oauth_proxy_with_tokens_returns_ready() {
    let result = resolve_auth(AuthMethod::OAuth, &inventory_proxy_with_tokens());
    assert!(matches!(result, ResolvedAuth::OAuthReady { .. }));
}

#[test]
fn oauth_proxy_without_tokens_returns_pending() {
    let result = resolve_auth(AuthMethod::OAuth, &inventory_proxy_no_tokens());
    assert_eq!(result, ResolvedAuth::OAuthPending);
}

#[test]
fn proxy_url_without_client_secret_resolves_to_oauth() {
    let inv = AuthInventory {
        has_proxy_url: true,
        token_status: present(),
        ..inventory_nothing()
    };
    let result = resolve_auth(AuthMethod::Auto, &inv);
    assert!(matches!(result, ResolvedAuth::OAuthReady { .. }));
}

#[test]
fn inventory_from_config_detects_proxy_url_in_config() {
    let config = AuthConfig {
        proxy_url: Some("https://proxy.example.com".into()),
        ..AuthConfig::default()
    };
    let inv = AuthInventory::from_config(&config, TokenStatus::Absent);
    assert!(inv.has_proxy_url);
}

#[test]
fn inventory_from_config_rejects_blank_proxy_urls() {
    let config = AuthConfig { proxy_url: Some("  ".into()), ..AuthConfig::default() };
    let token_status =
        TokenStatus::Present { expires_at: None, proxy_url: Some(String::new()) };

    let inv = AuthInventory::from_config(&config, token_status);

    assert!(!inv.has_proxy_url);
}

#[test]
fn inventory_from_config_detects_proxy_url_in_token_file() {
    let config = AuthConfig::default();
    let token_status = TokenStatus::Present {
        expires_at: None,
        proxy_url: Some("https://proxy.example.com".into()),
    };
    let inv = AuthInventory::from_config(&config, token_status);
    assert!(inv.has_proxy_url);
}

#[test]
fn inventory_from_config_no_proxy_url_anywhere() {
    let config = AuthConfig::default();
    let inv = AuthInventory::from_config(&config, TokenStatus::Absent);
    assert!(!inv.has_proxy_url);
}

#[test]
fn oauth_missing_client_secret_with_proxy_url_succeeds() {
    let inv = AuthInventory {
        has_client_id: true,
        has_proxy_url: true,
        token_status: present(),
        ..inventory_nothing()
    };
    let result = resolve_auth(AuthMethod::OAuth, &inv);
    assert!(matches!(result, ResolvedAuth::OAuthReady { .. }));
}

#[test]
fn expiry_of_token_file_is_reported() {
    let at = Timestamp { secs: 1_700_000_000, nanos: 5 };
    let inv = AuthInventory {
        token_status: TokenStatus::Present { expires_at: Some(at), proxy_url: None },
        ..inventory_oauth_with_tokens()
    };
    assert_eq!(
        resolve_auth(AuthMethod::Auto, &inv),
        ResolvedAuth::OAuthReady { expires_at: Some(at) }
    );
    assert_eq!(
        resolve_auth(AuthMethod::OAuth, &inv),
        ResolvedAuth::OAuthReady { expires_at: Some(at) }
    );
}

#[test]
fn details_name_what_is_missing() {
    assert_eq!(
        not_configured_detail(AuthMethod::Auto, &inventory_nothing()),
        "No complete credentials found. Missing: API keys (access_key + secret_key), OAuth credentials (client_id + client_secret). Configure Onshape API keys, or configure your own OAuth client_id + client_secret and run `onshape-mcp auth login`; a self-hosted OAuth proxy is optional and must be configured explicitly."
    );
    let half = AuthInventory {
        has_access_key: true,
        has_client_secret: true,
        ..inventory_nothing()
    };
    assert!(not_configured_detail(AuthMethod::Auto, &half)
        .contains("Missing: secret_key, client_id."));
    let keys = AuthInventory { has_client_secret: true, ..inventory_basic() };
    assert!(not_configured_detail(AuthMethod::Auto, &keys).contains("Missing: client_id."));
    let oauth = AuthInventory { has_secret_key: true, ..inventory_oauth_no_tokens() };
    assert!(not_configured_detail(AuthMethod::Auto, &oauth).contains("Missing: access_key."));
    let all = AuthInventory { has_client_id: true, has_client_secret: true, ..inventory_basic() };
    assert_eq!(not_configured_detail(AuthMethod::Auto, &all), "No credentials configured");
    assert!(not_configured_detail(AuthMethod::OAuth, &inventory_proxy_no_tokens())
        .starts_with("OAuth proxy configured but tokens are unavailable."));
    assert!(not_configured_detail(AuthMethod::Basic, &inventory_nothing())
        .starts_with("API keys are not configured."));
}
