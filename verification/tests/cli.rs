//! Tests of what the command line decides.

use onshape_mcp::cli::{
    apply_http_overrides, build_cli_overrides, login_mode, names_auth_method,
    parse_allowed_users_csv, parse_nonblank_proxy_url, resolve_direct_credentials,
    validate_direct_credentials, CliOptions, HttpOverrides, LoginMode, HTTP_ABOUT,
};
use onshape_mcp::config::{AuthConfig, HttpTransportConfig};
use onshape_mcp::records::{AccessLevel, AllowedUser, Secret};

fn options(client_id: Option<&str>, client_secret: Option<&str>) -> CliOptions {
    CliOptions {
        access_key: None,
        secret_key: None,
        client_id: client_id.map(String::from),
        client_secret: client_secret.map(String::from),
        auth_method: None,
    }
}

#[test]
fn bare_auth_login_has_no_proxy_url() {
    let mode = login_mode(None, &options(Some("client"), Some("secret")), &AuthConfig::default())
        .expect("direct credentials are given");

    assert!(matches!(mode, LoginMode::Direct { .. }));
}

#[test]
fn auth_login_proxy_url_is_explicit() {
    let proxy_url =
        parse_nonblank_proxy_url("https://oauth-proxy.example.com").expect("should parse");
    let mode = login_mode(Some(proxy_url), &options(None, None), &AuthConfig::default())
        .expect("a proxy needs no credentials");

    assert!(matches!(
        mode,
        LoginMode::Proxy { proxy_url: ref url } if url == "https://oauth-proxy.example.com"
    ));
}

#[test]
fn auth_login_rejects_blank_proxy_url() {
    assert_eq!(parse_nonblank_proxy_url("  ").unwrap_err(), "proxy URL must not be blank");
}

#[test]
fn auth_login_rejects_insecure_non_loopback_proxy_url() {
    let error = parse_nonblank_proxy_url("http://proxy.example.com")
        .expect_err("insecure remote proxy should fail");

    assert!(error.contains("https://"));
}

#[test]
fn auth_login_allows_http_loopback_proxy_url() {
    for proxy_url in ["http://localhost:8787", "http://127.8.9.10", "http://[::1]"] {
        let parsed =
            parse_nonblank_proxy_url(proxy_url).expect("loopback HTTP proxy should parse");
        assert_eq!(parsed, proxy_url);
    }
}

#[test]
fn proxy_url_must_be_a_url() {
    assert_eq!(parse_nonblank_proxy_url("not a url").unwrap_err(), "proxy URL is not a valid URL");
    assert!(parse_nonblank_proxy_url("ftp://localhost").is_err());
    assert!(parse_nonblank_proxy_url("http://128.0.0.1").is_err());
    assert!(parse_nonblank_proxy_url("http://[::2]").is_err());
}

#[test]
fn direct_credentials_reject_blank_client_id() {
    let cli = options(Some("  "), Some("secret"));

    let error = resolve_direct_credentials(&cli, &AuthConfig::default())
        .expect_err("blank client ID should fail");
    assert!(error.contains("client_id"));
}

#[test]
fn direct_credentials_reject_blank_client_secret() {
    let cli = options(Some("client"), Some("\t "));

    let error = resolve_direct_credentials(&cli, &AuthConfig::default())
        .expect_err("blank client secret should fail");
    assert!(error.contains("client_secret"));
}

#[test]
fn direct_credentials_preserve_nonblank_client_secret() {
    let cli = options(Some("client"), Some(" secret with spaces "));

    let (_, secret) = resolve_direct_credentials(&cli, &AuthConfig::default())
        .expect("credentials should resolve");
    assert_eq!(secret, " secret with spaces ");
}

#[test]
fn direct_credentials_fall_back_to_configuration() {
    let config = AuthConfig {
        client_id: Some("configured".to_string()),
        client_secret: Some(Secret::new("hidden".to_string())),
        ..AuthConfig::default()
    };
    let pair = resolve_direct_credentials(&options(Some("flag"), None), &config).unwrap();
    assert_eq!(pair, ("configured".to_string(), "hidden".to_string()));

    let error =
        resolve_direct_credentials(&options(None, None), &AuthConfig::default()).unwrap_err();
    assert_eq!(
        error,
        "client_id is required for direct mode. Provide via --client-id flag, config file, or ONSHAPE_MCP_AUTH__CLIENT_ID env var."
    );
    let half = AuthConfig { client_id: Some("configured".to_string()), ..AuthConfig::default() };
    let error = resolve_direct_credentials(&options(None, None), &half).unwrap_err();
    assert_eq!(
        error,
        "client_secret is required for direct mode. Provide via --client-secret flag, config file, or ONSHAPE_MCP_AUTH__CLIENT_SECRET env var."
    );
    assert!(login_mode(None, &options(None, None), &half).is_err());
}

#[test]
fn direct_credentials_name_what_is_blank() {
    assert_eq!(
        validate_direct_credentials(String::new(), String::new()).unwrap_err(),
        "client_id must not be blank"
    );
    assert_eq!(
        validate_direct_credentials("a".to_string(), "\u{3000}".to_string()).unwrap_err(),
        "client_secret must not be blank"
    );
}

#[test]
fn http_help_marks_transport_experimental_and_self_hosted() {
    let help = HTTP_ABOUT.to_string();

    assert!(help.contains("experimental"));
    assert!(help.contains("self-hosted"));
}

#[test]
fn overrides_name_the_given_options() {
    assert!(build_cli_overrides(&options(None, None)).is_empty());
    let cli = CliOptions {
        access_key: Some("ak".to_string()),
        secret_key: None,
        client_id: Some("cid".to_string()),
        client_secret: None,
        auth_method: Some("oauth".to_string()),
    };
    assert_eq!(
        build_cli_overrides(&cli),
        vec![
            ("access_key".to_string(), "ak".to_string()),
            ("client_id".to_string(), "cid".to_string()),
            ("method".to_string(), "oauth".to_string()),
        ]
    );
}

#[test]
fn auth_method_errors_are_recognized() {
    let path = |parts: &[&str]| -> Vec<String> { parts.iter().map(|p| p.to_string()).collect() };
    assert!(names_auth_method(&path(&["auth", "method"])));
    assert!(names_auth_method(&path(&["auth", "method", "deeper"])));
    assert!(!names_auth_method(&path(&["auth"])));
    assert!(!names_auth_method(&path(&["http", "method"])));
    assert!(!names_auth_method(&path(&[])));
}

#[test]
fn http_overrides_replace_what_is_given() {
    let mut config = HttpTransportConfig::default();
    let users = apply_http_overrides(
        &mut config,
        HttpOverrides {
            host: Some("0.0.0.0".to_string()),
            port: Some(9090),
            public_url: Some("https://mcp.example.com".to_string()),
            onshape_client_id: None,
            onshape_client_secret: Some("s3cret".to_string()),
            allowed_users: None,
        },
    );
    assert!(users.is_none());
    assert_eq!(config.host, "0.0.0.0");
    assert_eq!(config.port, 9090);
    assert_eq!(config.public_url.as_deref(), Some("https://mcp.example.com"));
    assert!(config.onshape_client_id.is_none());
    assert_eq!(config.onshape_client_secret.as_ref().unwrap().expose(), "s3cret");
    assert_eq!(config.max_registered_clients, 1_000);
}

#[test]
fn http_overrides_list_the_users() {
    let mut config = HttpTransportConfig::default();
    let users = apply_http_overrides(
        &mut config,
        HttpOverrides {
            host: None,
            port: None,
            public_url: None,
            onshape_client_id: None,
            onshape_client_secret: None,
            allowed_users: Some("abc123:Alice:read".to_string()),
        },
    )
    .expect("a list is given");
    assert_eq!(users.len(), 1);
    assert_eq!((users[0].id.as_str(), users[0].access), ("abc123", AccessLevel::Read));
    assert_eq!(config.host, "127.0.0.1");
}

#[test]
fn users_are_listed_with_name_and_access() {
    let users = parse_allowed_users_csv("abc123:Alice:read,def456:Bob:write");
    assert_eq!(
        users,
        vec![
            AllowedUser {
                id: "abc123".to_string(),
                name: Some("Alice".to_string()),
                access: AccessLevel::Read,
            },
            AllowedUser {
                id: "def456".to_string(),
                name: Some("Bob".to_string()),
                access: AccessLevel::Write,
            },
        ]
    );
    let users = parse_allowed_users_csv(" only , ,:nobody, x::full , y:Z:owner, a:b:read:c");
    assert_eq!(
        users,
        vec![
            AllowedUser { id: "only".to_string(), name: None, access: AccessLevel::Full },
            AllowedUser { id: "x".to_string(), name: None, access: AccessLevel::Full },
        ]
    );
    assert!(parse_allowed_users_csv("").is_empty());
}
