//! The configuration, and which credentials it leads to.

use vstd::prelude::*;
use vstd::string::*;

use crate::records::Secret;
use crate::text::{blank, join3};
use crate::time::{Duration, Timestamp};
use crate::text;

verus! {

// ---------------------------------------------------------------------------
// Defaults
// ---------------------------------------------------------------------------
/// The default timeout of requests to the Onshape API, in seconds.
pub const DEFAULT_HTTP_TIMEOUT_SECS: u64 = 30;

/// The default interval between validations of the credentials, in seconds.
pub const DEFAULT_CHECK_INTERVAL_SECS: u64 = 300;

/// The shortest interval between validations of the credentials, in seconds.
pub const MIN_CHECK_INTERVAL_SECS: u64 = 15;

/// The default address of the HTTP transport.
pub const DEFAULT_TRANSPORT_HOST: &'static str = "127.0.0.1";

/// The default port of the HTTP transport.
pub const DEFAULT_TRANSPORT_PORT: u16 = 8080;

/// The default limit on the size of a request (16 MiB).
pub const DEFAULT_MAX_REQUEST_BODY_BYTES: usize = 16_777_216;

/// The default limit on registered clients.
pub const DEFAULT_MAX_REGISTERED_CLIENTS: usize = 1_000;

/// The default limit on pending authorizations.
pub const DEFAULT_MAX_PENDING_AUTHORIZATIONS: usize = 256;

/// The default limit on the size of a request.
pub fn default_max_request_body_bytes() -> (r: usize)
    ensures
        r == DEFAULT_MAX_REQUEST_BODY_BYTES,
{
    DEFAULT_MAX_REQUEST_BODY_BYTES
}

/// The default limit on registered clients.
pub fn default_max_registered_clients() -> (r: usize)
    ensures
        r == DEFAULT_MAX_REGISTERED_CLIENTS,
{
    DEFAULT_MAX_REGISTERED_CLIENTS
}

/// The default limit on pending authorizations.
pub fn default_max_pending_authorizations() -> (r: usize)
    ensures
        r == DEFAULT_MAX_PENDING_AUTHORIZATIONS,
{
    DEFAULT_MAX_PENDING_AUTHORIZATIONS
}

/// The default authentication method.
pub fn default_auth_method() -> (r: AuthMethod)
    ensures
        r == AuthMethod::Auto,
{
    AuthMethod::Auto
}

/// The default interval between validations of the credentials.
pub fn default_check_interval() -> (r: Duration)
    ensures
        r == (Duration { secs: DEFAULT_CHECK_INTERVAL_SECS, nanos: 0 }),
{
    Duration::from_secs(DEFAULT_CHECK_INTERVAL_SECS)
}

/// The shortest interval between validations of the credentials.
pub fn min_check_interval() -> (r: Duration)
    ensures
        r == (Duration { secs: MIN_CHECK_INTERVAL_SECS, nanos: 0 }),
{
    Duration::from_secs(MIN_CHECK_INTERVAL_SECS)
}

/// The default timeout of requests to the Onshape API.
pub fn default_http_timeout() -> (r: Duration)
    ensures
        r == (Duration { secs: DEFAULT_HTTP_TIMEOUT_SECS, nanos: 0 }),
{
    Duration::from_secs(DEFAULT_HTTP_TIMEOUT_SECS)
}

/// The default address of the HTTP transport.
pub fn default_transport_host() -> (r: String)
    ensures
        r@ == DEFAULT_TRANSPORT_HOST@,
{
    DEFAULT_TRANSPORT_HOST.to_owned()
}

/// The default port of the HTTP transport.
pub fn default_transport_port() -> (r: u16)
    ensures
        r == DEFAULT_TRANSPORT_PORT,
{
    DEFAULT_TRANSPORT_PORT
}

// ---------------------------------------------------------------------------
// The configuration
// ---------------------------------------------------------------------------
/// How requests to the Onshape API are authenticated.
#[derive(Clone, Copy, Debug, PartialEq, Eq, Structural)]
pub enum AuthMethod {
    /// By whatever is configured.
    Auto,
    /// By API keys.
    Basic,
    /// By OAuth tokens.
    OAuth,
}

/// The authentication settings.
pub struct AuthConfig {
    /// The API access key.
    pub access_key: Option<Secret>,
    /// The API secret key.
    pub secret_key: Option<Secret>,
    /// The OAuth client ID.
    pub client_id: Option<String>,
    /// The OAuth client secret.
    pub client_secret: Option<Secret>,
    /// Whether the client ID and secret came from the token file.
    pub direct_credentials_from_token_file: bool,
    /// The proxy that exchanges tokens, where the client secret is not at hand.
    pub proxy_url: Option<String>,
    /// The authentication method.
    pub method: AuthMethod,
    /// The interval between validations of the credentials.
    pub check_interval: Duration,
}

impl Default for AuthConfig {
    fn default() -> (r: AuthConfig)
        ensures
            r.access_key is None,
            r.secret_key is None,
            r.client_id is None,
            r.client_secret is None,
            !r.direct_credentials_from_token_file,
            r.proxy_url is None,
            r.method == AuthMethod::Auto,
            r.check_interval == (Duration { secs: DEFAULT_CHECK_INTERVAL_SECS, nanos: 0 }),
    {
        AuthConfig {
            access_key: None,
            secret_key: None,
            client_id: None,
            client_secret: None,
            direct_credentials_from_token_file: false,
            proxy_url: None,
            method: AuthMethod::Auto,
            check_interval: default_check_interval(),
        }
    }
}

/// The settings of the Onshape API client.
pub struct ApiConfig {
    /// The timeout of requests to the Onshape API.
    pub timeout: Duration,
}

impl Default for ApiConfig {
    fn default() -> (r: ApiConfig)
        ensures
            r.timeout == (Duration { secs: DEFAULT_HTTP_TIMEOUT_SECS, nanos: 0 }),
    {
        ApiConfig { timeout: default_http_timeout() }
    }
}

/// The settings of the HTTP transport.
pub struct HttpTransportConfig {
    /// Whether the checks for production are on.
    pub production: bool,
    /// The address to listen on.
    pub host: String,
    /// The port to listen on.
    pub port: u16,
    /// The public URL of the server.
    pub public_url: Option<String>,
    /// The client ID of the operator's Onshape application.
    pub onshape_client_id: Option<String>,
    /// The client secret of the operator's Onshape application.
    pub onshape_client_secret: Option<Secret>,
    /// The enterprise that the Onshape authorization is bound to.
    pub onshape_company_id: Option<String>,
    /// The file in which the state survives a restart.
    pub state_file: Option<String>,
    /// The key of the state file, in base64.
    pub state_encryption_key: Option<Secret>,
    /// The limit on the size of a request.
    pub max_request_body_bytes: usize,
    /// The limit on registered clients.
    pub max_registered_clients: usize,
    /// The limit on pending authorizations.
    pub max_pending_authorizations: usize,
}

impl HttpTransportConfig {
    /// Whether nothing is configured.
    pub open spec fn is_default(self) -> bool {
        &&& !self.production
        &&& self.host@ == DEFAULT_TRANSPORT_HOST@
        &&& self.port == DEFAULT_TRANSPORT_PORT
        &&& self.public_url is None
        &&& self.onshape_client_id is None
        &&& self.onshape_client_secret is None
        &&& self.onshape_company_id is None
        &&& self.state_file is None
        &&& self.state_encryption_key is None
        &&& self.max_request_body_bytes == DEFAULT_MAX_REQUEST_BODY_BYTES
        &&& self.max_registered_clients == DEFAULT_MAX_REGISTERED_CLIENTS
        &&& self.max_pending_authorizations == DEFAULT_MAX_PENDING_AUTHORIZATIONS
    }
}

impl Default for HttpTransportConfig {
    fn default() -> (r: HttpTransportConfig)
        ensures
            r.is_default(),
    {
        HttpTransportConfig {
            production: false,
            host: default_transport_host(),
            port: DEFAULT_TRANSPORT_PORT,
            public_url: None,
            onshape_client_id: None,
            onshape_client_secret: None,
            onshape_company_id: None,
            state_file: None,
            state_encryption_key: None,
            max_request_body_bytes: DEFAULT_MAX_REQUEST_BODY_BYTES,
            max_registered_clients: DEFAULT_MAX_REGISTERED_CLIENTS,
            max_pending_authorizations: DEFAULT_MAX_PENDING_AUTHORIZATIONS,
        }
    }
}

/// All settings.
pub struct AppConfig {
    /// The authentication settings.
    pub auth: AuthConfig,
    /// The settings of the Onshape API client.
    pub api: ApiConfig,
    /// The settings of the HTTP transport.
    pub http: HttpTransportConfig,
}

impl Default for AppConfig {
    fn default() -> (r: AppConfig)
        ensures
            r.auth.access_key is None,
            r.auth.secret_key is None,
            r.auth.client_id is None,
            r.auth.client_secret is None,
            !r.auth.direct_credentials_from_token_file,
            r.auth.proxy_url is None,
            r.auth.method == AuthMethod::Auto,
            r.auth.check_interval == (Duration { secs: DEFAULT_CHECK_INTERVAL_SECS, nanos: 0 }),
            r.api.timeout == (Duration { secs: DEFAULT_HTTP_TIMEOUT_SECS, nanos: 0 }),
            r.http.is_default(),
    {
        AppConfig {
            auth: AuthConfig::default(),
            api: ApiConfig::default(),
            http: HttpTransportConfig::default(),
        }
    }
}

impl AuthConfig {
    /// Raises the interval between validations to the minimum. Returns the interval that was
    /// configured, if it was shorter.
    pub fn clamp_check_interval(&mut self) -> (r: Option<Duration>)
        ensures
            *final(self) == (AuthConfig {
                check_interval: clamped(old(self).check_interval),
                ..*old(self)
            }),
            r == if is_too_short(old(self).check_interval) {
                Some(old(self).check_interval)
            } else {
                None
            },
    {
        let minimum: Duration = min_check_interval();
        if self.check_interval.is_shorter(&minimum) {
            let original: Duration = self.check_interval;
            self.check_interval = minimum;
            Some(original)
        } else {
            None
        }
    }
}

/// Whether an interval is below the minimum.
pub open spec fn is_too_short(interval: Duration) -> bool {
    interval.shorter_than(Duration { secs: MIN_CHECK_INTERVAL_SECS, nanos: 0 })
}

/// An interval, raised to the minimum.
pub open spec fn clamped(interval: Duration) -> Duration {
    if is_too_short(interval) {
        Duration { secs: MIN_CHECK_INTERVAL_SECS, nanos: 0 }
    } else {
        interval
    }
}

// ---------------------------------------------------------------------------
// Which credentials there are
// ---------------------------------------------------------------------------
/// What was found where the token file should be.
#[derive(Clone, Debug, PartialEq, Eq)]
pub enum TokenStatus {
    /// No file, or one that could not be read.
    Absent,
    /// A token file.
    Present {
        /// When the access token expires, if that is known.
        expires_at: Option<Timestamp>,
        /// The proxy that refreshes the tokens, if there is one.
        proxy_url: Option<String>,
    },
}

/// Which credentials there are, without the credentials themselves.
#[derive(Clone, Debug, PartialEq, Eq)]
pub struct AuthInventory {
    /// Whether there is an API access key.
    pub has_access_key: bool,
    /// Whether there is an API secret key.
    pub has_secret_key: bool,
    /// Whether there is an OAuth client ID.
    pub has_client_id: bool,
    /// Whether there is an OAuth client secret.
    pub has_client_secret: bool,
    /// Whether there is a proxy.
    pub has_proxy_url: bool,
    /// What was found where the token file should be.
    pub token_status: TokenStatus,
}

/// Whether an optional text is there and not blank.
pub open spec fn names_something(o: Option<String>) -> bool {
    o matches Some(s) && !text::is_blank(s@)
}

/// Whether the token file names a proxy.
pub open spec fn file_names_proxy(status: TokenStatus) -> bool {
    status matches TokenStatus::Present { proxy_url, .. } && names_something(proxy_url)
}

fn something(o: &Option<String>) -> (r: bool)
    ensures
        r == names_something(*o),
{
    match o {
        Some(s) => !blank(s.as_str()),
        None => false,
    }
}

/// The stock of credentials.
pub open spec fn inventory_of(config: AuthConfig, token_status: TokenStatus) -> AuthInventory {
    AuthInventory {
        has_access_key: config.access_key is Some,
        has_secret_key: config.secret_key is Some,
        has_client_id: config.client_id is Some,
        has_client_secret: config.client_secret is Some,
        has_proxy_url: names_something(config.proxy_url) || file_names_proxy(token_status),
        token_status,
    }
}

impl AuthInventory {
    /// Takes stock of the credentials. A proxy can come from the configuration or from the token
    /// file; a blank one does not count.
    pub fn from_config(config: &AuthConfig, token_status: TokenStatus) -> (r: AuthInventory)
        ensures
            r == inventory_of(*config, token_status),
            r == (AuthInventory {
                has_access_key: config.access_key is Some,
                has_secret_key: config.secret_key is Some,
                has_client_id: config.client_id is Some,
                has_client_secret: config.client_secret is Some,
                has_proxy_url: names_something(config.proxy_url) || file_names_proxy(token_status),
                token_status,
            }),
    {
        let has_proxy_url: bool = something(&config.proxy_url) || match &token_status {
            TokenStatus::Present { expires_at: _, proxy_url } => something(proxy_url),
            TokenStatus::Absent => false,
        };
        AuthInventory {
            has_access_key: config.access_key.is_some(),
            has_secret_key: config.secret_key.is_some(),
            has_client_id: config.client_id.is_some(),
            has_client_secret: config.client_secret.is_some(),
            has_proxy_url,
            token_status,
        }
    }
}

// ---------------------------------------------------------------------------
// Which credentials are used
// ---------------------------------------------------------------------------
/// How requests to the Onshape API will be authenticated.
#[derive(Clone, Debug, PartialEq, Eq)]
pub enum ResolvedAuth {
    /// There are no usable credentials.
    NotConfigured {
        /// The configured method.
        configured_method: AuthMethod,
        /// What is missing.
        detail: String,
    },
    /// By API keys.
    Basic,
    /// By OAuth tokens.
    OAuthReady {
        /// When the access token expires, if that is known.
        expires_at: Option<Timestamp>,
    },
    /// By OAuth tokens, once the user has authorized.
    OAuthPending,
}

/// The view of a [`ResolvedAuth`].
pub enum ResolvedView {
    /// There are no usable credentials.
    NotConfigured(AuthMethod, Seq<char>),
    /// By API keys.
    Basic,
    /// By OAuth tokens.
    OAuthReady(Option<Timestamp>),
    /// By OAuth tokens, once the user has authorized.
    OAuthPending,
}

impl View for ResolvedAuth {
    type V = ResolvedView;

    open spec fn view(&self) -> ResolvedView {
        match self {
            ResolvedAuth::NotConfigured { configured_method, detail } =>
                ResolvedView::NotConfigured(*configured_method, detail@),
            ResolvedAuth::Basic => ResolvedView::Basic,
            ResolvedAuth::OAuthReady { expires_at } => ResolvedView::OAuthReady(*expires_at),
            ResolvedAuth::OAuthPending => ResolvedView::OAuthPending,
        }
    }
}

impl AuthInventory {
    /// Whether both API keys are there.
    pub open spec fn has_keys(self) -> bool {
        self.has_access_key && self.has_secret_key
    }

    /// Whether tokens can be obtained and refreshed, directly or through a proxy.
    pub open spec fn has_oauth(self) -> bool {
        (self.has_client_id && self.has_client_secret) || self.has_proxy_url
    }

    /// Whether there are tokens.
    pub open spec fn has_tokens(self) -> bool {
        self.token_status is Present
    }
}

/// How requests will be authenticated. On its own the server prefers OAuth with tokens, then API
/// keys, then OAuth without tokens; a configured method is not given up for another one.
pub open spec fn resolution(method: AuthMethod, inventory: AuthInventory) -> ResolvedView {
    let may_oauth = method != AuthMethod::Basic && inventory.has_oauth();
    let may_keys = method != AuthMethod::OAuth && inventory.has_keys();
    if may_oauth && inventory.has_tokens() {
        ResolvedView::OAuthReady(inventory.token_status->expires_at)
    } else if may_keys {
        ResolvedView::Basic
    } else if may_oauth {
        ResolvedView::OAuthPending
    } else {
        ResolvedView::NotConfigured(method, missing_text(method, inventory))
    }
}

/// Which of the API keys are missing, if any are.
pub open spec fn missing_keys(inventory: AuthInventory) -> Option<Seq<char>> {
    if !inventory.has_access_key && !inventory.has_secret_key {
        Some("API keys (access_key + secret_key)"@)
    } else if !inventory.has_access_key {
        Some("access_key"@)
    } else if !inventory.has_secret_key {
        Some("secret_key"@)
    } else {
        None
    }
}

/// Which of the OAuth client credentials are missing, if any are.
pub open spec fn missing_client(inventory: AuthInventory) -> Option<Seq<char>> {
    if !inventory.has_client_id && !inventory.has_client_secret {
        Some("OAuth credentials (client_id + client_secret)"@)
    } else if !inventory.has_client_id {
        Some("client_id"@)
    } else if !inventory.has_client_secret {
        Some("client_secret"@)
    } else {
        None
    }
}

/// What is missing, where the server looks for any credentials.
pub open spec fn missing_any(missing: Seq<char>) -> Seq<char> {
    "No complete credentials found. Missing: "@ + missing
        + ". Configure Onshape API keys, or configure your own OAuth client_id + client_secret and run `onshape-mcp auth login`; a self-hosted OAuth proxy is optional and must be configured explicitly."@
}

/// What is missing, in words.
pub open spec fn missing_text(method: AuthMethod, inventory: AuthInventory) -> Seq<char> {
    match method {
        AuthMethod::Auto => match (missing_keys(inventory), missing_client(inventory)) {
            (None, None) => "No credentials configured"@,
            (Some(keys), None) => missing_any(keys),
            (None, Some(client)) => missing_any(client),
            (Some(keys), Some(client)) => missing_any(keys + ", "@ + client),
        },
        AuthMethod::OAuth => if inventory.has_proxy_url {
            "OAuth proxy configured but tokens are unavailable. Run `onshape-mcp auth login --proxy-url <self-hosted-proxy-url>`."@
        } else if !inventory.has_client_id && !inventory.has_client_secret {
            "OAuth is not configured. Set your own client_id + client_secret and run `onshape-mcp auth login`, or explicitly configure a self-hosted proxy URL."@
        } else if !inventory.has_client_id {
            "OAuth is incomplete: client_id is not configured. Set your own client_id and run `onshape-mcp auth login`."@
        } else {
            "OAuth is incomplete: client_secret is not configured. Set your own client_secret and run `onshape-mcp auth login`, or explicitly configure a self-hosted proxy URL."@
        },
        AuthMethod::Basic => if !inventory.has_access_key && !inventory.has_secret_key {
            "API keys are not configured. Set access_key + secret_key, or use direct OAuth with `onshape-mcp auth login`."@
        } else if !inventory.has_access_key {
            "Incomplete credentials: access_key is not configured"@
        } else {
            "Incomplete credentials: secret_key is not configured"@
        },
    }
}

fn keys_missing(inventory: &AuthInventory) -> (r: Option<&'static str>)
    ensures
        text::opt_str_chars(r) == missing_keys(*inventory),
{
    if !inventory.has_access_key && !inventory.has_secret_key {
        Some("API keys (access_key + secret_key)")
    } else if !inventory.has_access_key {
        Some("access_key")
    } else if !inventory.has_secret_key {
        Some("secret_key")
    } else {
        None
    }
}

fn client_missing(inventory: &AuthInventory) -> (r: Option<&'static str>)
    ensures
        text::opt_str_chars(r) == missing_client(*inventory),
{
    if !inventory.has_client_id && !inventory.has_client_secret {
        Some("OAuth credentials (client_id + client_secret)")
    } else if !inventory.has_client_id {
        Some("client_id")
    } else if !inventory.has_client_secret {
        Some("client_secret")
    } else {
        None
    }
}

fn any_missing(missing: &str) -> (r: String)
    ensures
        r@ == missing_any(missing@),
{
    join3(
        "No complete credentials found. Missing: ",
        missing,
        ". Configure Onshape API keys, or configure your own OAuth client_id + client_secret and run `onshape-mcp auth login`; a self-hosted OAuth proxy is optional and must be configured explicitly.",
    )
}

/// What is missing, in words.
pub fn not_configured_detail(method: AuthMethod, inventory: &AuthInventory) -> (r: String)
    ensures
        r@ == missing_text(method, *inventory),
{
    match method {
        AuthMethod::Auto => match (keys_missing(inventory), client_missing(inventory)) {
            (None, None) => "No credentials configured".to_owned(),
            (Some(keys), None) => any_missing(keys),
            (None, Some(client)) => any_missing(client),
            (Some(keys), Some(client)) => {
                let both: String = join3(keys, ", ", client);
                any_missing(both.as_str())
            },
        },
        AuthMethod::OAuth => if inventory.has_proxy_url {
            "OAuth proxy configured but tokens are unavailable. Run `onshape-mcp auth login --proxy-url <self-hosted-proxy-url>`.".to_owned()
        } else if !inventory.has_client_id && !inventory.has_client_secret {
            "OAuth is not configured. Set your own client_id + client_secret and run `onshape-mcp auth login`, or explicitly configure a self-hosted proxy URL.".to_owned()
        } else if !inventory.has_client_id {
            "OAuth is incomplete: client_id is not configured. Set your own client_id and run `onshape-mcp auth login`.".to_owned()
        } else {
            "OAuth is incomplete: client_secret is not configured. Set your own client_secret and run `onshape-mcp auth login`, or explicitly configure a self-hosted proxy URL.".to_owned()
        },
        AuthMethod::Basic => if !inventory.has_access_key && !inventory.has_secret_key {
            "API keys are not configured. Set access_key + secret_key, or use direct OAuth with `onshape-mcp auth login`.".to_owned()
        } else if !inventory.has_access_key {
            "Incomplete credentials: access_key is not configured".to_owned()
        } else {
            "Incomplete credentials: secret_key is not configured".to_owned()
        },
    }
}

fn not_configured(method: AuthMethod, inventory: &AuthInventory) -> (r: ResolvedAuth)
    ensures
        r@ == ResolvedView::NotConfigured(method, missing_text(method, *inventory)),
{
    ResolvedAuth::NotConfigured {
        configured_method: method,
        detail: not_configured_detail(method, inventory),
    }
}

/// Whether tokens can be obtained and refreshed, directly or through a proxy.
pub fn has_oauth_capability(inventory: &AuthInventory) -> (r: bool)
    ensures
        r == inventory.has_oauth(),
{
    (inventory.has_client_id && inventory.has_client_secret) || inventory.has_proxy_url
}

/// Resolves the credentials where no method is configured.
pub fn resolve_auto(inventory: &AuthInventory) -> (r: ResolvedAuth)
    ensures
        r@ == resolution(AuthMethod::Auto, *inventory),
{
    let oauth: bool = has_oauth_capability(inventory);
    if oauth {
        if let TokenStatus::Present { expires_at, proxy_url: _ } = &inventory.token_status {
            return ResolvedAuth::OAuthReady { expires_at: *expires_at };
        }
    }
    if inventory.has_access_key && inventory.has_secret_key {
        return ResolvedAuth::Basic;
    }
    if oauth {
        return ResolvedAuth::OAuthPending;
    }
    not_configured(AuthMethod::Auto, inventory)
}

/// Resolves the credentials where API keys are configured as the method.
pub fn resolve_basic(inventory: &AuthInventory) -> (r: ResolvedAuth)
    ensures
        r@ == resolution(AuthMethod::Basic, *inventory),
{
    if inventory.has_access_key && inventory.has_secret_key {
        ResolvedAuth::Basic
    } else {
        not_configured(AuthMethod::Basic, inventory)
    }
}

/// Resolves the credentials where OAuth is configured as the method.
pub fn resolve_oauth(inventory: &AuthInventory) -> (r: ResolvedAuth)
    ensures
        r@ == resolution(AuthMethod::OAuth, *inventory),
{
    if has_oauth_capability(inventory) {
        match &inventory.token_status {
            TokenStatus::Present { expires_at, proxy_url: _ } => ResolvedAuth::OAuthReady {
                expires_at: *expires_at,
            },
            TokenStatus::Absent => ResolvedAuth::OAuthPending,
        }
    } else {
        not_configured(AuthMethod::OAuth, inventory)
    }
}

/// Resolves how requests to the Onshape API will be authenticated.
pub fn resolve_auth(method: AuthMethod, inventory: &AuthInventory) -> (r: ResolvedAuth)
    ensures
        r@ == resolution(method, *inventory),
{
    match method {
        AuthMethod::Auto => resolve_auto(inventory),
        AuthMethod::OAuth => resolve_oauth(inventory),
        AuthMethod::Basic => resolve_basic(inventory),
    }
}

} // verus!
