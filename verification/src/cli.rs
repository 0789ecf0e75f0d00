//! What the command line decides: overrides, login mode, direct credentials, proxy, users.

use vstd::prelude::*;
use vstd::string::*;

use crate::config::{AuthConfig, HttpTransportConfig};
use crate::outside::{parse_url, ParsedUrl, UrlParts};
use crate::records::{AccessLevel, AllowedUser, Secret};
use crate::text::{blank, same, trim};
use crate::url::confidential;
use crate::{errors, outside, text, url};

verus! {

/// What the help says about the HTTP transport.
pub const HTTP_ABOUT: &'static str =
    "Run the MCP server over experimental, self-hosted Streamable HTTP transport";

// ---------------------------------------------------------------------------
// The proxy
// ---------------------------------------------------------------------------
/// What is wrong with a proxy URL whose parts are given, if anything is: it must keep what it is
/// sent confidential.
pub open spec fn proxy_verdict(value: Seq<char>, parts: Option<UrlParts>) -> Option<Seq<char>> {
    if text::is_blank(value) {
        Some("proxy URL must not be blank"@)
    } else {
        match parts {
            None => Some("proxy URL is not a valid URL"@),
            Some(parts) => if url::is_confidential(parts) {
                None
            } else {
                Some("proxy URL must use https://, or http:// with a loopback host"@)
            },
        }
    }
}

/// What is wrong with a proxy URL, if anything is.
pub open spec fn proxy_error(value: Seq<char>) -> Option<Seq<char>> {
    proxy_verdict(value, outside::url_parts(value))
}

/// Judges a proxy URL by its parts, and takes it as it is.
pub fn check_proxy(value: &str, parsed: Option<ParsedUrl>) -> (r: Result<String, String>)
    ensures
        match proxy_verdict(value@, outside::opt_parts(parsed)) {
            None => r matches Ok(v) && v@ == value@,
            Some(message) => r matches Err(e) && e@ == message,
        },
{
    if blank(value) {
        return Err("proxy URL must not be blank".to_owned());
    }
    match parsed {
        None => Err("proxy URL is not a valid URL".to_owned()),
        Some(parsed) => if confidential(&parsed) {
            Ok(value.to_owned())
        } else {
            Err("proxy URL must use https://, or http:// with a loopback host".to_owned())
        },
    }
}

/// Takes a proxy URL as it is, if it is one that keeps what it is sent confidential.
pub fn parse_nonblank_proxy_url(value: &str) -> (r: Result<String, String>)
    ensures
        match proxy_error(value@) {
            None => r matches Ok(v) && v@ == value@,
            Some(message) => r matches Err(e) && e@ == message,
        },
{
    check_proxy(value, parse_url(value))
}

// ---------------------------------------------------------------------------
// Direct credentials
// ---------------------------------------------------------------------------
/// What is wrong with an OAuth client ID and secret, if anything is.
pub open spec fn credentials_error(client_id: Seq<char>, client_secret: Seq<char>) -> Option<
    Seq<char>,
> {
    if text::is_blank(client_id) {
        Some("client_id must not be blank"@)
    } else if text::is_blank(client_secret) {
        Some("client_secret must not be blank"@)
    } else {
        None
    }
}

/// Takes an OAuth client ID and secret as they are, if neither is blank.
pub fn validate_direct_credentials(client_id: String, client_secret: String) -> (r: Result<
    (String, String),
    String,
>)
    ensures
        match credentials_error(client_id@, client_secret@) {
            None => r == Ok::<(String, String), String>((client_id, client_secret)),
            Some(message) => r matches Err(e) && e@ == message,
        },
{
    if blank(client_id.as_str()) {
        return Err("client_id must not be blank".to_owned());
    }
    if blank(client_secret.as_str()) {
        return Err("client_secret must not be blank".to_owned());
    }
    Ok((client_id, client_secret))
}

/// The global options.
pub struct CliOptions {
    /// The API access key.
    pub access_key: Option<String>,
    /// The API secret key.
    pub secret_key: Option<String>,
    /// The OAuth client ID.
    pub client_id: Option<String>,
    /// The OAuth client secret.
    pub client_secret: Option<String>,
    /// The authentication method.
    pub auth_method: Option<String>,
}

/// The view of an outcome that is a pair of texts.
pub open spec fn pair_result(r: Result<(String, String), String>) -> Result<
    (Seq<char>, Seq<char>),
    Seq<char>,
> {
    match r {
        Ok(pair) => Ok((pair.0@, pair.1@)),
        Err(e) => Err(e@),
    }
}

/// A client ID and secret, if neither is blank.
pub open spec fn checked_credentials(client_id: Seq<char>, client_secret: Seq<char>) -> Result<
    (Seq<char>, Seq<char>),
    Seq<char>,
> {
    match credentials_error(client_id, client_secret) {
        None => Ok((client_id, client_secret)),
        Some(message) => Err(message),
    }
}

/// The client ID and secret for a login without a proxy. The options count if both are given;
/// otherwise the configuration does.
pub open spec fn direct_credentials(cli: CliOptions, config: AuthConfig) -> Result<
    (Seq<char>, Seq<char>),
    Seq<char>,
> {
    if cli.client_id is Some && cli.client_secret is Some {
        checked_credentials(cli.client_id->0@, cli.client_secret->0@)
    } else if config.client_id is None {
        Err(
            "client_id is required for direct mode. Provide via --client-id flag, config file, or ONSHAPE_MCP_AUTH__CLIENT_ID env var."@,
        )
    } else if config.client_secret is None {
        Err(
            "client_secret is required for direct mode. Provide via --client-secret flag, config file, or ONSHAPE_MCP_AUTH__CLIENT_SECRET env var."@,
        )
    } else {
        checked_credentials(config.client_id->0@, config.client_secret->0@)
    }
}

/// Finds the client ID and secret for a login without a proxy.
pub fn resolve_direct_credentials(cli: &CliOptions, config: &AuthConfig) -> (r: Result<
    (String, String),
    String,
>)
    ensures
        pair_result(r) == direct_credentials(*cli, *config),
{
    if let (Some(id), Some(secret)) = (&cli.client_id, &cli.client_secret) {
        return validate_direct_credentials(id.clone(), secret.clone());
    }
    let id: &String = match &config.client_id {
        Some(id) => id,
        None => return Err(
            "client_id is required for direct mode. Provide via --client-id flag, config file, or ONSHAPE_MCP_AUTH__CLIENT_ID env var.".to_owned(),
        ),
    };
    let secret: &Secret = match &config.client_secret {
        Some(secret) => secret,
        None => return Err(
            "client_secret is required for direct mode. Provide via --client-secret flag, config file, or ONSHAPE_MCP_AUTH__CLIENT_SECRET env var.".to_owned(),
        ),
    };
    validate_direct_credentials(id.clone(), secret.expose().to_owned())
}

/// How a login goes.
#[derive(Debug, PartialEq, Eq)]
pub enum LoginMode {
    /// Through a proxy that holds the client secret.
    Proxy {
        /// The proxy.
        proxy_url: String,
    },
    /// With the user's own OAuth application.
    Direct {
        /// The client ID.
        client_id: String,
        /// The client secret.
        client_secret: String,
    },
}

/// The view of a [`LoginMode`].
pub enum LoginModeView {
    /// Through a proxy that holds the client secret.
    Proxy(Seq<char>),
    /// With the user's own OAuth application.
    Direct(Seq<char>, Seq<char>),
}

impl View for LoginMode {
    type V = LoginModeView;

    open spec fn view(&self) -> LoginModeView {
        match self {
            LoginMode::Proxy { proxy_url } => LoginModeView::Proxy(proxy_url@),
            LoginMode::Direct { client_id, client_secret } => LoginModeView::Direct(
                client_id@,
                client_secret@,
            ),
        }
    }
}

/// How a login goes, or what is missing for it.
pub open spec fn chosen_mode(
    proxy_url: Option<String>,
    cli: CliOptions,
    config: AuthConfig,
) -> Result<LoginModeView, Seq<char>> {
    match proxy_url {
        Some(proxy_url) => Ok(LoginModeView::Proxy(proxy_url@)),
        None => match direct_credentials(cli, config) {
            Ok(pair) => Ok(LoginModeView::Direct(pair.0, pair.1)),
            Err(message) => Err(message),
        },
    }
}

/// Chooses how a login goes: through a proxy if one is named, else directly.
pub fn login_mode(proxy_url: Option<String>, cli: &CliOptions, config: &AuthConfig) -> (r: Result<
    LoginMode,
    String,
>)
    ensures
        errors::result_view(r) == chosen_mode(proxy_url, *cli, *config),
        match proxy_url {
            Some(proxy_url) => r == Ok::<LoginMode, String>(LoginMode::Proxy { proxy_url }),
            None => match r {
                Ok(mode) => mode matches LoginMode::Direct { client_id, client_secret }
                    && direct_credentials(*cli, *config) == Ok::<
                    (Seq<char>, Seq<char>),
                    Seq<char>,
                >((client_id@, client_secret@)),
                Err(e) => direct_credentials(*cli, *config) == Err::<
                    (Seq<char>, Seq<char>),
                    Seq<char>,
                >(e@),
            },
        },
{
    match proxy_url {
        Some(proxy_url) => Ok(LoginMode::Proxy { proxy_url }),
        None => match resolve_direct_credentials(cli, config) {
            Ok((client_id, client_secret)) => Ok(LoginMode::Direct { client_id, client_secret }),
            Err(e) => Err(e),
        },
    }
}

// ---------------------------------------------------------------------------
// Overrides
// ---------------------------------------------------------------------------
/// An option as an entry of the `auth` section of the configuration, if it is given.
pub open spec fn entry(name: Seq<char>, value: Option<String>) -> Seq<(Seq<char>, Seq<char>)> {
    match value {
        Some(v) => seq![(name, v@)],
        None => Seq::empty(),
    }
}

/// The options as entries of the `auth` section of the configuration.
pub open spec fn auth_overrides(cli: CliOptions) -> Seq<(Seq<char>, Seq<char>)> {
    entry("access_key"@, cli.access_key) + entry("secret_key"@, cli.secret_key) + entry(
        "client_id"@,
        cli.client_id,
    ) + entry("client_secret"@, cli.client_secret) + entry("method"@, cli.auth_method)
}

fn push_entry(list: &mut Vec<(String, String)>, name: &str, value: &Option<String>)
    ensures
        outside::pair_chars(final(list)@) == outside::pair_chars(old(list)@) + entry(name@, *value),
{
    if let Some(v) = value {
        list.push((name.to_owned(), v.clone()));
    }
    proof {
        assert(outside::pair_chars(list@) =~= outside::pair_chars(old(list)@) + entry(
            name@,
            *value,
        ));
    }
}

/// The options as entries of the `auth` section of the configuration, which they override.
pub fn build_cli_overrides(cli: &CliOptions) -> (r: Vec<(String, String)>)
    ensures
        outside::pair_chars(r@) == auth_overrides(*cli),
{
    let mut list: Vec<(String, String)> = Vec::new();
    push_entry(&mut list, "access_key", &cli.access_key);
    push_entry(&mut list, "secret_key", &cli.secret_key);
    push_entry(&mut list, "client_id", &cli.client_id);
    push_entry(&mut list, "client_secret", &cli.client_secret);
    push_entry(&mut list, "method", &cli.auth_method);
    proof {
        assert(outside::pair_chars(list@) =~= auth_overrides(*cli));
    }
    list
}

/// Whether a path in the configuration leads to the authentication method, or below it.
pub fn names_auth_method(path: &Vec<String>) -> (r: bool)
    ensures
        r == (path@.len() >= 2 && path@[0]@ == "auth"@ && path@[1]@ == "method"@),
{
    path.len() >= 2 && same(path[0].as_str(), "auth") && same(path[1].as_str(), "method")
}

/// The options of the HTTP transport.
pub struct HttpOverrides {
    /// The address to listen on.
    pub host: Option<String>,
    /// The port to listen on.
    pub port: Option<u16>,
    /// The public URL of the server.
    pub public_url: Option<String>,
    /// The client ID of the operator's Onshape application.
    pub onshape_client_id: Option<String>,
    /// The client secret of the operator's Onshape application.
    pub onshape_client_secret: Option<String>,
    /// The users that are let in.
    pub allowed_users: Option<String>,
}

/// The settings of the HTTP transport that options can override, as a mathematical value.
pub struct ReachView {
    /// The address to listen on.
    pub host: Seq<char>,
    /// The port to listen on.
    pub port: u16,
    /// The public URL of the server.
    pub public_url: Option<Seq<char>>,
    /// The client ID of the operator's Onshape application.
    pub onshape_client_id: Option<Seq<char>>,
    /// The client secret of the operator's Onshape application.
    pub onshape_client_secret: Option<Seq<char>>,
}

/// The settings of the HTTP transport that options can override.
pub open spec fn reach_of(config: HttpTransportConfig) -> ReachView {
    ReachView {
        host: config.host@,
        port: config.port,
        public_url: text::opt_chars(config.public_url),
        onshape_client_id: text::opt_chars(config.onshape_client_id),
        onshape_client_secret: errors::option_view(config.onshape_client_secret),
    }
}

/// A setting with an option over it.
pub open spec fn over(option: Option<String>, configured: Option<Seq<char>>) -> Option<Seq<char>> {
    match option {
        Some(value) => Some(value@),
        None => configured,
    }
}

/// The settings with the options over them.
pub open spec fn overridden(configured: ReachView, overrides: HttpOverrides) -> ReachView {
    ReachView {
        host: match overrides.host {
            Some(host) => host@,
            None => configured.host,
        },
        port: match overrides.port {
            Some(port) => port,
            None => configured.port,
        },
        public_url: over(overrides.public_url, configured.public_url),
        onshape_client_id: over(overrides.onshape_client_id, configured.onshape_client_id),
        onshape_client_secret: over(
            overrides.onshape_client_secret,
            configured.onshape_client_secret,
        ),
    }
}

/// Lets the options of the HTTP transport override its settings, and gives the list of the users
/// that are let in, if the options have one. The rest of the settings stays.
pub fn apply_http_overrides(config: &mut HttpTransportConfig, overrides: HttpOverrides) -> (r:
    Option<Vec<AllowedUser>>)
    ensures
        reach_of(*final(config)) == overridden(reach_of(*old(config)), overrides),
        r is Some <==> overrides.allowed_users is Some,
        r matches Some(users) ==> users@.map_values(|u: AllowedUser| u@) == users_named(
            split(overrides.allowed_users->0@, ','),
        ),
        final(config).host == match overrides.host {
            Some(host) => host,
            None => old(config).host,
        },
        final(config).port == match overrides.port {
            Some(port) => port,
            None => old(config).port,
        },
        final(config).public_url == if overrides.public_url is Some {
            overrides.public_url
        } else {
            old(config).public_url
        },
        final(config).onshape_client_id == if overrides.onshape_client_id is Some {
            overrides.onshape_client_id
        } else {
            old(config).onshape_client_id
        },
        match overrides.onshape_client_secret {
            Some(secret) => final(config).onshape_client_secret matches Some(s) && s@ == secret@,
            None => final(config).onshape_client_secret == old(config).onshape_client_secret,
        },
        final(config).production == old(config).production,
        final(config).onshape_company_id == old(config).onshape_company_id,
        final(config).state_file == old(config).state_file,
        final(config).state_encryption_key == old(config).state_encryption_key,
        final(config).max_request_body_bytes == old(config).max_request_body_bytes,
        final(config).max_registered_clients == old(config).max_registered_clients,
        final(config).max_pending_authorizations == old(config).max_pending_authorizations,
{
    if let Some(host) = overrides.host {
        config.host = host;
    }
    if let Some(port) = overrides.port {
        config.port = port;
    }
    if let Some(public_url) = overrides.public_url {
        config.public_url = Some(public_url);
    }
    if let Some(id) = overrides.onshape_client_id {
        config.onshape_client_id = Some(id);
    }
    if let Some(secret) = overrides.onshape_client_secret {
        config.onshape_client_secret = Some(Secret::new(secret));
    }
    match overrides.allowed_users {
        Some(csv) => Some(parse_allowed_users_csv(csv.as_str())),
        None => None,
    }
}

// ---------------------------------------------------------------------------
// Users
// ---------------------------------------------------------------------------
/// The parts of a text between the occurrences of a separator.
pub open spec fn split(s: Seq<char>, separator: char) -> Seq<Seq<char>>
    decreases s.len(),
{
    if s.len() == 0 {
        seq![Seq::empty()]
    } else {
        let rest = split(s.drop_last(), separator);
        if s.last() == separator {
            rest.push(Seq::empty())
        } else {
            rest.update(rest.len() - 1, rest.last().push(s.last()))
        }
    }
}

fn split_text(s: &str, separator: char) -> (r: Vec<String>)
    ensures
        text::all_chars(r@) == split(s@, separator),
        r@.len() >= 1,
{
    let n: usize = s.unicode_len();
    let mut parts: Vec<String> = Vec::new();
    let mut start: usize = 0;
    let mut i: usize = 0;
    proof {
        assert(s@.take(0) =~= Seq::empty());
        assert(text::all_chars(parts@).push(s@.subrange(0, 0)) =~= seq![Seq::<char>::empty()]);
    }
    while i < n
        invariant
            start <= i <= n == s@.len(),
            split(s@.take(i as int), separator) == text::all_chars(parts@).push(
                s@.subrange(start as int, i as int),
            ),
        decreases n - i,
    {
        proof {
            assert(s@.take(i + 1).drop_last() =~= s@.take(i as int));
            assert(s@.take(i + 1).last() == s@[i as int]);
        }
        let ghost before = text::all_chars(parts@);
        let ghost open = s@.subrange(start as int, i as int);
        if s.get_char(i) == separator {
            parts.push(s.substring_char(start, i).to_owned());
            start = i + 1;
            proof {
                assert(text::all_chars(parts@) =~= before.push(open));
                assert(s@.subrange(start as int, i + 1) =~= Seq::empty());
            }
        } else {
            proof {
                let rest = before.push(open);
                assert(s@.subrange(start as int, i + 1) =~= open.push(s@[i as int]));
                assert(rest.update(rest.len() - 1, rest.last().push(s@[i as int])) =~= before.push(
                    open.push(s@[i as int]),
                ));
            }
        }
        i = i + 1;
    }
    let ghost before = text::all_chars(parts@);
    parts.push(s.substring_char(start, n).to_owned());
    proof {
        assert(s@.take(n as int) =~= s@);
        assert(text::all_chars(parts@) =~= before.push(s@.subrange(start as int, n as int)));
    }
    parts
}

/// An allowed user, as a mathematical value.
pub struct UserView {
    /// The Onshape user ID.
    pub id: Seq<char>,
    /// A name for the operator's own use.
    pub name: Option<Seq<char>>,
    /// How much of the Onshape API the user may reach.
    pub access: AccessLevel,
}

impl View for AllowedUser {
    type V = UserView;

    open spec fn view(&self) -> UserView {
        UserView { id: self.id@, name: text::opt_chars(self.name), access: self.access }
    }
}

/// The access that a word stands for, if it stands for one.
pub open spec fn access_named(word: Seq<char>) -> Option<AccessLevel> {
    if word == "read"@ {
        Some(AccessLevel::Read)
    } else if word == "write"@ {
        Some(AccessLevel::Write)
    } else if word == "full"@ {
        Some(AccessLevel::Full)
    } else {
        None
    }
}

/// The user that `id[:name[:access]]` names, if it names one: the ID is not blank, there are no
/// further parts, and the access, which is full unless it is given, is one of the three words.
pub open spec fn user_named(parts: Seq<Seq<char>>) -> Option<UserView> {
    let id = text::trimmed(parts[0]);
    let access = if parts.len() < 3 {
        Some(AccessLevel::Full)
    } else {
        access_named(text::trimmed(parts[2]))
    };
    if id.len() == 0 || parts.len() > 3 || access is None {
        None
    } else {
        Some(
            UserView {
                id,
                name: if parts.len() < 2 || text::trimmed(parts[1]).len() == 0 {
                    None
                } else {
                    Some(text::trimmed(parts[1]))
                },
                access: access->0,
            },
        )
    }
}

/// The users that the entries of a list name.
pub open spec fn users_named(entries: Seq<Seq<char>>) -> Seq<UserView>
    decreases entries.len(),
{
    if entries.len() == 0 {
        Seq::empty()
    } else {
        let rest = users_named(entries.drop_last());
        match user_named(split(entries.last(), ':')) {
            Some(user) => rest.push(user),
            None => rest,
        }
    }
}

fn parse_access(word: &str) -> (r: Option<AccessLevel>)
    ensures
        r == access_named(word@),
{
    if same(word, "read") {
        Some(AccessLevel::Read)
    } else if same(word, "write") {
        Some(AccessLevel::Write)
    } else if same(word, "full") {
        Some(AccessLevel::Full)
    } else {
        None
    }
}

fn parse_user(entry: &str) -> (r: Option<AllowedUser>)
    ensures
        errors::option_view(r) == user_named(split(entry@, ':')),
{
    let parts: Vec<String> = split_text(entry, ':');
    let ghost views = text::all_chars(parts@);
    let id: &str = trim(parts[0].as_str());
    if id.unicode_len() == 0 || parts.len() > 3 {
        return None;
    }
    let access: AccessLevel = if parts.len() < 3 {
        AccessLevel::Full
    } else {
        match parse_access(trim(parts[2].as_str())) {
            Some(access) => access,
            None => return None,
        }
    };
    let name: Option<String> = if parts.len() < 2 || blank(parts[1].as_str()) {
        None
    } else {
        Some(trim(parts[1].as_str()).to_owned())
    };
    Some(AllowedUser { id: id.to_owned(), name, access })
}

/// Reads a list of users: `id[:name[:read|write|full]]`, separated by commas. Entries that do not
/// have this form are left out.
pub fn parse_allowed_users_csv(csv: &str) -> (r: Vec<AllowedUser>)
    ensures
        r@.map_values(|u: AllowedUser| u@) == users_named(split(csv@, ',')),
{
    let entries: Vec<String> = split_text(csv, ',');
    let ghost all = text::all_chars(entries@);
    let mut users: Vec<AllowedUser> = Vec::new();
    let mut i: usize = 0;
    let ghost seen = |u: AllowedUser| u@;
    proof {
        assert(all.take(0) =~= Seq::empty());
        assert(users@.map_values(seen) =~= Seq::empty());
    }
    while i < entries.len()
        invariant
            i <= entries@.len(),
            all == text::all_chars(entries@),
            seen == (|u: AllowedUser| u@),
            users@.map_values(seen) == users_named(all.take(i as int)),
        decreases entries@.len() - i,
    {
        proof {
            assert(all.take(i + 1).drop_last() =~= all.take(i as int));
            assert(all.take(i + 1).last() == entries@[i as int]@);
        }
        let ghost before = users@.map_values(seen);
        if let Some(user) = parse_user(entries[i].as_str()) {
            users.push(user);
            proof {
                assert(users@.map_values(seen) =~= before.push(user@));
            }
        }
        i = i + 1;
    }
    proof {
        assert(all.take(all.len() as int) =~= all);
    }
    users
}

} // verus!
