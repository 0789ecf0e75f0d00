//! The configuration.

use vstd::prelude::*;
use vstd::string::*;

use super::terms;
use crate::cli::CliOptions;
use crate::config::{AuthConfig, AuthInventory, AuthMethod, ResolvedView, TokenStatus};
use crate::time::{Duration, Timestamp};
use crate::{cli, config, duration, middleware, outside, text, time, url};

verus! {

/// On its own the server prefers OAuth with tokens over API keys, API keys over OAuth that waits
/// for tokens, and that over nothing.
pub proof fn law_auto_priorities(inventory: AuthInventory)
    ensures
        inventory.has_oauth() && inventory.has_tokens() ==> config::resolution(
            AuthMethod::Auto,
            inventory,
        ) is OAuthReady,
        !(inventory.has_oauth() && inventory.has_tokens()) && inventory.has_keys()
            ==> config::resolution(AuthMethod::Auto, inventory) is Basic,
        !inventory.has_keys() && inventory.has_oauth() && !inventory.has_tokens()
            ==> config::resolution(AuthMethod::Auto, inventory) is OAuthPending,
        !inventory.has_keys() && !inventory.has_oauth() ==> config::resolution(
            AuthMethod::Auto,
            inventory,
        ) is NotConfigured,
{
}

/// A configured method is never given up for another one.
pub proof fn law_configured_method_is_kept(inventory: AuthInventory)
    ensures
        config::resolution(AuthMethod::Basic, inventory) is Basic || config::resolution(
            AuthMethod::Basic,
            inventory,
        ) is NotConfigured,
        config::resolution(AuthMethod::OAuth, inventory) is OAuthReady || config::resolution(
            AuthMethod::OAuth,
            inventory,
        ) is OAuthPending || config::resolution(AuthMethod::OAuth, inventory) is NotConfigured,
{
}

/// Where nothing can be used, the method that was asked for is reported.
pub proof fn law_not_configured_names_method(method: AuthMethod, inventory: AuthInventory)
    requires
        config::resolution(method, inventory) is NotConfigured,
    ensures
        config::resolution(method, inventory) == ResolvedView::NotConfigured(
            method,
            config::missing_text(method, inventory),
        ),
{
}

/// The interval between validations is never below the minimum, is raised to it at most once, and
/// is left alone otherwise.
pub proof fn law_interval_is_clamped(interval: Duration)
    ensures
        !config::is_too_short(config::clamped(interval)),
        config::clamped(config::clamped(interval)) == config::clamped(interval),
        !config::is_too_short(interval) ==> config::clamped(interval) == interval,
{
}

proof fn lemma_trimmed_is_kept(s: Seq<char>)
    requires
        s.len() > 0,
        !text::is_white(s[0]),
        !text::is_white(s.last()),
    ensures
        text::trimmed(s) == s,
{
}

/// A number of seconds can be written with or without the suffix, and minutes and hours are sixty
/// and three thousand six hundred of them; where that does not fit, there is an error.
pub proof fn law_suffixes(digits: Seq<char>)
    requires
        digits.len() > 0,
        duration::all_digits(digits),
        duration::decimal_value(digits) <= u64::MAX,
    ensures
        ({
            let n = duration::decimal_value(digits);
            &&& duration::duration_seconds(digits) == Ok::<u64, Seq<char>>(n as u64)
            &&& duration::duration_seconds(digits.push('s')) == Ok::<u64, Seq<char>>(n as u64)
            &&& n * 60 <= u64::MAX ==> duration::duration_seconds(digits.push('m')) == Ok::<
                u64,
                Seq<char>,
            >((n * 60) as u64)
            &&& n * 60 > u64::MAX ==> duration::duration_seconds(digits.push('m')) is Err
            &&& n * 3600 <= u64::MAX ==> duration::duration_seconds(digits.push('h')) == Ok::<
                u64,
                Seq<char>,
            >((n * 3600) as u64)
            &&& n * 3600 > u64::MAX ==> duration::duration_seconds(digits.push('h')) is Err
        }),
{
    assert(duration::is_digit(digits[0]));
    assert(duration::is_digit(digits.last()));
    assert(duration::unsigned_part(digits) == digits);
    lemma_trimmed_is_kept(digits);
    assert(duration::number_of(digits) == Some(duration::decimal_value(digits) as u64));
    lemma_suffix(digits, 's');
    lemma_suffix(digits, 'm');
    lemma_suffix(digits, 'h');
}

proof fn lemma_suffix(digits: Seq<char>, suffix: char)
    requires
        digits.len() > 0,
        duration::all_digits(digits),
        suffix == 's' || suffix == 'm' || suffix == 'h',
    ensures
        duration::duration_seconds(digits.push(suffix)) == duration::suffixed_seconds(
            digits.push(suffix),
        ),
        digits.push(suffix).last() == suffix,
        text::trimmed(digits.push(suffix).drop_last()) == digits,
        duration::number_of(digits) is Some ==> duration::unsigned_part(digits) == digits,
{
    let t = digits.push(suffix);
    assert(duration::is_digit(digits[0]));
    assert(duration::is_digit(digits.last()));
    assert(t[0] == digits[0]);
    lemma_trimmed_is_kept(t);
    lemma_trimmed_is_kept(digits);
    assert(t.drop_last() =~= digits);
    assert(duration::unsigned_part(t) == t);
    assert(!duration::all_digits(t)) by {
        assert(!duration::is_digit(t[t.len() - 1]));
    }
    assert(duration::number_of(t) is None);
}

/// White space around a duration does not count.
pub proof fn law_white_space_does_not_count(s: Seq<char>)
    ensures
        duration::duration_seconds(text::trimmed(s)) == duration::duration_seconds(s),
{
    if !text::is_blank(s) {
        lemma_trim_ends(s);
        lemma_trimmed_is_kept(text::trimmed(s));
    }
}

proof fn lemma_trim_ends(s: Seq<char>)
    requires
        text::trimmed(s).len() > 0,
    ensures
        !text::is_white(text::trimmed(s)[0]),
        !text::is_white(text::trimmed(s).last()),
{
    lemma_skipped(s);
    lemma_dropped(text::skip_white(s));
}

proof fn lemma_skipped(s: Seq<char>)
    ensures
        text::skip_white(s).len() > 0 ==> !text::is_white(text::skip_white(s)[0]),
    decreases s.len(),
{
    if s.len() > 0 && text::is_white(s[0]) {
        lemma_skipped(s.drop_first());
    }
}

proof fn lemma_dropped(s: Seq<char>)
    ensures
        text::drop_white(s).len() > 0 ==> {
            &&& !text::is_white(text::drop_white(s).last())
            &&& text::drop_white(s)[0] == s[0]
        },
    decreases s.len(),
{
    if s.len() > 0 && text::is_white(s.last()) {
        lemma_dropped(s.drop_last());
    }
}

/// Which credentials are used follows from the method and from what there is. OAuth needs a client ID
/// and secret, or a proxy; API keys come in pairs; a method that is asked for excludes the other.
pub proof fn law_which_credentials_are_used(method: AuthMethod, inventory: AuthInventory)
    ensures
        ({
            let used = config::resolution(method, inventory);
            let client = inventory.has_client_id && inventory.has_client_secret;
            let oauth = method != AuthMethod::Basic && (client || inventory.has_proxy_url);
            let keys = method != AuthMethod::OAuth && inventory.has_access_key
                && inventory.has_secret_key;
            match inventory.token_status {
                TokenStatus::Present { expires_at, .. } => {
                    &&& oauth ==> used == ResolvedView::OAuthReady(expires_at)
                    &&& !oauth && keys ==> used is Basic
                    &&& !oauth && !keys ==> used is NotConfigured && used->NotConfigured_0
                        == method
                },
                TokenStatus::Absent => {
                    &&& keys ==> used is Basic
                    &&& !keys && oauth ==> used is OAuthPending
                    &&& !keys && !oauth ==> used is NotConfigured && used->NotConfigured_0
                        == method
                },
            }
        }),
{
}

/// Whoever has no usable credentials is told what is missing, and how to get it.
pub proof fn law_missing_credentials_are_named(inventory: AuthInventory)
    ensures
        ({
            let a = inventory.has_access_key;
            let k = inventory.has_secret_key;
            let i = inventory.has_client_id;
            let c = inventory.has_client_secret;
            let any = |missing: Seq<char>|
                "No complete credentials found. Missing: "@ + missing
                    + ". Configure Onshape API keys, or configure your own OAuth client_id + client_secret and run `onshape-mcp auth login`; a self-hosted OAuth proxy is optional and must be configured explicitly."@;
            let keys = if a {
                "secret_key"@
            } else if k {
                "access_key"@
            } else {
                "API keys (access_key + secret_key)"@
            };
            let client = if i {
                "client_secret"@
            } else if c {
                "client_id"@
            } else {
                "OAuth credentials (client_id + client_secret)"@
            };
            let auto = config::missing_text(AuthMethod::Auto, inventory);
            let basic = config::missing_text(AuthMethod::Basic, inventory);
            let oauth = config::missing_text(AuthMethod::OAuth, inventory);
            &&& !(a && k) && !(i && c) ==> auto == any(keys + ", "@ + client)
            &&& !(a && k) && i && c ==> auto == any(keys)
            &&& a && k && !(i && c) ==> auto == any(client)
            &&& a && k && i && c ==> auto == "No credentials configured"@
            &&& !a && !k ==> basic
                == "API keys are not configured. Set access_key + secret_key, or use direct OAuth with `onshape-mcp auth login`."@
            &&& !a && k ==> basic == "Incomplete credentials: access_key is not configured"@
            &&& a ==> basic == "Incomplete credentials: secret_key is not configured"@
            &&& inventory.has_proxy_url ==> oauth
                == "OAuth proxy configured but tokens are unavailable. Run `onshape-mcp auth login --proxy-url <self-hosted-proxy-url>`."@
            &&& !inventory.has_proxy_url && !i && !c ==> oauth
                == "OAuth is not configured. Set your own client_id + client_secret and run `onshape-mcp auth login`, or explicitly configure a self-hosted proxy URL."@
            &&& !inventory.has_proxy_url && !i && c ==> oauth
                == "OAuth is incomplete: client_id is not configured. Set your own client_id and run `onshape-mcp auth login`."@
            &&& !inventory.has_proxy_url && i ==> oauth
                == "OAuth is incomplete: client_secret is not configured. Set your own client_secret and run `onshape-mcp auth login`, or explicitly configure a self-hosted proxy URL."@
        }),
{
}

/// The report of missing credentials is the one for the method that was asked for.
pub proof fn law_report_is_for_the_method(method: AuthMethod, inventory: AuthInventory)
    requires
        config::resolution(method, inventory) is NotConfigured,
    ensures
        config::resolution(method, inventory)->NotConfigured_1 == config::missing_text(
            method,
            inventory,
        ),
{
}

/// A proxy counts if the configuration or the token file names one that is not blank.
pub proof fn law_blank_proxy_does_not_count(named: Option<String>, status: TokenStatus)
    ensures
        config::names_something(named) <==> named is Some && exists|i: int|
            0 <= i < named->0@.len() && !text::is_white(#[trigger] named->0@[i]),
        config::file_names_proxy(status) <==> (match status {
            TokenStatus::Present { proxy_url, .. } => config::names_something(proxy_url),
            TokenStatus::Absent => false,
        }),
{
    if named is Some {
        super::words::law_blank_text_is_white_space(named->0@);
    }
}

/// An interval of less than fifteen seconds is raised to fifteen, and any other is kept.
pub proof fn law_shortest_interval_is_fifteen_seconds(interval: Duration)
    ensures
        config::is_too_short(interval) <==> interval.secs < 15,
        interval.secs < 15 ==> config::clamped(interval) == (Duration { secs: 15, nanos: 0 }),
        interval.secs >= 15 ==> config::clamped(interval) == interval,
{
}

/// A proxy is accepted exactly if it is not blank and a URL that keeps secrets; otherwise the reason is
/// given.
pub proof fn law_proxy_is_accepted_exactly_if(value: Seq<char>)
    ensures
        ({
            let error = cli::proxy_error(value);
            let blank = forall|i: int| 0 <= i < value.len() ==> text::is_white(#[trigger] value[i]);
            let parts = outside::url_parts(value);
            &&& error is None <==> !blank && terms::may_be_sent_to(value)
            &&& blank ==> error == Some("proxy URL must not be blank"@)
            &&& !blank && parts is None ==> error == Some("proxy URL is not a valid URL"@)
            &&& !blank && parts is Some && !terms::may_be_sent_to(value) ==> error == Some(
                "proxy URL must use https://, or http:// with a loopback host"@,
            )
        }),
{
    super::words::law_blank_text_is_white_space(value);
}

/// A login without a proxy uses the client ID and secret of the options if both are given, else those
/// of the configuration, as they are, if neither is blank.
pub proof fn law_where_direct_credentials_come_from(given: CliOptions, configured: AuthConfig)
    ensures
        ({
            let found = cli::direct_credentials(given, configured);
            let by_options = given.client_id is Some && given.client_secret is Some;
            let complete = by_options || (configured.client_id is Some
                && configured.client_secret is Some);
            let id = if by_options {
                given.client_id->0@
            } else {
                configured.client_id->0@
            };
            let secret = if by_options {
                given.client_secret->0@
            } else {
                configured.client_secret->0@
            };
            &&& found is Ok <==> complete && !text::is_blank(id) && !text::is_blank(secret)
            &&& found matches Ok(pair) ==> pair.0 == id && pair.1 == secret
            &&& complete && text::is_blank(id) ==> found == Err::<
                (Seq<char>, Seq<char>),
                Seq<char>,
            >("client_id must not be blank"@)
            &&& complete && !text::is_blank(id) && text::is_blank(secret) ==> found == Err::<
                (Seq<char>, Seq<char>),
                Seq<char>,
            >("client_secret must not be blank"@)
            &&& !by_options && configured.client_id is None ==> found == Err::<
                (Seq<char>, Seq<char>),
                Seq<char>,
            >(
                "client_id is required for direct mode. Provide via --client-id flag, config file, or ONSHAPE_MCP_AUTH__CLIENT_ID env var."@,
            )
            &&& !by_options && configured.client_id is Some && configured.client_secret is None
                ==> found == Err::<(Seq<char>, Seq<char>), Seq<char>>(
                "client_secret is required for direct mode. Provide via --client-secret flag, config file, or ONSHAPE_MCP_AUTH__CLIENT_SECRET env var."@,
            )
        }),
{
}

/// Whether an option is given as a text.
pub open spec fn is_given(option: Option<String>, value: Seq<char>) -> bool {
    option matches Some(given) && given@ == value
}

/// The options override exactly the settings that they are given for, each with its own value.
pub proof fn law_options_override_their_settings(
    given: CliOptions,
    name: Seq<char>,
    value: Seq<char>,
)
    ensures
        cli::auth_overrides(given).contains((name, value)) <==> {
            ||| name == "access_key"@ && is_given(given.access_key, value)
            ||| name == "secret_key"@ && is_given(given.secret_key, value)
            ||| name == "client_id"@ && is_given(given.client_id, value)
            ||| name == "client_secret"@ && is_given(given.client_secret, value)
            ||| name == "method"@ && is_given(given.auth_method, value)
        },
{
    let a = cli::entry("access_key"@, given.access_key);
    let b = cli::entry("secret_key"@, given.secret_key);
    let c = cli::entry("client_id"@, given.client_id);
    let d = cli::entry("client_secret"@, given.client_secret);
    let e = cli::entry("method"@, given.auth_method);
    let pair = (name, value);
    lemma_entry("access_key"@, given.access_key, pair);
    lemma_entry("secret_key"@, given.secret_key, pair);
    lemma_entry("client_id"@, given.client_id, pair);
    lemma_entry("client_secret"@, given.client_secret, pair);
    lemma_entry("method"@, given.auth_method, pair);
    lemma_either(a, b, pair);
    lemma_either(a + b, c, pair);
    lemma_either(a + b + c, d, pair);
    lemma_either(a + b + c + d, e, pair);
}

proof fn lemma_entry(name: Seq<char>, option: Option<String>, pair: (Seq<char>, Seq<char>))
    ensures
        cli::entry(name, option).contains(pair) <==> pair.0 == name && is_given(option, pair.1),
{
    if option is Some {
        assert(cli::entry(name, option)[0] == (name, option->0@));
    }
}

proof fn lemma_either(
    left: Seq<(Seq<char>, Seq<char>)>,
    right: Seq<(Seq<char>, Seq<char>)>,
    pair: (Seq<char>, Seq<char>),
)
    ensures
        (left + right).contains(pair) <==> left.contains(pair) || right.contains(pair),
{
    let both = left + right;
    if left.contains(pair) {
        let i = choose|i: int| 0 <= i < left.len() && left[i] == pair;
        assert(both[i] == pair);
    }
    if right.contains(pair) {
        let i = choose|i: int| 0 <= i < right.len() && right[i] == pair;
        assert(both[left.len() + i] == pair);
    }
    if both.contains(pair) {
        let i = choose|i: int| 0 <= i < both.len() && both[i] == pair;
        if i < left.len() {
            assert(left[i] == pair);
        } else {
            assert(right[i - left.len()] == pair);
        }
    }
}

/// Something that lives for a number of seconds expires so many seconds from now, if the number is
/// known and no larger than 9223372036854775, and that can be shown up to the end of the calendar.
pub proof fn law_when_tokens_expire(now: Timestamp, lifetime: Option<u64>)
    ensures
        time::shows_expiry(now, lifetime) <==> (lifetime matches Some(secs) ==> secs
            > 9_223_372_036_854_775 || now.secs + secs <= 8_210_266_876_799),
        time::shows_expiry(now, lifetime) ==> terms::runs_out(
            time::expiry_of(now, lifetime),
            now,
            lifetime,
        ),
{
}

/// The slashes at the end of a path are taken off, but for the one of the root; nothing else is.
pub proof fn law_slashes_are_taken_off(head: Seq<char>, path: Seq<char>) -> (kept: int)
    requires
        path.len() > 0,
    ensures
        0 < kept <= path.len(),
        url::strip_slashes(head + path, path) == head + path.take(kept),
        forall|i: int| kept <= i < path.len() ==> #[trigger] path[i] == '/',
        kept > 1 ==> path[kept - 1] != '/',
    decreases path.len(),
{
    if path.len() > 1 && path.last() == '/' {
        let shorter = path.drop_last();
        assert((head + path).drop_last() =~= head + shorter);
        let kept = law_slashes_are_taken_off(head, shorter);
        assert(path.take(kept) =~= shorter.take(kept));
        assert forall|i: int| kept <= i < path.len() implies #[trigger] path[i] == '/' by {
            if i < shorter.len() {
                assert(shorter[i] == path[i]);
            }
        }
        kept
    } else {
        assert(path.take(path.len() as int) =~= path);
        path.len() as int
    }
}

/// A public URL is accepted exactly if its form without the slashes at the end is a URL in normal form,
/// of `http` or `https`, with a host, without query and fragment, and with room for the server's paths.
pub proof fn law_which_public_urls_are_accepted(text: Seq<char>)
    ensures
        ({
            let form = url::public_form(text);
            let parts = outside::url_parts(text)->0;
            let kept = url::strip_slashes(parts.text, parts.path);
            let again = outside::url_parts(kept)->0;
            &&& form matches Some(f) ==> f == kept
            &&& form is Some <==> {
                &&& outside::url_parts(text) is Some
                &&& outside::url_parts(kept) is Some
                &&& again.text == kept
                &&& again.scheme == "http"@ || again.scheme == "https"@
                &&& !(again.host is Missing)
                &&& !kept.contains('?') && !kept.contains('#')
                &&& kept.len() > 0 && kept.last() == '/' ==> again.path == seq!['/']
                &&& vstd::utf8::encode_utf8(
                    if kept.len() > 0 && kept.last() == '/' {
                        kept.drop_last()
                    } else {
                        kept
                    },
                ).len() + 41 <= 0xffff_ffff
                &&& vstd::utf8::encode_utf8(kept).len() <= usize::MAX / 4
            }
        }),
{
}

/// Every response forbids caching, sniffing, framing, referrers and active content.
pub proof fn law_responses_are_hardened(name: Seq<char>, value: Seq<char>)
    ensures
        middleware::hardening_headers().contains((name, value)) <==> {
            ||| name == "cache-control"@ && value == "no-store"@
            ||| name == "x-content-type-options"@ && value == "nosniff"@
            ||| name == "x-frame-options"@ && value == "DENY"@
            ||| name == "referrer-policy"@ && value == "no-referrer"@
            ||| name == "content-security-policy"@ && value
                == "default-src 'none'; frame-ancestors 'none'"@
        },
{
    let all = middleware::hardening_headers();
    assert(all[0] == ("cache-control"@, "no-store"@));
    assert(all[1] == ("x-content-type-options"@, "nosniff"@));
    assert(all[2] == ("x-frame-options"@, "DENY"@));
    assert(all[3] == ("referrer-policy"@, "no-referrer"@));
    assert(all[4] == (
        "content-security-policy"@,
        "default-src 'none'; frame-ancestors 'none'"@,
    ));
}

/// The stock of credentials is what is configured; a proxy counts if the configuration or the token
/// file names one.
pub proof fn law_stock_is_what_is_configured(configured: AuthConfig, status: TokenStatus)
    ensures
        ({
            let stock = config::inventory_of(configured, status);
            &&& stock.has_access_key <==> configured.access_key is Some
            &&& stock.has_secret_key <==> configured.secret_key is Some
            &&& stock.has_client_id <==> configured.client_id is Some
            &&& stock.has_client_secret <==> configured.client_secret is Some
            &&& stock.has_proxy_url <==> config::names_something(configured.proxy_url)
                || config::file_names_proxy(status)
            &&& stock.token_status == status
        }),
{
}

/// A number in the configuration counts seconds and must not be negative; a text is read as one.
pub proof fn law_numbers_count_seconds(value: duration::DurationValue)
    ensures
        match value {
            duration::DurationValue::Unsigned(secs) => duration::value_seconds(value) == Ok::<
                u64,
                Seq<char>,
            >(secs),
            duration::DurationValue::Signed(secs) => {
                &&& secs >= 0 ==> duration::value_seconds(value) is Ok && duration::value_seconds(
                    value,
                )->Ok_0 == secs
                &&& secs < 0 ==> duration::value_seconds(value) == Err::<u64, Seq<char>>(
                    "duration must be non-negative"@,
                )
            },
            duration::DurationValue::Text(s) => duration::value_seconds(value)
                == duration::duration_seconds(s@),
        },
{
}

/// A login goes through the proxy that is named, and directly only if none is.
pub proof fn law_named_proxy_is_used(
    proxy_url: Option<String>,
    given: CliOptions,
    configured: AuthConfig,
)
    ensures
        ({
            let mode = cli::chosen_mode(proxy_url, given, configured);
            let direct = cli::direct_credentials(given, configured);
            &&& proxy_url matches Some(proxy) ==> mode == Ok::<cli::LoginModeView, Seq<char>>(
                cli::LoginModeView::Proxy(proxy@),
            )
            &&& proxy_url is None && direct is Ok ==> mode == Ok::<cli::LoginModeView, Seq<char>>(
                cli::LoginModeView::Direct(direct->Ok_0.0, direct->Ok_0.1),
            )
            &&& proxy_url is None && direct is Err ==> mode == Err::<
                cli::LoginModeView,
                Seq<char>,
            >(direct->Err_0)
        }),
{
}

/// Whether an option that is given counts, and the setting otherwise.
pub open spec fn counts(
    option: Option<String>,
    configured: Option<Seq<char>>,
    used: Option<Seq<char>>,
) -> bool {
    (option matches Some(value) ==> used == Some(value@)) && (option is None ==> used == configured)
}

/// Every option of the HTTP transport that is given counts, whatever the others are, and where none is
/// given the setting does. It does not matter how often the options are applied.
pub proof fn law_every_option_counts_on_its_own(configured: cli::ReachView, given: cli::HttpOverrides)
    ensures
        ({
            let used = cli::overridden(configured, given);
            &&& given.host matches Some(host) ==> used.host == host@
            &&& given.host is None ==> used.host == configured.host
            &&& given.port matches Some(port) ==> used.port == port
            &&& given.port is None ==> used.port == configured.port
            &&& counts(given.public_url, configured.public_url, used.public_url)
            &&& counts(given.onshape_client_id, configured.onshape_client_id, used.onshape_client_id)
            &&& counts(
                given.onshape_client_secret,
                configured.onshape_client_secret,
                used.onshape_client_secret,
            )
            &&& cli::overridden(used, given) == used
        }),
{
}

/// The settings of the HTTP transport are read as they stand.
pub proof fn law_settings_are_read_as_they_stand(c: config::HttpTransportConfig)
    ensures
        cli::reach_of(c).host == c.host@,
        cli::reach_of(c).port == c.port,
        super::readings::reads(c.public_url, cli::reach_of(c).public_url),
        super::readings::reads(c.onshape_client_id, cli::reach_of(c).onshape_client_id),
        cli::reach_of(c).onshape_client_secret is Some <==> c.onshape_client_secret is Some,
        c.onshape_client_secret matches Some(secret) ==> cli::reach_of(c).onshape_client_secret
            == Some(secret@),
{
}

} // verus!
