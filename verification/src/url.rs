//! The rules on URLs: which ones a client may be sent back to, and how the server's own ones are
//! made from its public URL.

use vstd::prelude::*;
use vstd::string::*;

use crate::errors::{oauth_error, OAuthError, OAuthErrorView, BAD_REQUEST};
use crate::outside::{
    extend_path, parse_url, HostParts, ParsedUrl, UrlHost, UrlParts,
};
use crate::text::{join2, same};
use crate::{errors, outside, text};

verus! {

// ---------------------------------------------------------------------------
// Where a client may be sent back to
// ---------------------------------------------------------------------------
/// Whether a host is the machine itself: `localhost`, an address in 127.0.0.0/8, or `::1`.
pub open spec fn is_loopback(host: HostParts) -> bool {
    match host {
        HostParts::Missing => false,
        HostParts::Domain(name) => name == "localhost"@,
        HostParts::Ipv4(address) => address / 0x100_0000 == 127,
        HostParts::Ipv6(address) => address == 1,
    }
}

/// Whether a URL keeps what it is sent confidential: `https`, or `http` to the machine itself.
pub open spec fn is_confidential(parts: UrlParts) -> bool {
    parts.scheme == "https"@ || (parts.scheme == "http"@ && is_loopback(parts.host))
}

fn loopback(host: &UrlHost) -> (r: bool)
    ensures
        r == is_loopback(host@),
{
    match host {
        UrlHost::Missing => false,
        UrlHost::Domain(name) => same(name.as_str(), "localhost"),
        UrlHost::Ipv4(address) => *address / 0x100_0000 == 127,
        UrlHost::Ipv6(address) => *address == 1,
    }
}

/// Whether the URL keeps what it is sent confidential.
pub fn confidential(url: &ParsedUrl) -> (r: bool)
    ensures
        r == is_confidential(url@),
{
    same(url.scheme.as_str(), "https") || (same(url.scheme.as_str(), "http") && loopback(&url.host))
}

/// What is wrong with a redirect URI whose parts are given, if anything is.
pub open spec fn redirect_verdict(uri: Seq<char>, parts: Option<UrlParts>) -> Option<
    OAuthErrorView,
> {
    match parts {
        None => Some(
            errors::oauth_error_view(
                BAD_REQUEST,
                "invalid_client_metadata"@,
                "invalid redirect_uri: "@ + uri,
            ),
        ),
        Some(parts) => if is_confidential(parts) {
            None
        } else {
            Some(
                errors::oauth_error_view(
                    BAD_REQUEST,
                    "invalid_client_metadata"@,
                    "redirect_uri must use https:// or http:// with a loopback host: "@ + uri,
                ),
            )
        },
    }
}

/// What is wrong with a redirect URI, if anything is.
pub open spec fn redirect_error(uri: Seq<char>) -> Option<OAuthErrorView> {
    redirect_verdict(uri, outside::url_parts(uri))
}

/// What is wrong with the first redirect URI that something is wrong with.
pub open spec fn redirects_error(uris: Seq<Seq<char>>) -> Option<OAuthErrorView>
    decreases uris.len(),
{
    if uris.len() == 0 {
        None
    } else if redirect_error(uris[0]) is Some {
        redirect_error(uris[0])
    } else {
        redirects_error(uris.drop_first())
    }
}

/// Judges a redirect URI by its parts.
pub fn check_redirect(uri: &str, parsed: Option<ParsedUrl>) -> (r: Option<OAuthError>)
    ensures
        errors::option_view(r) == redirect_verdict(uri@, outside::opt_parts(parsed)),
{
    match parsed {
        None => Some(
            oauth_error(
                BAD_REQUEST,
                "invalid_client_metadata",
                join2("invalid redirect_uri: ", uri),
            ),
        ),
        Some(parsed) => if confidential(&parsed) {
            None
        } else {
            Some(
                oauth_error(
                    BAD_REQUEST,
                    "invalid_client_metadata",
                    join2(
                        "redirect_uri must use https:// or http:// with a loopback host: ",
                        uri,
                    ),
                ),
            )
        },
    }
}

/// Accepts redirect URIs that are URLs and use `https`, or `http` with a loopback host. The first
/// one that does not is named in the error.
pub fn validate_redirect_uris(uris: &Vec<String>) -> (r: Result<(), OAuthError>)
    ensures
        r is Ok <==> redirects_error(text::all_chars(uris@)) is None,
        r matches Err(e) ==> redirects_error(text::all_chars(uris@)) == Some(e@),
{
    let mut i: usize = 0;
    proof {
        assert(text::all_chars(uris@).skip(0) =~= text::all_chars(uris@));
    }
    while i < uris.len()
        invariant
            i <= uris@.len(),
            redirects_error(text::all_chars(uris@)) == redirects_error(text::all_chars(uris@).skip(i as int)),
        decreases uris@.len() - i,
    {
        proof {
            let rest = text::all_chars(uris@).skip(i as int);
            assert(rest[0] == uris@[i as int]@);
            assert(rest.drop_first() =~= text::all_chars(uris@).skip(i + 1));
        }
        if let Some(error) = check_redirect(uris[i].as_str(), parse_url(uris[i].as_str())) {
            return Err(error);
        }
        i = i + 1;
    }
    Ok(())
}

// ---------------------------------------------------------------------------
// The server's own URLs
// ---------------------------------------------------------------------------
/// The text of a URL without the slashes at the end of its path, of which the root keeps one.
pub open spec fn strip_slashes(text: Seq<char>, path: Seq<char>) -> Seq<char>
    decreases path.len(),
{
    if path.len() > 1 && path.last() == '/' && text.len() > 0 {
        strip_slashes(text.drop_last(), path.drop_last())
    } else {
        text
    }
}

/// The length of the longest path that the server adds to its public URL, that of the metadata of
/// the MCP endpoint.
pub const LONGEST_OWN_PATH: usize = 41;

/// Whether the server's own paths can be added to a URL: the offsets in a URL are 32 bits wide, and
/// its text has to stay within the machine's memory.
pub open spec fn takes_own_paths(text: Seq<char>) -> bool {
    &&& vstd::utf8::encode_utf8(outside::without_slash(text)).len() + LONGEST_OWN_PATH <= u32::MAX
    &&& vstd::utf8::encode_utf8(text).len() <= usize::MAX / 4
}

/// The form in which a public URL is kept, if it can be one: an `http` or `https` URL with a host,
/// without query and fragment, normalized, without slashes at the end of its path, and with room for
/// the server's own paths.
pub open spec fn public_form(text: Seq<char>) -> Option<Seq<char>> {
    match outside::url_parts(text) {
        None => None,
        Some(parts) => {
            let form = strip_slashes(parts.text, parts.path);
            if outside::is_base_url(form) && takes_own_paths(form) {
                Some(form)
            } else {
                None
            }
        },
    }
}

/// A public URL: `http` or `https`, with a host, without query and fragment.
pub struct PublicUrl {
    text: String,
}

impl View for PublicUrl {
    type V = Seq<char>;

    closed spec fn view(&self) -> Seq<char> {
        self.text@
    }
}

fn holds_char(s: &str, c: char) -> (r: bool)
    ensures
        r == s@.contains(c),
{
    let mut found: bool = false;
    for other in iter: s.chars()
        invariant
            iter.seq() == s@,
            found <==> exists|k: int| 0 <= k < iter.index() && s@[k] == c,
    {
        if other == c {
            found = true;
        }
    }
    found
}

fn ends_with_slash(s: &str) -> (r: bool)
    ensures
        r == (s@.len() > 0 && s@.last() == '/'),
{
    let n: usize = s.unicode_len();
    n > 0 && s.get_char(n - 1) == '/'
}

/// The text of a URL without the slashes at the end of its path.
pub fn stripped(text: &str, path: &str) -> (r: String)
    ensures
        r@ == strip_slashes(text@, path@),
{
    let n: usize = text.unicode_len();
    let m: usize = path.unicode_len();
    let mut k: usize = 0;
    proof {
        assert(text@.take(n as int) =~= text@);
        assert(path@.take(m as int) =~= path@);
    }
    while k < n && m - k > 1 && path.get_char(m - k - 1) == '/'
        invariant
            k <= n == text@.len(),
            k <= m == path@.len(),
            strip_slashes(text@, path@) == strip_slashes(text@.take(n - k), path@.take(m - k)),
        decreases n - k,
    {
        proof {
            assert(text@.take(n - k).drop_last() =~= text@.take(n - k - 1));
            assert(path@.take(m - k).drop_last() =~= path@.take(m - k - 1));
        }
        k = k + 1;
    }
    proof {
        assert(text@.subrange(0, n - k) =~= text@.take(n - k));
    }
    text.substring_char(0, n - k).to_owned()
}

/// Judges by its parts whether a text is a URL to which a path can be added.
pub fn check_base(text: &str, parsed: Option<ParsedUrl>) -> (r: bool)
    ensures
        r == outside::has_base_form(text@, outside::opt_parts(parsed)),
{
    if holds_char(text, '?') || holds_char(text, '#') {
        return false;
    }
    match parsed {
        None => false,
        Some(url) => {
            let web: bool = same(url.scheme.as_str(), "http") || same(url.scheme.as_str(), "https");
            let hosted: bool = !matches!(url.host, UrlHost::Missing);
            let rooted: bool = same(url.path.as_str(), "/");
            proof {
                reveal_strlit("/");
                assert("/"@ =~= seq!['/']);
            }
            same(url.text.as_str(), text) && web && hosted && (!ends_with_slash(text) || rooted)
        },
    }
}

/// Whether the server's own paths can be added to a URL.
pub fn has_path_room(text: &str) -> (r: bool)
    ensures
        r == takes_own_paths(text@),
{
    let bare: &str = if ends_with_slash(text) {
        text.substring_char(0, text.unicode_len() - 1)
    } else {
        text
    };
    proof {
        assert(bare@ =~= outside::without_slash(text@));
    }
    bare.as_bytes().len() as u128 + LONGEST_OWN_PATH as u128 <= u32::MAX as u128
        && text.as_bytes().len() <= usize::MAX / 4
}

impl PublicUrl {
    #[verifier::type_invariant]
    spec fn inv(self) -> bool {
        outside::is_base_url(self.text@) && takes_own_paths(self.text@)
    }

    /// Takes a text for a public URL if it can be one.
    pub fn parse(text: &str) -> (r: Option<PublicUrl>)
        ensures
            errors::option_view(r) == public_form(text@),
    {
        match parse_url(text) {
            None => None,
            Some(url) => {
                let form: String = stripped(url.text.as_str(), url.path.as_str());
                if check_base(form.as_str(), parse_url(form.as_str())) && has_path_room(
                    form.as_str(),
                ) {
                    Some(PublicUrl { text: form })
                } else {
                    None
                }
            },
        }
    }

    /// The URL as text.
    pub fn as_str(&self) -> (r: &str)
        ensures
            r@ == self@,
    {
        self.text.as_str()
    }

    /// A copy of the URL.
    pub fn duplicate(&self) -> (r: PublicUrl)
        ensures
            r@ == self@,
    {
        proof {
            use_type_invariant(self);
        }
        PublicUrl { text: self.text.clone() }
    }

    /// The URL with further segments behind its path.
    fn extended(&self, segments: &Vec<String>) -> (r: String)
        requires
            0 < segments@.len() <= 64,
            outside::slashed(text::all_chars(segments@)).len() <= LONGEST_OWN_PATH,
            forall|i: int|
                0 <= i < segments@.len() ==> outside::is_plain_segment(
                    (#[trigger] text::all_chars(segments@)[i]),
                ),
        ensures
            r@ == url_below(self@, text::all_chars(segments@)),
            outside::url_parts(r@) is Some,
    {
        proof {
            use_type_invariant(self);
        }
        extend_path(self.text.as_str(), segments)
    }

    /// The URL of the MCP endpoint, which is the resource that tokens are issued for.
    pub fn mcp(&self) -> (r: String)
        ensures
            r@ == mcp_url(self@),
    {
        let segments: Vec<String> = vec!["mcp".to_owned()];
        proof {
            lemma_plain_segments();
            assert(text::all_chars(segments@) =~= seq!["mcp"@]);
            lemma_path_of_one("mcp"@);
        }
        self.extended(&segments)
    }

    /// The URL of one of the endpoints below `/oauth`.
    fn below_oauth(&self, name: &str) -> (r: String)
        requires
            outside::is_plain_segment(name@),
            name@.len() <= 9,
        ensures
            r@ == oauth_url(self@, name@),
            outside::url_parts(r@) is Some,
    {
        let segments: Vec<String> = vec!["oauth".to_owned(), name.to_owned()];
        proof {
            lemma_plain_segments();
            assert(text::all_chars(segments@) =~= seq!["oauth"@, name@]);
            lemma_path_of_two("oauth"@, name@);
        }
        self.extended(&segments)
    }

    /// The URL of the authorization endpoint.
    pub fn authorize(&self) -> (r: String)
        ensures
            r@ == oauth_url(self@, "authorize"@),
    {
        proof {
            lemma_plain_segments();
        }
        self.below_oauth("authorize")
    }

    /// The URL that Onshape sends the browser back to.
    pub fn callback(&self) -> (r: String)
        ensures
            r@ == oauth_url(self@, "callback"@),
            outside::url_parts(r@) is Some,
    {
        proof {
            lemma_plain_segments();
        }
        self.below_oauth("callback")
    }

    /// The URL of the token endpoint.
    pub fn token(&self) -> (r: String)
        ensures
            r@ == oauth_url(self@, "token"@),
    {
        proof {
            lemma_plain_segments();
        }
        self.below_oauth("token")
    }

    /// The URL of the registration endpoint.
    pub fn register(&self) -> (r: String)
        ensures
            r@ == oauth_url(self@, "register"@),
    {
        proof {
            lemma_plain_segments();
        }
        self.below_oauth("register")
    }

    /// The URL of the metadata of the MCP endpoint.
    pub fn resource_metadata(&self) -> (r: String)
        ensures
            r@ == resource_metadata_url(self@),
    {
        let segments: Vec<String> = vec![
            ".well-known".to_owned(),
            "oauth-protected-resource".to_owned(),
            "mcp".to_owned(),
        ];
        proof {
            lemma_plain_segments();
            assert(text::all_chars(segments@) =~= seq![
                ".well-known"@,
                "oauth-protected-resource"@,
                "mcp"@,
            ]);
            lemma_path_of_three(".well-known"@, "oauth-protected-resource"@, "mcp"@);
        }
        self.extended(&segments)
    }
}

/// A URL with further segments behind its path.
pub open spec fn url_below(base: Seq<char>, segments: Seq<Seq<char>>) -> Seq<char> {
    outside::without_slash(base) + outside::slashed(segments)
}

/// The URL of the MCP endpoint.
pub open spec fn mcp_url(base: Seq<char>) -> Seq<char> {
    url_below(base, seq!["mcp"@])
}

/// The URL of an endpoint below `/oauth`.
pub open spec fn oauth_url(base: Seq<char>, name: Seq<char>) -> Seq<char> {
    url_below(base, seq!["oauth"@, name])
}

/// The URL of the metadata of the MCP endpoint.
pub open spec fn resource_metadata_url(base: Seq<char>) -> Seq<char> {
    url_below(base, seq![".well-known"@, "oauth-protected-resource"@, "mcp"@])
}

proof fn lemma_path_of_one(a: Seq<char>)
    ensures
        outside::slashed(seq![a]).len() == 1 + a.len(),
{
    assert(seq![a].drop_last() =~= Seq::empty());
    reveal_with_fuel(outside::slashed, 2);
}

proof fn lemma_path_of_two(a: Seq<char>, b: Seq<char>)
    ensures
        outside::slashed(seq![a, b]).len() == 2 + a.len() + b.len(),
{
    lemma_path_of_one(a);
    assert(seq![a, b].drop_last() =~= seq![a]);
}

proof fn lemma_path_of_three(a: Seq<char>, b: Seq<char>, c: Seq<char>)
    ensures
        outside::slashed(seq![a, b, c]).len() == 3 + a.len() + b.len() + c.len(),
{
    lemma_path_of_two(a, b);
    assert(seq![a, b, c].drop_last() =~= seq![a, b]);
}

proof fn lemma_plain_segments()
    ensures
        "mcp"@.len() == 3,
        "oauth"@.len() == 5,
        "authorize"@.len() == 9,
        "callback"@.len() == 8,
        "token"@.len() == 5,
        "register"@.len() == 8,
        ".well-known"@.len() == 11,
        "oauth-protected-resource"@.len() == 24,
        outside::is_plain_segment("mcp"@),
        outside::is_plain_segment("oauth"@),
        outside::is_plain_segment("authorize"@),
        outside::is_plain_segment("callback"@),
        outside::is_plain_segment("token"@),
        outside::is_plain_segment("register"@),
        outside::is_plain_segment(".well-known"@),
        outside::is_plain_segment("oauth-protected-resource"@),
{
    reveal_strlit("mcp");
    reveal_strlit("oauth");
    reveal_strlit("authorize");
    reveal_strlit("callback");
    reveal_strlit("token");
    reveal_strlit("register");
    reveal_strlit(".well-known");
    reveal_strlit("oauth-protected-resource");
    assert("mcp"@[0] != '.');
    assert("oauth"@[0] != '.');
    assert("authorize"@[0] != '.');
    assert("callback"@[0] != '.');
    assert("token"@[0] != '.');
    assert("register"@[0] != '.');
    assert(".well-known"@[1] != '.');
    assert("oauth-protected-resource"@[0] != '.');
}

} // verus!
