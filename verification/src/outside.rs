//! The calls into other crates. Each function here is believed, not proved: its contract says
//! what the crate's documentation and source promise of the call.

use vstd::prelude::*;

use aes_gcm::aead::{Aead, Payload};
use aes_gcm::{Aes256Gcm, KeyInit, Nonce};
use base64::Engine;
use oauth2::basic::BasicClient;
use oauth2::{
    AuthUrl, ClientId, CsrfToken, PkceCodeChallenge, PkceCodeVerifier, RedirectUrl, Scope,
};
use rand::RngExt;
use sha2::Digest;
use subtle::ConstantTimeEq;

use crate::time::{Timestamp, LAST_SECOND};
use crate::{encoding, text};

verus! {

// ---------------------------------------------------------------------------
// Digests, encodings, comparison
// ---------------------------------------------------------------------------
/// The SHA-256 digest of a message.
pub uninterp spec fn sha256_digest(message: Seq<u8>) -> Seq<u8>;

/// Calls `sha2::Sha256::digest`: the digest of the message, 32 bytes long.
#[verifier::external_body]
pub(crate) fn sha256(message: &[u8]) -> (r: Vec<u8>)
    ensures
        r@ == sha256_digest(message@),
        r@.len() == 32,
{
    sha2::Sha256::digest(message).to_vec()
}

/// Calls `base64`'s `URL_SAFE_NO_PAD.encode`: the unpadded text of the bytes in the URL-safe
/// alphabet.
#[verifier::external_body]
pub(crate) fn base64url(bytes: &[u8]) -> (r: String)
    ensures
        r@ == encoding::base64url_text(bytes@),
{
    base64::engine::general_purpose::URL_SAFE_NO_PAD.encode(bytes)
}

/// Calls `base64`'s `STANDARD.decode`: the bytes whose padded standard base64 text it is, or
/// nothing where it is the text of no bytes. Padding must be complete, and no bits may be left over.
#[verifier::external_body]
pub(crate) fn base64_decode(text: &str) -> (r: Option<Vec<u8>>)
    ensures
        r matches Some(bytes) ==> text@ == encoding::base64_text(bytes@),
        r is None ==> forall|bytes: Seq<u8>| text@ != #[trigger] encoding::base64_text(bytes),
{
    base64::engine::general_purpose::STANDARD.decode(text).ok()
}

/// The contents of an optional byte string.
pub open spec fn opt_bytes(o: Option<Vec<u8>>) -> Option<Seq<u8>> {
    match o {
        Some(v) => Some(v@),
        None => None,
    }
}

/// Calls `subtle`'s `ct_ne` on two byte strings: whether they differ, in length or in a byte.
/// That the time it takes does not depend on the bytes is not stated.
#[verifier::external_body]
pub(crate) fn bytes_differ(a: &[u8], b: &[u8]) -> (r: bool)
    ensures
        r == (a@ != b@),
{
    a.ct_ne(b).into()
}

// ---------------------------------------------------------------------------
// Authenticated encryption
// ---------------------------------------------------------------------------
/// What AES-256-GCM makes of a message: the ciphertext and the 16-byte tag behind it.
pub uninterp spec fn gcm_sealed(
    key: Seq<u8>,
    nonce: Seq<u8>,
    aad: Seq<u8>,
    message: Seq<u8>,
) -> Seq<u8>;

/// The message that AES-256-GCM recovers from a ciphertext with its tag, if the tag fits.
pub uninterp spec fn gcm_opened(
    key: Seq<u8>,
    nonce: Seq<u8>,
    aad: Seq<u8>,
    sealed: Seq<u8>,
) -> Option<Seq<u8>>;

/// The longest message that the cipher's block counter covers.
pub const GCM_MAX_MESSAGE: u64 = 68_719_476_704;

/// The length of the tag.
pub const GCM_TAG_BYTES: usize = 16;

/// Calls `aes_gcm::Aes256Gcm::encrypt`: the message sealed under key, nonce and associated
/// data, 16 bytes longer than the message; `decrypt` gives the message back. On messages within
/// the limit `encrypt` does not fail.
#[verifier::external_body]
pub(crate) fn gcm_seal(key: &[u8; 32], nonce: &[u8; 12], aad: &[u8], message: &[u8]) -> (r: Vec<
    u8,
>)
    requires
        message@.len() <= GCM_MAX_MESSAGE,
        aad@.len() <= GCM_MAX_MESSAGE,
    ensures
        r@ == gcm_sealed(key@, nonce@, aad@, message@),
        r@.len() == message@.len() + GCM_TAG_BYTES,
        gcm_opened(key@, nonce@, aad@, r@) == Some(message@),
{
    Aes256Gcm::new(key.into()).encrypt(
        Nonce::from_slice(nonce),
        Payload { msg: message, aad },
    ).expect("a message within the limit can be encrypted")
}

/// Calls `aes_gcm::Aes256Gcm::decrypt`: the message, if the tag fits the ciphertext and the
/// associated data, and nothing otherwise. What it opens is what `encrypt` makes of the message.
#[verifier::external_body]
pub(crate) fn gcm_open(key: &[u8; 32], nonce: &[u8; 12], aad: &[u8], sealed: &[u8]) -> (r: Option<
    Vec<u8>,
>)
    requires
        sealed@.len() <= GCM_MAX_MESSAGE + GCM_TAG_BYTES,
        aad@.len() <= GCM_MAX_MESSAGE,
    ensures
        opt_bytes(r) == gcm_opened(key@, nonce@, aad@, sealed@),
        r matches Some(m) ==> sealed@ == gcm_sealed(key@, nonce@, aad@, m@) && sealed@.len()
            == m@.len() + GCM_TAG_BYTES,
{
    Aes256Gcm::new(key.into()).decrypt(
        Nonce::from_slice(nonce),
        Payload { msg: sealed, aad },
    ).ok()
}

// ---------------------------------------------------------------------------
// Chance and the clock
// ---------------------------------------------------------------------------
/// Calls `fill` of `rand`'s thread-local generator: as many bytes as asked for. Which bytes come
/// is left to chance.
#[verifier::external_body]
pub(crate) fn random_bytes(count: usize) -> (r: Vec<u8>)
    requires
        count <= usize::MAX / 4,
    ensures
        r@.len() == count,
{
    let mut bytes = vec![0u8; count];
    rand::rng().fill(&mut bytes[..]);
    bytes
}

/// Calls `chrono::Utc::now`: a point in time from the epoch on that the calendar can show, with
/// less than a second of nanoseconds. Which one is up to the machine's clock.
#[verifier::external_body]
pub(crate) fn current_time() -> (r: Timestamp)
    ensures
        0 <= r.secs <= LAST_SECOND,
        r.nanos < 1_000_000_000,
{
    let now = chrono::Utc::now();
    Timestamp { secs: now.timestamp(), nanos: now.timestamp_subsec_nanos() }
}

// ---------------------------------------------------------------------------
// URLs
// ---------------------------------------------------------------------------
/// The host of a URL.
pub enum UrlHost {
    /// The URL has no host.
    Missing,
    /// A domain name.
    Domain(String),
    /// An IPv4 address, as a number in network order.
    Ipv4(u32),
    /// An IPv6 address, as a number in network order.
    Ipv6(u128),
}

/// The host of a URL, as a mathematical value.
pub enum HostParts {
    /// The URL has no host.
    Missing,
    /// A domain name.
    Domain(Seq<char>),
    /// An IPv4 address, as a number in network order.
    Ipv4(u32),
    /// An IPv6 address, as a number in network order.
    Ipv6(u128),
}

impl View for UrlHost {
    type V = HostParts;

    open spec fn view(&self) -> HostParts {
        match self {
            UrlHost::Missing => HostParts::Missing,
            UrlHost::Domain(d) => HostParts::Domain(d@),
            UrlHost::Ipv4(a) => HostParts::Ipv4(*a),
            UrlHost::Ipv6(a) => HostParts::Ipv6(*a),
        }
    }
}

/// What the server reads of a parsed URL.
pub struct ParsedUrl {
    /// The URL in its normal form.
    pub text: String,
    /// The scheme, in lower case.
    pub scheme: String,
    /// The host.
    pub host: UrlHost,
    /// The path.
    pub path: String,
}

/// A parsed URL, as a mathematical value.
pub struct UrlParts {
    /// The URL in its normal form.
    pub text: Seq<char>,
    /// The scheme, in lower case.
    pub scheme: Seq<char>,
    /// The host.
    pub host: HostParts,
    /// The path.
    pub path: Seq<char>,
}

impl View for ParsedUrl {
    type V = UrlParts;

    open spec fn view(&self) -> UrlParts {
        UrlParts {
            text: self.text@,
            scheme: self.scheme@,
            host: self.host@,
            path: self.path@,
        }
    }
}

/// The view of an optional parsed URL.
pub open spec fn opt_parts(o: Option<ParsedUrl>) -> Option<UrlParts> {
    match o {
        Some(u) => Some(u@),
        None => None,
    }
}

/// What a text is as an absolute URL, if it is one.
pub uninterp spec fn url_parts(text: Seq<char>) -> Option<UrlParts>;

/// Calls `url::Url::parse` and reads the result through `as_str`, `scheme`, `host` and `path`:
/// the parts of the URL, or nothing where the text is no absolute URL.
#[verifier::external_body]
pub(crate) fn parse_url(text: &str) -> (r: Option<ParsedUrl>)
    ensures
        opt_parts(r) == url_parts(text@),
{
    let url = url::Url::parse(text).ok()?;
    let host = match url.host() {
        None => UrlHost::Missing,
        Some(url::Host::Domain(domain)) => UrlHost::Domain(domain.to_string()),
        Some(url::Host::Ipv4(address)) => UrlHost::Ipv4(u32::from(address)),
        Some(url::Host::Ipv6(address)) => UrlHost::Ipv6(u128::from(address)),
    };
    Some(
        ParsedUrl {
            text: url.as_str().to_string(),
            scheme: url.scheme().to_string(),
            host,
            path: url.path().to_string(),
        },
    )
}

/// The longest endpoint for which an authorization request is made. The offsets in a URL are 32 bits
/// wide, and a character can take many bytes in it.
pub const URL_MAX_CHARS: usize = 0x03ff_ffff;

/// Whether a text with these parts is an `http` or `https` URL in normal form, with a host, without
/// query and fragment, and with no slash at the end of its path but that of the root.
pub open spec fn has_base_form(text: Seq<char>, parts: Option<UrlParts>) -> bool {
    &&& !text.contains('?')
    &&& !text.contains('#')
    &&& parts matches Some(parts) && {
        &&& parts.text == text
        &&& parts.scheme == "http"@ || parts.scheme == "https"@
        &&& parts.host !is Missing
        &&& text.len() > 0 && text.last() == '/' ==> parts.path == seq!['/']
    }
}

/// Whether a text is a URL to which a path can be added.
pub open spec fn is_base_url(text: Seq<char>) -> bool {
    has_base_form(text, url_parts(text))
}

/// Whether a text can stand as a segment of a path as it is: lower-case letters, hyphens and
/// dots, and not dots alone.
pub open spec fn is_plain_segment(segment: Seq<char>) -> bool {
    &&& segment.len() <= 64
    &&& forall|i: int|
        0 <= i < segment.len() ==> ('a' <= #[trigger] segment[i] && segment[i] <= 'z')
            || segment[i] == '-' || segment[i] == '.'
    &&& exists|i: int| 0 <= i < segment.len() && #[trigger] segment[i] != '.'
}

/// The text without the slash at its end, if it has one there.
pub open spec fn without_slash(text: Seq<char>) -> Seq<char> {
    if text.len() > 0 && text.last() == '/' {
        text.drop_last()
    } else {
        text
    }
}

/// The segments, each behind a slash.
pub open spec fn slashed(segments: Seq<Seq<char>>) -> Seq<char>
    decreases segments.len(),
{
    if segments.len() == 0 {
        Seq::empty()
    } else {
        slashed(segments.drop_last()) + seq!['/'] + segments.last()
    }
}

/// Calls `extend` on `url::Url::path_segments_mut`: the segments stand behind the path of the
/// base, each behind one slash, and nothing else of the URL changes. The result is a URL again. The
/// offsets in a URL are 32 bits wide.
#[verifier::external_body]
pub(crate) fn extend_path(base: &str, segments: &Vec<String>) -> (r: String)
    requires
        is_base_url(base@),
        vstd::utf8::encode_utf8(base@).len() <= usize::MAX / 4,
        vstd::utf8::encode_utf8(without_slash(base@)).len() + slashed(
            text::all_chars(segments@),
        ).len() <= u32::MAX,
        0 < segments@.len() <= 64,
        forall|i: int|
            0 <= i < segments@.len() ==> is_plain_segment((#[trigger] text::all_chars(segments@)[i])),
    ensures
        r@ == without_slash(base@) + slashed(text::all_chars(segments@)),
        url_parts(r@) is Some,
{
    let mut url = url::Url::parse(base).expect("the base is a URL");
    url.path_segments_mut().expect("a URL with a host has a path").extend(segments);
    url.into()
}

/// The view of a call's outcome: a text, or the text of its error.
pub open spec fn outcome(r: Result<String, String>) -> Result<Seq<char>, Seq<char>> {
    match r {
        Ok(s) => Ok(s@),
        Err(e) => Err(e@),
    }
}

/// The view of a list of pairs of texts.
pub open spec fn pair_chars(v: Seq<(String, String)>) -> Seq<(Seq<char>, Seq<char>)> {
    v.map_values(|p: (String, String)| (p.0@, p.1@))
}

/// Whether a byte takes one byte in form encoding: letters, digits, `*`, `-`, `.`, `_`, and the space,
/// which becomes a plus sign. The others take three.
pub open spec fn is_form_byte(b: u8) -> bool {
    ||| 0x30 <= b <= 0x39
    ||| 0x41 <= b <= 0x5a
    ||| 0x61 <= b <= 0x7a
    ||| b == 0x20 || b == 0x2a || b == 0x2d || b == 0x2e || b == 0x5f
}

/// How many bytes some bytes take in form encoding.
pub open spec fn form_len(bytes: Seq<u8>) -> nat
    decreases bytes.len(),
{
    if bytes.len() == 0 {
        0
    } else {
        form_len(bytes.drop_last()) + (if is_form_byte(bytes.last()) {
            1nat
        } else {
            3nat
        })
    }
}

/// How many bytes pairs take in a query, each with its equals sign and a separator.
pub open spec fn query_len(pairs: Seq<(Seq<char>, Seq<char>)>) -> nat
    decreases pairs.len(),
{
    if pairs.len() == 0 {
        0
    } else {
        query_len(pairs.drop_last()) + form_len(vstd::utf8::encode_utf8(pairs.last().0)) + form_len(
            vstd::utf8::encode_utf8(pairs.last().1),
        ) + 2
    }
}

/// Where the fragment of a URL begins, which is at its end if it has none.
pub open spec fn fragment_start(text: Seq<u8>) -> nat
    decreases text.len(),
{
    if text.len() == 0 || text[0] == 0x23 {
        0
    } else {
        1 + fragment_start(text.drop_first())
    }
}

/// Whether so many bytes of pairs can be added to the query of a URL: the query, and the fragment
/// behind it, begin at an offset of 32 bits, and the text stays within the machine's memory.
pub open spec fn has_room(text: Seq<u8>, added: nat) -> bool {
    &&& fragment_start(text) <= u32::MAX
    &&& fragment_start(text) < text.len() ==> fragment_start(text) + 1 + added <= u32::MAX
    &&& text.len() + 1 + added <= usize::MAX / 4
}

/// A URL with the pairs appended to its query, or what is wrong with the URL.
pub uninterp spec fn url_with_query(
    base: Seq<char>,
    pairs: Seq<(Seq<char>, Seq<char>)>,
) -> Result<Seq<char>, Seq<char>>;

/// Calls `extend_pairs` on `url::Url::query_pairs_mut`: the URL with the pairs at the end of its
/// query in their order, form-encoded. It fails exactly where `url::Url::parse` does, with that
/// error's text. The offsets in a URL are 32 bits wide, that of the fragment among them.
#[verifier::external_body]
pub(crate) fn append_query(base: &str, pairs: &Vec<(String, String)>) -> (r: Result<
    String,
    String,
>)
    requires
        url_parts(base@) matches Some(parts) ==> has_room(
            vstd::utf8::encode_utf8(parts.text),
            query_len(pair_chars(pairs@)),
        ),
    ensures
        outcome(r) == url_with_query(base@, pair_chars(pairs@)),
        r is Ok <==> url_parts(base@) is Some,
{
    let mut url = url::Url::parse(base).map_err(|error| error.to_string())?;
    url.query_pairs_mut().extend_pairs(pairs);
    Ok(url.into())
}

// ---------------------------------------------------------------------------
// The client side of OAuth
// ---------------------------------------------------------------------------
/// Calls `oauth2::PkceCodeChallenge::new_random_sha256` and takes the verifier: 43 characters
/// that are one byte long each. Which ones is left to chance.
#[verifier::external_body]
pub(crate) fn random_pkce_verifier() -> (r: String)
    ensures
        r@.len() == 43,
        vstd::utf8::encode_utf8(r@).len() == 43,
{
    PkceCodeChallenge::new_random_sha256().1.into_secret()
}

/// Calls `oauth2::CsrfToken::new_random`: a text of 22 characters. Which ones is left to chance.
#[verifier::external_body]
pub(crate) fn random_csrf_token() -> (r: String)
    ensures
        r@.len() == 22,
{
    CsrfToken::new_random().into_secret()
}

/// The texts, with a space between each and the next.
pub open spec fn spaced(texts: Seq<Seq<char>>) -> Seq<char>
    decreases texts.len(),
{
    if texts.len() == 0 {
        Seq::empty()
    } else if texts.len() == 1 {
        texts[0]
    } else {
        spaced(texts.drop_last()) + seq![' '] + texts.last()
    }
}

/// The parameters of an authorization request. The scopes are left out where their text is empty.
pub open spec fn request_pairs(
    client_id: Seq<char>,
    callback: Seq<char>,
    csrf: Seq<char>,
    verifier: Seq<char>,
    scopes: Seq<Seq<char>>,
    extra: Seq<(Seq<char>, Seq<char>)>,
) -> Seq<(Seq<char>, Seq<char>)> {
    let challenge = encoding::base64url_text(sha256_digest(vstd::utf8::encode_utf8(verifier)));
    let scope = if spaced(scopes).len() == 0 {
        Seq::empty()
    } else {
        seq![("scope"@, spaced(scopes))]
    };
    seq![
        ("response_type"@, "code"@),
        ("client_id"@, client_id),
        ("state"@, csrf),
        ("code_challenge"@, challenge),
        ("code_challenge_method"@, "S256"@),
        ("redirect_uri"@, callback),
    ] + scope + extra
}

/// The URL at which a browser asks an authorization server for a code: the endpoint with the
/// parameters of the request. Where the endpoint or the callback is no URL, it is what is wrong
/// with the first of them that is none.
pub open spec fn authorization_request_url(
    endpoint: Seq<char>,
    client_id: Seq<char>,
    callback: Seq<char>,
    csrf: Seq<char>,
    verifier: Seq<char>,
    scopes: Seq<Seq<char>>,
    extra: Seq<(Seq<char>, Seq<char>)>,
) -> Result<Seq<char>, Seq<char>> {
    if url_parts(endpoint) is Some && url_parts(callback) is None {
        url_with_query(callback, Seq::empty())
    } else {
        url_with_query(
            endpoint,
            request_pairs(client_id, callback, csrf, verifier, scopes, extra),
        )
    }
}

/// Calls `authorize_url` of `oauth2::basic::BasicClient` with the SHA-256 challenge of the
/// verifier, the scopes and the extra parameters: the endpoint with the parameters of the request
/// at the end of its query, in the way of `extend_pairs`. It fails exactly where `url::Url::parse`
/// does on the endpoint or the callback, with that error's text.
#[verifier::external_body]
pub(crate) fn authorization_url(
    endpoint: &str,
    client_id: &str,
    callback: &str,
    csrf: &str,
    verifier: &str,
    scopes: &Vec<String>,
    extra: &Vec<(String, String)>,
) -> (r: Result<String, String>)
    requires
        endpoint@.len() <= URL_MAX_CHARS,
        !endpoint@.contains('#'),
        43 <= vstd::utf8::encode_utf8(verifier@).len() <= 128,
    ensures
        outcome(r) == authorization_request_url(
            endpoint@,
            client_id@,
            callback@,
            csrf@,
            verifier@,
            text::all_chars(scopes@),
            pair_chars(extra@),
        ),
        r is Ok <==> (url_parts(endpoint@) is Some && url_parts(callback@) is Some),
{
    let endpoint = AuthUrl::new(endpoint.to_string()).map_err(|error| error.to_string())?;
    let callback = RedirectUrl::new(callback.to_string()).map_err(|error| error.to_string())?;
    let verifier = PkceCodeVerifier::new(verifier.to_string());
    let client = BasicClient::new(ClientId::new(client_id.to_string())).set_auth_uri(
        endpoint,
    ).set_redirect_uri(callback);
    let mut request = client.authorize_url(|| CsrfToken::new(csrf.to_string())).set_pkce_challenge(
        PkceCodeChallenge::from_code_verifier_sha256(&verifier),
    ).add_scopes(scopes.iter().map(|scope| Scope::new(scope.clone())));
    for (name, value) in extra {
        request = request.add_extra_param(name, value);
    }
    Ok(request.url().0.to_string())
}

} // verus!
