//! What the laws speak of, said once and on its own: times, places, proofs of identity.

use vstd::prelude::*;
use vstd::string::*;

use crate::outside::HostParts;
use crate::records::{AccessLevel, ClientView, TokenView, UserTokensView};
use crate::state::ServerView;
use crate::time::Timestamp;
use crate::{endpoints, outside, url};

verus! {

/// Whether more than a number of seconds lie between two points in time.
pub open spec fn past(later: Timestamp, start: Timestamp, secs: int) -> bool {
    later.secs > start.secs + secs || (later.secs == start.secs + secs && later.nanos
        > start.nanos)
}

/// Whether fewer than a number of seconds lie between two points in time.
pub open spec fn short_of(later: Timestamp, start: Timestamp, secs: int) -> bool {
    later.secs < start.secs + secs || (later.secs == start.secs + secs && later.nanos
        < start.nanos)
}

/// Whether one point in time lies a number of seconds behind another.
pub open spec fn is_after_by(later: Timestamp, start: Timestamp, secs: int) -> bool {
    later.secs == start.secs + secs && later.nanos == start.nanos
}

/// When tokens expire that live for a number of seconds: never, as far as is known, if the number is
/// missing or over 9223372036854775.
pub open spec fn runs_out(expires: Option<Timestamp>, now: Timestamp, lifetime: Option<u64>) -> bool {
    match lifetime {
        Some(secs) => if secs <= 9_223_372_036_854_775 {
            expires matches Some(at) && is_after_by(at, now, secs as int)
        } else {
            expires is None
        },
        None => expires is None,
    }
}

/// The URL of a path on a server, whose own URL may end with a slash.
pub open spec fn at_path(base: Seq<char>, path: Seq<char>) -> Seq<char> {
    if base.len() > 0 && base.last() == '/' {
        base.drop_last() + path
    } else {
        base + path
    }
}

/// Whether a URL uses `https`, or `http` to `localhost`, to 127.0.0.0 up to 127.255.255.255, or to
/// `::1`.
pub open spec fn keeps_secrets(parts: outside::UrlParts) -> bool {
    parts.scheme == "https"@ || (parts.scheme == "http"@ && match parts.host {
        HostParts::Missing => false,
        HostParts::Domain(name) => name == "localhost"@,
        HostParts::Ipv4(address) => 0x7f00_0000 <= address <= 0x7fff_ffff,
        HostParts::Ipv6(address) => address == 1,
    })
}

/// Whether a text is a URL to which a client may be sent back.
pub open spec fn may_be_sent_to(uri: Seq<char>) -> bool {
    outside::url_parts(uri) matches Some(parts) && keeps_secrets(parts)
}

/// Whether a client proves itself the way it registered: with its own secret, or, if it has none to
/// send, without one.
pub open spec fn proves_itself(client: ClientView, secret: Option<Seq<char>>) -> bool {
    ||| client.token_endpoint_auth_method == "none"@ && (secret matches Some(sent) ==> sent.len()
        == 0)
    ||| client.token_endpoint_auth_method == "client_secret_post"@ && secret is Some && secret
        == client.client_secret
}

/// Whether a user is let in with an access: as listed, or, without a list, with full access.
pub open spec fn is_let_in(s: ServerView, user: Seq<char>, access: AccessLevel) -> bool {
    match s.allowed_users {
        None => access == AccessLevel::Full,
        Some(listed) => listed.dom().contains(user) && listed[user] == access,
    }
}

/// Whether a user holds Onshape tokens.
pub open spec fn holds(s: ServerView, user: Seq<char>, tokens: UserTokensView) -> bool {
    s.user_credentials.users.dom().contains(user) && s.user_credentials.users[user].tokens == Some(
        tokens,
    )
}

/// Whether a token was issued now, to a client for a user, for a resource and a number of seconds.
pub open spec fn is_new_token(
    token: TokenView,
    user: Seq<char>,
    client: Seq<char>,
    resource: Seq<char>,
    now: Timestamp,
    secs: int,
) -> bool {
    &&& token.user_id == user
    &&& token.client_id == client
    &&& token.resource == resource
    &&& token.issued_at == now
    &&& is_after_by(token.expires_at, now, secs)
}

/// Whether tokens are the earlier ones with a new one among them, without the others that the same
/// client had for the same user.
pub open spec fn took_the_place(
    before: Map<Seq<char>, TokenView>,
    after: Map<Seq<char>, TokenView>,
    key: Seq<char>,
) -> bool {
    &&& after.dom().contains(key)
    &&& forall|k: Seq<char>| #[trigger]
        after.dom().contains(k) <==> (k == key || (before.dom().contains(k) && !(before[k].user_id
            == after[key].user_id && before[k].client_id == after[key].client_id)))
    &&& forall|k: Seq<char>| #[trigger]
        after.dom().contains(k) && k != key ==> after[k] == before[k]
}

/// The paths of the server, as its URLs have them.
pub proof fn lemma_own_urls(base: Seq<char>)
    ensures
        url::mcp_url(base) == at_path(base, "/mcp"@),
        url::oauth_url(base, "callback"@) == at_path(base, "/oauth/callback"@),
        url::oauth_url(base, "authorize"@) == at_path(base, "/oauth/authorize"@),
        url::oauth_url(base, "token"@) == at_path(base, "/oauth/token"@),
        url::oauth_url(base, "register"@) == at_path(base, "/oauth/register"@),
        url::resource_metadata_url(base) == at_path(
            base,
            "/.well-known/oauth-protected-resource/mcp"@,
        ),
{
    endpoints::law_advertised_endpoints_are_served(base);
    reveal_strlit("mcp");
    reveal_strlit("/mcp");
    assert(seq!["mcp"@].drop_last() =~= Seq::<Seq<char>>::empty());
    reveal_with_fuel(outside::slashed, 2);
    assert(outside::slashed(seq!["mcp"@]) =~= "/mcp"@);
}

} // verus!
