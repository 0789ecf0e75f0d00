//! What every operation keeps up.

use vstd::prelude::*;

use crate::authorization::AuthorizeView;
use crate::callback::{CallbackParamsView, GrantView};
use crate::credentials::ValidationView;
use crate::records::{ClientView, CodeView, PendingView, TokenView, UserTokensView};
use crate::registration::RegisterRequestView;
use crate::state::ServerView;
use crate::time::Timestamp;
use crate::token::TokenRequestView;
use crate::{
    authorization, callback, credentials, outside, registration, state, table, token, url,
};

verus! {

// ---------------------------------------------------------------------------
// The invariant
// ---------------------------------------------------------------------------
/// Whether a text is a URL that keeps what it is sent confidential.
pub open spec fn is_safe_target(uri: Seq<char>) -> bool {
    outside::url_parts(uri) matches Some(parts) && url::is_confidential(parts)
}

/// Whether a client was registered properly: it is sent back to safe places only, and has a secret
/// exactly if it authenticates with one.
pub open spec fn is_proper_client(client: ClientView) -> bool {
    &&& client.redirect_uris.len() > 0
    &&& forall|i: int|
        0 <= i < client.redirect_uris.len() ==> is_safe_target(#[trigger] client.redirect_uris[i])
    &&& client.token_endpoint_auth_method == "none"@ || client.token_endpoint_auth_method
        == "client_secret_post"@
    &&& client.client_secret is Some <==> client.token_endpoint_auth_method
        == "client_secret_post"@
}

/// Whether a flow is bound: by a PKCE challenge, to this server, to a safe place.
pub open spec fn is_bound_flow(s: ServerView, flow: PendingView) -> bool {
    &&& flow.pkce_code_challenge is Some
    &&& flow.resource == s.resource()
    &&& is_safe_target(flow.redirect_uri)
}

/// Whether a code is bound: by a PKCE challenge, to this server, to a safe place.
pub open spec fn is_bound_code(s: ServerView, code: CodeView) -> bool {
    &&& code.pkce_code_challenge is Some
    &&& code.resource == s.resource()
    &&& is_safe_target(code.redirect_uri)
}

/// What holds of the server at all times: its limits are kept, its clients are proper, its flows
/// and codes are bound, its tokens are for its own MCP endpoint, and no client has two access
/// tokens or two refresh tokens for the same user.
pub open spec fn is_kept_up(s: ServerView) -> bool {
    &&& s.clients.dom().finite()
    &&& s.clients.dom().len() <= s.max_registered_clients
    &&& s.pending_auth.dom().finite()
    &&& s.pending_auth.dom().len() <= s.max_pending_authorizations
    &&& forall|k: Seq<char>| #[trigger]
        s.clients.dom().contains(k) ==> is_proper_client(s.clients[k])
    &&& forall|k: Seq<char>| #[trigger]
        s.pending_auth.dom().contains(k) ==> is_bound_flow(s, s.pending_auth[k])
    &&& forall|k: Seq<char>| #[trigger]
        s.auth_codes.dom().contains(k) ==> is_bound_code(s, s.auth_codes[k])
    &&& forall|k: Seq<char>| #[trigger]
        s.tokens.dom().contains(k) ==> s.tokens[k].resource == s.resource()
    &&& forall|k: Seq<char>| #[trigger]
        s.refresh_tokens.dom().contains(k) ==> s.refresh_tokens[k].resource == s.resource()
    &&& super::sessions::one_per_pair(s.tokens)
    &&& super::sessions::one_per_pair(s.refresh_tokens)
}

// ---------------------------------------------------------------------------
// The operations
// ---------------------------------------------------------------------------
/// What can happen to the state.
pub enum Action {
    /// A registration.
    Register { reg: RegisterRequestView, id: Seq<char>, secret: Seq<char> },
    /// The end of a registration that could not be saved.
    Unregister { id: Seq<char> },
    /// An authorization request.
    Authorize { p: AuthorizeView, verifier: Seq<char>, csrf: Seq<char>, now: Timestamp },
    /// A return from Onshape.
    Begin { back: CallbackParamsView, now: Timestamp },
    /// The tokens of a user who authorized the server.
    Accept { user: Seq<char>, grant: GrantView, now: Timestamp },
    /// The code at the end of a flow.
    Issue { flow: PendingView, user: Seq<char>, saved: bool, code: Seq<char>, now: Timestamp },
    /// A token request.
    Token { req: TokenRequestView, access: Seq<char>, refresh: Seq<char>, now: Timestamp },
    /// Refreshed tokens of a user.
    Refreshed { user: Seq<char>, tokens: UserTokensView },
    /// A look at the validation of a user.
    Look { user: Seq<char> },
    /// The outcome of a validation.
    Validate { slot: int, verdict: ValidationView },
    /// A look for the lock of a user.
    Lock { user: Seq<char> },
}

/// The state after something happened.
pub open spec fn after(s: ServerView, a: Action) -> ServerView {
    match a {
        Action::Register { reg, id, secret } => registration::register_step(
            s,
            reg,
            id,
            secret,
        ).0,
        Action::Unregister { id } => registration::without_client(s, id),
        Action::Authorize { p, verifier, csrf, now } => authorization::authorize_step(
            s,
            p,
            verifier,
            csrf,
            now,
        ).0,
        Action::Begin { back, now } => callback::begin_step(s, back, now).0,
        Action::Accept { user, grant, now } => callback::accept_step(s, user, grant, now),
        Action::Issue { flow, user, saved, code, now } => callback::issue_step(
            s,
            flow,
            user,
            saved,
            code,
            now,
        ).0,
        Action::Token { req, access, refresh, now } => token::token_step(
            s,
            req,
            access,
            refresh,
            now,
        ).0,
        Action::Refreshed { user, tokens } => ServerView {
            user_credentials: s.user_credentials.refreshed(user, tokens),
            ..s
        },
        Action::Look { user } => ServerView {
            user_credentials: s.user_credentials.with_slot(user),
            ..s
        },
        Action::Validate { slot, verdict } => ServerView {
            user_credentials: s.user_credentials.validated(slot, verdict),
            ..s
        },
        Action::Lock { user } => ServerView {
            refresh_locks: credentials::locks_with(s.refresh_locks, user),
            ..s
        },
    }
}

/// Whether something can happen: a code is issued for a bound flow only, which is what a return
/// from Onshape takes up.
pub open spec fn can_happen(s: ServerView, a: Action) -> bool {
    a matches Action::Issue { flow, .. } ==> is_bound_flow(s, flow)
}

// ---------------------------------------------------------------------------
// Small steps
// ---------------------------------------------------------------------------
proof fn lemma_kept_is_part<W>(m: Map<Seq<char>, W>, p: spec_fn(Seq<char>, W) -> bool)
    requires
        m.dom().finite(),
    ensures
        table::kept(m, p).dom().finite(),
        table::kept(m, p).dom().len() <= m.dom().len(),
{
    assert(table::kept(m, p).dom().subset_of(m.dom()));
    vstd::set_lib::lemma_len_subset(table::kept(m, p).dom(), m.dom());
}

/// Redirect URIs are accepted exactly if every one of them is a URL that uses `https`, or `http` to
/// the machine itself.
pub proof fn law_redirects_are_accepted_if_safe(uris: Seq<Seq<char>>)
    ensures
        url::redirects_error(uris) is None <==> forall|i: int|
            0 <= i < uris.len() ==> is_safe_target(#[trigger] uris[i]),
    decreases uris.len(),
{
    if uris.len() > 0 {
        let rest = uris.drop_first();
        law_redirects_are_accepted_if_safe(rest);
        if url::redirects_error(uris) is None {
            assert forall|i: int| 0 <= i < uris.len() implies is_safe_target(
                #[trigger] uris[i],
            ) by {
                if i > 0 {
                    assert(rest[i - 1] == uris[i]);
                }
            }
        }
        if forall|i: int| 0 <= i < uris.len() ==> is_safe_target(#[trigger] uris[i]) {
            assert(is_safe_target(uris[0]));
            assert forall|i: int| 0 <= i < rest.len() implies is_safe_target(
                #[trigger] rest[i],
            ) by {
                assert(rest[i] == uris[i + 1]);
            }
        }
    }
}

proof fn lemma_register_keeps_up(
    s: ServerView,
    req: RegisterRequestView,
    id: Seq<char>,
    secret: Seq<char>,
)
    requires
        is_kept_up(s),
    ensures
        is_kept_up(registration::register_step(s, req, id, secret).0),
{
    if registration::register_step(s, req, id, secret).1 is Ok {
        law_redirects_are_accepted_if_safe(req.redirect_uris);
        assert(is_proper_client(registration::client_record(req, id, secret)));
    }
}

proof fn lemma_authorize_keeps_up(
    s: ServerView,
    p: AuthorizeView,
    verifier: Seq<char>,
    csrf: Seq<char>,
    now: Timestamp,
)
    requires
        is_kept_up(s),
    ensures
        is_kept_up(authorization::authorize_step(s, p, verifier, csrf, now).0),
{
    let next = authorization::authorize_step(s, p, verifier, csrf, now).0;
    if authorization::authorize_error(s, p) is None {
        lemma_kept_is_part(
            s.pending_auth,
            |k: Seq<char>, a: PendingView|
                now.within(a.created_at, state::PENDING_AUTH_TTL_SECS as int),
        );
        let uris = s.clients[p.client_id].redirect_uris;
        let i = choose|i: int| 0 <= i < uris.len() && uris[i] == p.redirect_uri;
        assert(is_safe_target(uris[i]));
        assert forall|k: Seq<char>| #[trigger]
            next.pending_auth.dom().contains(k) implies is_bound_flow(
            next,
            next.pending_auth[k],
        ) by {
            if s.pending_auth.dom().contains(k) {
                assert(is_bound_flow(s, s.pending_auth[k]));
            }
        }
    }
}

proof fn lemma_tokens_keep_up(
    s: ServerView,
    user: Seq<char>,
    client: Seq<char>,
    resource: Seq<char>,
    access: Seq<char>,
    refresh: Seq<char>,
    now: Timestamp,
)
    requires
        is_kept_up(s),
        resource == s.resource(),
    ensures
        is_kept_up(token::with_tokens(s, user, client, resource, access, refresh, now)),
{
    super::sessions::law_new_token_is_the_only_one(
        s.tokens,
        access,
        token::token_record(user, client, resource, now, state::TOKEN_LIFETIME_SECS as int),
    );
    super::sessions::law_new_token_is_the_only_one(
        s.refresh_tokens,
        refresh,
        token::token_record(user, client, resource, now, state::REFRESH_TOKEN_LIFETIME_SECS as int),
    );
}

proof fn lemma_token_request_keeps_up(
    s: ServerView,
    req: TokenRequestView,
    access: Seq<char>,
    refresh: Seq<char>,
    now: Timestamp,
)
    requires
        is_kept_up(s),
    ensures
        is_kept_up(token::token_step(s, req, access, refresh, now).0),
{
    if token::token_step(s, req, access, refresh, now).1 is Ok {
        if req.grant_type == "authorization_code"@ {
            let code = s.auth_codes[req.code->0];
            let consumed = ServerView { auth_codes: s.auth_codes.remove(req.code->0), ..s };
            assert(is_kept_up(consumed)) by {
                assert forall|k: Seq<char>| #[trigger]
                    consumed.auth_codes.dom().contains(k) implies is_bound_code(
                    consumed,
                    consumed.auth_codes[k],
                ) by {
                    assert(s.auth_codes.dom().contains(k));
                }
            }
            lemma_tokens_keep_up(
                consumed,
                code.user_id,
                code.client_id,
                code.resource,
                access,
                refresh,
                now,
            );
        } else {
            let held = s.refresh_tokens[req.refresh_token->0];
            let consumed = ServerView {
                refresh_tokens: s.refresh_tokens.remove(req.refresh_token->0),
                ..s
            };
            assert(is_kept_up(consumed)) by {
                assert forall|k: Seq<char>| #[trigger]
                    consumed.refresh_tokens.dom().contains(k) implies consumed.refresh_tokens[k].resource
                    == s.resource() by {
                    assert(s.refresh_tokens.dom().contains(k));
                }
                assert forall|j: Seq<char>, k: Seq<char>|
                    #![trigger consumed.refresh_tokens.dom().contains(j), consumed.refresh_tokens.dom().contains(k)]
                    consumed.refresh_tokens.dom().contains(j)
                        && consumed.refresh_tokens.dom().contains(k) && state::is_for(
                        consumed.refresh_tokens[j],
                        consumed.refresh_tokens[k].user_id,
                        consumed.refresh_tokens[k].client_id,
                    ) implies j == k by {
                    assert(s.refresh_tokens.dom().contains(j));
                    assert(s.refresh_tokens.dom().contains(k));
                }
            }
            lemma_tokens_keep_up(
                consumed,
                held.user_id,
                req.client_id->0,
                held.resource,
                access,
                refresh,
                now,
            );
        }
    }
}

// ---------------------------------------------------------------------------
// The laws
// ---------------------------------------------------------------------------
/// A new server is kept up.
pub proof fn law_new_server_is_kept_up(s: ServerView)
    requires
        s.clients == Map::<Seq<char>, ClientView>::empty(),
        s.pending_auth == Map::<Seq<char>, PendingView>::empty(),
        s.auth_codes == Map::<Seq<char>, CodeView>::empty(),
        s.tokens == Map::<Seq<char>, TokenView>::empty(),
        s.refresh_tokens == Map::<Seq<char>, TokenView>::empty(),
    ensures
        is_kept_up(s),
{
}

/// Whatever happens to it, a server that is kept up stays so, and its settings stay as they are.
pub proof fn law_everything_keeps_up(s: ServerView, a: Action)
    requires
        is_kept_up(s),
        can_happen(s, a),
    ensures
        is_kept_up(after(s, a)),
        after(s, a).public_url == s.public_url,
        after(s, a).allowed_users == s.allowed_users,
        after(s, a).persistence == s.persistence,
        after(s, a).max_registered_clients == s.max_registered_clients,
        after(s, a).max_pending_authorizations == s.max_pending_authorizations,
{
    match a {
        Action::Register { reg, id, secret } => {
            lemma_register_keeps_up(s, reg, id, secret);
        },
        Action::Authorize { p, verifier, csrf, now } => {
            lemma_authorize_keeps_up(s, p, verifier, csrf, now);
        },
        Action::Token { req, access, refresh, now } => {
            lemma_token_request_keeps_up(s, req, access, refresh, now);
        },
        Action::Issue { flow, user, saved, code, now } => {
            assert(is_bound_code(s, callback::code_record(flow, user, now)));
        },
        _ => {},
    }
}

/// The state after a row of happenings.
pub open spec fn after_all(s: ServerView, actions: Seq<Action>) -> ServerView
    decreases actions.len(),
{
    if actions.len() == 0 {
        s
    } else {
        after(after_all(s, actions.drop_last()), actions.last())
    }
}

/// Whether a row of things can happen, one after the other.
pub open spec fn can_all_happen(s: ServerView, actions: Seq<Action>) -> bool
    decreases actions.len(),
{
    actions.len() == 0 || (can_all_happen(s, actions.drop_last()) && can_happen(
        after_all(s, actions.drop_last()),
        actions.last(),
    ))
}

/// A server is kept up at all times.
pub proof fn law_kept_up_at_all_times(s: ServerView, actions: Seq<Action>)
    requires
        is_kept_up(s),
        can_all_happen(s, actions),
    ensures
        is_kept_up(after_all(s, actions)),
    decreases actions.len(),
{
    if actions.len() > 0 {
        law_kept_up_at_all_times(s, actions.drop_last());
        law_everything_keeps_up(after_all(s, actions.drop_last()), actions.last());
    }
}

/// The flow that a return from Onshape takes up is bound, so that a code can be issued for it.
pub proof fn law_flow_taken_up_is_bound(s: ServerView, p: CallbackParamsView, now: Timestamp)
    requires
        is_kept_up(s),
        callback::begin_step(s, p, now).1 is Ok,
    ensures
        is_bound_flow(s, callback::begin_step(s, p, now).1->Ok_0.pending),
        is_bound_flow(
            callback::begin_step(s, p, now).0,
            callback::begin_step(s, p, now).1->Ok_0.pending,
        ),
{
}

/// PKCE is mandatory: nobody gets tokens for a code without the verifier whose S256 challenge the
/// code carries.
pub proof fn law_pkce_is_mandatory(
    s: ServerView,
    req: TokenRequestView,
    access: Seq<char>,
    refresh: Seq<char>,
    now: Timestamp,
)
    requires
        is_kept_up(s),
        token::auth_code_step(s, req, access, refresh, now).1 is Ok,
    ensures
        req.code_verifier is Some,
        s.auth_codes[req.code->0].pkce_code_challenge == Some(token::s256(req.code_verifier->0)),
{
    super::sessions::law_code_is_bound(s, req, access, refresh, now);
}

/// Tokens are bound to the MCP endpoint of the server: a grant that names another resource is
/// refused.
pub proof fn law_tokens_are_for_this_server(
    s: ServerView,
    req: TokenRequestView,
    access: Seq<char>,
    refresh: Seq<char>,
    now: Timestamp,
)
    requires
        is_kept_up(s),
        token::token_step(s, req, access, refresh, now).1 is Ok,
    ensures
        req.resource == Some(s.resource()),
        token::token_step(s, req, access, refresh, now).0.tokens[access].resource == s.resource(),
        token::token_step(s, req, access, refresh, now).0.refresh_tokens[refresh].resource
            == s.resource(),
{
}

/// Codes are sent to safe places only: the browser is sent back to a URL that uses `https`, or
/// `http` to the machine itself.
pub proof fn law_codes_go_to_safe_places(
    s: ServerView,
    p: CallbackParamsView,
    now: Timestamp,
)
    requires
        is_kept_up(s),
        callback::begin_step(s, p, now).1 is Ok,
    ensures
        is_safe_target(callback::begin_step(s, p, now).1->Ok_0.pending.redirect_uri),
{
}

} // verus!
