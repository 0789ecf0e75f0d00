//! What a restart keeps.

use vstd::prelude::*;

use super::terms;
use crate::credentials::{ValidationStatus, ValidationView};
use crate::records::TokenView;
use crate::state::{ServerView, AUTH_CODE_TTL_SECS};
use crate::store::{StateStoreErrorView, StoreView};
use crate::time::Timestamp;
use crate::token::TokenRequestView;
use crate::{credentials, encoding, outside, persistence, state, store, text, token};

verus! {

/// Whether `after` is a server with the settings of `before` that takes up, at `now`, what
/// `before` saved.
pub open spec fn restarted(
    before: ServerView,
    fresh: ServerView,
    store: StoreView,
    now: Timestamp,
    after: ServerView,
) -> bool {
    &&& fresh.allowed_users == before.allowed_users
    &&& fresh.public_url == before.public_url
    &&& fresh.max_registered_clients == before.max_registered_clients
    &&& persistence::restored(fresh, persistence::snapshot_of(before), store, now, after)
}

/// After a restart a bearer token that has not run out lets the same user in, with the same
/// Onshape tokens and the same access.
pub proof fn law_restart_keeps_sessions(
    before: ServerView,
    fresh: ServerView,
    store: StoreView,
    now: Timestamp,
    after: ServerView,
    text: Seq<char>,
    later: Timestamp,
)
    requires
        restarted(before, fresh, store, now, after),
        state::context_of(before, text, later) is Some,
        before.tokens[text].expires_at.later_than(now),
    ensures
        ({
            let was = state::context_of(before, text, later)->0;
            let is = state::context_of(after, text, later)->0;
            &&& state::context_of(after, text, later) is Some
            &&& is.user_id == was.user_id
            &&& is.onshape_tokens == was.onshape_tokens
            &&& is.access == was.access
        }),
{
    let user = before.tokens[text].user_id;
    let saved = persistence::held_tokens(before.user_credentials.users);
    let live = persistence::live_users(fresh, saved);
    assert(saved.dom().contains(user));
    assert(live.dom().contains(user));
    assert(after.user_credentials.users.dom().contains(user));
}

/// A restart lets nobody in who was not let in before.
pub proof fn law_restart_lets_nobody_else_in(
    before: ServerView,
    fresh: ServerView,
    store: StoreView,
    now: Timestamp,
    after: ServerView,
    text: Seq<char>,
    later: Timestamp,
)
    requires
        restarted(before, fresh, store, now, after),
        state::context_of(after, text, later) is Some,
    ensures
        ({
            let was = state::context_of(before, text, later)->0;
            let is = state::context_of(after, text, later)->0;
            &&& state::context_of(before, text, later) is Some
            &&& is.user_id == was.user_id
            &&& is.onshape_tokens == was.onshape_tokens
            &&& is.access == was.access
        }),
{
    let user = after.tokens[text].user_id;
    let saved = persistence::held_tokens(before.user_credentials.users);
    let live = persistence::live_users(fresh, saved);
    assert(after.user_credentials.users.dom().contains(user));
    assert(live.dom().contains(user));
    assert(saved.dom().contains(user));
}

/// After a restart a client can go on refreshing: a refresh that would have been granted is
/// granted with the same answer, if the refresh token has not run out and its user is let in.
pub proof fn law_restart_keeps_refresh_flow(
    before: ServerView,
    fresh: ServerView,
    store: StoreView,
    now: Timestamp,
    after: ServerView,
    req: TokenRequestView,
    access: Seq<char>,
    refresh: Seq<char>,
    later: Timestamp,
)
    requires
        restarted(before, fresh, store, now, after),
        token::refresh_step(before, req, access, refresh, later).1 is Ok,
        before.refresh_tokens[req.refresh_token->0].expires_at.later_than(now),
        before.access_of(before.refresh_tokens[req.refresh_token->0].user_id) is Some,
    ensures
        token::refresh_step(after, req, access, refresh, later).1 == token::refresh_step(
            before,
            req,
            access,
            refresh,
            later,
        ).1,
{
    assert(after.refresh_tokens.dom().contains(req.refresh_token->0));
}

/// After a restart a code can still be exchanged, if it has not run out.
pub proof fn law_restart_keeps_codes(
    before: ServerView,
    fresh: ServerView,
    store: StoreView,
    now: Timestamp,
    after: ServerView,
    req: TokenRequestView,
    access: Seq<char>,
    refresh: Seq<char>,
    later: Timestamp,
)
    requires
        restarted(before, fresh, store, now, after),
        token::auth_code_step(before, req, access, refresh, later).1 is Ok,
        now.within(before.auth_codes[req.code->0].created_at, AUTH_CODE_TTL_SECS as int),
    ensures
        token::auth_code_step(after, req, access, refresh, later).1 == token::auth_code_step(
            before,
            req,
            access,
            refresh,
            later,
        ).1,
{
    assert(after.auth_codes.dom().contains(req.code->0));
}

/// What a store wrote comes back, in any serialization that gives back what it was given: a server
/// that lets in the same users has the clients, the codes and tokens that have not run out, and the
/// Onshape tokens of every user. `written` is what `save` makes of the serialized state.
pub proof fn law_saved_state_comes_back(
    before: ServerView,
    fresh: ServerView,
    file: StoreView,
    serialize: spec_fn(persistence::PersistedView) -> Seq<u8>,
    parse: spec_fn(Seq<u8>) -> Option<persistence::PersistedView>,
    written: Seq<u8>,
    now: Timestamp,
    after: ServerView,
)
    requires
        parse(serialize(persistence::snapshot_of(before))) == Some(
            persistence::snapshot_of(before),
        ),
        store::read_content(file, written) == Ok::<Seq<u8>, StateStoreErrorView>(
            serialize(persistence::snapshot_of(before)),
        ),
        forall|u: Seq<char>| fresh.access_of(u) is Some <==> before.access_of(u) is Some,
        persistence::restored(
            fresh,
            parse(store::read_content(file, written)->Ok_0)->0,
            file,
            now,
            after,
        ),
    ensures
        parse(store::read_content(file, written)->Ok_0)->0.version == persistence::STATE_VERSION,
        after.clients == before.clients,
        after.auth_codes == persistence::live_codes(before.auth_codes, now),
        after.tokens == persistence::live_tokens(before, before.tokens, now),
        after.refresh_tokens == persistence::live_tokens(before, before.refresh_tokens, now),
        forall|u: Seq<char>|
            before.access_of(u) is Some ==> after.user_credentials.tokens_of(u)
                == #[trigger] before.user_credentials.tokens_of(u),
{
    assert(after.tokens =~= persistence::live_tokens(before, before.tokens, now));
    assert(after.refresh_tokens =~= persistence::live_tokens(before, before.refresh_tokens, now));
    let saved = persistence::held_tokens(before.user_credentials.users);
    let live = persistence::live_users(fresh, saved);
    assert forall|u: Seq<char>|
        before.access_of(u) is Some implies after.user_credentials.tokens_of(u)
        == #[trigger] before.user_credentials.tokens_of(u) by {
        assert(live.dom().contains(u) <==> before.user_credentials.tokens_of(u) is Some);
        assert(after.user_credentials.users.dom().contains(u) <==> live.dom().contains(u));
    }
}

/// A state file that the key does not open, such as one of another key, is refused with the
/// decryption error, whatever is in it.
pub proof fn law_unopened_state_is_refused(file: StoreView, written: Seq<u8>)
    requires
        store::is_framed(written),
        store::opened(file.key, written) is None,
    ensures
        store::read_content(file, written) == Err::<Seq<u8>, StateStoreErrorView>(
            StateStoreErrorView::Decrypt(file.path),
        ),
{
}

/// A restart keeps the clients, and forgets what was known about the validity of credentials.
pub proof fn law_restart_keeps_clients(
    before: ServerView,
    fresh: ServerView,
    store: StoreView,
    now: Timestamp,
    after: ServerView,
    user: Seq<char>,
)
    requires
        restarted(before, fresh, store, now, after),
    ensures
        after.clients == before.clients,
        after.user_credentials.users.dom().contains(user)
            ==> after.user_credentials.slots[after.user_credentials.users[user].validation as int]
            == credentials::unchecked(),
{
}

/// A restart keeps the server up.
pub proof fn law_restart_keeps_up(
    before: ServerView,
    fresh: ServerView,
    store: StoreView,
    now: Timestamp,
    after: ServerView,
)
    requires
        restarted(before, fresh, store, now, after),
        super::upkeep::is_kept_up(before),
        super::upkeep::is_kept_up(fresh),
    ensures
        super::upkeep::is_kept_up(after),
{
    assert forall|k: Seq<char>| #[trigger]
        after.auth_codes.dom().contains(k) implies super::upkeep::is_bound_code(
        after,
        after.auth_codes[k],
    ) by {
        assert(before.auth_codes.dom().contains(k));
    }
    assert forall|k: Seq<char>| #[trigger] after.tokens.dom().contains(k) implies after.tokens[k]
        == before.tokens[k] && before.tokens.dom().contains(k) by {}
    assert forall|k: Seq<char>| #[trigger]
        after.refresh_tokens.dom().contains(k) implies after.refresh_tokens[k]
        == before.refresh_tokens[k] && before.refresh_tokens.dom().contains(k) by {}
    assert forall|k: Seq<char>| #[trigger]
        after.pending_auth.dom().contains(k) implies super::upkeep::is_bound_flow(
        after,
        after.pending_auth[k],
    ) by {
        assert(fresh.pending_auth.dom().contains(k));
    }
}

/// A user who is no longer let in is left behind by a restart, with all tokens.
pub proof fn law_restart_leaves_others_behind(
    fresh: ServerView,
    saved: persistence::PersistedView,
    store: StoreView,
    now: Timestamp,
    after: ServerView,
    user: Seq<char>,
)
    requires
        persistence::restored(fresh, saved, store, now, after),
        fresh.access_of(user) is None,
    ensures
        !after.user_credentials.users.dom().contains(user),
        forall|k: Seq<char>| #[trigger]
            after.tokens.dom().contains(k) ==> after.tokens[k].user_id != user,
        forall|k: Seq<char>| #[trigger]
            after.refresh_tokens.dom().contains(k) ==> after.refresh_tokens[k].user_id != user,
{
}

/// What is saved is what has to survive: the clients, the codes, the tokens, and the Onshape tokens of
/// every user who has any, in the first version of the format.
pub proof fn law_everything_is_saved(s: ServerView, user: Seq<char>)
    ensures
        ({
            let saved = persistence::snapshot_of(s);
            let held = s.user_credentials.users[user];
            &&& saved.version == 1
            &&& saved.clients == s.clients
            &&& saved.auth_codes == s.auth_codes
            &&& saved.tokens == s.tokens
            &&& saved.refresh_tokens == s.refresh_tokens
            &&& saved.user_tokens.dom().contains(user) <==> s.user_credentials.users.dom().contains(
                user,
            ) && held.tokens is Some
            &&& saved.user_tokens.dom().contains(user) ==> Some(saved.user_tokens[user])
                == held.tokens
        }),
{
}

/// Whether tokens are the saved ones that run out later, of users who are let in.
pub open spec fn are_those_left(
    fresh: ServerView,
    saved: Map<Seq<char>, TokenView>,
    now: Timestamp,
    after: Map<Seq<char>, TokenView>,
) -> bool {
    &&& forall|k: Seq<char>| #[trigger]
        after.dom().contains(k) <==> saved.dom().contains(k) && terms::past(
            saved[k].expires_at,
            now,
            0,
        ) && (fresh.allowed_users matches Some(listed) ==> listed.dom().contains(saved[k].user_id))
    &&& forall|k: Seq<char>| #[trigger] after.dom().contains(k) ==> after[k] == saved[k]
}

/// What is taken up is what was saved: every client; the codes that are younger than ten minutes; the
/// access and refresh tokens that run out later, and the Onshape tokens, of the users who are let in,
/// about whose validity nothing is known yet. The settings and the flows are those of the new server.
pub proof fn law_saved_state_is_taken_up(
    fresh: ServerView,
    saved: persistence::PersistedView,
    file: StoreView,
    now: Timestamp,
    after: ServerView,
    key: Seq<char>,
)
    requires
        persistence::restored(fresh, saved, file, now, after),
    ensures
        after.clients == saved.clients,
        after.auth_codes.dom().contains(key) <==> saved.auth_codes.dom().contains(key)
            && terms::short_of(now, saved.auth_codes[key].created_at, 600),
        after.auth_codes.dom().contains(key) ==> after.auth_codes[key] == saved.auth_codes[key],
        are_those_left(fresh, saved.tokens, now, after.tokens),
        are_those_left(fresh, saved.refresh_tokens, now, after.refresh_tokens),
        ({
            let users = after.user_credentials.users;
            &&& users.dom().contains(key) <==> saved.user_tokens.dom().contains(key) && (
            fresh.allowed_users matches Some(listed) ==> listed.dom().contains(key))
            &&& users.dom().contains(key) ==> {
                &&& users[key].tokens == Some(saved.user_tokens[key])
                &&& users[key].validation < after.user_credentials.slots.len()
                &&& after.user_credentials.slots[users[key].validation as int] == (ValidationView {
                    status: ValidationStatus::Unchecked,
                    last_check: None,
                    message: None,
                })
            }
        }),
        after.persistence == Some(file),
        after.pending_auth == fresh.pending_auth,
        after.refresh_locks == fresh.refresh_locks,
        after.allowed_users == fresh.allowed_users,
        after.onshape_client_id == fresh.onshape_client_id,
        after.onshape_client_secret == fresh.onshape_client_secret,
        after.onshape_company_id == fresh.onshape_company_id,
        after.public_url == fresh.public_url,
        after.max_registered_clients == fresh.max_registered_clients,
        after.max_pending_authorizations == fresh.max_pending_authorizations,
{
    let live = persistence::live_users(fresh, saved.user_tokens);
    assert(after.user_credentials.users.dom().contains(key) <==> live.dom().contains(key));
}

/// A state file is `OSMCP1` and a zero byte, a nonce of 12 bytes, and what the cipher makes of the
/// state. Whatever has this form is opened with the key and the nonce that it names, or refused.
pub proof fn law_state_file_is_opened(file: StoreView, nonce: Seq<u8>, sealed: Seq<u8>)
    requires
        nonce.len() == 12,
        0 < sealed.len() <= 68_719_476_720,
    ensures
        ({
            let content = seq![0x4fu8, 0x53, 0x4d, 0x43, 0x50, 0x31, 0x00] + nonce + sealed;
            let read = store::read_content(file, content);
            &&& store::framed(nonce, sealed) == content
            &&& match outside::gcm_opened(
                file.key,
                nonce,
                vstd::utf8::encode_utf8("onshape-mcp-oauth-state-v1"@),
                sealed,
            ) {
                Some(state) => read == Ok::<Seq<u8>, StateStoreErrorView>(state),
                None => read == Err::<Seq<u8>, StateStoreErrorView>(
                    StateStoreErrorView::Decrypt(file.path),
                ),
            }
        }),
{
    let content = seq![0x4fu8, 0x53, 0x4d, 0x43, 0x50, 0x31, 0x00] + nonce + sealed;
    assert(store::framed(nonce, sealed) =~= content);
    assert(content.take(7) =~= store::state_magic());
    assert(content.subrange(7, 19) =~= nonce);
    assert(content.skip(19) =~= sealed);
}

/// What does not have the form of a state file is refused as such.
pub proof fn law_other_files_are_refused(file: StoreView, content: Seq<u8>)
    requires
        content.len() <= 19 || content.take(7) != seq![0x4fu8, 0x53, 0x4d, 0x43, 0x50, 0x31, 0x00],
    ensures
        store::read_content(file, content) == Err::<Seq<u8>, StateStoreErrorView>(
            StateStoreErrorView::InvalidFormat(file.path),
        ),
{
}

/// A key is 32 bytes, and its text is their base64; what decodes to anything else is no key.
pub proof fn law_key_is_32_bytes(bytes: Option<Seq<u8>>, encoded: Seq<char>, key: Seq<u8>)
    ensures
        store::key_verdict(bytes) == match bytes {
            Some(b) => if b.len() == 32 {
                Some(b)
            } else {
                None
            },
            None => None,
        },
        store::is_key_text(encoded, key) <==> key.len() == 32 && text::trimmed(encoded)
            == encoding::base64_text(key),
{
}

/// What goes wrong with the state file is reported with the file and the reason.
pub proof fn law_state_errors_name_file_and_reason(path: Seq<char>, reason: Seq<char>)
    ensures
        store::store_error_text(StateStoreErrorView::Read(path, reason))
            == "failed to read encrypted OAuth state "@ + path + ": "@ + reason,
        store::store_error_text(StateStoreErrorView::Parse(path, reason))
            == "failed to parse encrypted OAuth state "@ + path + ": "@ + reason,
        store::store_error_text(StateStoreErrorView::Write(path, reason))
            == "failed to write encrypted OAuth state "@ + path + ": "@ + reason,
        store::store_error_text(StateStoreErrorView::InvalidFormat(path))
            == "encrypted OAuth state "@ + path + " has an invalid format"@,
        store::store_error_text(StateStoreErrorView::Decrypt(path))
            == "failed to decrypt encrypted OAuth state "@ + path + "; verify the configured key"@,
        store::store_error_text(StateStoreErrorView::Serialize(reason))
            == "failed to serialize OAuth state: "@ + reason,
        store::store_error_text(StateStoreErrorView::Permissions(reason))
            == "encrypted OAuth state file permission check failed: "@ + reason,
{
}

/// Without a file the server begins anew. A file that is exposed or cannot be read is an error, and any
/// other is read with the key.
pub proof fn law_what_is_loaded(file: StoreView, probe: store::FileProbe)
    ensures
        ({
            let found = store::loaded(file, probe);
            match probe {
                store::FileProbe::Absent => found == Ok::<Option<Seq<u8>>, StateStoreErrorView>(
                    None,
                ),
                store::FileProbe::Exposed(reason) => found == Err::<
                    Option<Seq<u8>>,
                    StateStoreErrorView,
                >(StateStoreErrorView::Permissions(reason@)),
                store::FileProbe::Unreadable(reason) => found == Err::<
                    Option<Seq<u8>>,
                    StateStoreErrorView,
                >(StateStoreErrorView::Read(file.path, reason@)),
                store::FileProbe::Content(content) => {
                    &&& found is Ok <==> store::read_content(file, content@) is Ok
                    &&& found is Ok ==> found->Ok_0 == Some(
                        store::read_content(file, content@)->Ok_0,
                    )
                    &&& found is Err ==> found->Err_0 == store::read_content(
                        file,
                        content@,
                    )->Err_0
                },
            }
        }),
{
}

/// A saved state is taken as it is if it has the first version; any other is refused, and so is what
/// could not be parsed.
pub proof fn law_which_states_are_accepted(
    file: StoreView,
    parsed: Result<persistence::PersistedOAuthState, String>,
)
    ensures
        ({
            let state = persistence::accepted(file, parsed);
            match parsed {
                Ok(saved) => {
                    &&& saved.version == 1 ==> state == Ok::<
                        persistence::PersistedView,
                        StateStoreErrorView,
                    >(saved@)
                    &&& saved.version != 1 ==> state == Err::<
                        persistence::PersistedView,
                        StateStoreErrorView,
                    >(StateStoreErrorView::InvalidFormat(file.path))
                },
                Err(reason) => state == Err::<persistence::PersistedView, StateStoreErrorView>(
                    StateStoreErrorView::Parse(file.path, reason@),
                ),
            }
        }),
{
}

} // verus!
