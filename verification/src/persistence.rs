//! What of the state survives a restart.

use vstd::prelude::*;

use crate::credentials::{CredentialStore, CredentialView, CredentialsView, UserCredentials};
use crate::outside::current_time;
use crate::records::{
    ClientView, CodeView, IssuedAuthCode, IssuedToken, RegisteredClient, TokenView,
    UserOnshapeTokens, UserTokensView,
};
use crate::state::{OAuthServerState, ServerView, AUTH_CODE_TTL_SECS};
use crate::store::{EncryptedStateStore, StateStoreError, StateStoreErrorView, StoreView};
use crate::table::{Duplicate, Table};
use crate::time::Timestamp;
use crate::{credentials, errors, table};

verus! {

/// The version of the saved state.
pub const STATE_VERSION: u8 = 1;

/// The state that is saved.
pub struct PersistedOAuthState {
    /// The version of the format.
    pub version: u8,
    /// The registered clients.
    pub clients: Table<RegisteredClient>,
    /// The authorization codes.
    pub auth_codes: Table<IssuedAuthCode>,
    /// The access tokens.
    pub tokens: Table<IssuedToken>,
    /// The refresh tokens.
    pub refresh_tokens: Table<IssuedToken>,
    /// The Onshape tokens of the users.
    pub user_tokens: Table<UserOnshapeTokens>,
}

/// The view of a [`PersistedOAuthState`].
#[verifier::ext_equal]
pub struct PersistedView {
    /// The version of the format.
    pub version: u8,
    /// The registered clients.
    pub clients: Map<Seq<char>, ClientView>,
    /// The authorization codes.
    pub auth_codes: Map<Seq<char>, CodeView>,
    /// The access tokens.
    pub tokens: Map<Seq<char>, TokenView>,
    /// The refresh tokens.
    pub refresh_tokens: Map<Seq<char>, TokenView>,
    /// The Onshape tokens of the users.
    pub user_tokens: Map<Seq<char>, UserTokensView>,
}

impl View for PersistedOAuthState {
    type V = PersistedView;

    open spec fn view(&self) -> PersistedView {
        PersistedView {
            version: self.version,
            clients: self.clients@,
            auth_codes: self.auth_codes@,
            tokens: self.tokens@,
            refresh_tokens: self.refresh_tokens@,
            user_tokens: self.user_tokens@,
        }
    }
}

// ---------------------------------------------------------------------------
// Saving
// ---------------------------------------------------------------------------
/// The Onshape tokens of the users that have any.
pub open spec fn held_tokens(users: Map<Seq<char>, CredentialView>) -> Map<
    Seq<char>,
    UserTokensView,
> {
    Map::new(
        |u: Seq<char>| users.dom().contains(u) && users[u].tokens is Some,
        |u: Seq<char>| users[u].tokens->0,
    )
}

/// What is saved of a state. Pending flows, validations and locks are not.
pub open spec fn snapshot_of(s: ServerView) -> PersistedView {
    PersistedView {
        version: STATE_VERSION,
        clients: s.clients,
        auth_codes: s.auth_codes,
        tokens: s.tokens,
        refresh_tokens: s.refresh_tokens,
        user_tokens: held_tokens(s.user_credentials.users),
    }
}

fn collect_tokens(users: &Table<UserCredentials>) -> (r: Table<UserOnshapeTokens>)
    ensures
        r@ == held_tokens(users@),
{
    let n: usize = users.len();
    let ghost list = users.key_list();
    let mut held: Table<UserOnshapeTokens> = Table::new();
    let mut i: usize = 0;
    while i < n
        invariant
            i <= n,
            n == users.key_list().len(),
            list == users.key_list(),
            table::lists_keys(list, users@),
            forall|u: Seq<char>| #[trigger]
                held@.dom().contains(u) <==> (list.take(i as int).contains(u)
                    && users@[u].tokens is Some),
            forall|u: Seq<char>| #[trigger]
                held@.dom().contains(u) ==> held@[u] == users@[u].tokens->0,
        decreases n - i,
    {
        let key: &String = users.key_at(i);
        proof {
            table::lemma_next_key(list, i as int);
        }
        if let Some(tokens) = &users.value_at(i).tokens {
            held.insert(key.clone(), tokens.duplicate());
        }
        i = i + 1;
    }
    proof {
        assert(list.take(n as int) =~= list);
        assert(held@ =~= held_tokens(users@));
    }
    held
}

impl OAuthServerState {
    /// What is to be saved, if the state is durable.
    pub fn snapshot(&self) -> (r: Option<PersistedOAuthState>)
        ensures
            r is Some <==> self@.persistence is Some,
            r matches Some(p) ==> p@ == snapshot_of(self@),
    {
        if self.persistence.is_none() {
            return None;
        }
        Some(
            PersistedOAuthState {
                version: STATE_VERSION,
                clients: self.clients.duplicate(),
                auth_codes: self.auth_codes.duplicate(),
                tokens: self.tokens.duplicate(),
                refresh_tokens: self.refresh_tokens.duplicate(),
                user_tokens: collect_tokens(self.user_credentials.users()),
            },
        )
    }
}

// ---------------------------------------------------------------------------
// Restoring
// ---------------------------------------------------------------------------
/// The saved codes that are still valid.
pub open spec fn live_codes(codes: Map<Seq<char>, CodeView>, now: Timestamp) -> Map<
    Seq<char>,
    CodeView,
> {
    table::kept(
        codes,
        |k: Seq<char>, c: CodeView| now.within(c.created_at, AUTH_CODE_TTL_SECS as int),
    )
}

/// The saved tokens that are still valid, and whose users are let in.
pub open spec fn live_tokens(
    s: ServerView,
    tokens: Map<Seq<char>, TokenView>,
    now: Timestamp,
) -> Map<Seq<char>, TokenView> {
    table::kept(
        tokens,
        |k: Seq<char>, t: TokenView|
            t.expires_at.later_than(now) && s.access_of(t.user_id) is Some,
    )
}

/// The saved users that are let in.
pub open spec fn live_users(s: ServerView, users: Map<Seq<char>, UserTokensView>) -> Map<
    Seq<char>,
    UserTokensView,
> {
    table::kept(users, |u: Seq<char>, t: UserTokensView| s.access_of(u) is Some)
}

/// Whether credentials hold the tokens of exactly these users, and nothing is known yet about the
/// validity of any.
pub open spec fn holds_anew(c: CredentialsView, users: Map<Seq<char>, UserTokensView>) -> bool {
    &&& c.wf()
    &&& c.users.dom() == users.dom()
    &&& forall|u: Seq<char>| #[trigger]
        users.dom().contains(u) ==> c.users[u].tokens == Some(users[u])
    &&& forall|i: int|
        0 <= i < c.slots.len() ==> #[trigger] c.slots[i] == credentials::unchecked()
}

/// Whether a state is another one with a saved state taken up, whose store is `store`.
pub open spec fn restored(
    before: ServerView,
    saved: PersistedView,
    store: StoreView,
    now: Timestamp,
    after: ServerView,
) -> bool {
    &&& holds_anew(after.user_credentials, live_users(before, saved.user_tokens))
    &&& after == (ServerView {
        clients: saved.clients,
        auth_codes: live_codes(saved.auth_codes, now),
        tokens: live_tokens(before, saved.tokens, now),
        refresh_tokens: live_tokens(before, saved.refresh_tokens, now),
        user_credentials: after.user_credentials,
        persistence: Some(store),
        ..before
    })
}

fn keep_codes(codes: &mut Table<IssuedAuthCode>, now: &Timestamp)
    ensures
        final(codes)@ == live_codes(old(codes)@, *now),
{
    let ghost p = |k: Seq<char>, c: CodeView| now.within(c.created_at, AUTH_CODE_TTL_SECS as int);
    let keep = |k: &String, c: &IssuedAuthCode| -> (b: bool)
        ensures
            b == now.within(c@.created_at, AUTH_CODE_TTL_SECS as int),
    {
        now.is_within(&c.created_at, AUTH_CODE_TTL_SECS)
    };
    codes.retain(keep, Ghost(p));
}

fn keep_tokens(state: &OAuthServerState, tokens: &mut Table<IssuedToken>, now: &Timestamp)
    ensures
        final(tokens)@ == live_tokens(state@, old(tokens)@, *now),
{
    let ghost p = |k: Seq<char>, t: TokenView|
        t.expires_at.later_than(*now) && state@.access_of(t.user_id) is Some;
    let keep = |k: &String, t: &IssuedToken| -> (b: bool)
        ensures
            b == (t@.expires_at.later_than(*now) && state@.access_of(t@.user_id) is Some),
    {
        t.expires_at.is_later(now) && state.access_of(t.user_id.as_str()).is_some()
    };
    tokens.retain(keep, Ghost(p));
}

fn keep_users(state: &OAuthServerState, users: &Table<UserOnshapeTokens>) -> (r: CredentialStore)
    ensures
        holds_anew(r@, live_users(state@, users@)),
{
    let n: usize = users.len();
    let ghost list = users.key_list();
    let mut store: CredentialStore = CredentialStore::new();
    let mut i: usize = 0;
    while i < n
        invariant
            i <= n,
            n == users.key_list().len(),
            list == users.key_list(),
            table::lists_keys(list, users@),
            store@.wf(),
            forall|u: Seq<char>| #[trigger]
                store@.users.dom().contains(u) <==> (list.take(i as int).contains(u)
                    && state@.access_of(u) is Some),
            forall|u: Seq<char>| #[trigger]
                store@.users.dom().contains(u) ==> store@.users[u].tokens == Some(users@[u]),
            forall|k: int|
                0 <= k < store@.slots.len() ==> #[trigger] store@.slots[k]
                    == credentials::unchecked(),
        decreases n - i,
    {
        let key: &String = users.key_at(i);
        proof {
            table::lemma_next_key(list, i as int);
        }
        if state.access_of(key.as_str()).is_some() {
            store.replace_reauthorized(key.as_str(), users.value_at(i).duplicate());
        }
        i = i + 1;
    }
    proof {
        assert(list.take(n as int) =~= list);
        assert(store@.users.dom() =~= live_users(state@, users@).dom());
    }
    store
}

/// What becomes of a parsed state: it is taken as it is, if it has the version of this format.
pub open spec fn accepted(store: StoreView, parsed: Result<PersistedOAuthState, String>) -> Result<
    PersistedView,
    StateStoreErrorView,
> {
    match parsed {
        Err(reason) => Err(StateStoreErrorView::Parse(store.path, reason@)),
        Ok(saved) => if saved@.version == STATE_VERSION {
            Ok(saved@)
        } else {
            Err(StateStoreErrorView::InvalidFormat(store.path))
        },
    }
}

/// Accepts a parsed state, unless it could not be parsed or has another version.
pub fn accept_saved(store: &EncryptedStateStore, parsed: Result<PersistedOAuthState, String>) -> (r:
    Result<PersistedOAuthState, StateStoreError>)
    ensures
        errors::result_view(r) == accepted(store@, parsed),
        match parsed {
            Err(reason) => r matches Err(e) && e@ == StateStoreErrorView::Parse(
                store@.path,
                reason@,
            ),
            Ok(saved) => if saved.version == STATE_VERSION {
                r == Ok::<PersistedOAuthState, StateStoreError>(saved)
            } else {
                r matches Err(e) && e@ == StateStoreErrorView::InvalidFormat(store@.path)
            },
        },
{
    match parsed {
        Err(reason) => Err(
            StateStoreError::Parse { path: store.path().to_owned(), source: reason },
        ),
        Ok(saved) => if saved.version == STATE_VERSION {
            Ok(saved)
        } else {
            Err(StateStoreError::InvalidFormat { path: store.path().to_owned() })
        },
    }
}

impl OAuthServerState {
    /// Makes the state durable in a store, and takes up what was saved there, at a point in time:
    /// codes and tokens that have expired are left behind, and so is everything of users that are
    /// not let in.
    pub fn with_encrypted_persistence_at(
        &mut self,
        store: EncryptedStateStore,
        saved: Option<PersistedOAuthState>,
        now: &Timestamp,
    )
        ensures
            match saved {
                None => final(self)@ == (ServerView { persistence: Some(store@), ..old(self)@ }),
                Some(saved) => restored(old(self)@, saved@, store@, *now, final(self)@),
            },
    {
        match saved {
            None => {},
            Some(saved) => {
                let mut auth_codes: Table<IssuedAuthCode> = saved.auth_codes;
                let mut tokens: Table<IssuedToken> = saved.tokens;
                let mut refresh_tokens: Table<IssuedToken> = saved.refresh_tokens;
                keep_codes(&mut auth_codes, now);
                keep_tokens(self, &mut tokens, now);
                keep_tokens(self, &mut refresh_tokens, now);
                let users: CredentialStore = keep_users(self, &saved.user_tokens);
                self.clients = saved.clients;
                self.auth_codes = auth_codes;
                self.tokens = tokens;
                self.refresh_tokens = refresh_tokens;
                self.user_credentials = users;
            },
        }
        self.persistence = Some(store);
    }

    /// Makes the state durable in a store, and takes up what was saved there.
    pub fn with_encrypted_persistence(
        &mut self,
        store: EncryptedStateStore,
        saved: Option<PersistedOAuthState>,
    )
        ensures
            match saved {
                None => final(self)@ == (ServerView { persistence: Some(store@), ..old(self)@ }),
                Some(saved) => exists|now: Timestamp|
                    now.on_clock() && #[trigger] restored(
                        old(self)@,
                        saved@,
                        store@,
                        now,
                        final(self)@,
                    ),
            },
    {
        let now: Timestamp = current_time();
        self.with_encrypted_persistence_at(store, saved, &now)
    }
}

} // verus!
