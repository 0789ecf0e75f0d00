//! The state of the authorization server, and who a bearer token stands for.

use vstd::prelude::*;

use crate::credentials::{CredentialStore, CredentialsView, LockRegistry};
use crate::outside::current_time;
use crate::records::{
    AccessLevel, AllowedUser, ClientView, CodeView, IssuedAuthCode, IssuedToken, PendingAuth,
    PendingView, RegisteredClient, Secret, TokenView, UserOnshapeTokens, UserTokensView,
};
use crate::store::{EncryptedStateStore, StoreView};
use crate::table::{Duplicate, Table};
use crate::text::same;
use crate::time::Timestamp;
use crate::url::PublicUrl;
use crate::{credentials, errors, table, text, url};

verus! {

/// How long an MCP access token is valid, in seconds.
pub const TOKEN_LIFETIME_SECS: i64 = 3600;

/// How long an MCP refresh token is valid, in seconds: 30 days.
pub const REFRESH_TOKEN_LIFETIME_SECS: i64 = 2_592_000;

/// How long an authorization code is valid, in seconds.
pub const AUTH_CODE_TTL_SECS: i64 = 600;

/// How long the browser may stay with Onshape, in seconds.
pub const PENDING_AUTH_TTL_SECS: i64 = 600;

/// The state of the authorization server.
pub struct OAuthServerState {
    /// The registered clients.
    pub clients: Table<RegisteredClient>,
    /// The pending flows, by the state that Onshape hands back.
    pub pending_auth: Table<PendingAuth>,
    /// The authorization codes.
    pub auth_codes: Table<IssuedAuthCode>,
    /// The access tokens.
    pub tokens: Table<IssuedToken>,
    /// The refresh tokens, apart from the access tokens.
    pub refresh_tokens: Table<IssuedToken>,
    /// The Onshape credentials of the users.
    pub user_credentials: CredentialStore,
    /// The locks that serialize the refreshes of a user's Onshape tokens.
    pub refresh_locks: LockRegistry,
    /// The users that are let in with their access, or nothing where every user is.
    pub allowed_users: Option<Table<AccessLevel>>,
    /// The client ID of the operator's Onshape application.
    pub onshape_client_id: String,
    /// The client secret of the operator's Onshape application.
    pub onshape_client_secret: Secret,
    /// The enterprise that the Onshape authorization is bound to, if any.
    pub onshape_company_id: Option<String>,
    /// The public URL of the server.
    pub public_url: PublicUrl,
    /// Where the state survives a restart, if it does.
    pub persistence: Option<EncryptedStateStore>,
    /// How many clients may be registered.
    pub max_registered_clients: usize,
    /// How many flows may be pending.
    pub max_pending_authorizations: usize,
}

/// The state of the authorization server, as a mathematical value.
#[verifier::ext_equal]
pub struct ServerView {
    /// The registered clients.
    pub clients: Map<Seq<char>, ClientView>,
    /// The pending flows, by the state that Onshape hands back.
    pub pending_auth: Map<Seq<char>, PendingView>,
    /// The authorization codes.
    pub auth_codes: Map<Seq<char>, CodeView>,
    /// The access tokens.
    pub tokens: Map<Seq<char>, TokenView>,
    /// The refresh tokens.
    pub refresh_tokens: Map<Seq<char>, TokenView>,
    /// The Onshape credentials of the users.
    pub user_credentials: CredentialsView,
    /// The locks that serialize the refreshes of a user's Onshape tokens.
    pub refresh_locks: Map<Seq<char>, usize>,
    /// The users that are let in with their access, or nothing where every user is.
    pub allowed_users: Option<Map<Seq<char>, AccessLevel>>,
    /// The client ID of the operator's Onshape application.
    pub onshape_client_id: Seq<char>,
    /// The client secret of the operator's Onshape application.
    pub onshape_client_secret: Seq<char>,
    /// The enterprise that the Onshape authorization is bound to, if any.
    pub onshape_company_id: Option<Seq<char>>,
    /// The public URL of the server.
    pub public_url: Seq<char>,
    /// Where the state survives a restart, if it does.
    pub persistence: Option<StoreView>,
    /// How many clients may be registered.
    pub max_registered_clients: usize,
    /// How many flows may be pending.
    pub max_pending_authorizations: usize,
}

impl View for OAuthServerState {
    type V = ServerView;

    open spec fn view(&self) -> ServerView {
        ServerView {
            clients: self.clients@,
            pending_auth: self.pending_auth@,
            auth_codes: self.auth_codes@,
            tokens: self.tokens@,
            refresh_tokens: self.refresh_tokens@,
            user_credentials: self.user_credentials@,
            refresh_locks: self.refresh_locks@,
            allowed_users: errors::option_view(self.allowed_users),
            onshape_client_id: self.onshape_client_id@,
            onshape_client_secret: self.onshape_client_secret@,
            onshape_company_id: text::opt_chars(self.onshape_company_id),
            public_url: self.public_url@,
            persistence: errors::option_view(self.persistence),
            max_registered_clients: self.max_registered_clients,
            max_pending_authorizations: self.max_pending_authorizations,
        }
    }
}

impl ServerView {
    /// The access of a user, if the user is let in. Where nobody is listed, every user is let in
    /// with full access.
    pub open spec fn access_of(self, user: Seq<char>) -> Option<AccessLevel> {
        match self.allowed_users {
            None => Some(AccessLevel::Full),
            Some(listed) => if listed.dom().contains(user) {
                Some(listed[user])
            } else {
                None
            },
        }
    }

    /// The resource that tokens are issued for: the MCP endpoint.
    pub open spec fn resource(self) -> Seq<char> {
        url::mcp_url(self.public_url)
    }
}

/// The access of the listed users. Of a user that is listed twice, the last entry counts.
pub open spec fn access_map(users: Seq<AllowedUser>) -> Map<Seq<char>, AccessLevel>
    decreases users.len(),
{
    if users.len() == 0 {
        Map::empty()
    } else {
        access_map(users.drop_last()).insert(users.last().id@, users.last().access)
    }
}

/// Who is let in: the listed users, or, without a list, every user.
pub open spec fn listed_access(users: Option<Vec<AllowedUser>>) -> Option<
    Map<Seq<char>, AccessLevel>,
> {
    match users {
        None => None,
        Some(users) => Some(access_map(users@)),
    }
}

fn access_table(users: Vec<AllowedUser>) -> (r: Table<AccessLevel>)
    ensures
        r@ == access_map(users@),
{
    let mut listed: Table<AccessLevel> = Table::new();
    let mut i: usize = 0;
    while i < users.len()
        invariant
            i <= users@.len(),
            listed@ == access_map(users@.take(i as int)),
        decreases users@.len() - i,
    {
        proof {
            assert(users@.take(i + 1).drop_last() =~= users@.take(i as int));
        }
        listed.insert(users[i].id.clone(), users[i].access);
        i = i + 1;
    }
    proof {
        assert(users@.take(users@.len() as int) =~= users@);
    }
    listed
}

// ---------------------------------------------------------------------------
// Tokens
// ---------------------------------------------------------------------------
/// Whether a token was issued to a client for a user.
pub open spec fn is_for(token: TokenView, user: Seq<char>, client: Seq<char>) -> bool {
    token.user_id == user && token.client_id == client
}

/// The tokens after a new one took the place of those that the same client had for the same user.
pub open spec fn replaced(
    tokens: Map<Seq<char>, TokenView>,
    key: Seq<char>,
    token: TokenView,
) -> Map<Seq<char>, TokenView> {
    table::kept(
        tokens,
        |k: Seq<char>, t: TokenView| !is_for(t, token.user_id, token.client_id),
    ).insert(key, token)
}

/// Puts a new token in the place of those that the same client has for the same user, so that
/// at most one is left.
pub fn replace_token(tokens: &mut Table<IssuedToken>, new_key: String, new_value: IssuedToken)
    ensures
        final(tokens)@ == replaced(old(tokens)@, new_key@, new_value@),
{
    let ghost p = |k: Seq<char>, t: TokenView|
        !is_for(t, new_value@.user_id, new_value@.client_id);
    let user: &String = &new_value.user_id;
    let client: &String = &new_value.client_id;
    let keep = |k: &String, t: &IssuedToken| -> (b: bool)
        ensures
            b == !is_for(t@, user@, client@),
    {
        let same_user: bool = same(t.user_id.as_str(), user.as_str());
        let same_client: bool = same(t.client_id.as_str(), client.as_str());
        !same_user || !same_client
    };
    tokens.retain(keep, Ghost(p));
    tokens.insert(new_key, new_value);
}

// ---------------------------------------------------------------------------
// Who a bearer token stands for
// ---------------------------------------------------------------------------
/// What an authenticated request knows about its user.
pub struct UserContext {
    /// The Onshape user.
    pub user_id: String,
    /// The user's Onshape tokens.
    pub onshape_tokens: UserOnshapeTokens,
    /// The validation slot of these credentials.
    pub validation: usize,
    /// How much of the Onshape API the user may reach.
    pub access: AccessLevel,
}

/// The view of a [`UserContext`].
pub struct ContextView {
    /// The Onshape user.
    pub user_id: Seq<char>,
    /// The user's Onshape tokens.
    pub onshape_tokens: UserTokensView,
    /// The validation slot of these credentials.
    pub validation: usize,
    /// How much of the Onshape API the user may reach.
    pub access: AccessLevel,
}

impl View for UserContext {
    type V = ContextView;

    open spec fn view(&self) -> ContextView {
        ContextView {
            user_id: self.user_id@,
            onshape_tokens: self.onshape_tokens@,
            validation: self.validation,
            access: self.access,
        }
    }
}

/// Whether a bearer token was issued, has not expired, and was issued for this server.
pub open spec fn is_live(s: ServerView, token: Seq<char>, now: Timestamp) -> bool {
    &&& s.tokens.dom().contains(token)
    &&& !now.later_than(s.tokens[token].expires_at)
    &&& s.tokens[token].resource == s.resource()
}

/// Who a bearer token stands for: the user of a live token, if the user is let in and has Onshape
/// tokens.
pub open spec fn context_of(s: ServerView, token: Seq<char>, now: Timestamp) -> Option<
    ContextView,
> {
    let user = s.tokens[token].user_id;
    if is_live(s, token, now) && s.access_of(user) is Some && s.user_credentials.tokens_of(
        user,
    ) is Some {
        Some(
            ContextView {
                user_id: user,
                onshape_tokens: s.user_credentials.tokens_of(user)->0,
                validation: s.user_credentials.users[user].validation,
                access: s.access_of(user)->0,
            },
        )
    } else {
        None
    }
}

impl OAuthServerState {
    /// A server without clients, flows, tokens and users, and without durable state. Without a
    /// list of users every user is let in.
    pub fn new(
        public_url: PublicUrl,
        onshape_client_id: String,
        onshape_client_secret: Secret,
        onshape_company_id: Option<String>,
        allowed_users: Option<Vec<AllowedUser>>,
        max_registered_clients: usize,
        max_pending_authorizations: usize,
    ) -> (r: OAuthServerState)
        ensures
            r@.allowed_users == listed_access(allowed_users),
            r@ == (ServerView {
                clients: Map::empty(),
                pending_auth: Map::empty(),
                auth_codes: Map::empty(),
                tokens: Map::empty(),
                refresh_tokens: Map::empty(),
                user_credentials: CredentialsView { users: Map::empty(), slots: Seq::empty() },
                refresh_locks: Map::empty(),
                allowed_users: match allowed_users {
                    None => None,
                    Some(users) => Some(access_map(users@)),
                },
                onshape_client_id: onshape_client_id@,
                onshape_client_secret: onshape_client_secret@,
                onshape_company_id: text::opt_chars(onshape_company_id),
                public_url: public_url@,
                persistence: None,
                max_registered_clients,
                max_pending_authorizations,
            }),
    {
        let listed: Option<Table<AccessLevel>> = match allowed_users {
            None => None,
            Some(users) => Some(access_table(users)),
        };
        OAuthServerState {
            clients: Table::new(),
            pending_auth: Table::new(),
            auth_codes: Table::new(),
            tokens: Table::new(),
            refresh_tokens: Table::new(),
            user_credentials: CredentialStore::new(),
            refresh_locks: LockRegistry::new(),
            allowed_users: listed,
            onshape_client_id,
            onshape_client_secret,
            onshape_company_id,
            public_url,
            persistence: None,
            max_registered_clients,
            max_pending_authorizations,
        }
    }

    /// The access of a user, if the user is let in.
    pub fn access_of(&self, user: &str) -> (r: Option<AccessLevel>)
        ensures
            r == self@.access_of(user@),
    {
        match &self.allowed_users {
            None => Some(AccessLevel::Full),
            Some(listed) => match listed.get(user) {
                Some(access) => Some(*access),
                None => None,
            },
        }
    }

    /// Who a bearer token stands for at a point in time.
    pub fn validate_token_at(&self, token: &str, now: &Timestamp) -> (r: Option<UserContext>)
        ensures
            errors::option_view(r) == context_of(self@, token@, *now),
    {
        let issued: &IssuedToken = match self.tokens.get(token) {
            Some(issued) => issued,
            None => return None,
        };
        if now.is_later(&issued.expires_at) {
            return None;
        }
        if !same(issued.resource.as_str(), self.public_url.mcp().as_str()) {
            return None;
        }
        let user: &String = &issued.user_id;
        match (self.user_credentials.get(user.as_str()), self.access_of(user.as_str())) {
            (Some(held), Some(access)) => match &held.tokens {
                Some(tokens) => Some(
                    UserContext {
                        user_id: user.clone(),
                        onshape_tokens: tokens.duplicate(),
                        validation: held.validation,
                        access,
                    },
                ),
                None => None,
            },
            _ => None,
        }
    }

    /// Who a bearer token stands for now.
    pub fn validate_token(&self, token: &str) -> (r: Option<UserContext>)
        ensures
            exists|now: Timestamp|
                now.on_clock() && errors::option_view(r) == #[trigger] context_of(
                    self@,
                    token@,
                    now,
                ),
    {
        let now: Timestamp = current_time();
        self.validate_token_at(token, &now)
    }

    /// The validation slot of a user, which is opened if there is none.
    pub fn validation_for_user(&mut self, user_id: &str) -> (r: usize)
        ensures
            final(self)@ == (ServerView {
                user_credentials: old(self)@.user_credentials.with_slot(user_id@),
                ..old(self)@
            }),
            r == final(self)@.user_credentials.users[user_id@].validation,
            r < final(self)@.user_credentials.slots.len(),
    {
        self.user_credentials.validation_for_user(user_id)
    }

    /// Stores refreshed tokens of a user, who keeps the validation slot.
    pub fn store_refreshed_user_tokens(&mut self, user_id: &str, tokens: UserOnshapeTokens)
        ensures
            final(self)@ == (ServerView {
                user_credentials: old(self)@.user_credentials.refreshed(user_id@, tokens@),
                ..old(self)@
            }),
    {
        self.user_credentials.store_refreshed(user_id, tokens);
    }

    /// Stores the tokens of a new authorization of a user, who gets a new validation slot.
    pub fn replace_reauthorized_user_tokens(&mut self, user_id: &str, tokens: UserOnshapeTokens)
        ensures
            final(self)@ == (ServerView {
                user_credentials: old(self)@.user_credentials.reauthorized(user_id@, tokens@),
                ..old(self)@
            }),
    {
        self.user_credentials.replace_reauthorized(user_id, tokens);
    }

    /// The lock under which a user's Onshape tokens are refreshed and replaced.
    pub fn get_user_refresh_lock(&mut self, user_id: &str) -> (r: usize)
        ensures
            final(self)@ == (ServerView {
                refresh_locks: credentials::locks_with(old(self)@.refresh_locks, user_id@),
                ..old(self)@
            }),
            final(self)@.refresh_locks.dom().contains(user_id@),
            r == final(self)@.refresh_locks[user_id@],
            credentials::locks_wf(final(self)@.refresh_locks),
    {
        self.refresh_locks.lock_for_user(user_id)
    }
}

} // verus!
