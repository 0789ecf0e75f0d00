//! The refresh of a user's Onshape tokens.
//!
//! The caller holds the user's refresh lock from the first step to the last, and talks to Onshape
//! in between:
//!
//! 1. [`refresh_user_onshape_tokens`] finds the tokens, and whether another request refreshed them meanwhile.
//! 2. The caller makes an HTTP client; [`prepare_refresh`] takes the outcome and gives the refresh
//!    token to send.
//! 3. The caller asks Onshape; [`complete_refresh`] takes the outcome and keeps the new tokens.
//! 4. The caller saves the state; [`settle_refresh`] takes the outcome.

use vstd::prelude::*;

use crate::callback::{GrantView, OnshapeGrant};
use crate::outside::current_time;
use crate::records::{Secret, UserOnshapeTokens, UserTokensView};
use crate::state::{OAuthServerState, ServerView};
use crate::table::Duplicate;
use crate::text::{contains_text, join2};
use crate::time::{expiry, Timestamp};
use crate::{errors, text, time};

verus! {

/// Why a user's Onshape tokens could not be refreshed.
#[derive(Debug, PartialEq, Eq)]
pub enum UserTokenRefreshError {
    /// The user has no tokens.
    UserNotFound,
    /// Onshape could not be asked, or failed; another attempt may succeed.
    Exchange(String),
    /// Onshape will not accept the refresh token any more.
    PermanentExchange(String),
    /// There was no HTTP client to ask with.
    HttpClient(String),
}

/// The view of a [`UserTokenRefreshError`].
pub enum RefreshErrorView {
    /// The user has no tokens.
    UserNotFound,
    /// Onshape could not be asked, or failed; another attempt may succeed.
    Exchange(Seq<char>),
    /// Onshape will not accept the refresh token any more.
    PermanentExchange(Seq<char>),
    /// There was no HTTP client to ask with.
    HttpClient(Seq<char>),
}

impl View for UserTokenRefreshError {
    type V = RefreshErrorView;

    open spec fn view(&self) -> RefreshErrorView {
        match self {
            UserTokenRefreshError::UserNotFound => RefreshErrorView::UserNotFound,
            UserTokenRefreshError::Exchange(m) => RefreshErrorView::Exchange(m@),
            UserTokenRefreshError::PermanentExchange(m) => RefreshErrorView::PermanentExchange(m@),
            UserTokenRefreshError::HttpClient(m) => RefreshErrorView::HttpClient(m@),
        }
    }
}

/// The text that an error is reported with.
pub open spec fn refresh_error_text(e: RefreshErrorView) -> Seq<char> {
    match e {
        RefreshErrorView::UserNotFound => "user not found in token store"@,
        RefreshErrorView::Exchange(m) => "token refresh request failed: "@ + m,
        RefreshErrorView::PermanentExchange(m) => "token refresh permanently failed: "@ + m,
        RefreshErrorView::HttpClient(m) => "failed to build HTTP client: "@ + m,
    }
}

impl UserTokenRefreshError {
    /// The text that the error is reported with.
    pub fn message(&self) -> (r: String)
        ensures
            r@ == refresh_error_text(self@),
    {
        match self {
            UserTokenRefreshError::UserNotFound => "user not found in token store".to_owned(),
            UserTokenRefreshError::Exchange(m) => join2(
                "token refresh request failed: ",
                m.as_str(),
            ),
            UserTokenRefreshError::PermanentExchange(m) => join2(
                "token refresh permanently failed: ",
                m.as_str(),
            ),
            UserTokenRefreshError::HttpClient(m) => join2(
                "failed to build HTTP client: ",
                m.as_str(),
            ),
        }
    }
}

// ---------------------------------------------------------------------------
// Whether to refresh
// ---------------------------------------------------------------------------
/// What to do about a user's tokens.
pub enum RefreshPlan {
    /// Nothing: they were refreshed meanwhile.
    Keep(UserOnshapeTokens),
    /// Refresh them.
    Refresh(UserOnshapeTokens),
}

/// The view of a [`RefreshPlan`].
pub enum RefreshPlanView {
    /// Nothing: they were refreshed meanwhile.
    Keep(UserTokensView),
    /// Refresh them.
    Refresh(UserTokensView),
}

impl View for RefreshPlan {
    type V = RefreshPlanView;

    open spec fn view(&self) -> RefreshPlanView {
        match self {
            RefreshPlan::Keep(tokens) => RefreshPlanView::Keep(tokens@),
            RefreshPlan::Refresh(tokens) => RefreshPlanView::Refresh(tokens@),
        }
    }
}

/// Whether tokens expire after the point in time up to which they count as stale.
pub open spec fn is_fresh(tokens: UserTokensView, stale_before: Option<Timestamp>) -> bool {
    match (stale_before, tokens.expires_at) {
        (Some(stale), Some(expires)) => expires.later_than(stale),
        _ => false,
    }
}

/// What to do about a user's tokens.
pub open spec fn refresh_plan(
    s: ServerView,
    user: Seq<char>,
    stale_before: Option<Timestamp>,
) -> Result<RefreshPlanView, RefreshErrorView> {
    match s.user_credentials.tokens_of(user) {
        None => Err(RefreshErrorView::UserNotFound),
        Some(tokens) => if is_fresh(tokens, stale_before) {
            Ok(RefreshPlanView::Keep(tokens))
        } else {
            Ok(RefreshPlanView::Refresh(tokens))
        },
    }
}

/// Finds a user's tokens. They need no refresh where they expire after `stale_before`: another
/// request refreshed them while this one waited for the lock.
pub fn refresh_user_onshape_tokens(state: &OAuthServerState, user_id: &str, stale_before: Option<Timestamp>) -> (r:
    Result<RefreshPlan, UserTokenRefreshError>)
    ensures
        errors::result_view(r) == refresh_plan(state@, user_id@, stale_before),
{
    let tokens: UserOnshapeTokens = match state.user_credentials.get(user_id) {
        Some(held) => match &held.tokens {
            Some(tokens) => tokens.duplicate(),
            None => return Err(UserTokenRefreshError::UserNotFound),
        },
        None => return Err(UserTokenRefreshError::UserNotFound),
    };
    match (stale_before, tokens.expires_at()) {
        (Some(stale), Some(expires)) => if expires.is_later(&stale) {
            Ok(RefreshPlan::Keep(tokens))
        } else {
            Ok(RefreshPlan::Refresh(tokens))
        },
        _ => Ok(RefreshPlan::Refresh(tokens)),
    }
}

// ---------------------------------------------------------------------------
// What to ask Onshape
// ---------------------------------------------------------------------------
/// The refresh token to send, or why none can be.
pub open spec fn prepared(
    client: Result<(), String>,
    tokens: UserTokensView,
) -> Result<Seq<char>, RefreshErrorView> {
    match client {
        Err(reason) => Err(RefreshErrorView::HttpClient(reason@)),
        Ok(_) => if tokens.refresh_token.len() == 0 {
            Err(
                RefreshErrorView::PermanentExchange(
                    "no refresh token is stored for this user; re-authentication is required"@,
                ),
            )
        } else {
            Ok(tokens.refresh_token)
        },
    }
}

/// Gives the refresh token to send, if there is an HTTP client and a refresh token.
pub fn prepare_refresh(client: Result<(), String>, tokens: &UserOnshapeTokens) -> (r: Result<
    Secret,
    UserTokenRefreshError,
>)
    ensures
        errors::result_view(r) == prepared(client, tokens@),
{
    if let Err(reason) = client {
        return Err(UserTokenRefreshError::HttpClient(reason));
    }
    if tokens.refresh_token().expose().unicode_len() == 0 {
        return Err(
            UserTokenRefreshError::PermanentExchange(
                "no refresh token is stored for this user; re-authentication is required".to_owned(),
            ),
        );
    }
    Ok(tokens.refresh_token().duplicate())
}

// ---------------------------------------------------------------------------
// What Onshape says
// ---------------------------------------------------------------------------
/// Whether a failure means that Onshape will not accept the refresh token any more.
pub open spec fn is_permanent(message: Seq<char>) -> bool {
    text::holds_part(message, "invalid_grant"@) || text::holds_part(
        message,
        "unauthorized_client"@,
    )
}

/// Whether a failure means that Onshape will not accept the refresh token any more.
pub fn is_permanent_refresh_failure(message: &str) -> (r: bool)
    ensures
        r == is_permanent(message@),
{
    contains_text(message, "invalid_grant") || contains_text(message, "unauthorized_client")
}

/// The tokens that come of a refresh. Where Onshape sends no new refresh token, the old one stays.
pub open spec fn refreshed_tokens(
    current: UserTokensView,
    grant: GrantView,
    now: Timestamp,
) -> UserTokensView {
    UserTokensView {
        access_token: grant.access_token,
        refresh_token: match grant.refresh_token {
            Some(token) => token,
            None => current.refresh_token,
        },
        expires_at: time::expiry_of(now, grant.expires_in),
    }
}

/// What a failed refresh is reported as.
pub open spec fn failure(message: Seq<char>) -> RefreshErrorView {
    if is_permanent(message) {
        RefreshErrorView::PermanentExchange(message)
    } else {
        RefreshErrorView::Exchange(message)
    }
}

/// What came of asking Onshape for new tokens.
pub enum RefreshOutcome {
    /// Onshape could not be asked, or granted nothing.
    Failed(String),
    /// What Onshape granted.
    Granted(OnshapeGrant),
}

/// What an outcome does: new tokens take the place of the old ones, and a failure changes nothing.
pub open spec fn complete_step(
    s: ServerView,
    user: Seq<char>,
    current: UserTokensView,
    outcome: RefreshOutcome,
    now: Timestamp,
) -> (ServerView, Result<UserTokensView, RefreshErrorView>) {
    match outcome {
        RefreshOutcome::Failed(message) => (s, Err(failure(message@))),
        RefreshOutcome::Granted(grant) => {
            let tokens = refreshed_tokens(current, grant@, now);
            (
                ServerView {
                    user_credentials: s.user_credentials.refreshed(user, tokens),
                    ..s
                },
                Ok(tokens),
            )
        },
    }
}

/// Whether the calendar can show when the granted tokens expire.
pub open spec fn shows_outcome(now: Timestamp, outcome: RefreshOutcome) -> bool {
    outcome matches RefreshOutcome::Granted(grant) ==> time::shows_expiry(now, grant.expires_in)
}

/// Takes what came of asking Onshape for new tokens, at a point in time.
pub fn complete_refresh_at(
    state: &mut OAuthServerState,
    user_id: &str,
    current: &UserOnshapeTokens,
    outcome: RefreshOutcome,
    now: &Timestamp,
) -> (r: Result<UserOnshapeTokens, UserTokenRefreshError>)
    requires
        shows_outcome(*now, outcome),
    ensures
        (final(state)@, errors::result_view(r)) == complete_step(
            old(state)@,
            user_id@,
            current@,
            outcome,
            *now,
        ),
{
    match outcome {
        RefreshOutcome::Failed(message) => if is_permanent_refresh_failure(message.as_str()) {
            Err(UserTokenRefreshError::PermanentExchange(message))
        } else {
            Err(UserTokenRefreshError::Exchange(message))
        },
        RefreshOutcome::Granted(grant) => {
            let refresh_token: Secret = match grant.refresh_token {
                Some(token) => token,
                None => current.refresh_token().duplicate(),
            };
            let expires_at: Option<Timestamp> = expiry(now, grant.expires_in);
            let tokens: UserOnshapeTokens = UserOnshapeTokens::new(
                grant.access_token,
                refresh_token,
                expires_at,
            );
            state.store_refreshed_user_tokens(user_id, tokens.duplicate());
            Ok(tokens)
        },
    }
}

/// Takes what came of asking Onshape for new tokens, at a point in time. Nothing is kept, and
/// nothing is returned, where the calendar cannot show when the tokens expire.
pub fn complete_refresh_on(
    state: &mut OAuthServerState,
    user_id: &str,
    current: &UserOnshapeTokens,
    outcome: RefreshOutcome,
    now: &Timestamp,
) -> (r: Option<Result<UserOnshapeTokens, UserTokenRefreshError>>)
    ensures
        r is Some <==> shows_outcome(*now, outcome),
        r is None ==> final(state)@ == old(state)@,
        r matches Some(done) ==> (final(state)@, errors::result_view(done)) == complete_step(
            old(state)@,
            user_id@,
            current@,
            outcome,
            *now,
        ),
{
    let shown: bool = match &outcome {
        RefreshOutcome::Failed(_) => true,
        RefreshOutcome::Granted(grant) => time::can_show_expiry(now, grant.expires_in),
    };
    if shown {
        Some(complete_refresh_at(state, user_id, current, outcome, now))
    } else {
        None
    }
}

/// Takes what came of asking Onshape for new tokens. Nothing is kept, and nothing is returned,
/// where the calendar cannot show when the tokens expire.
pub fn complete_refresh(
    state: &mut OAuthServerState,
    user_id: &str,
    current: &UserOnshapeTokens,
    outcome: RefreshOutcome,
) -> (r: Option<Result<UserOnshapeTokens, UserTokenRefreshError>>)
    ensures
        exists|now: Timestamp|
            #![trigger shows_outcome(now, outcome)]
            {
                &&& now.on_clock()
                &&& r is Some <==> shows_outcome(now, outcome)
                &&& r is None ==> final(state)@ == old(state)@
                &&& r matches Some(done) ==> (final(state)@, errors::result_view(done))
                    == complete_step(old(state)@, user_id@, current@, outcome, now)
            },
{
    let now: Timestamp = current_time();
    complete_refresh_on(state, user_id, current, outcome, &now)
}

/// What a refresh gives in the end that Onshape granted: the tokens, once they are saved.
pub open spec fn settled(tokens: UserTokensView, saved: Result<(), String>) -> Result<
    UserTokensView,
    RefreshErrorView,
> {
    match saved {
        Ok(_) => Ok(tokens),
        Err(reason) => Err(RefreshErrorView::Exchange(reason@)),
    }
}

/// Ends a refresh: where the state could not be saved, the refresh failed for the time being.
pub fn settle_refresh(tokens: UserOnshapeTokens, saved: Result<(), String>) -> (r: Result<
    UserOnshapeTokens,
    UserTokenRefreshError,
>)
    ensures
        errors::result_view(r) == settled(tokens@, saved),
        match saved {
            Ok(_) => r == Ok::<UserOnshapeTokens, UserTokenRefreshError>(tokens),
            Err(reason) => r matches Err(e) && e@ == RefreshErrorView::Exchange(reason@),
        },
{
    match saved {
        Ok(_) => Ok(tokens),
        Err(reason) => Err(UserTokenRefreshError::Exchange(reason)),
    }
}

} // verus!
