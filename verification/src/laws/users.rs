//! Credentials, validations and locks of the users.

use vstd::prelude::*;

use super::terms;
use crate::callback::OnshapeGrant;
use crate::credentials::{CredentialsView, ValidationStatus, ValidationView};
use crate::records::UserTokensView;
use crate::refresh::{RefreshErrorView, RefreshOutcome, RefreshPlanView};
use crate::state::ServerView;
use crate::time::Timestamp;
use crate::{credentials, refresh};

verus! {

/// A new authorization forgets what was known about the validity of the user's credentials, in a
/// slot that no request has seen before.
pub proof fn law_reauthorization_resets_validation(
    c: CredentialsView,
    user: Seq<char>,
    tokens: UserTokensView,
)
    requires
        c.wf(),
        c.slots.len() < usize::MAX,
    ensures
        ({
            let after = c.reauthorized(user, tokens);
            let slot = after.users[user].validation;
            &&& after.wf()
            &&& slot >= c.slots.len()
            &&& after.slots[slot as int] == credentials::unchecked()
            &&& after.tokens_of(user) == Some(tokens)
            &&& c.users.dom().contains(user) ==> slot != c.users[user].validation
        }),
{
}

/// A refresh keeps the validation slot of the user and what is known there.
pub proof fn law_refresh_keeps_validation(
    c: CredentialsView,
    user: Seq<char>,
    tokens: UserTokensView,
)
    requires
        c.wf(),
        c.users.dom().contains(user),
    ensures
        ({
            let after = c.refreshed(user, tokens);
            &&& after.wf()
            &&& after.users[user].validation == c.users[user].validation
            &&& after.slots == c.slots
            &&& after.tokens_of(user) == Some(tokens)
        }),
{
}

/// A request that outlives a new authorization cannot touch what is known about the new
/// credentials: it writes to the slot of the old ones.
pub proof fn law_stale_validation_is_kept_apart(
    c: CredentialsView,
    user: Seq<char>,
    tokens: UserTokensView,
    stale: int,
    verdict: ValidationView,
)
    requires
        c.wf(),
        c.slots.len() < usize::MAX,
        0 <= stale < c.slots.len(),
    ensures
        ({
            let after = c.reauthorized(user, tokens);
            let written = after.validated(stale, verdict);
            let slot = after.users[user].validation;
            written.users == after.users && written.slots[slot as int] == credentials::unchecked()
        }),
{
}

/// What one user's requests find out about the credentials says nothing about another user's.
pub proof fn law_validations_are_isolated(
    c: CredentialsView,
    user: Seq<char>,
    other: Seq<char>,
    verdict: ValidationView,
)
    requires
        c.wf(),
        c.users.dom().contains(user),
        c.users.dom().contains(other),
        user != other,
    ensures
        ({
            let after = c.validated(c.users[user].validation as int, verdict);
            &&& after.wf()
            &&& after.users == c.users
            &&& after.slots[after.users[user].validation as int] == verdict
            &&& after.slots[after.users[other].validation as int]
                == c.slots[c.users[other].validation as int]
        }),
{
}

/// New tokens of one user change nothing of another user.
pub proof fn law_tokens_are_isolated(
    c: CredentialsView,
    user: Seq<char>,
    other: Seq<char>,
    tokens: UserTokensView,
)
    requires
        c.wf(),
        user != other,
    ensures
        c.refreshed(user, tokens).tokens_of(other) == c.tokens_of(other),
        c.reauthorized(user, tokens).tokens_of(other) == c.tokens_of(other),
        c.users.dom().contains(other) ==> {
            &&& c.refreshed(user, tokens).users[other] == c.users[other]
            &&& c.reauthorized(user, tokens).users[other] == c.users[other]
            &&& c.refreshed(user, tokens).slots[c.users[other].validation as int]
                == c.slots[c.users[other].validation as int]
            &&& c.reauthorized(user, tokens).slots[c.users[other].validation as int]
                == c.slots[c.users[other].validation as int]
        },
{
}

/// A new authorization that comes after a refresh wins: the tokens of the refresh are gone.
pub proof fn law_reauthorization_wins_over_earlier_refresh(
    c: CredentialsView,
    user: Seq<char>,
    refreshed: UserTokensView,
    reauthorized: UserTokensView,
)
    ensures
        c.refreshed(user, refreshed).reauthorized(user, reauthorized).tokens_of(user) == Some(
            reauthorized,
        ),
{
}

/// A user always gets the same lock, and no two users share one.
pub proof fn law_locks_are_stable(m: Map<Seq<char>, usize>, user: Seq<char>, other: Seq<char>)
    requires
        credentials::locks_wf(m),
        m.dom().len() + 2 <= usize::MAX,
    ensures
        ({
            let once = credentials::locks_with(m, user);
            let twice = credentials::locks_with(once, other);
            &&& credentials::locks_wf(once)
            &&& credentials::locks_wf(twice)
            &&& twice[user] == once[user]
            &&& m.dom().contains(user) ==> once[user] == m[user]
            &&& credentials::locks_with(twice, user) == twice
            &&& user != other ==> twice[user] != twice[other]
        }),
{
}

/// A refresh that fails changes nothing, and one that brings no new refresh token keeps the old one.
pub proof fn law_refresh_outcomes(
    s: ServerView,
    user: Seq<char>,
    current: UserTokensView,
    outcome: refresh::RefreshOutcome,
    now: Timestamp,
)
    ensures
        ({
            let (after, done) = refresh::complete_step(s, user, current, outcome, now);
            &&& outcome is Failed ==> after == s && done is Err
            &&& outcome matches refresh::RefreshOutcome::Granted(grant) ==> {
                &&& done is Ok
                &&& after.user_credentials.tokens_of(user) == Some(done->Ok_0)
                &&& grant@.refresh_token is None ==> done->Ok_0.refresh_token
                    == current.refresh_token
            }
        }),
{
}

/// A user whose tokens were refreshed while a request waited is not refreshed again.
pub proof fn law_fresh_tokens_are_kept(
    s: ServerView,
    user: Seq<char>,
    stale_before: Timestamp,
)
    requires
        s.user_credentials.tokens_of(user) matches Some(tokens) && tokens.expires_at matches Some(
            expires,
        ) && expires.later_than(stale_before),
    ensures
        refresh::refresh_plan(s, user, Some(stale_before)) == Ok::<
            refresh::RefreshPlanView,
            refresh::RefreshErrorView,
        >(refresh::RefreshPlanView::Keep(s.user_credentials.tokens_of(user)->0)),
{
}

/// A refresh that Onshape grants gives the user what was granted, and nothing of what ran out: the new
/// access token, the new refresh token if there is one, and the new expiry. That is what is kept and
/// what is returned; the user keeps the slot, the other users keep what they have, and nothing else
/// changes.
pub proof fn law_granted_refresh_gives_the_new_tokens(
    s: ServerView,
    user: Seq<char>,
    current: UserTokensView,
    grant: OnshapeGrant,
    now: Timestamp,
    other: Seq<char>,
)
    requires
        s.user_credentials.wf(),
        s.user_credentials.slots.len() < usize::MAX,
        grant.expires_in matches Some(secs) ==> secs > 9_223_372_036_854_775 || now.secs + secs
            <= 8_210_266_876_799,
        other != user,
    ensures
        ({
            let (after, done) = refresh::complete_step(
                s,
                user,
                current,
                RefreshOutcome::Granted(grant),
                now,
            );
            let was = s.user_credentials;
            let held = after.user_credentials.users[user];
            let tokens = done->Ok_0;
            &&& done is Ok
            &&& tokens.access_token == grant.access_token@
            &&& tokens.refresh_token == match grant.refresh_token {
                Some(token) => token@,
                None => current.refresh_token,
            }
            &&& terms::runs_out(tokens.expires_at, now, grant.expires_in)
            &&& held.tokens == Some(tokens)
            &&& after.user_credentials.users.dom() == was.users.dom().insert(user)
            &&& was.users.dom().contains(user) ==> held.validation == was.users[user].validation
                && after.user_credentials.slots == was.slots
            &&& !was.users.dom().contains(user)
                ==> after.user_credentials.slots[held.validation as int] == (ValidationView {
                status: ValidationStatus::Unchecked,
                last_check: None,
                message: None,
            })
            &&& was.users.dom().contains(other) ==> after.user_credentials.users[other]
                == was.users[other]
            &&& was.slots.is_prefix_of(after.user_credentials.slots)
            &&& after == (ServerView { user_credentials: after.user_credentials, ..s })
        }),
{
    let after = refresh::complete_step(s, user, current, RefreshOutcome::Granted(grant), now).0;
    assert(after.user_credentials.users.dom() =~= s.user_credentials.users.dom().insert(user));
    assert(s.user_credentials.slots.is_prefix_of(after.user_credentials.slots));
}

/// A refresh that fails is for good exactly if the failure names an invalid grant or an unauthorized
/// client; it is reported as it is, and nothing changes.
pub proof fn law_failed_refresh_is_reported(
    s: ServerView,
    user: Seq<char>,
    current: UserTokensView,
    reason: String,
    now: Timestamp,
    left: Seq<char>,
    right: Seq<char>,
)
    ensures
        ({
            let (after, done) = refresh::complete_step(
                s,
                user,
                current,
                RefreshOutcome::Failed(reason),
                now,
            );
            &&& after == s
            &&& done == Err::<UserTokensView, RefreshErrorView>(
                RefreshErrorView::PermanentExchange(reason@),
            ) || done == Err::<UserTokensView, RefreshErrorView>(
                RefreshErrorView::Exchange(reason@),
            )
            &&& reason@ == left + "invalid_grant"@ + right || reason@ == left
                + "unauthorized_client"@ + right ==> done->Err_0 is PermanentExchange
            &&& done->Err_0 is PermanentExchange ==> exists|i: int, j: int|
                0 <= i <= j <= reason@.len() && (#[trigger] reason@.subrange(i, j)
                    == "invalid_grant"@ || reason@.subrange(i, j) == "unauthorized_client"@)
        }),
{
    let whole = reason@;
    let grant = "invalid_grant"@;
    let client = "unauthorized_client"@;
    let at: int = left.len() as int;
    if whole == left + grant + right {
        assert(whole.subrange(at, at + grant.len()) =~= grant);
        assert(crate::text::holds_part(whole, grant));
    }
    if whole == left + client + right {
        assert(whole.subrange(at, at + client.len()) =~= client);
        assert(crate::text::holds_part(whole, client));
    }
    if crate::text::holds_part(whole, grant) {
        let i = choose|i: int|
            0 <= i <= whole.len() - grant.len() && #[trigger] whole.subrange(i, i + grant.len())
                == grant;
        let j: int = i + grant.len();
        assert(whole.subrange(i, j) == grant);
    } else if crate::text::holds_part(whole, client) {
        let i = choose|i: int|
            0 <= i <= whole.len() - client.len() && #[trigger] whole.subrange(i, i + client.len())
                == client;
        let j: int = i + client.len();
        assert(whole.subrange(i, j) == client);
    }
}

/// A user without tokens cannot be refreshed. The tokens of any other user are refreshed, unless they
/// are known to expire after the time up to which they count as stale.
pub proof fn law_tokens_are_refreshed_unless_fresh(
    s: ServerView,
    user: Seq<char>,
    stale_before: Option<Timestamp>,
)
    ensures
        ({
            let plan = refresh::refresh_plan(s, user, stale_before);
            let held = s.user_credentials.users[user].tokens;
            let found = s.user_credentials.users.dom().contains(user) && held is Some;
            let fresh = stale_before is Some && held->0.expires_at is Some && terms::past(
                held->0.expires_at->0,
                stale_before->0,
                0,
            );
            &&& !found ==> plan == Err::<RefreshPlanView, RefreshErrorView>(
                RefreshErrorView::UserNotFound,
            )
            &&& found && fresh ==> plan == Ok::<RefreshPlanView, RefreshErrorView>(
                RefreshPlanView::Keep(held->0),
            )
            &&& found && !fresh ==> plan == Ok::<RefreshPlanView, RefreshErrorView>(
                RefreshPlanView::Refresh(held->0),
            )
        }),
{
}

/// What is sent to Onshape is the user's own refresh token. Without a client nothing can be sent, and
/// without a refresh token the user has to authorize anew.
pub proof fn law_own_refresh_token_is_sent(client: Result<(), String>, tokens: UserTokensView)
    ensures
        ({
            let sent = refresh::prepared(client, tokens);
            &&& client matches Err(reason) ==> sent == Err::<Seq<char>, RefreshErrorView>(
                RefreshErrorView::HttpClient(reason@),
            )
            &&& client is Ok && tokens.refresh_token.len() > 0 ==> sent == Ok::<
                Seq<char>,
                RefreshErrorView,
            >(tokens.refresh_token)
            &&& client is Ok && tokens.refresh_token.len() == 0 ==> sent == Err::<
                Seq<char>,
                RefreshErrorView,
            >(
                RefreshErrorView::PermanentExchange(
                    "no refresh token is stored for this user; re-authentication is required"@,
                ),
            )
        }),
{
}

/// A refresh that fails is reported in words that end with the reason.
pub proof fn law_refresh_errors_give_the_reason(reason: Seq<char>)
    ensures
        refresh::refresh_error_text(RefreshErrorView::Exchange(reason))
            == "token refresh request failed: "@ + reason,
        refresh::refresh_error_text(RefreshErrorView::PermanentExchange(reason))
            == "token refresh permanently failed: "@ + reason,
        refresh::refresh_error_text(RefreshErrorView::HttpClient(reason))
            == "failed to build HTTP client: "@ + reason,
        refresh::refresh_error_text(RefreshErrorView::UserNotFound)
            == "user not found in token store"@,
{
}

/// A look at a user's validation changes nothing if the user is known. An unknown user gets a slot of
/// the own, in which nothing is known, and no tokens; the other users keep what they have.
pub proof fn law_look_opens_at_most_one_slot(c: CredentialsView, user: Seq<char>, other: Seq<char>)
    requires
        c.wf(),
        c.slots.len() < usize::MAX,
        other != user,
    ensures
        ({
            let after = c.with_slot(user);
            &&& after.wf()
            &&& c.users.dom().contains(user) ==> after == c
            &&& !c.users.dom().contains(user) ==> {
                &&& after.users.dom() == c.users.dom().insert(user)
                &&& after.users[user].tokens is None
                &&& after.users[user].validation == c.slots.len()
                &&& after.slots == c.slots.push(
                    ValidationView {
                        status: ValidationStatus::Unchecked,
                        last_check: None,
                        message: None,
                    },
                )
            }
            &&& c.users.dom().contains(other) ==> after.users[other] == c.users[other]
        }),
{
    assert(c.users.dom().contains(user) || c.with_slot(user).users.dom()
        =~= c.users.dom().insert(user));
}

/// The outcome of a validation is kept in its slot, and in no other.
pub proof fn law_verdict_goes_to_its_slot(
    c: CredentialsView,
    slot: int,
    verdict: ValidationView,
    other: int,
)
    requires
        0 <= slot < c.slots.len(),
        0 <= other < c.slots.len(),
        other != slot,
    ensures
        c.validated(slot, verdict).slots[slot] == verdict,
        c.validated(slot, verdict).slots[other] == c.slots[other],
        c.validated(slot, verdict).slots.len() == c.slots.len(),
        c.validated(slot, verdict).users == c.users,
{
}

/// A user who has no lock gets one, and nobody loses the own.
pub proof fn law_locks_stay_with_their_users(
    m: Map<Seq<char>, usize>,
    user: Seq<char>,
    other: Seq<char>,
)
    requires
        credentials::locks_wf(m),
        m.dom().len() < usize::MAX,
    ensures
        credentials::locks_with(m, user).dom() == m.dom().insert(user),
        m.dom().contains(other) ==> credentials::locks_with(m, user)[other] == m[other],
        !m.dom().contains(user) && m.dom().contains(other) ==> credentials::locks_with(
            m,
            user,
        )[user] != m[other],
{
    assert(credentials::locks_with(m, user).dom() =~= m.dom().insert(user));
}

/// A refresh gives its tokens exactly if they were saved; otherwise it can be tried again.
pub proof fn law_refresh_counts_once_saved(tokens: UserTokensView, saved: Result<(), String>)
    ensures
        saved is Ok ==> refresh::settled(tokens, saved) == Ok::<UserTokensView, RefreshErrorView>(
            tokens,
        ),
        saved matches Err(reason) ==> refresh::settled(tokens, saved) == Err::<
            UserTokensView,
            RefreshErrorView,
        >(RefreshErrorView::Exchange(reason@)),
{
}

/// An outcome can be kept exactly if it is a failure, or a grant whose expiry the calendar can show.
pub proof fn law_which_outcomes_can_be_kept(now: Timestamp, outcome: RefreshOutcome)
    ensures
        refresh::shows_outcome(now, outcome) <==> match outcome {
            RefreshOutcome::Failed(_) => true,
            RefreshOutcome::Granted(grant) => match grant.expires_in {
                None => true,
                Some(secs) => secs > 9_223_372_036_854_775 || now.secs + secs
                    <= 8_210_266_876_799,
            },
        },
{
}

} // verus!
