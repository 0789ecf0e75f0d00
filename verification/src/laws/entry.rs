//! Who is let in at the MCP endpoint, and what the others are told.

use vstd::prelude::*;

use super::terms;
use crate::middleware::UnauthorizedView;
use crate::records::AllowedUser;
use crate::state::{ContextView, ServerView};
use crate::time::Timestamp;
use crate::{middleware, state};

verus! {

/// Whether a header is a bearer token: `Bearer` in any case, a space, and something behind it.
pub open spec fn bears(header: Seq<char>, token: Seq<char>) -> bool {
    &&& token.len() > 0
    &&& header.len() == 7 + token.len()
    &&& header.skip(7) == token
    &&& forall|i: int|
        0 <= i < 7 ==> #[trigger] header[i] == "bearer "@[i] || header[i] == "BEARER "@[i]
}

/// A token lets its user in exactly if it is an access token that has not run out, for the MCP endpoint
/// of this server, whose user is let in and holds Onshape tokens. The request goes on as that user,
/// with those tokens, with what is known about their validity, and with the access of the user.
pub proof fn law_token_lets_in_exactly_if(s: ServerView, text: Seq<char>, now: Timestamp)
    ensures
        ({
            let context = state::context_of(s, text, now);
            let user = s.tokens[text].user_id;
            let held = s.user_credentials.users[user];
            &&& context is Some <==> {
                &&& s.tokens.dom().contains(text)
                &&& !terms::past(now, s.tokens[text].expires_at, 0)
                &&& s.tokens[text].resource == terms::at_path(s.public_url, "/mcp"@)
                &&& s.allowed_users matches Some(listed) ==> listed.dom().contains(user)
                &&& s.user_credentials.users.dom().contains(user)
                &&& held.tokens is Some
            }
            &&& context matches Some(context) ==> {
                let context: ContextView = context;
                &&& context.user_id == user
                &&& Some(context.onshape_tokens) == held.tokens
                &&& context.validation == held.validation
                &&& terms::is_let_in(s, user, context.access)
            }
        }),
{
    terms::lemma_own_urls(s.public_url);
}

/// A request goes on exactly if its header bears a token that lets its user in.
pub proof fn law_request_goes_on_exactly_if(
    s: ServerView,
    header: Option<Seq<char>>,
    now: Timestamp,
    token: Seq<char>,
)
    ensures
        ({
            let outcome = middleware::authentication(s, header, now);
            &&& outcome matches Ok(context) ==> {
                &&& header is Some
                &&& bears(header->0, header->0.skip(7))
                &&& state::context_of(s, header->0.skip(7), now) == Some(context)
            }
            &&& header is Some && bears(header->0, token) && state::context_of(
                s,
                token,
                now,
            ) is Some ==> outcome == Ok::<ContextView, UnauthorizedView>(
                state::context_of(s, token, now)->0,
            )
        }),
{
    lemma_bears(header, token);
}

proof fn lemma_bears(header: Option<Seq<char>>, token: Seq<char>)
    ensures
        header is Some && bears(header->0, token) ==> middleware::bearer_of(header->0) == Some(
            token,
        ),
        header is Some && middleware::bearer_of(header->0) is Some ==> bears(
            header->0,
            header->0.skip(7),
        ) && middleware::bearer_of(header->0) == Some(header->0.skip(7)),
{
    reveal_strlit("bearer ");
    reveal_strlit("BEARER ");
    if header is Some {
        let h = header->0;
        if bears(h, token) {
            assert(h[0] == "bearer "@[0] || h[0] == "BEARER "@[0]);
            assert(h[1] == "bearer "@[1] || h[1] == "BEARER "@[1]);
            assert(h[2] == "bearer "@[2] || h[2] == "BEARER "@[2]);
            assert(h[3] == "bearer "@[3] || h[3] == "BEARER "@[3]);
            assert(h[4] == "bearer "@[4] || h[4] == "BEARER "@[4]);
            assert(h[5] == "bearer "@[5] || h[5] == "BEARER "@[5]);
            assert(h[6] == "bearer "@[6] || h[6] == "BEARER "@[6]);
        }
    }
}

/// Whether a request was refused, with an error code and a description, and told where the metadata
/// of the MCP endpoint are.
pub open spec fn sent_away(
    s: ServerView,
    outcome: Result<ContextView, UnauthorizedView>,
    error: Seq<char>,
    description: Seq<char>,
) -> bool {
    outcome matches Err(refusal) && {
        &&& refusal.status == 401
        &&& refusal.body == description
        &&& refusal.www_authenticate == "Bearer resource_metadata=\""@ + terms::at_path(
            s.public_url,
            "/.well-known/oauth-protected-resource/mcp"@,
        ) + "\", error=\""@ + error + "\", error_description=\""@ + description + "\""@
    }
}

/// A request that is refused is told why.
pub proof fn law_refused_request_is_explained(
    s: ServerView,
    header: Option<Seq<char>>,
    now: Timestamp,
    token: Seq<char>,
)
    ensures
        ({
            let outcome = middleware::authentication(s, header, now);
            &&& header is None ==> sent_away(
                s,
                outcome,
                "invalid_request"@,
                "Missing Authorization header"@,
            )
            &&& header is Some && !bears(header->0, header->0.skip(7)) ==> sent_away(
                s,
                outcome,
                "invalid_request"@,
                "Invalid Authorization header format"@,
            )
            &&& header is Some && bears(header->0, token) && state::context_of(
                s,
                token,
                now,
            ) is None ==> sent_away(
                s,
                outcome,
                "invalid_token"@,
                "Invalid or expired token"@,
            )
        }),
{
    lemma_bears(header, token);
    terms::lemma_own_urls(s.public_url);
}

/// A listed user is let in with the access that is listed last for the user.
pub proof fn law_last_entry_of_a_user_counts(users: Seq<AllowedUser>, at: int)
    requires
        0 <= at < users.len(),
        forall|j: int| at < j < users.len() ==> (#[trigger] users[j]).id@ != users[at].id@,
    ensures
        state::access_map(users).dom().contains(users[at].id@),
        state::access_map(users)[users[at].id@] == users[at].access,
    decreases users.len(),
{
    let rest = users.drop_last();
    if at < rest.len() {
        assert(users[users.len() - 1].id@ != users[at].id@);
        assert forall|j: int| at < j < rest.len() implies (#[trigger] rest[j]).id@
            != rest[at].id@ by {
            assert(users[j].id@ != users[at].id@);
        }
        law_last_entry_of_a_user_counts(rest, at);
    }
}

/// A user who is not listed is not let in.
pub proof fn law_nobody_else_is_listed(users: Seq<AllowedUser>, user: Seq<char>)
    requires
        forall|j: int| 0 <= j < users.len() ==> (#[trigger] users[j]).id@ != user,
    ensures
        !state::access_map(users).dom().contains(user),
    decreases users.len(),
{
    if users.len() > 0 {
        let rest = users.drop_last();
        assert(users[users.len() - 1].id@ != user);
        assert forall|j: int| 0 <= j < rest.len() implies (#[trigger] rest[j]).id@ != user by {
            assert(users[j].id@ != user);
        }
        law_nobody_else_is_listed(rest, user);
    }
}

/// Without a list everybody is let in, and an empty list lets nobody in.
pub proof fn law_empty_list_is_no_missing_list(users: Option<Vec<AllowedUser>>, user: Seq<char>)
    ensures
        state::listed_access(users) is None <==> users is None,
        users matches Some(listed) ==> (forall|j: int|
            0 <= j < listed@.len() ==> (#[trigger] listed@[j]).id@ != user)
            ==> !state::listed_access(users)->0.dom().contains(user),
        users matches Some(listed) ==> state::listed_access(users) == Some(
            state::access_map(listed@),
        ),
{
    if users is Some && (forall|j: int|
        0 <= j < users->0@.len() ==> (#[trigger] users->0@[j]).id@ != user) {
        law_nobody_else_is_listed(users->0@, user);
    }
}

} // verus!
