//! The way of the browser: to Onshape, and back to the client.

use vstd::prelude::*;

use super::terms;
use crate::authorization::AuthorizeView;
use crate::callback::{
    CallbackAcceptedView, CallbackCodeView, CallbackGrantView, CallbackParamsView,
    CallbackStartView, CallbackUserView, ExchangeOutcome, GrantView, IdentityOutcome,
};
use crate::credentials::{ValidationStatus, ValidationView};
use crate::errors::HttpErrorView;
use crate::records::PendingView;
use crate::state::ServerView;
use crate::time::Timestamp;
use crate::{authorization, callback, encoding, outside, url};

verus! {

// ---------------------------------------------------------------------------
// To Onshape
// ---------------------------------------------------------------------------
/// Whether an authorization request is in order: it asks for a code for the MCP endpoint of this
/// server, on behalf of a registered client, to a redirect URI of that client, and brings a PKCE
/// challenge made by S256.
pub open spec fn is_in_order(s: ServerView, p: AuthorizeView) -> bool {
    &&& p.response_type == "code"@
    &&& p.resource == Some(terms::at_path(s.public_url, "/mcp"@))
    &&& s.clients.dom().contains(p.client_id)
    &&& s.clients[p.client_id].redirect_uris.contains(p.redirect_uri)
    &&& p.code_challenge is Some
    &&& p.code_challenge_method == Some("S256"@)
}

/// The flows that began less than ten minutes ago.
pub open spec fn young_flows(s: ServerView, now: Timestamp) -> Set<Seq<char>> {
    s.pending_auth.dom().filter(
        |k: Seq<char>| terms::short_of(now, s.pending_auth[k].created_at, 600),
    )
}

/// What the browser brings to Onshape.
pub open spec fn question(s: ServerView, verifier: Seq<char>, csrf: Seq<char>) -> Seq<
    (Seq<char>, Seq<char>),
> {
    let asked = seq![
        ("response_type"@, "code"@),
        ("client_id"@, s.onshape_client_id),
        ("state"@, csrf),
        (
            "code_challenge"@,
            encoding::base64url_text(outside::sha256_digest(vstd::utf8::encode_utf8(verifier))),
        ),
        ("code_challenge_method"@, "S256"@),
        ("redirect_uri"@, terms::at_path(s.public_url, "/oauth/callback"@)),
        ("scope"@, "OAuth2Read OAuth2Write"@),
    ];
    match s.onshape_company_id {
        Some(company) => asked.push(("company_id"@, company)),
        None => asked,
    }
}

proof fn lemma_young_flows(s: ServerView, now: Timestamp)
    ensures
        authorization::unexpired(s.pending_auth, now).dom() == young_flows(s, now),
        forall|k: Seq<char>| #[trigger]
            young_flows(s, now).contains(k) ==> authorization::unexpired(s.pending_auth, now)[k]
                == s.pending_auth[k],
{
    assert(authorization::unexpired(s.pending_auth, now).dom() =~= young_flows(s, now));
}

proof fn lemma_question(s: ServerView, verifier: Seq<char>, csrf: Seq<char>)
    ensures
        outside::request_pairs(
            s.onshape_client_id,
            url::oauth_url(s.public_url, "callback"@),
            csrf,
            verifier,
            authorization::onshape_scopes(),
            authorization::onshape_extra(s),
        ) == question(s, verifier, csrf),
{
    terms::lemma_own_urls(s.public_url);
    let scopes = authorization::onshape_scopes();
    reveal_strlit("OAuth2Read");
    reveal_strlit("OAuth2Write");
    reveal_strlit("OAuth2Read OAuth2Write");
    assert(scopes.drop_last() =~= seq!["OAuth2Read"@]);
    reveal_with_fuel(outside::spaced, 3);
    assert(outside::spaced(scopes) =~= "OAuth2Read OAuth2Write"@);
    assert(outside::request_pairs(
        s.onshape_client_id,
        url::oauth_url(s.public_url, "callback"@),
        csrf,
        verifier,
        scopes,
        authorization::onshape_extra(s),
    ) =~= question(s, verifier, csrf));
}

/// A flow is opened exactly if the request is in order and fewer flows are pending than may be, not
/// counting those that began ten minutes ago or earlier.
pub proof fn law_flow_is_opened_exactly_if(s: ServerView, p: AuthorizeView, now: Timestamp)
    ensures
        authorization::authorize_error(s, p) is None <==> is_in_order(s, p),
        authorization::opens_flow(s, p, now) <==> is_in_order(s, p) && young_flows(s, now).len()
            < s.max_pending_authorizations,
{
    terms::lemma_own_urls(s.public_url);
    lemma_young_flows(s, now);
}

/// A flow that is opened is kept under its own state, with what the client asked for and the verifier
/// of the Onshape leg; flows that began ten minutes ago or earlier are dropped, and nothing else
/// changes.
pub proof fn law_opened_flow_is_kept(
    s: ServerView,
    p: AuthorizeView,
    verifier: Seq<char>,
    csrf: Seq<char>,
    now: Timestamp,
)
    requires
        is_in_order(s, p),
        young_flows(s, now).len() < s.max_pending_authorizations,
    ensures
        ({
            let after = authorization::authorize_step(s, p, verifier, csrf, now).0;
            let flow: PendingView = after.pending_auth[csrf];
            &&& after.pending_auth.dom() == young_flows(s, now).insert(csrf)
            &&& forall|k: Seq<char>| #[trigger]
                after.pending_auth.dom().contains(k) && k != csrf ==> after.pending_auth[k]
                    == s.pending_auth[k]
            &&& flow.client_id == p.client_id
            &&& flow.redirect_uri == p.redirect_uri
            &&& flow.pkce_code_challenge == p.code_challenge
            &&& flow.mcp_state == p.state
            &&& flow.resource == terms::at_path(s.public_url, "/mcp"@)
            &&& flow.onshape_pkce_verifier == verifier
            &&& flow.created_at == now
            &&& after == (ServerView { pending_auth: after.pending_auth, ..s })
        }),
{
    law_flow_is_opened_exactly_if(s, p, now);
    terms::lemma_own_urls(s.public_url);
    lemma_young_flows(s, now);
    let after = authorization::authorize_step(s, p, verifier, csrf, now).0;
    assert(after.pending_auth.dom() =~= young_flows(s, now).insert(csrf));
}

/// Whatever the settings, the browser is sent to Onshape to ask for a code: for the operator's own
/// application, with the state that the flow is kept under, the S256 challenge of the verifier that
/// is kept with it, the callback of this server, the right to read and to write, and the company if
/// one is configured.
pub proof fn law_browser_is_sent_to_onshape(
    s: ServerView,
    p: AuthorizeView,
    verifier: Seq<char>,
    csrf: Seq<char>,
    now: Timestamp,
)
    requires
        is_in_order(s, p),
        young_flows(s, now).len() < s.max_pending_authorizations,
        outside::url_parts(terms::at_path(s.public_url, "/oauth/callback"@)) is Some,
    ensures
        ({
            let sent = authorization::authorize_step(s, p, verifier, csrf, now).1;
            match outside::url_with_query(
                "https://oauth.onshape.com/oauth/authorize"@,
                question(s, verifier, csrf),
            ) {
                Ok(target) => sent == Ok::<Seq<char>, HttpErrorView>(target),
                Err(reason) => sent == Err::<Seq<char>, HttpErrorView>(
                    HttpErrorView { status: 500, message: "invalid callback URL: "@ + reason },
                ),
            }
        }),
{
    law_flow_is_opened_exactly_if(s, p, now);
    terms::lemma_own_urls(s.public_url);
    lemma_question(s, verifier, csrf);
}

/// Whether somebody was refused, with a status and a text.
pub open spec fn turned_away<T>(
    answer: Result<T, HttpErrorView>,
    status: u16,
    message: Seq<char>,
) -> bool {
    answer matches Err(e) && e.status == status && e.message == message
}

/// An authorization request that is refused is told the first thing that is wrong with it, and
/// changes nothing; where too many flows are pending, those that are too old are dropped all the same.
pub proof fn law_refused_authorization_is_explained(
    s: ServerView,
    p: AuthorizeView,
    verifier: Seq<char>,
    csrf: Seq<char>,
    now: Timestamp,
)
    ensures
        ({
            let (after, sent) = authorization::authorize_step(s, p, verifier, csrf, now);
            let mcp = terms::at_path(s.public_url, "/mcp"@);
            let coded = p.response_type == "code"@;
            let aimed = coded && p.resource == Some(mcp);
            let known = aimed && s.clients.dom().contains(p.client_id);
            let own = known && s.clients[p.client_id].redirect_uris.contains(p.redirect_uri);
            let challenged = own && p.code_challenge is Some;
            &&& !is_in_order(s, p) ==> after == s
            &&& !coded ==> turned_away(sent, 400, "unsupported response_type"@)
            &&& coded && !aimed ==> turned_away(sent, 400, "resource must be "@ + mcp)
            &&& aimed && !known ==> turned_away(sent, 400, "unknown client_id"@)
            &&& known && !own ==> turned_away(sent, 400, "redirect_uri not registered"@)
            &&& own && !challenged ==> turned_away(
                sent,
                400,
                "code_challenge is required (PKCE S256)"@,
            )
            &&& challenged && !is_in_order(s, p) ==> turned_away(
                sent,
                400,
                "code_challenge_method must be S256"@,
            )
            &&& is_in_order(s, p) && young_flows(s, now).len() >= s.max_pending_authorizations
                ==> {
                &&& turned_away(sent, 429, "too many pending authorization flows; retry later"@)
                &&& after.pending_auth.dom() == young_flows(s, now)
                &&& forall|k: Seq<char>| #[trigger]
                    after.pending_auth.dom().contains(k) ==> after.pending_auth[k]
                        == s.pending_auth[k]
                &&& after == (ServerView { pending_auth: after.pending_auth, ..s })
            }
        }),
{
    law_flow_is_opened_exactly_if(s, p, now);
    terms::lemma_own_urls(s.public_url);
    lemma_young_flows(s, now);
}

// ---------------------------------------------------------------------------
// Back from Onshape
// ---------------------------------------------------------------------------
/// A flow goes on exactly if Onshape reports no error and sends a code and the state of a flow that
/// began less than ten minutes ago. It goes on with that flow and that very code, to be exchanged for
/// the callback URL that Onshape was told. The flow is used up, and nothing else changes.
pub proof fn law_return_takes_up_the_flow(s: ServerView, p: CallbackParamsView, now: Timestamp)
    ensures
        ({
            let (after, begun) = callback::begin_step(s, p, now);
            let known = p.error is None && p.code is Some && p.state is Some
                && s.pending_auth.dom().contains(p.state->0);
            let flow = s.pending_auth[p.state->0];
            &&& begun is Ok <==> known && terms::short_of(now, flow.created_at, 600)
            &&& begun matches Ok(start) ==> {
                let start: CallbackStartView = start;
                &&& start.pending == flow
                &&& Some(start.onshape_code) == p.code
                &&& start.callback_url == terms::at_path(s.public_url, "/oauth/callback"@)
            }
            &&& known ==> after == (ServerView {
                pending_auth: s.pending_auth.remove(p.state->0),
                ..s
            })
            &&& !known ==> after == s
        }),
{
    terms::lemma_own_urls(s.public_url);
}

/// A return that is refused is told why.
pub proof fn law_refused_return_is_explained(s: ServerView, p: CallbackParamsView, now: Timestamp)
    ensures
        ({
            let begun = callback::begin_step(s, p, now).1;
            &&& p.error matches Some(error) ==> turned_away(
                begun,
                403,
                "Onshape authorization denied: "@ + error,
            )
            &&& p.error is None && p.code is None ==> turned_away(
                begun,
                400,
                "missing authorization code"@,
            )
            &&& p.error is None && p.code is Some && p.state is None ==> turned_away(
                begun,
                400,
                "missing state parameter"@,
            )
            &&& p.error is None && p.code is Some && p.state is Some && begun is Err
                ==> turned_away(begun, 400, "unknown or expired state"@)
        }),
{
}

/// What is exchanged at Onshape is what the browser was sent there with: the callback is the one that
/// Onshape was told, and the verifier is the one whose challenge it was given.
pub proof fn law_exchange_matches_the_question(
    s: ServerView,
    p: AuthorizeView,
    verifier: Seq<char>,
    csrf: Seq<char>,
    asked: Timestamp,
    back: CallbackParamsView,
    now: Timestamp,
)
    requires
        is_in_order(s, p),
        young_flows(s, asked).len() < s.max_pending_authorizations,
        back.state == Some(csrf),
        back.error is None,
        back.code is Some,
        terms::short_of(now, asked, 600),
    ensures
        ({
            let opened = authorization::authorize_step(s, p, verifier, csrf, asked).0;
            let begun = callback::begin_step(opened, back, now).1;
            let told = question(s, verifier, csrf);
            &&& begun is Ok
            &&& begun->Ok_0.onshape_code == back.code->0
            &&& told[5] == ("redirect_uri"@, begun->Ok_0.callback_url)
            &&& told[3] == (
                "code_challenge"@,
                encoding::base64url_text(
                    outside::sha256_digest(
                        vstd::utf8::encode_utf8(begun->Ok_0.pending.onshape_pkce_verifier),
                    ),
                ),
            )
            &&& begun->Ok_0.pending.client_id == p.client_id
            &&& begun->Ok_0.pending.redirect_uri == p.redirect_uri
            &&& begun->Ok_0.pending.mcp_state == p.state
        }),
{
    law_opened_flow_is_kept(s, p, verifier, csrf, asked);
    let opened = authorization::authorize_step(s, p, verifier, csrf, asked).0;
    assert(opened.pending_auth.dom().contains(csrf));
    law_return_takes_up_the_flow(opened, back, now);
}

/// The flow goes on with what Onshape granted, as it is; whatever else came of the exchange ends it.
pub proof fn law_exchange_goes_on_with_the_grant(pending: PendingView, outcome: ExchangeOutcome)
    ensures
        ({
            let result = callback::exchange_result(pending, outcome);
            match outcome {
                ExchangeOutcome::Granted(grant) => result matches Ok(flow) && {
                    let flow: CallbackGrantView = flow;
                    &&& flow.pending == pending
                    &&& flow.grant.access_token == grant.access_token@
                    &&& flow.grant.refresh_token is Some <==> grant.refresh_token is Some
                    &&& grant.refresh_token matches Some(token) ==> flow.grant.refresh_token
                        == Some(token@)
                    &&& flow.grant.expires_in == grant.expires_in
                },
                ExchangeOutcome::BadCallback(reason) => turned_away(
                    result,
                    500,
                    "invalid callback URL: "@ + reason@,
                ),
                ExchangeOutcome::NoClient(reason) => turned_away(
                    result,
                    500,
                    "failed to build HTTP client: "@ + reason@,
                ),
                ExchangeOutcome::Failed(reason) => turned_away(
                    result,
                    500,
                    "token exchange failed: "@ + reason@,
                ),
            }
        }),
{
}

/// The flow goes on as the user that Onshape names, exactly if that user is let in; otherwise the user
/// is told the own ID and whom to turn to.
pub proof fn law_user_is_who_onshape_says(
    s: ServerView,
    flow: CallbackGrantView,
    outcome: IdentityOutcome,
)
    ensures
        ({
            let result = callback::identity_result(s, flow, outcome);
            match outcome {
                IdentityOutcome::Session(session) => {
                    &&& result is Ok <==> (s.allowed_users matches Some(listed)
                        ==> listed.dom().contains(session.id@))
                    &&& result matches Ok(user) ==> {
                        let user: CallbackUserView = user;
                        &&& user.user_id == session.id@
                        &&& user.pending == flow.pending
                        &&& user.grant == flow.grant
                    }
                    &&& result is Err ==> turned_away(
                        result,
                        403,
                        "User "@ + session.id@
                            + " is not authorized to use this server. Send this ID to the server administrator to request access. You can also find your Onshape user ID at https://cad.onshape.com/api/v10/users/sessioninfo"@,
                    )
                },
                IdentityOutcome::FetchFailed(reason) => turned_away(
                    result,
                    500,
                    "failed to fetch user info: "@ + reason@,
                ),
                IdentityOutcome::ParseFailed(reason) => turned_away(
                    result,
                    500,
                    "failed to parse user info: "@ + reason@,
                ),
            }
        }),
{
}

/// What Onshape granted is what the user holds from then on: the access token, the refresh token or an
/// empty one, and when it expires. Nothing is known yet about its validity, the other users keep
/// theirs, and nothing else changes.
pub proof fn law_user_holds_the_grant(
    s: ServerView,
    user: Seq<char>,
    grant: GrantView,
    now: Timestamp,
    other: Seq<char>,
)
    requires
        s.user_credentials.wf(),
        s.user_credentials.slots.len() < usize::MAX,
        grant.expires_in matches Some(secs) ==> secs > 9_223_372_036_854_775 || now.secs + secs
            <= 8_210_266_876_799,
        other != user,
    ensures
        ({
            let after = callback::accept_step(s, user, grant, now);
            let held = after.user_credentials.users[user];
            let tokens = held.tokens->0;
            &&& after.user_credentials.users.dom() == s.user_credentials.users.dom().insert(user)
            &&& held.tokens is Some
            &&& tokens.access_token == grant.access_token
            &&& tokens.refresh_token == match grant.refresh_token {
                Some(token) => token,
                None => Seq::empty(),
            }
            &&& terms::runs_out(tokens.expires_at, now, grant.expires_in)
            &&& after.user_credentials.slots[held.validation as int] == (ValidationView {
                status: ValidationStatus::Unchecked,
                last_check: None,
                message: None,
            })
            &&& s.user_credentials.users.dom().contains(other)
                ==> after.user_credentials.users[other] == s.user_credentials.users[other]
            &&& s.user_credentials.slots.is_prefix_of(after.user_credentials.slots)
            &&& after == (ServerView { user_credentials: after.user_credentials, ..s })
        }),
{
    let after = callback::accept_step(s, user, grant, now);
    assert(after.user_credentials.users.dom() =~= s.user_credentials.users.dom().insert(user));
    assert(s.user_credentials.slots.is_prefix_of(after.user_credentials.slots));
}

/// A code is issued exactly if the user's tokens were saved. It carries what the client asked for and
/// who the user is, and nothing else changes.
pub proof fn law_code_carries_the_flow(
    s: ServerView,
    flow: CallbackAcceptedView,
    saved: bool,
    code: Seq<char>,
    now: Timestamp,
)
    ensures
        ({
            let (after, issued) = callback::issue_step(
                s,
                flow.pending,
                flow.user_id,
                saved,
                code,
                now,
            );
            let record = after.auth_codes[code];
            &&& issued is Ok <==> saved
            &&& !saved ==> after == s && turned_away(
                issued,
                500,
                "failed to persist authorization state"@,
            )
            &&& saved ==> {
                let issued: CallbackCodeView = issued->Ok_0;
                &&& issued.pending == flow.pending
                &&& issued.code == code
                &&& after.auth_codes == s.auth_codes.insert(code, record)
                &&& record.client_id == flow.pending.client_id
                &&& record.redirect_uri == flow.pending.redirect_uri
                &&& record.pkce_code_challenge == flow.pending.pkce_code_challenge
                &&& record.resource == flow.pending.resource
                &&& record.user_id == flow.user_id
                &&& record.created_at == now
                &&& after == (ServerView { auth_codes: after.auth_codes, ..s })
            }
        }),
{
}

/// The browser goes back to the redirect URI of the flow with the code, and with the client's own
/// state if it had sent one, exactly if the code was saved and the redirect URI is a URL.
pub proof fn law_browser_goes_back_to_the_client(
    pending: PendingView,
    code: Seq<char>,
    saved: bool,
)
    ensures
        ({
            let sent = callback::finish_result(pending, code, saved);
            let target = outside::url_with_query(
                pending.redirect_uri,
                match pending.mcp_state {
                    Some(state) => seq![("code"@, code), ("state"@, state)],
                    None => seq![("code"@, code)],
                },
            );
            &&& sent is Ok <==> saved && outside::url_parts(pending.redirect_uri) is Some
            &&& sent is Ok ==> sent->Ok_0 == target->Ok_0
            &&& !saved ==> turned_away(sent, 500, "failed to persist authorization state"@)
            &&& saved && sent is Err ==> turned_away(
                sent,
                500,
                "invalid redirect URI: "@ + target->Err_0,
            )
        }),
{
}

proof fn lemma_form_len(bytes: Seq<u8>)
    ensures
        outside::form_len(bytes) <= 3 * bytes.len(),
    decreases bytes.len(),
{
    if bytes.len() > 0 {
        lemma_form_len(bytes.drop_last());
    }
}

proof fn lemma_fragment_start(text: Seq<u8>)
    ensures
        outside::fragment_start(text) <= text.len(),
    decreases text.len(),
{
    if text.len() > 0 {
        lemma_fragment_start(text.drop_first());
    }
}

/// The browser can be sent back to any redirect URI that leaves room in a URL for three bytes for each
/// byte of the code and the client's state.
pub proof fn law_ordinary_redirects_fit(pending: PendingView, code: Seq<char>)
    requires
        outside::url_parts(pending.redirect_uri) matches Some(parts) ==> {
            let taken = vstd::utf8::encode_utf8(parts.text).len() + 3 * vstd::utf8::encode_utf8(
                code,
            ).len() + (match pending.mcp_state {
                Some(state) => 3 * vstd::utf8::encode_utf8(state).len(),
                None => 0,
            }) + 14;
            taken <= u32::MAX && taken <= usize::MAX / 4
        },
    ensures
        callback::fits_redirect(pending, code),
{
    callback::lemma_answer_len(pending, code);
    lemma_form_len(vstd::utf8::encode_utf8(code));
    if pending.mcp_state is Some {
        lemma_form_len(vstd::utf8::encode_utf8(pending.mcp_state->0));
    }
    if outside::url_parts(pending.redirect_uri) is Some {
        lemma_fragment_start(
            vstd::utf8::encode_utf8(outside::url_parts(pending.redirect_uri)->0.text),
        );
    }
}

/// Once the tokens are kept, the flow goes on for the same client and the same user.
pub proof fn law_flow_goes_on_for_the_same_user(flow: CallbackUserView)
    ensures
        callback::accepted_flow(flow).pending == flow.pending,
        callback::accepted_flow(flow).user_id == flow.user_id,
{
}

} // verus!
