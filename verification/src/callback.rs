//! The return from Onshape: from the code that Onshape hands out to the code that the MCP client
//! gets.
//!
//! The steps follow each other, each on what the one before returned, and nothing else leads to
//! them. Between them the caller talks to Onshape or saves the state, and hands over what came of
//! it:
//!
//! 1. [`onshape_callback`] finds the pending flow.
//! 2. The caller exchanges the code; [`exchange_onshape_code`] takes the outcome.
//! 3. The caller asks who the user is; [`fetch_and_verify_user`] takes the outcome.
//! 4. [`accept_user`] keeps the tokens. The caller saves the state.
//! 5. [`issue_code`] issues the code. The caller saves the state.
//! 6. [`finish_callback_within`] says where the browser goes.

use vstd::prelude::*;
use vstd::string::*;

use crate::errors::{
    http_error, HttpError, HttpErrorView, BAD_REQUEST, FORBIDDEN, INTERNAL_SERVER_ERROR,
};
use crate::hex::random_hex;
use crate::outside::{append_query, current_time, parse_url, ParsedUrl, UrlParts};
use crate::records::{
    CodeView, IssuedAuthCode, PendingAuth, PendingView, Secret, UserOnshapeTokens,
    UserTokensView,
};
use crate::state::{OAuthServerState, ServerView, PENDING_AUTH_TTL_SECS};
use crate::text::{copy_opt, join2, join3};
use crate::time::{expiry, Timestamp};
use crate::{errors, hex, outside, text, time, url};

verus! {

// ---------------------------------------------------------------------------
// Finding the pending flow
// ---------------------------------------------------------------------------
/// The query parameters with which Onshape sends the browser back.
pub struct CallbackParams {
    /// The code that Onshape issued.
    pub code: Option<String>,
    /// The state of the flow.
    pub state: Option<String>,
    /// What went wrong at Onshape.
    pub error: Option<String>,
}

/// The view of [`CallbackParams`].
pub struct CallbackParamsView {
    /// The code that Onshape issued.
    pub code: Option<Seq<char>>,
    /// The state of the flow.
    pub state: Option<Seq<char>>,
    /// What went wrong at Onshape.
    pub error: Option<Seq<char>>,
}

impl View for CallbackParams {
    type V = CallbackParamsView;

    open spec fn view(&self) -> CallbackParamsView {
        CallbackParamsView {
            code: text::opt_chars(self.code),
            state: text::opt_chars(self.state),
            error: text::opt_chars(self.error),
        }
    }
}

/// A flow that came back: what to exchange at Onshape, and how to go on.
pub struct CallbackStart {
    pending: PendingAuth,
    onshape_code: String,
    callback_url: String,
}

/// The view of a [`CallbackStart`].
pub struct CallbackStartView {
    /// The flow.
    pub pending: PendingView,
    /// The code to exchange.
    pub onshape_code: Seq<char>,
    /// The URL that the code was issued to.
    pub callback_url: Seq<char>,
}

impl View for CallbackStart {
    type V = CallbackStartView;

    closed spec fn view(&self) -> CallbackStartView {
        CallbackStartView {
            pending: self.pending@,
            onshape_code: self.onshape_code@,
            callback_url: self.callback_url@,
        }
    }
}

impl CallbackStart {
    /// The code to exchange.
    pub fn onshape_code(&self) -> (r: &str)
        ensures
            r@ == self@.onshape_code,
    {
        self.onshape_code.as_str()
    }

    /// The URL that the code was issued to.
    pub fn callback_url(&self) -> (r: &str)
        ensures
            r@ == self@.callback_url,
    {
        self.callback_url.as_str()
    }

    /// The PKCE verifier to send along.
    pub fn pkce_verifier(&self) -> (r: &str)
        ensures
            r@ == self@.pending.onshape_pkce_verifier,
    {
        self.pending.onshape_pkce_verifier.expose()
    }
}

/// What is wrong with the parameters themselves, if anything is.
pub open spec fn params_error(p: CallbackParamsView) -> Option<HttpErrorView> {
    if p.error is Some {
        Some(
            errors::http_error_view(FORBIDDEN, "Onshape authorization denied: "@ + p.error->0),
        )
    } else if p.code is None {
        Some(errors::http_error_view(BAD_REQUEST, "missing authorization code"@))
    } else if p.state is None {
        Some(errors::http_error_view(BAD_REQUEST, "missing state parameter"@))
    } else {
        None
    }
}

/// What the return from Onshape does first: the flow is consumed, and goes on if it is known and
/// has time left.
pub open spec fn begin_step(s: ServerView, p: CallbackParamsView, now: Timestamp) -> (
    ServerView,
    Result<CallbackStartView, HttpErrorView>,
) {
    let unknown = errors::http_error_view(BAD_REQUEST, "unknown or expired state"@);
    if params_error(p) is Some {
        (s, Err(params_error(p)->0))
    } else if !s.pending_auth.dom().contains(p.state->0) {
        (s, Err(unknown))
    } else {
        let pending = s.pending_auth[p.state->0];
        let consumed = ServerView { pending_auth: s.pending_auth.remove(p.state->0), ..s };
        if now.within(pending.created_at, PENDING_AUTH_TTL_SECS as int) {
            (
                consumed,
                Ok(
                    CallbackStartView {
                        pending,
                        onshape_code: p.code->0,
                        callback_url: url::oauth_url(s.public_url, "callback"@),
                    },
                ),
            )
        } else {
            (consumed, Err(unknown))
        }
    }
}

/// Takes up the flow that came back, at a point in time.
pub fn onshape_callback_at(
    state: &mut OAuthServerState,
    params: CallbackParams,
    now: Timestamp,
) -> (r: Result<CallbackStart, HttpError>)
    ensures
        (final(state)@, errors::result_view(r)) == begin_step(old(state)@, params@, now),
{
    if let Some(error) = &params.error {
        return Err(http_error(FORBIDDEN, join2("Onshape authorization denied: ", error.as_str())));
    }
    let onshape_code: String = match params.code {
        Some(code) => code,
        None => return Err(http_error(BAD_REQUEST, "missing authorization code".to_owned())),
    };
    let csrf: String = match params.state {
        Some(csrf) => csrf,
        None => return Err(http_error(BAD_REQUEST, "missing state parameter".to_owned())),
    };
    let pending: PendingAuth = match state.pending_auth.remove(csrf.as_str()) {
        Some(pending) => pending,
        None => {
            proof {
                assert(state@.pending_auth =~= old(state)@.pending_auth);
            }
            return Err(http_error(BAD_REQUEST, "unknown or expired state".to_owned()));
        },
    };
    if !now.is_within(&pending.created_at, PENDING_AUTH_TTL_SECS) {
        return Err(http_error(BAD_REQUEST, "unknown or expired state".to_owned()));
    }
    Ok(CallbackStart { pending, onshape_code, callback_url: state.public_url.callback() })
}

/// Takes up the flow that came back.
pub fn onshape_callback(state: &mut OAuthServerState, params: CallbackParams) -> (r: Result<
    CallbackStart,
    HttpError,
>)
    ensures
        exists|now: Timestamp|
            now.on_clock() && (final(state)@, errors::result_view(r))
                == #[trigger] begin_step(old(state)@, params@, now),
{
    let now: Timestamp = current_time();
    onshape_callback_at(state, params, now)
}

// ---------------------------------------------------------------------------
// The exchange at Onshape
// ---------------------------------------------------------------------------
/// What Onshape grants for a code.
pub struct OnshapeGrant {
    /// The access token.
    pub access_token: Secret,
    /// The refresh token, if there is one.
    pub refresh_token: Option<Secret>,
    /// For how many seconds the access token is valid, if that is known.
    pub expires_in: Option<u64>,
}

/// The view of an [`OnshapeGrant`].
pub struct GrantView {
    /// The access token.
    pub access_token: Seq<char>,
    /// The refresh token, if there is one.
    pub refresh_token: Option<Seq<char>>,
    /// For how many seconds the access token is valid, if that is known.
    pub expires_in: Option<u64>,
}

impl View for OnshapeGrant {
    type V = GrantView;

    open spec fn view(&self) -> GrantView {
        GrantView {
            access_token: self.access_token@,
            refresh_token: errors::option_view(self.refresh_token),
            expires_in: self.expires_in,
        }
    }
}

/// What came of the exchange of a code at Onshape.
pub enum ExchangeOutcome {
    /// The callback URL was refused.
    BadCallback(String),
    /// There was no HTTP client to ask with.
    NoClient(String),
    /// Onshape could not be asked, or did not grant anything.
    Failed(String),
    /// What Onshape granted.
    Granted(OnshapeGrant),
}

/// A flow for which Onshape granted tokens.
pub struct CallbackGrant {
    pending: PendingAuth,
    grant: OnshapeGrant,
}

/// The view of a [`CallbackGrant`].
pub struct CallbackGrantView {
    /// The flow.
    pub pending: PendingView,
    /// What Onshape granted.
    pub grant: GrantView,
}

impl View for CallbackGrant {
    type V = CallbackGrantView;

    closed spec fn view(&self) -> CallbackGrantView {
        CallbackGrantView { pending: self.pending@, grant: self.grant@ }
    }
}

impl CallbackGrant {
    /// The access token with which to ask who the user is.
    pub fn access_token(&self) -> (r: &str)
        ensures
            r@ == self@.grant.access_token,
    {
        self.grant.access_token.expose()
    }
}

/// What an outcome of the exchange means for a flow.
pub open spec fn exchange_result(pending: PendingView, outcome: ExchangeOutcome) -> Result<
    CallbackGrantView,
    HttpErrorView,
> {
    match outcome {
        ExchangeOutcome::BadCallback(reason) => Err(
            errors::http_error_view(INTERNAL_SERVER_ERROR, "invalid callback URL: "@ + reason@),
        ),
        ExchangeOutcome::NoClient(reason) => Err(
            errors::http_error_view(
                INTERNAL_SERVER_ERROR,
                "failed to build HTTP client: "@ + reason@,
            ),
        ),
        ExchangeOutcome::Failed(reason) => Err(
            errors::http_error_view(INTERNAL_SERVER_ERROR, "token exchange failed: "@ + reason@),
        ),
        ExchangeOutcome::Granted(grant) => Ok(CallbackGrantView { pending, grant: grant@ }),
    }
}

/// Takes what came of the exchange of a code at Onshape.
pub fn exchange_onshape_code(start: CallbackStart, outcome: ExchangeOutcome) -> (r: Result<
    CallbackGrant,
    HttpError,
>)
    ensures
        errors::result_view(r) == exchange_result(start@.pending, outcome),
{
    match outcome {
        ExchangeOutcome::BadCallback(reason) => Err(
            http_error(INTERNAL_SERVER_ERROR, join2("invalid callback URL: ", reason.as_str())),
        ),
        ExchangeOutcome::NoClient(reason) => Err(
            http_error(
                INTERNAL_SERVER_ERROR,
                join2("failed to build HTTP client: ", reason.as_str()),
            ),
        ),
        ExchangeOutcome::Failed(reason) => Err(
            http_error(INTERNAL_SERVER_ERROR, join2("token exchange failed: ", reason.as_str())),
        ),
        ExchangeOutcome::Granted(grant) => Ok(CallbackGrant { pending: start.pending, grant }),
    }
}

// ---------------------------------------------------------------------------
// Who the user is
// ---------------------------------------------------------------------------
/// Who Onshape says the user is.
#[derive(Debug, PartialEq, Eq)]
pub struct SessionInfo {
    /// The user ID.
    pub id: String,
    /// The user's name.
    pub name: Option<String>,
}

/// What came of asking Onshape who the user is.
pub enum IdentityOutcome {
    /// Onshape could not be asked.
    FetchFailed(String),
    /// The answer was not understood.
    ParseFailed(String),
    /// The answer.
    Session(SessionInfo),
}

/// What a user is told who is not let in.
pub open spec fn not_authorized_text(id: Seq<char>) -> Seq<char> {
    "User "@ + id
        + " is not authorized to use this server. Send this ID to the server administrator to request access. You can also find your Onshape user ID at https://cad.onshape.com/api/v10/users/sessioninfo"@
}

/// A flow whose user is known and let in.
pub struct CallbackUser {
    pending: PendingAuth,
    grant: OnshapeGrant,
    user_id: String,
}

/// The view of a [`CallbackUser`].
pub struct CallbackUserView {
    /// The flow.
    pub pending: PendingView,
    /// What Onshape granted.
    pub grant: GrantView,
    /// The user.
    pub user_id: Seq<char>,
}

impl View for CallbackUser {
    type V = CallbackUserView;

    closed spec fn view(&self) -> CallbackUserView {
        CallbackUserView {
            pending: self.pending@,
            grant: self.grant@,
            user_id: self.user_id@,
        }
    }
}

impl CallbackUser {
    /// The user.
    pub fn user_id(&self) -> (r: &str)
        ensures
            r@ == self@.user_id,
    {
        self.user_id.as_str()
    }
}

/// What an outcome of the question means for a flow: a user who is let in goes on.
pub open spec fn identity_result(
    s: ServerView,
    flow: CallbackGrantView,
    outcome: IdentityOutcome,
) -> Result<CallbackUserView, HttpErrorView> {
    match outcome {
        IdentityOutcome::FetchFailed(reason) => Err(
            errors::http_error_view(
                INTERNAL_SERVER_ERROR,
                "failed to fetch user info: "@ + reason@,
            ),
        ),
        IdentityOutcome::ParseFailed(reason) => Err(
            errors::http_error_view(
                INTERNAL_SERVER_ERROR,
                "failed to parse user info: "@ + reason@,
            ),
        ),
        IdentityOutcome::Session(session) => if s.access_of(session.id@) is Some {
            Ok(
                CallbackUserView {
                    pending: flow.pending,
                    grant: flow.grant,
                    user_id: session.id@,
                },
            )
        } else {
            Err(errors::http_error_view(FORBIDDEN, not_authorized_text(session.id@)))
        },
    }
}

/// Takes what Onshape says of the user, and lets in the users that may be.
pub fn fetch_and_verify_user(
    state: &OAuthServerState,
    flow: CallbackGrant,
    outcome: IdentityOutcome,
) -> (r: Result<CallbackUser, HttpError>)
    ensures
        errors::result_view(r) == identity_result(state@, flow@, outcome),
{
    match outcome {
        IdentityOutcome::FetchFailed(reason) => Err(
            http_error(
                INTERNAL_SERVER_ERROR,
                join2("failed to fetch user info: ", reason.as_str()),
            ),
        ),
        IdentityOutcome::ParseFailed(reason) => Err(
            http_error(
                INTERNAL_SERVER_ERROR,
                join2("failed to parse user info: ", reason.as_str()),
            ),
        ),
        IdentityOutcome::Session(session) => {
            if state.access_of(session.id.as_str()).is_some() {
                Ok(CallbackUser { pending: flow.pending, grant: flow.grant, user_id: session.id })
            } else {
                Err(
                    http_error(
                        FORBIDDEN,
                        join3(
                            "User ",
                            session.id.as_str(),
                            " is not authorized to use this server. Send this ID to the server administrator to request access. You can also find your Onshape user ID at https://cad.onshape.com/api/v10/users/sessioninfo",
                        ),
                    ),
                )
            }
        },
    }
}

// ---------------------------------------------------------------------------
// Keeping the tokens
// ---------------------------------------------------------------------------
/// The Onshape tokens that come of a grant. Without a refresh token an empty one is kept.
pub open spec fn granted_tokens(grant: GrantView, now: Timestamp) -> UserTokensView {
    UserTokensView {
        access_token: grant.access_token,
        refresh_token: match grant.refresh_token {
            Some(token) => token,
            None => Seq::empty(),
        },
        expires_at: time::expiry_of(now, grant.expires_in),
    }
}

/// The state after a user authorized the server.
pub open spec fn accept_step(
    s: ServerView,
    user: Seq<char>,
    grant: GrantView,
    now: Timestamp,
) -> ServerView {
    ServerView {
        user_credentials: s.user_credentials.reauthorized(user, granted_tokens(grant, now)),
        ..s
    }
}

/// A flow whose user's tokens are kept.
pub struct CallbackAccepted {
    pending: PendingAuth,
    user_id: String,
}

/// The view of a [`CallbackAccepted`].
pub struct CallbackAcceptedView {
    /// The flow.
    pub pending: PendingView,
    /// The user.
    pub user_id: Seq<char>,
}

impl View for CallbackAccepted {
    type V = CallbackAcceptedView;

    closed spec fn view(&self) -> CallbackAcceptedView {
        CallbackAcceptedView { pending: self.pending@, user_id: self.user_id@ }
    }
}

/// How a flow goes on whose user's tokens are kept.
pub open spec fn accepted_flow(flow: CallbackUserView) -> CallbackAcceptedView {
    CallbackAcceptedView { pending: flow.pending, user_id: flow.user_id }
}

/// Keeps the tokens of a user who authorized the server, at a point in time. What was known about
/// the validity of earlier tokens is forgotten.
pub fn accept_user_at(state: &mut OAuthServerState, flow: CallbackUser, now: &Timestamp) -> (r:
    CallbackAccepted)
    requires
        time::shows_expiry(*now, flow@.grant.expires_in),
    ensures
        final(state)@ == accept_step(old(state)@, flow@.user_id, flow@.grant, *now),
        r@ == accepted_flow(flow@),
        r@ == (CallbackAcceptedView { pending: flow@.pending, user_id: flow@.user_id }),
{
    let refresh_token: Secret = match flow.grant.refresh_token {
        Some(token) => token,
        None => {
            let empty: String = String::new();
            proof {
                assert(empty@ =~= Seq::<char>::empty());
            }
            Secret::new(empty)
        },
    };
    let expires_at: Option<Timestamp> = expiry(now, flow.grant.expires_in);
    state.replace_reauthorized_user_tokens(
        flow.user_id.as_str(),
        UserOnshapeTokens::new(flow.grant.access_token, refresh_token, expires_at),
    );
    CallbackAccepted { pending: flow.pending, user_id: flow.user_id }
}

/// Keeps the tokens of a user who authorized the server, at a point in time. Nothing is kept, and
/// nothing is returned, where the calendar cannot show when the tokens expire.
pub fn accept_user_on(state: &mut OAuthServerState, flow: CallbackUser, now: &Timestamp) -> (r:
    Option<CallbackAccepted>)
    ensures
        r is Some <==> time::shows_expiry(*now, flow@.grant.expires_in),
        r is None ==> final(state)@ == old(state)@,
        r matches Some(accepted) ==> {
            &&& final(state)@ == accept_step(old(state)@, flow@.user_id, flow@.grant, *now)
            &&& accepted@ == (CallbackAcceptedView {
                pending: flow@.pending,
                user_id: flow@.user_id,
            })
        },
{
    if time::can_show_expiry(now, flow.grant.expires_in) {
        Some(accept_user_at(state, flow, now))
    } else {
        None
    }
}

/// Keeps the tokens of a user who authorized the server now. Nothing is kept, and nothing is
/// returned, where the calendar cannot show when the tokens expire.
pub fn accept_user(state: &mut OAuthServerState, flow: CallbackUser) -> (r: Option<
    CallbackAccepted,
>)
    ensures
        exists|now: Timestamp|
            #![trigger accept_step(old(state)@, flow@.user_id, flow@.grant, now)]
            {
                &&& now.on_clock()
                &&& r is Some <==> time::shows_expiry(now, flow@.grant.expires_in)
                &&& r is None ==> final(state)@ == old(state)@
                &&& r matches Some(accepted) ==> {
                    &&& final(state)@ == accept_step(old(state)@, flow@.user_id, flow@.grant, now)
                    &&& accepted@ == (CallbackAcceptedView {
                        pending: flow@.pending,
                        user_id: flow@.user_id,
                    })
                }
            },
{
    let now: Timestamp = current_time();
    accept_user_on(state, flow, &now)
}

// ---------------------------------------------------------------------------
// Issuing the code
// ---------------------------------------------------------------------------
/// The record of the code that a flow ends with.
pub open spec fn code_record(pending: PendingView, user: Seq<char>, now: Timestamp) -> CodeView {
    CodeView {
        client_id: pending.client_id,
        redirect_uri: pending.redirect_uri,
        pkce_code_challenge: pending.pkce_code_challenge,
        user_id: user,
        resource: pending.resource,
        created_at: now,
    }
}

/// The error of a flow whose outcome could not be saved.
pub open spec fn not_saved() -> HttpErrorView {
    errors::http_error_view(INTERNAL_SERVER_ERROR, "failed to persist authorization state"@)
}

/// What the issuing of a code does: a code is issued if the user's tokens were saved.
pub open spec fn issue_step(
    s: ServerView,
    pending: PendingView,
    user: Seq<char>,
    saved: bool,
    code: Seq<char>,
    now: Timestamp,
) -> (ServerView, Result<CallbackCodeView, HttpErrorView>) {
    if saved {
        (
            ServerView {
                auth_codes: s.auth_codes.insert(code, code_record(pending, user, now)),
                ..s
            },
            Ok(CallbackCodeView { pending, code }),
        )
    } else {
        (s, Err(not_saved()))
    }
}

/// A flow whose code is issued.
pub struct CallbackCode {
    pending: PendingAuth,
    code: String,
}

/// The view of a [`CallbackCode`].
pub struct CallbackCodeView {
    /// The flow.
    pub pending: PendingView,
    /// The code.
    pub code: Seq<char>,
}

impl View for CallbackCode {
    type V = CallbackCodeView;

    closed spec fn view(&self) -> CallbackCodeView {
        CallbackCodeView { pending: self.pending@, code: self.code@ }
    }
}

/// Issues a given code at a point in time, if the user's tokens were saved.
pub fn issue_code_with(
    state: &mut OAuthServerState,
    flow: CallbackAccepted,
    saved: bool,
    code: String,
    now: Timestamp,
) -> (r: Result<CallbackCode, HttpError>)
    ensures
        (final(state)@, errors::result_view(r)) == issue_step(
            old(state)@,
            flow@.pending,
            flow@.user_id,
            saved,
            code@,
            now,
        ),
{
    if !saved {
        return Err(
            http_error(INTERNAL_SERVER_ERROR, "failed to persist authorization state".to_owned()),
        );
    }
    let record: IssuedAuthCode = IssuedAuthCode {
        client_id: flow.pending.client_id.clone(),
        redirect_uri: flow.pending.redirect_uri.clone(),
        pkce_code_challenge: copy_opt(&flow.pending.pkce_code_challenge),
        user_id: flow.user_id,
        resource: flow.pending.resource.clone(),
        created_at: now,
    };
    state.auth_codes.insert(code.clone(), record);
    Ok(CallbackCode { pending: flow.pending, code })
}

/// Issues a random code, if the user's tokens were saved.
pub fn issue_code(state: &mut OAuthServerState, flow: CallbackAccepted, saved: bool) -> (r: Result<
    CallbackCode,
    HttpError,
>)
    ensures
        exists|code: Seq<char>, now: Timestamp|
            hex::is_hex_of(code, 32) && now.on_clock() && (
                final(state)@,
                errors::result_view(r),
            ) == #[trigger] issue_step(
                old(state)@,
                flow@.pending,
                flow@.user_id,
                saved,
                code,
                now,
            ),
{
    let code: String = random_hex(32);
    let now: Timestamp = current_time();
    issue_code_with(state, flow, saved, code, now)
}

// ---------------------------------------------------------------------------
// Back to the client
// ---------------------------------------------------------------------------
/// What the client gets in its query: the code, and its own state if it had sent one.
pub open spec fn redirect_pairs(pending: PendingView, code: Seq<char>) -> Seq<
    (Seq<char>, Seq<char>),
> {
    match pending.mcp_state {
        Some(state) => seq![("code"@, code), ("state"@, state)],
        None => seq![("code"@, code)],
    }
}

/// The answer with which the browser is sent back, or the error where it cannot be.
pub open spec fn back_answer(target: Result<Seq<char>, Seq<char>>) -> Result<
    Seq<char>,
    HttpErrorView,
> {
    match target {
        Ok(target) => Ok(target),
        Err(reason) => Err(
            errors::http_error_view(INTERNAL_SERVER_ERROR, "invalid redirect URI: "@ + reason),
        ),
    }
}

/// Where the browser goes at the end of a flow: back to the client, if the code was saved and the
/// redirect URI is a URL.
pub open spec fn finish_result(pending: PendingView, code: Seq<char>, saved: bool) -> Result<
    Seq<char>,
    HttpErrorView,
> {
    let target = outside::url_with_query(pending.redirect_uri, redirect_pairs(pending, code));
    if !saved {
        Err(not_saved())
    } else if outside::url_parts(pending.redirect_uri) is Some {
        Ok(target->Ok_0)
    } else {
        Err(
            errors::http_error_view(
                INTERNAL_SERVER_ERROR,
                "invalid redirect URI: "@ + target->Err_0,
            ),
        )
    }
}

/// Whether what the client gets can be added to a redirect URI whose parts are given.
pub open spec fn takes_answer(pending: PendingView, code: Seq<char>, parts: Option<UrlParts>) -> bool {
    parts matches Some(parts) ==> outside::has_room(
        vstd::utf8::encode_utf8(parts.text),
        outside::query_len(redirect_pairs(pending, code)),
    )
}

/// Whether what the client gets can be added to the redirect URI.
pub open spec fn fits_redirect(pending: PendingView, code: Seq<char>) -> bool {
    takes_answer(pending, code, outside::url_parts(pending.redirect_uri))
}

fn form_length(text: &str) -> (r: u128)
    ensures
        r == outside::form_len(vstd::utf8::encode_utf8(text@)),
        r <= 3 * usize::MAX,
{
    let bytes: &[u8] = text.as_bytes();
    let mut length: u128 = 0;
    let mut i: usize = 0;
    while i < bytes.len()
        invariant
            i <= bytes@.len(),
            length == outside::form_len(bytes@.take(i as int)),
            length <= 3 * i,
        decreases bytes@.len() - i,
    {
        let b: u8 = bytes[i];
        proof {
            assert(bytes@.take(i + 1).drop_last() =~= bytes@.take(i as int));
            assert(bytes@.take(i + 1).last() == b);
        }
        let plain: bool = (0x30 <= b && b <= 0x39) || (0x41 <= b && b <= 0x5a) || (0x61 <= b && b
            <= 0x7a) || b == 0x20 || b == 0x2a || b == 0x2d || b == 0x2e || b == 0x5f;
        length = length + if plain {
            1
        } else {
            3
        };
        i = i + 1;
    }
    proof {
        assert(bytes@.take(bytes@.len() as int) =~= bytes@);
    }
    length
}

fn find_fragment(text: &[u8]) -> (r: usize)
    ensures
        r == outside::fragment_start(text@),
        r <= text@.len(),
{
    let mut i: usize = 0;
    proof {
        assert(text@.skip(0) =~= text@);
    }
    while i < text.len() && text[i] != 0x23
        invariant
            i <= text@.len(),
            outside::fragment_start(text@) == i + outside::fragment_start(text@.skip(i as int)),
        decreases text@.len() - i,
    {
        proof {
            assert(text@.skip(i as int).drop_first() =~= text@.skip(i + 1));
        }
        i = i + 1;
    }
    i
}

/// How many bytes of the query the answer takes.
pub proof fn lemma_answer_len(pending: PendingView, code: Seq<char>)
    ensures
        outside::query_len(redirect_pairs(pending, code)) == outside::form_len(
            vstd::utf8::encode_utf8(code),
        ) + 6 + (match pending.mcp_state {
            Some(state) => outside::form_len(vstd::utf8::encode_utf8(state)) + 7,
            None => 0,
        }),
{
    reveal_strlit("code");
    reveal_strlit("state");
    let name = vstd::utf8::encode_utf8("code"@);
    let other = vstd::utf8::encode_utf8("state"@);
    vstd::utf8::is_ascii_chars_encode_utf8("code"@);
    vstd::utf8::is_ascii_chars_encode_utf8("state"@);
    assert(name =~= seq![0x63u8, 0x6f, 0x64, 0x65]);
    assert(other =~= seq![0x73u8, 0x74, 0x61, 0x74, 0x65]);
    assert(outside::form_len(name) == 4) by {
        reveal_with_fuel(outside::form_len, 5);
    }
    assert(outside::form_len(other) == 5) by {
        reveal_with_fuel(outside::form_len, 6);
    }
    let pairs = redirect_pairs(pending, code);
    let first = seq![("code"@, code)];
    assert(first.drop_last() =~= Seq::empty());
    assert(outside::query_len(first) == outside::form_len(vstd::utf8::encode_utf8(code)) + 6) by {
        reveal_with_fuel(outside::query_len, 2);
    }
    if pending.mcp_state is Some {
        assert(pairs.drop_last() =~= first);
    }
}

/// Judges by the parts of the redirect URI whether what the client gets can be added to it.
pub fn check_room(flow: &CallbackCode, parsed: &Option<ParsedUrl>) -> (r: bool)
    ensures
        r == takes_answer(flow@.pending, flow@.code, outside::opt_parts(*parsed)),
{
    match parsed {
        None => true,
        Some(url) => {
            let text: &[u8] = url.text.as_str().as_bytes();
            let start: u128 = find_fragment(text) as u128;
            let length: u128 = text.len() as u128;
            let limit: u128 = u32::MAX as u128;
            let state: u128 = match &flow.pending.mcp_state {
                Some(state) => form_length(state.as_str()) + 7,
                None => 0,
            };
            let added: u128 = form_length(flow.code.as_str()) + 6 + state;
            proof {
                lemma_answer_len(flow@.pending, flow@.code);
            }
            start <= limit && (start == length || start + 1 + added <= limit) && length + 1 + added
                <= (usize::MAX / 4) as u128
        },
    }
}

/// Whether what the client gets can be added to the redirect URI.
pub fn can_redirect(flow: &CallbackCode) -> (r: bool)
    ensures
        r == fits_redirect(flow@.pending, flow@.code),
{
    check_room(flow, &parse_url(flow.pending.redirect_uri.as_str()))
}

/// The answer with which the browser is sent back, or the error where it cannot be.
pub fn answer_back(target: Result<String, String>) -> (r: Result<String, HttpError>)
    ensures
        errors::result_view(r) == back_answer(outside::outcome(target)),
{
    match target {
        Ok(target) => Ok(target),
        Err(reason) => Err(
            http_error(INTERNAL_SERVER_ERROR, join2("invalid redirect URI: ", reason.as_str())),
        ),
    }
}

/// Sends the browser back to the client with the code, if the code was saved.
pub fn finish_callback(flow: &CallbackCode, saved: bool) -> (r: Result<String, HttpError>)
    requires
        saved ==> fits_redirect(flow@.pending, flow@.code),
    ensures
        errors::result_view(r) == finish_result(flow@.pending, flow@.code, saved),
        r is Ok <==> saved && outside::url_parts(flow@.pending.redirect_uri) is Some,
{
    if !saved {
        return Err(
            http_error(INTERNAL_SERVER_ERROR, "failed to persist authorization state".to_owned()),
        );
    }
    let mut pairs: Vec<(String, String)> = vec![("code".to_owned(), flow.code.clone())];
    if let Some(state) = &flow.pending.mcp_state {
        pairs.push(("state".to_owned(), state.clone()));
    }
    proof {
        assert(outside::pair_chars(pairs@) =~= redirect_pairs(flow@.pending, flow@.code));
    }
    answer_back(append_query(flow.pending.redirect_uri.as_str(), &pairs))
}

/// Sends the browser back to the client with the code, if the code was saved. Nothing is returned
/// where what the client gets cannot be added to the redirect URI.
pub fn finish_callback_within(flow: &CallbackCode, saved: bool) -> (r: Option<
    Result<String, HttpError>,
>)
    ensures
        r is Some <==> (saved ==> fits_redirect(flow@.pending, flow@.code)),
        r matches Some(answer) ==> {
            &&& errors::result_view(answer) == finish_result(flow@.pending, flow@.code, saved)
            &&& answer is Ok <==> saved && outside::url_parts(flow@.pending.redirect_uri) is Some
        },
{
    if !saved || can_redirect(flow) {
        Some(finish_callback(flow, saved))
    } else {
        None
    }
}

} // verus!
