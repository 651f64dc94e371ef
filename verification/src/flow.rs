//! The OAuth2 authorization-code flow as a state machine, one machine per
//! login attempt. The machine decides; whoever drives it performs the
//! redirects and the two calls to the provider and hands back what came of
//! them.

use crate::clock::Timestamp;
use crate::session::{AttemptView, OAuthAttempt, UserId};
use vstd::prelude::*;

verus! {

/// Why a login attempt failed.
#[derive(Clone, Copy, Debug, PartialEq, Eq, Structural)]
pub enum FlowError {
    /// The callback's state is not the one issued last, or none is pending.
    CsrfMismatch,
    /// The provider's token endpoint did not yield an access token.
    TokenExchangeError,
    /// The credential backend did not resolve the token to a user.
    IdentityResolutionError,
}

/// Where a login attempt stands.
#[derive(Clone, Debug, PartialEq, Eq)]
pub enum FlowState {
    /// No attempt has been started.
    Idle,
    /// The user was sent to the provider; the callback is awaited.
    PendingCallback(OAuthAttempt),
    /// The callback was accepted; the token endpoint's answer is awaited.
    ExchangingCode,
    /// An access token was obtained; the backend's answer is awaited.
    ResolvingIdentity,
    /// The attempt succeeded for this user.
    Authenticated(UserId),
    /// The attempt failed for good.
    Failed(FlowError),
}

/// What a [`FlowState`] holds.
pub enum FlowStateView {
    Idle,
    PendingCallback(AttemptView),
    ExchangingCode,
    ResolvingIdentity,
    Authenticated(UserId),
    Failed(FlowError),
}

impl View for FlowState {
    type V = FlowStateView;

    open spec fn view(&self) -> FlowStateView {
        match self {
            FlowState::Idle => FlowStateView::Idle,
            FlowState::PendingCallback(a) => FlowStateView::PendingCallback(a@),
            FlowState::ExchangingCode => FlowStateView::ExchangingCode,
            FlowState::ResolvingIdentity => FlowStateView::ResolvingIdentity,
            FlowState::Authenticated(u) => FlowStateView::Authenticated(*u),
            FlowState::Failed(e) => FlowStateView::Failed(*e),
        }
    }
}

/// What happened to a login attempt.
#[derive(Clone, Debug, PartialEq, Eq)]
pub enum FlowEvent {
    /// The user asked to log in; `csrf_state` is the token drawn for the
    /// attempt.
    LoginRequested { csrf_state: String, now: Timestamp },
    /// The provider sent the user back with these query parameters.
    CallbackReceived { code: String, state: String },
    /// The token endpoint answered: the access token, or `None` where the
    /// exchange failed.
    TokenExchanged(Option<String>),
    /// The credential backend answered: the user, or `None` where it could
    /// not resolve the token.
    IdentityResolved(Option<UserId>),
}

/// What a [`FlowEvent`] holds.
pub enum FlowEventView {
    LoginRequested { csrf_state: Seq<char>, now: Timestamp },
    CallbackReceived { code: Seq<char>, state: Seq<char> },
    TokenExchanged(Option<Seq<char>>),
    IdentityResolved(Option<UserId>),
}

impl View for FlowEvent {
    type V = FlowEventView;

    open spec fn view(&self) -> FlowEventView {
        match self {
            FlowEvent::LoginRequested { csrf_state, now } => FlowEventView::LoginRequested {
                csrf_state: csrf_state@,
                now: *now,
            },
            FlowEvent::CallbackReceived { code, state } => FlowEventView::CallbackReceived {
                code: code@,
                state: state@,
            },
            FlowEvent::TokenExchanged(t) => FlowEventView::TokenExchanged(
                match t {
                    Some(t) => Some(t@),
                    None => None,
                },
            ),
            FlowEvent::IdentityResolved(u) => FlowEventView::IdentityResolved(*u),
        }
    }
}

/// What the driver of the flow has to do next.
#[derive(Clone, Debug, PartialEq, Eq)]
pub enum FlowAction {
    /// Send the user to the provider's authorization endpoint with this
    /// state embedded.
    RedirectToProvider { csrf_state: String },
    /// Exchange the authorization code at the token endpoint.
    ExchangeCode { code: String },
    /// Hand the access token to the credential backend.
    ResolveIdentity { access_token: String },
    /// Write the user into the session and rotate the session's id.
    EstablishIdentity { user: UserId },
    /// Send the user to the login-failure page.
    RedirectToFailure,
    /// Nothing: the event does not belong to the state.
    Ignore,
}

/// What a [`FlowAction`] holds.
pub enum FlowActionView {
    RedirectToProvider { csrf_state: Seq<char> },
    ExchangeCode { code: Seq<char> },
    ResolveIdentity { access_token: Seq<char> },
    EstablishIdentity { user: UserId },
    RedirectToFailure,
    Ignore,
}

impl View for FlowAction {
    type V = FlowActionView;

    open spec fn view(&self) -> FlowActionView {
        match self {
            FlowAction::RedirectToProvider { csrf_state } => FlowActionView::RedirectToProvider {
                csrf_state: csrf_state@,
            },
            FlowAction::ExchangeCode { code } => FlowActionView::ExchangeCode { code: code@ },
            FlowAction::ResolveIdentity { access_token } => FlowActionView::ResolveIdentity {
                access_token: access_token@,
            },
            FlowAction::EstablishIdentity { user } => FlowActionView::EstablishIdentity {
                user: *user,
            },
            FlowAction::RedirectToFailure => FlowActionView::RedirectToFailure,
            FlowAction::Ignore => FlowActionView::Ignore,
        }
    }
}

/// Whether the state awaits a callback that carries `state`.
pub open spec fn awaits(s: FlowStateView, state: Seq<char>) -> bool {
    s matches FlowStateView::PendingCallback(a) && a.csrf_state == state
}

/// The transition of the flow: the state after the event, and what the
/// driver has to do.
pub open spec fn spec_step(s: FlowStateView, e: FlowEventView) -> (FlowStateView, FlowActionView) {
    match e {
        FlowEventView::LoginRequested { csrf_state, now } => (
            FlowStateView::PendingCallback(AttemptView { csrf_state, created_at: now }),
            FlowActionView::RedirectToProvider { csrf_state },
        ),
        FlowEventView::CallbackReceived { code, state } => if awaits(s, state) {
            (FlowStateView::ExchangingCode, FlowActionView::ExchangeCode { code })
        } else {
            (FlowStateView::Failed(FlowError::CsrfMismatch), FlowActionView::RedirectToFailure)
        },
        FlowEventView::TokenExchanged(token) => match (s, token) {
            (FlowStateView::ExchangingCode, Some(access_token)) => (
                FlowStateView::ResolvingIdentity,
                FlowActionView::ResolveIdentity { access_token },
            ),
            (FlowStateView::ExchangingCode, None) => (
                FlowStateView::Failed(FlowError::TokenExchangeError),
                FlowActionView::RedirectToFailure,
            ),
            _ => (s, FlowActionView::Ignore),
        },
        FlowEventView::IdentityResolved(user) => match (s, user) {
            (FlowStateView::ResolvingIdentity, Some(user)) => (
                FlowStateView::Authenticated(user),
                FlowActionView::EstablishIdentity { user },
            ),
            (FlowStateView::ResolvingIdentity, None) => (
                FlowStateView::Failed(FlowError::IdentityResolutionError),
                FlowActionView::RedirectToFailure,
            ),
            _ => (s, FlowActionView::Ignore),
        },
    }
}

/// Takes one step of the flow.
pub fn step(state: FlowState, event: FlowEvent) -> (out: (FlowState, FlowAction))
    ensures
        (out.0@, out.1@) == spec_step(state@, event@),
{
    match event {
        FlowEvent::LoginRequested { csrf_state, now } => {
            let issued = csrf_state.clone();
            (
                FlowState::PendingCallback(OAuthAttempt { csrf_state, created_at: now }),
                FlowAction::RedirectToProvider { csrf_state: issued },
            )
        },
        FlowEvent::CallbackReceived { code, state: returned } => {
            let matches = match &state {
                FlowState::PendingCallback(attempt) => attempt.csrf_state == returned,
                _ => false,
            };
            if matches {
                (FlowState::ExchangingCode, FlowAction::ExchangeCode { code })
            } else {
                (FlowState::Failed(FlowError::CsrfMismatch), FlowAction::RedirectToFailure)
            }
        },
        FlowEvent::TokenExchanged(token) => match (state, token) {
            (FlowState::ExchangingCode, Some(access_token)) => (
                FlowState::ResolvingIdentity,
                FlowAction::ResolveIdentity { access_token },
            ),
            (FlowState::ExchangingCode, None) => (
                FlowState::Failed(FlowError::TokenExchangeError),
                FlowAction::RedirectToFailure,
            ),
            (state, _) => (state, FlowAction::Ignore),
        },
        FlowEvent::IdentityResolved(user) => match (state, user) {
            (FlowState::ResolvingIdentity, Some(user)) => (
                FlowState::Authenticated(user),
                FlowAction::EstablishIdentity { user },
            ),
            (FlowState::ResolvingIdentity, None) => (
                FlowState::Failed(FlowError::IdentityResolutionError),
                FlowAction::RedirectToFailure,
            ),
            (state, _) => (state, FlowAction::Ignore),
        },
    }
}

/// A callback whose state is not the one awaited fails with a mismatch and
/// asks for no token exchange, in whatever state the flow is.
pub proof fn law_forged_callback_is_refused(s: FlowStateView, code: Seq<char>, state: Seq<char>)
    requires
        !awaits(s, state),
    ensures
        spec_step(s, FlowEventView::CallbackReceived { code, state }) == (
            FlowStateView::Failed(FlowError::CsrfMismatch),
            FlowActionView::RedirectToFailure,
        ),
{
}

/// After a login request the flow accepts the state issued with it and no
/// other.
pub proof fn law_only_issued_state_is_accepted(
    s: FlowStateView,
    issued: Seq<char>,
    now: Timestamp,
    code: Seq<char>,
    state: Seq<char>,
)
    ensures
        ({
            let pending = spec_step(
                s,
                FlowEventView::LoginRequested { csrf_state: issued, now },
            ).0;
            let out = spec_step(pending, FlowEventView::CallbackReceived { code, state });
            if state == issued {
                out == (FlowStateView::ExchangingCode, FlowActionView::ExchangeCode { code })
            } else {
                out == (
                    FlowStateView::Failed(FlowError::CsrfMismatch),
                    FlowActionView::RedirectToFailure,
                )
            }
        }),
{
}

/// A state is good for one callback: the callback after it is refused.
pub proof fn law_state_is_single_use(
    s: FlowStateView,
    code: Seq<char>,
    state: Seq<char>,
    again: Seq<char>,
    replayed: Seq<char>,
)
    ensures
        spec_step(
            spec_step(s, FlowEventView::CallbackReceived { code, state }).0,
            FlowEventView::CallbackReceived { code: again, state: replayed },
        ) == (FlowStateView::Failed(FlowError::CsrfMismatch), FlowActionView::RedirectToFailure),
{
}

/// The token exchange is asked for only by a callback that brings the
/// awaited state.
pub proof fn law_exchange_needs_awaited_callback(s: FlowStateView, e: FlowEventView)
    requires
        spec_step(s, e).1 is ExchangeCode,
    ensures
        e matches FlowEventView::CallbackReceived { code, state } && awaits(s, state),
{
}

/// An identity is established only for the user that the backend resolved,
/// and only while the flow waits for the backend.
pub proof fn law_identity_needs_resolution(s: FlowStateView, e: FlowEventView)
    requires
        spec_step(s, e).1 is EstablishIdentity,
    ensures
        s is ResolvingIdentity,
        e == FlowEventView::IdentityResolved(Some(spec_step(s, e).1->user)),
        spec_step(s, e).0 == FlowStateView::Authenticated(spec_step(s, e).1->user),
{
}

/// A failed attempt stays failed until a new login is requested, and asks
/// for nothing but the failure page.
pub proof fn law_failure_is_terminal(err: FlowError, e: FlowEventView)
    requires
        !(e is LoginRequested),
    ensures
        spec_step(FlowStateView::Failed(err), e).0 is Failed,
        spec_step(FlowStateView::Failed(err), e).1 is RedirectToFailure || spec_step(
            FlowStateView::Failed(err),
            e,
        ).1 is Ignore,
{
}

} // verus!
