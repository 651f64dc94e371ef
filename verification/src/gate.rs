//! The access gate before the protected resource, the protected resource's
//! own answer, and what each kind of failure turns into at the boundary.

use crate::backend::{AuthError, User};
use crate::flow::FlowError;
use vstd::prelude::*;

verus! {

/// What the access gate decides for a request.
#[derive(Clone, Debug, PartialEq, Eq)]
pub enum GateDecision {
    /// The request goes on to the protected resource, as this user.
    Pass(User),
    /// The request stops here; the caller is sent to the login endpoint.
    RedirectToLogin,
}

/// The access gate: a request passes exactly where a user is attached to
/// it, and the user passes through unchanged.
pub fn access_gate(user: Option<User>) -> (decision: GateDecision)
    ensures
        match user {
            Some(u) => decision == GateDecision::Pass(u),
            None => decision == GateDecision::RedirectToLogin,
        },
{
    match user {
        Some(u) => GateDecision::Pass(u),
        None => GateDecision::RedirectToLogin,
    }
}

/// What the protected resource answers.
#[derive(Clone, Debug, PartialEq, Eq)]
pub enum ProtectedResponse {
    /// The page, rendered for the user of this name.
    Page { username: String },
    /// The handler was reached without a user: a server error.
    ServerError,
}

/// The protected resource. It needs a user and fails without one.
pub fn protected(user: Option<&User>) -> (response: ProtectedResponse)
    ensures
        match user {
            Some(u) => response matches ProtectedResponse::Page { username } && username@
                == u.username@,
            None => response is ServerError,
        },
{
    match user {
        Some(u) => ProtectedResponse::Page { username: u.username.clone() },
        None => ProtectedResponse::ServerError,
    }
}

/// What a request for the protected resource ends in.
#[derive(Clone, Debug, PartialEq, Eq)]
pub enum GuardedResponse {
    /// The page, rendered for the user of this name.
    Page { username: String },
    /// A redirect to the login endpoint.
    RedirectToLogin,
}

/// The protected resource behind the access gate: the handler is reached only with
/// a user, so a request without one ends in a redirect and never in the
/// handler's server error.
pub fn guarded(user: Option<User>) -> (response: GuardedResponse)
    ensures
        match user {
            Some(u) => response matches GuardedResponse::Page { username } && username@
                == u.username@,
            None => response is RedirectToLogin,
        },
{
    match access_gate(user) {
        GateDecision::Pass(u) => match protected(Some(&u)) {
            ProtectedResponse::Page { username } => GuardedResponse::Page { username },
            ProtectedResponse::ServerError => unreached(),
        },
        GateDecision::RedirectToLogin => GuardedResponse::RedirectToLogin,
    }
}

/// Every kind of failure that the engine knows.
#[derive(Clone, Copy, Debug, PartialEq, Eq, Structural)]
pub enum Failure {
    /// No such session, user or credential.
    NotFound,
    /// A wrong secret or a rejected token.
    VerificationFailed,
    /// A callback that does not belong to the pending attempt.
    CsrfMismatch,
    /// The token endpoint failed.
    TokenExchangeError,
    /// The backend could not resolve the token to a user.
    IdentityResolutionError,
    /// The session storage could not be used.
    StoreUnavailable,
}

/// What the caller gets to see of a failure.
#[derive(Clone, Copy, Debug, PartialEq, Eq, Structural)]
pub enum Disposition {
    /// The caller is sent to the login endpoint.
    RedirectToLogin,
    /// The request is rejected as unauthenticated.
    RejectUnauthenticated,
    /// The request fails as a server error.
    ServerError,
}

/// The disposition of each kind of failure: a missing record or a failed
/// credential is rejected as unauthenticated, a failed login attempt sends
/// the caller back to log in, and storage that cannot be used is the one
/// server error.
pub open spec fn spec_disposition(f: Failure) -> Disposition {
    match f {
        Failure::NotFound => Disposition::RejectUnauthenticated,
        Failure::VerificationFailed => Disposition::RejectUnauthenticated,
        Failure::CsrfMismatch => Disposition::RedirectToLogin,
        Failure::TokenExchangeError => Disposition::RedirectToLogin,
        Failure::IdentityResolutionError => Disposition::RedirectToLogin,
        Failure::StoreUnavailable => Disposition::ServerError,
    }
}

/// What the caller gets to see of the failure. No kind of failure shows
/// more of itself than one of three answers.
pub fn disposition(f: Failure) -> (d: Disposition)
    ensures
        d == spec_disposition(f),
        d == Disposition::ServerError <==> f == Failure::StoreUnavailable,
{
    match f {
        Failure::NotFound => Disposition::RejectUnauthenticated,
        Failure::VerificationFailed => Disposition::RejectUnauthenticated,
        Failure::CsrfMismatch => Disposition::RedirectToLogin,
        Failure::TokenExchangeError => Disposition::RedirectToLogin,
        Failure::IdentityResolutionError => Disposition::RedirectToLogin,
        Failure::StoreUnavailable => Disposition::ServerError,
    }
}

/// The kind of failure that a refused login attempt is.
pub open spec fn spec_failure_of_flow(e: FlowError) -> Failure {
    match e {
        FlowError::CsrfMismatch => Failure::CsrfMismatch,
        FlowError::TokenExchangeError => Failure::TokenExchangeError,
        FlowError::IdentityResolutionError => Failure::IdentityResolutionError,
    }
}

/// The kind of failure that a refused login attempt is.
pub fn failure_of_flow(e: FlowError) -> (f: Failure)
    ensures
        f == spec_failure_of_flow(e),
{
    match e {
        FlowError::CsrfMismatch => Failure::CsrfMismatch,
        FlowError::TokenExchangeError => Failure::TokenExchangeError,
        FlowError::IdentityResolutionError => Failure::IdentityResolutionError,
    }
}

/// The kind of failure that a refused credential is.
pub open spec fn spec_failure_of_auth(e: AuthError) -> Failure {
    match e {
        AuthError::NotFound => Failure::NotFound,
        AuthError::VerificationFailed => Failure::VerificationFailed,
    }
}

/// The kind of failure that a refused credential is. An unknown identifier
/// and a wrong secret are told apart inside the engine and get the same
/// answer outside.
pub fn failure_of_auth(e: AuthError) -> (f: Failure)
    ensures
        f == spec_failure_of_auth(e),
        spec_disposition(f) == Disposition::RejectUnauthenticated,
{
    match e {
        AuthError::NotFound => Failure::NotFound,
        AuthError::VerificationFailed => Failure::VerificationFailed,
    }
}

/// No failure of a login, by credential or by the provider, is answered
/// with a server error.
pub proof fn law_login_failures_are_no_server_errors(flow: FlowError, auth: AuthError)
    ensures
        spec_disposition(spec_failure_of_flow(flow)) != Disposition::ServerError,
        spec_disposition(spec_failure_of_auth(auth)) != Disposition::ServerError,
{
}

} // verus!
