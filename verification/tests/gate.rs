use auth_sqlx_axum::backend::{AuthError, Credential, User};
use auth_sqlx_axum::flow::FlowError;
use auth_sqlx_axum::gate::{
    access_gate, disposition, failure_of_auth, failure_of_flow, guarded, protected, Disposition,
    Failure, GateDecision, GuardedResponse, ProtectedResponse,
};

fn ferris() -> User {
    User {
        id: 1,
        username: "ferris".to_string(),
        credential: Credential::Secret(vec![1, 2, 3]),
        access_token: Some("tok".to_string()),
    }
}

#[test]
fn gate_redirects_when_no_user_is_attached() {
    assert_eq!(access_gate(None), GateDecision::RedirectToLogin);
}

#[test]
fn gate_passes_the_user_through_unchanged() {
    assert_eq!(access_gate(Some(ferris())), GateDecision::Pass(ferris()));
}

#[test]
fn protected_renders_for_the_user() {
    assert_eq!(
        protected(Some(&ferris())),
        ProtectedResponse::Page { username: "ferris".to_string() }
    );
}

#[test]
fn protected_fails_without_a_user() {
    assert_eq!(protected(None), ProtectedResponse::ServerError);
}

#[test]
fn guarded_resource_never_answers_a_missing_user_with_a_server_error() {
    assert_eq!(guarded(None), GuardedResponse::RedirectToLogin);
    assert_eq!(guarded(Some(ferris())), GuardedResponse::Page { username: "ferris".to_string() });
}

#[test]
fn each_failure_has_its_disposition() {
    assert_eq!(disposition(Failure::NotFound), Disposition::RejectUnauthenticated);
    assert_eq!(disposition(Failure::VerificationFailed), Disposition::RejectUnauthenticated);
    assert_eq!(disposition(Failure::CsrfMismatch), Disposition::RedirectToLogin);
    assert_eq!(disposition(Failure::TokenExchangeError), Disposition::RedirectToLogin);
    assert_eq!(disposition(Failure::IdentityResolutionError), Disposition::RedirectToLogin);
    assert_eq!(disposition(Failure::StoreUnavailable), Disposition::ServerError);
}

#[test]
fn engine_errors_map_to_their_failures() {
    assert_eq!(failure_of_flow(FlowError::CsrfMismatch), Failure::CsrfMismatch);
    assert_eq!(failure_of_flow(FlowError::TokenExchangeError), Failure::TokenExchangeError);
    assert_eq!(
        failure_of_flow(FlowError::IdentityResolutionError),
        Failure::IdentityResolutionError
    );
    assert_eq!(failure_of_auth(AuthError::NotFound), Failure::NotFound);
    assert_eq!(failure_of_auth(AuthError::VerificationFailed), Failure::VerificationFailed);
}
