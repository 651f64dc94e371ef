use auth_sqlx_axum::flow::{step, FlowAction, FlowError, FlowEvent, FlowState};
use auth_sqlx_axum::session::OAuthAttempt;

fn text(s: &str) -> String {
    s.to_string()
}

fn pending(state: &str, at: u64) -> FlowState {
    FlowState::PendingCallback(OAuthAttempt { csrf_state: text(state), created_at: at })
}

fn callback(code: &str, state: &str) -> FlowEvent {
    FlowEvent::CallbackReceived { code: text(code), state: text(state) }
}

#[test]
fn login_request_issues_the_state_and_awaits_the_callback() {
    let (state, action) =
        step(FlowState::Idle, FlowEvent::LoginRequested { csrf_state: text("s1"), now: 7 });
    assert_eq!(state, pending("s1", 7));
    assert_eq!(action, FlowAction::RedirectToProvider { csrf_state: text("s1") });
}

#[test]
fn a_new_login_request_replaces_the_pending_attempt() {
    let (state, action) =
        step(pending("old", 1), FlowEvent::LoginRequested { csrf_state: text("new"), now: 2 });
    assert_eq!(state, pending("new", 2));
    assert_eq!(action, FlowAction::RedirectToProvider { csrf_state: text("new") });
    let (state, _) = step(state, callback("c", "old"));
    assert_eq!(state, FlowState::Failed(FlowError::CsrfMismatch));
}

#[test]
fn matching_callback_asks_for_the_exchange() {
    let (state, action) = step(pending("s1", 7), callback("the-code", "s1"));
    assert_eq!(state, FlowState::ExchangingCode);
    assert_eq!(action, FlowAction::ExchangeCode { code: text("the-code") });
}

#[test]
fn callback_with_another_state_is_a_csrf_mismatch() {
    for forged in ["", "s", "s1 ", "S1", "s2"] {
        let (state, action) = step(pending("s1", 7), callback("the-code", forged));
        assert_eq!(state, FlowState::Failed(FlowError::CsrfMismatch));
        assert_eq!(action, FlowAction::RedirectToFailure);
    }
}

#[test]
fn callback_without_a_pending_attempt_is_a_csrf_mismatch() {
    let states = vec![
        FlowState::Idle,
        FlowState::ExchangingCode,
        FlowState::ResolvingIdentity,
        FlowState::Authenticated(3),
        FlowState::Failed(FlowError::TokenExchangeError),
    ];
    for state in states {
        let (state, action) = step(state, callback("c", "s1"));
        assert_eq!(state, FlowState::Failed(FlowError::CsrfMismatch));
        assert_eq!(action, FlowAction::RedirectToFailure);
    }
}

#[test]
fn a_state_is_good_for_one_callback() {
    let (state, _) = step(pending("s1", 7), callback("c", "s1"));
    let (state, action) = step(state, callback("c", "s1"));
    assert_eq!(state, FlowState::Failed(FlowError::CsrfMismatch));
    assert_eq!(action, FlowAction::RedirectToFailure);
}

#[test]
fn exchanged_token_goes_to_the_backend() {
    let (state, action) =
        step(FlowState::ExchangingCode, FlowEvent::TokenExchanged(Some(text("gho_abc"))));
    assert_eq!(state, FlowState::ResolvingIdentity);
    assert_eq!(action, FlowAction::ResolveIdentity { access_token: text("gho_abc") });
}

#[test]
fn failed_exchange_is_a_token_exchange_error() {
    let (state, action) = step(FlowState::ExchangingCode, FlowEvent::TokenExchanged(None));
    assert_eq!(state, FlowState::Failed(FlowError::TokenExchangeError));
    assert_eq!(action, FlowAction::RedirectToFailure);
}

#[test]
fn resolved_user_is_established() {
    let (state, action) =
        step(FlowState::ResolvingIdentity, FlowEvent::IdentityResolved(Some(12)));
    assert_eq!(state, FlowState::Authenticated(12));
    assert_eq!(action, FlowAction::EstablishIdentity { user: 12 });
}

#[test]
fn unresolved_token_is_an_identity_resolution_error() {
    let (state, action) = step(FlowState::ResolvingIdentity, FlowEvent::IdentityResolved(None));
    assert_eq!(state, FlowState::Failed(FlowError::IdentityResolutionError));
    assert_eq!(action, FlowAction::RedirectToFailure);
}

#[test]
fn answers_out_of_turn_are_ignored() {
    let (state, action) = step(pending("s1", 7), FlowEvent::TokenExchanged(Some(text("t"))));
    assert_eq!(state, pending("s1", 7));
    assert_eq!(action, FlowAction::Ignore);
    let (state, action) = step(FlowState::Idle, FlowEvent::IdentityResolved(Some(1)));
    assert_eq!(state, FlowState::Idle);
    assert_eq!(action, FlowAction::Ignore);
    let (state, action) = step(FlowState::ExchangingCode, FlowEvent::IdentityResolved(Some(1)));
    assert_eq!(state, FlowState::ExchangingCode);
    assert_eq!(action, FlowAction::Ignore);
    let (state, action) =
        step(FlowState::Failed(FlowError::CsrfMismatch), FlowEvent::TokenExchanged(None));
    assert_eq!(state, FlowState::Failed(FlowError::CsrfMismatch));
    assert_eq!(action, FlowAction::Ignore);
}

#[test]
fn full_walk_from_idle_to_authenticated() {
    let (state, _) =
        step(FlowState::Idle, FlowEvent::LoginRequested { csrf_state: text("s"), now: 1 });
    let (state, _) = step(state, callback("code", "s"));
    let (state, _) = step(state, FlowEvent::TokenExchanged(Some(text("tok"))));
    let (state, action) = step(state, FlowEvent::IdentityResolved(Some(4)));
    assert_eq!(state, FlowState::Authenticated(4));
    assert_eq!(action, FlowAction::EstablishIdentity { user: 4 });
}
