use auth_sqlx_axum::flow::{FlowError, FlowState};
use auth_sqlx_axum::login::{
    begin_login, establish, receive_callback, record, resume, start_login, CSRF_STATE_LEN,
};
use auth_sqlx_axum::provider::init_github_client;
use auth_sqlx_axum::session::{OAuthAttempt, SessionId};
use auth_sqlx_axum::store::{SessionStore, StoreError};

fn text(s: &str) -> String {
    s.to_string()
}

#[test]
fn resume_reads_the_pending_attempt() {
    let mut store = SessionStore::standard();
    let mut session = store.create(SessionId(1), 0).unwrap();
    assert_eq!(resume(&session), FlowState::Idle);
    session.data.set_attempt(OAuthAttempt { csrf_state: text("s"), created_at: 4 });
    assert_eq!(
        resume(&session),
        FlowState::PendingCallback(OAuthAttempt { csrf_state: text("s"), created_at: 4 })
    );
}

#[test]
fn record_keeps_only_a_pending_attempt() {
    let mut store = SessionStore::standard();
    let mut session = store.create(SessionId(1), 0).unwrap();
    session.data.set_identity(3);
    let pending = FlowState::PendingCallback(OAuthAttempt { csrf_state: text("s"), created_at: 4 });
    record(&pending, &mut session);
    assert_eq!(resume(&session), pending);
    assert_eq!(session.data.identity(), Some(3));
    for state in [
        FlowState::Idle,
        FlowState::ExchangingCode,
        FlowState::ResolvingIdentity,
        FlowState::Failed(FlowError::TokenExchangeError),
    ] {
        record(&pending, &mut session);
        record(&state, &mut session);
        assert!(session.data.attempt().is_none());
        assert_eq!(session.data.identity(), Some(3));
    }
    record(&pending, &mut session);
    record(&FlowState::Authenticated(8), &mut session);
    assert!(session.data.attempt().is_none());
    assert_eq!(session.data.identity(), Some(8));
}

#[test]
fn begin_login_stores_the_attempt_and_builds_the_redirect() {
    let config = init_github_client(text("client"), text("secret")).ok().unwrap();
    let mut store = SessionStore::standard();
    let mut session = store.create(SessionId(1), 0).unwrap();
    let url = begin_login(&config, &mut session, text("tok-1"), 55);
    assert_eq!(
        url,
        "https://github.com/login/oauth/authorize?response_type=code&client_id=client&state=tok-1"
    );
    assert_eq!(
        session.data.attempt(),
        Some(&OAuthAttempt { csrf_state: text("tok-1"), created_at: 55 })
    );
    assert_eq!(session.id, SessionId(1));
    assert_eq!(session.data.identity(), None);
}

#[test]
fn start_login_draws_a_fresh_state_each_time() {
    let config = init_github_client(text("client"), text("secret")).ok().unwrap();
    let mut store = SessionStore::standard();
    let mut session = store.create(SessionId(1), 0).unwrap();
    let url = start_login(&config, &mut session, 9);
    let first = session.data.attempt().unwrap().clone();
    assert_eq!(first.created_at, 9);
    assert_eq!(first.csrf_state.chars().count(), CSRF_STATE_LEN);
    assert_eq!(CSRF_STATE_LEN, 22);
    assert_eq!(
        url,
        format!(
            "https://github.com/login/oauth/authorize?response_type=code&client_id=client&state={}",
            first.csrf_state
        )
    );
    start_login(&config, &mut session, 10);
    let second = session.data.attempt().unwrap().clone();
    assert_ne!(first.csrf_state, second.csrf_state);
}

#[test]
fn callback_with_the_awaited_state_hands_back_the_code() {
    let config = init_github_client(text("client"), text("secret")).ok().unwrap();
    let mut store = SessionStore::standard();
    let mut session = store.create(SessionId(1), 0).unwrap();
    begin_login(&config, &mut session, text("tok-1"), 55);
    let accepted = receive_callback(&mut session, text("the-code"), text("tok-1"));
    assert_eq!(accepted, Ok(text("the-code")));
    assert!(session.data.attempt().is_none());
}

#[test]
fn callback_with_a_forged_state_is_refused_and_discards_the_attempt() {
    let config = init_github_client(text("client"), text("secret")).ok().unwrap();
    let mut store = SessionStore::standard();
    let mut session = store.create(SessionId(1), 0).unwrap();
    session.data.set_identity(2);
    begin_login(&config, &mut session, text("tok-1"), 55);
    let refused = receive_callback(&mut session, text("the-code"), text("tok-2"));
    assert_eq!(refused, Err(FlowError::CsrfMismatch));
    assert!(session.data.attempt().is_none());
    assert_eq!(session.data.identity(), Some(2));
    let late = receive_callback(&mut session, text("the-code"), text("tok-1"));
    assert_eq!(late, Err(FlowError::CsrfMismatch));
}

#[test]
fn callback_without_an_attempt_is_refused() {
    let mut store = SessionStore::standard();
    let mut session = store.create(SessionId(1), 0).unwrap();
    assert_eq!(
        receive_callback(&mut session, text("c"), text("")),
        Err(FlowError::CsrfMismatch)
    );
}

#[test]
fn replayed_state_is_refused() {
    let config = init_github_client(text("client"), text("secret")).ok().unwrap();
    let mut store = SessionStore::standard();
    let mut session = store.create(SessionId(1), 0).unwrap();
    begin_login(&config, &mut session, text("tok-1"), 55);
    assert!(receive_callback(&mut session, text("c"), text("tok-1")).is_ok());
    assert_eq!(
        receive_callback(&mut session, text("c"), text("tok-1")),
        Err(FlowError::CsrfMismatch)
    );
}

#[test]
fn only_the_state_issued_last_is_accepted() {
    let config = init_github_client(text("client"), text("secret")).ok().unwrap();
    let mut store = SessionStore::standard();
    let mut session = store.create(SessionId(1), 0).unwrap();
    begin_login(&config, &mut session, text("first"), 1);
    begin_login(&config, &mut session, text("second"), 2);
    assert_eq!(
        receive_callback(&mut session, text("c"), text("first")),
        Err(FlowError::CsrfMismatch)
    );
    begin_login(&config, &mut session, text("first"), 3);
    begin_login(&config, &mut session, text("second"), 4);
    assert_eq!(receive_callback(&mut session, text("c"), text("second")), Ok(text("c")));
}

#[test]
fn establish_writes_the_identity_under_a_new_id() {
    let mut store = SessionStore::standard();
    let mut session = store.create(SessionId(1), 0).unwrap();
    session.data.insert(text("k"), vec![1]);
    session.data.set_attempt(OAuthAttempt { csrf_state: text("s"), created_at: 0 });
    assert_eq!(establish(&mut store, &mut session, 77, SessionId(2)), Ok(()));
    assert_ne!(session.id, SessionId(1));
    assert_eq!(session.id, SessionId(2));
    assert_eq!(session.data.identity(), Some(77));
    assert!(session.data.attempt().is_none());
    assert_eq!(session.data.get(&text("k")), Some(&vec![1]));
    assert!(!store.contains(SessionId(1)));
}

#[test]
fn establish_writes_nothing_when_the_id_is_refused() {
    let mut store = SessionStore::standard();
    let mut session = store.create(SessionId(1), 0).unwrap();
    store.create(SessionId(2), 0).unwrap();
    assert_eq!(establish(&mut store, &mut session, 77, SessionId(1)), Err(StoreError::IdInUse));
    assert_eq!(establish(&mut store, &mut session, 77, SessionId(2)), Err(StoreError::IdInUse));
    assert_eq!(session.id, SessionId(1));
    assert_eq!(session.data.identity(), None);
    assert!(store.contains(SessionId(1)));
}
