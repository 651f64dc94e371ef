//! The login flow bound to a session: where the pending attempt is kept,
//! how a callback is checked against it, and how a resolved user becomes
//! the session's identity.

use crate::clock::Timestamp;
use crate::flow::{awaits, spec_step, step, FlowAction, FlowError, FlowEvent, FlowEventView, FlowState, FlowStateView};
use crate::provider::{authorization_url_of, ProviderConfig};
use crate::session::{AttemptView, DataView, Session, SessionId, SessionView, UserId};
use crate::store::{SessionStore, StoreError};
use vstd::prelude::*;

verus! {

/// The number of characters of an anti-forgery token: 128 random bits in
/// URL-safe base64 without padding.
pub const CSRF_STATE_LEN: usize = 22;

/// `oauth2::CsrfToken::new_random`, then `CsrfToken::secret`: a new random
/// anti-forgery token.
///
/// Trusted: the token is the URL-safe base64 encoding, without padding, of
/// 16 random bytes, which is 22 characters long whatever the bytes are.
/// Nothing else is claimed of it, and two calls may differ.
#[verifier::external_body]
fn fresh_csrf_state() -> (state: String)
    ensures
        state@.len() == CSRF_STATE_LEN,
{
    oauth2::CsrfToken::new_random().secret().clone()
}

/// Where the flow stands for a session between two requests: awaiting the
/// callback of the attempt that the session holds, or idle.
pub open spec fn phase_of(data: DataView) -> FlowStateView {
    match data.attempt {
        Some(a) => FlowStateView::PendingCallback(a),
        None => FlowStateView::Idle,
    }
}

/// The session's data once the flow has reached `state`: a pending attempt
/// is kept, every other state leaves none behind, and only a successful
/// attempt touches the identity.
pub open spec fn recorded(state: FlowStateView, data: DataView) -> DataView {
    match state {
        FlowStateView::PendingCallback(a) => DataView { attempt: Some(a), ..data },
        FlowStateView::Authenticated(user) => DataView {
            attempt: None,
            identity: Some(user),
            ..data
        },
        _ => DataView { attempt: None, ..data },
    }
}

/// The state of the flow that the session holds.
pub fn resume(session: &Session) -> (state: FlowState)
    ensures
        state@ == phase_of(session@.data),
{
    match session.data.attempt() {
        Some(a) => FlowState::PendingCallback(a.clone()),
        None => FlowState::Idle,
    }
}

/// Writes the state of the flow into the session.
pub fn record(state: &FlowState, session: &mut Session)
    ensures
        final(session)@ == (SessionView {
            data: recorded(state@, old(session)@.data),
            ..old(session)@
        }),
{
    match state {
        FlowState::PendingCallback(a) => {
            session.data.set_attempt(a.clone());
        },
        FlowState::Authenticated(user) => {
            let _ = session.data.take_attempt();
            session.data.set_identity(*user);
        },
        _ => {
            let _ = session.data.take_attempt();
        },
    }
}

/// Starts a login attempt with the anti-forgery token `csrf_state`: the
/// attempt takes the place of any other in the session, and the URL to send
/// the user to is returned.
pub fn begin_login(
    config: &ProviderConfig,
    session: &mut Session,
    csrf_state: String,
    now: Timestamp,
) -> (url: String)
    ensures
        final(session)@ == (SessionView {
            data: DataView {
                attempt: Some(AttemptView { csrf_state: csrf_state@, created_at: now }),
                ..old(session)@.data
            },
            ..old(session)@
        }),
        Some(url@) == authorization_url_of(
            config.spec_auth_url(),
            config.spec_client_id(),
            csrf_state@,
        ),
{
    let url = config.authorization_redirect(&csrf_state);
    let state = resume(session);
    let (next, _) = step(state, FlowEvent::LoginRequested { csrf_state, now });
    record(&next, session);
    url
}

/// Starts a login attempt with a token drawn at random. Whatever token is
/// drawn, it is the one that the session awaits and the one that the URL
/// carries.
pub fn start_login(config: &ProviderConfig, session: &mut Session, now: Timestamp) -> (url: String)
    ensures
        final(session)@.data.attempt matches Some(a) && {
            &&& a.created_at == now
            &&& a.csrf_state.len() == CSRF_STATE_LEN
            &&& Some(url@) == authorization_url_of(
                config.spec_auth_url(),
                config.spec_client_id(),
                a.csrf_state,
            )
            &&& final(session)@ == (SessionView {
                data: DataView { attempt: Some(a), ..old(session)@.data },
                ..old(session)@
            })
        },
{
    let csrf_state = fresh_csrf_state();
    begin_login(config, session, csrf_state, now)
}

/// Handles the provider's callback. The callback is accepted only where
/// its state is exactly the one that the session awaits; the authorization
/// code is then handed back for the exchange. Accepted or not, the attempt
/// is gone from the session afterwards, so no state is good twice; nothing
/// else in the session changes.
pub fn receive_callback(session: &mut Session, code: String, state: String) -> (accepted: Result<
    String,
    FlowError,
>)
    ensures
        final(session)@ == (SessionView {
            data: DataView { attempt: None, ..old(session)@.data },
            ..old(session)@
        }),
        match accepted {
            Ok(c) => c@ == code@ && awaits(phase_of(old(session)@.data), state@),
            Err(e) => e == FlowError::CsrfMismatch && !awaits(
                phase_of(old(session)@.data),
                state@,
            ),
        },
{
    let phase = resume(session);
    let (next, action) = step(phase, FlowEvent::CallbackReceived { code, state });
    record(&next, session);
    match action {
        FlowAction::ExchangeCode { code } => Ok(code),
        _ => Err(FlowError::CsrfMismatch),
    }
}

/// Makes a resolved user the identity of the session and gives the session
/// the id `fresh`, so that the id under which the login began names nothing
/// any more. The id is refused where it is the session's own or already
/// names a record; nothing is written then.
pub fn establish(
    store: &mut SessionStore,
    session: &mut Session,
    user: UserId,
    fresh: SessionId,
) -> (done: Result<(), StoreError>)
    ensures
        final(store).spec_window() == old(store).spec_window(),
        match done {
            Ok(_) => {
                &&& final(session).id == fresh
                &&& final(session).id != old(session).id
                &&& !old(store)@.contains_key(fresh)
                &&& final(session)@ == (SessionView {
                    id: fresh,
                    data: recorded(FlowStateView::Authenticated(user), old(session)@.data),
                    ..old(session)@
                })
                &&& final(store)@ == old(store)@.remove(old(session).id)
            },
            Err(e) => {
                &&& e == StoreError::IdInUse
                &&& fresh == old(session).id || old(store)@.contains_key(fresh)
                &&& final(session)@ == old(session)@
                &&& final(store)@ == old(store)@
            },
        },
{
    match store.rotate(session, fresh) {
        Ok(_) => {
            record(&FlowState::Authenticated(user), session);
            Ok(())
        },
        Err(e) => Err(e),
    }
}

/// Once a callback has been handled, whatever came of it, the session
/// awaits no state: a replayed callback is refused, with whatever state it
/// comes.
pub proof fn law_replayed_callback_is_refused(
    data: DataView,
    code: Seq<char>,
    state: Seq<char>,
    replayed: Seq<char>,
)
    ensures
        !awaits(
            phase_of(
                recorded(
                    spec_step(
                        phase_of(data),
                        FlowEventView::CallbackReceived { code, state },
                    ).0,
                    data,
                ),
            ),
            replayed,
        ),
{
}

/// A session awaits exactly the state that was issued last.
pub proof fn law_session_awaits_latest_state(
    data: DataView,
    first: Seq<char>,
    second: Seq<char>,
    t1: Timestamp,
    t2: Timestamp,
    state: Seq<char>,
)
    ensures
        ({
            let after_first = recorded(
                spec_step(
                    phase_of(data),
                    FlowEventView::LoginRequested { csrf_state: first, now: t1 },
                ).0,
                data,
            );
            let after_second = recorded(
                spec_step(
                    phase_of(after_first),
                    FlowEventView::LoginRequested { csrf_state: second, now: t2 },
                ).0,
                after_first,
            );
            awaits(phase_of(after_second), state) <==> state == second
        }),
{
}

/// Only a successful attempt writes an identity: in every other state the
/// session keeps the identity that it had, and its entries in any case.
pub proof fn law_failure_writes_no_identity(state: FlowStateView, data: DataView)
    ensures
        !(state is Authenticated) ==> recorded(state, data).identity == data.identity,
        recorded(state, data).entries == data.entries,
{
}

} // verus!
